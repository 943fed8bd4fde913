//! The buttons of the mouse.

use vstd::prelude::*;

verus! {

/// A button of the mouse.
#[derive(Clone, Copy, Debug, PartialEq, Eq, Hash, Structural)]
pub enum MouseButton {
    Left,
    Right,
    Middle,
    Other(u16),
}

/// The index of a button: 0, 1 and 2 for left, right and middle, and its own number for any
/// other.
pub open spec fn button_idx(button: MouseButton) -> u16 {
    match button {
        MouseButton::Left => 0,
        MouseButton::Right => 1,
        MouseButton::Middle => 2,
        MouseButton::Other(idx) => idx,
    }
}

/// The index of a button.
pub fn mouse_button_idx(button: MouseButton) -> (idx: u16)
    ensures
        idx == button_idx(button),
{
    match button {
        MouseButton::Left => 0,
        MouseButton::Right => 1,
        MouseButton::Middle => 2,
        MouseButton::Other(idx) => idx,
    }
}

/// The button of an index: the reverse of [`mouse_button_idx`] for what it can return of
/// left, right and middle.
pub fn idx_mouse_button(button: u16) -> (named: MouseButton)
    ensures
        named == match button {
            0 => MouseButton::Left,
            1 => MouseButton::Right,
            2 => MouseButton::Middle,
            idx => MouseButton::Other(idx),
        },
        button_idx(named) == button,
{
    match button {
        0 => MouseButton::Left,
        1 => MouseButton::Right,
        2 => MouseButton::Middle,
        idx => MouseButton::Other(idx),
    }
}

/// The bit which stands for a button in a set of buttons. There are sixteen bits: a button
/// has one where its index is below 16.
pub open spec fn button_bit(button: MouseButton) -> u16
    recommends
        button_idx(button) < 16,
{
    1u16 << button_idx(button)
}

/// The state of the buttons of the mouse: which are held, and which were pressed and released
/// since the last update.
#[derive(Clone, Copy, Debug, Default, PartialEq, Eq, Structural)]
pub struct MouseBuf {
    /// The buttons which are held.
    pub held: u16,
    /// The buttons which were pressed since the last update.
    pub pressed: u16,
    /// The buttons which count as released since the last update.
    pub released: u16,
}

impl MouseBuf {
    /// A state in which no button is held and none was pressed or released.
    pub fn new() -> (buf: MouseBuf)
        ensures
            buf == (MouseBuf { held: 0, pressed: 0, released: 0 }),
    {
        MouseBuf { held: 0, pressed: 0, released: 0 }
    }

    /// Whether any button is held.
    pub fn any_held(&self) -> (any: bool)
        ensures
            any == (self.held != 0),
    {
        self.held != 0
    }

    /// Whether any button was pressed since the last update.
    pub fn any_pressed(&self) -> (any: bool)
        ensures
            any == (self.pressed != 0),
    {
        self.pressed != 0
    }

    /// Whether any button counts as released since the last update.
    pub fn any_released(&self) -> (any: bool)
        ensures
            any == (self.released != 0),
    {
        self.released != 0
    }

    /// Whether a button has a bit: its index is below 16.
    pub fn has_bit(button: MouseButton) -> (has: bool)
        ensures
            has == (button_idx(button) < 16),
    {
        mouse_button_idx(button) < 16
    }

    fn bit(button: MouseButton) -> (bit: u16)
        requires
            button_idx(button) < 16,
        ensures
            bit == button_bit(button),
            bit != 0,
    {
        let idx = mouse_button_idx(button);
        assert(1u16 << idx != 0) by (bit_vector)
            requires
                idx < 16,
        ;
        1u16 << idx
    }

    /// Starts a new round: what was pressed and released is forgotten, what is held stays.
    pub fn update(&mut self)
        ensures
            *final(self) == (MouseBuf { held: old(self).held, pressed: 0, released: 0 }),
    {
        self.pressed = 0;
        self.released = 0;
    }

    /// Takes the press or the release of a button. A button which is pressed is marked as
    /// pressed and as held. A button which is released is not held any more, and does not
    /// count as released either.
    pub fn handle_button(&mut self, button: MouseButton, pressed: bool)
        requires
            button_idx(button) < 16,
        ensures
            *final(self) == if pressed {
                MouseBuf {
                    pressed: old(self).pressed | button_bit(button),
                    held: old(self).held | button_bit(button),
                    released: old(self).released,
                }
            } else {
                MouseBuf {
                    pressed: old(self).pressed,
                    held: old(self).held & !button_bit(button),
                    released: old(self).released & !button_bit(button),
                }
            },
            pressed ==> final(self).held_spec(button) && final(self).pressed_spec(button),
            !pressed ==> !final(self).held_spec(button) && !final(self).released_spec(button),
    {
        let bit = Self::bit(button);
        let held = self.held;
        let was_pressed = self.pressed;
        let released = self.released;
        if pressed {
            self.pressed |= bit;
            self.held |= bit;
            assert((held | bit) & bit != 0 && (was_pressed | bit) & bit != 0) by (bit_vector)
                requires
                    bit != 0,
            ;
        } else {
            self.held &= !bit;
            self.released &= !bit;
            assert((held & !bit) & bit == 0 && (released & !bit) & bit == 0) by (bit_vector);
        }
    }

    /// Whether the button is among those which are held.
    pub open spec fn held_spec(&self, button: MouseButton) -> bool {
        self.held & button_bit(button) != 0
    }

    /// Whether the button is among those which were pressed since the last update.
    pub open spec fn pressed_spec(&self, button: MouseButton) -> bool {
        self.pressed & button_bit(button) != 0
    }

    /// Whether the button is among those which count as released since the last update.
    pub open spec fn released_spec(&self, button: MouseButton) -> bool {
        self.released & button_bit(button) != 0
    }

    /// Whether the button is held.
    pub fn is_held(&self, button: MouseButton) -> (held: bool)
        requires
            button_idx(button) < 16,
        ensures
            held == self.held_spec(button),
    {
        self.held & Self::bit(button) != 0
    }

    /// Whether the button was pressed since the last update.
    pub fn is_pressed(&self, button: MouseButton) -> (pressed: bool)
        requires
            button_idx(button) < 16,
        ensures
            pressed == self.pressed_spec(button),
    {
        self.pressed & Self::bit(button) != 0
    }

    /// Whether the button counts as released since the last update.
    pub fn is_released(&self, button: MouseButton) -> (released: bool)
        requires
            button_idx(button) < 16,
        ensures
            released == self.released_spec(button),
    {
        self.released & Self::bit(button) != 0
    }
}

} // verus!

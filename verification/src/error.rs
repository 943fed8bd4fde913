//! Error types.

use vstd::prelude::*;
use vstd::std_specs::convert::FromSpecImpl;

verus! {

/// Failure of the device while creating or allocating an object.
#[derive(Clone, Copy, Debug, PartialEq, Eq, Hash, Structural)]
pub enum DriverError {
    /// The input to the operation was not usable.
    InvalidData,
    /// The host or the device ran out of memory.
    OutOfMemory,
    /// The device does not support the operation.
    Unsupported,
}

/// Failure to acquire the next image of a swapchain.
#[derive(Clone, Copy, Debug, PartialEq, Eq, Hash, Structural)]
pub enum SwapchainImageError {
    /// The device has been lost.
    DeviceLost,
    /// The swapchain no longer matches its surface and has to be built again.
    NeedsRebuild,
}

/// Failure of the display to acquire or present an image.
#[derive(Clone, Copy, Debug, PartialEq, Eq, Hash, Structural)]
pub enum DisplayError {
    /// Unrecoverable device error; must destroy this device and display and start a new one
    DeviceLost,
    /// Recoverable driver error
    Driver(DriverError),
}

impl DisplayError {
    /// The text of this error: the name of the variant, followed by the driver error in
    /// parentheses where there is one.
    pub open spec fn text(self) -> Seq<char> {
        match self {
            DisplayError::DeviceLost => "DeviceLost"@,
            DisplayError::Driver(DriverError::InvalidData) => "Driver(InvalidData)"@,
            DisplayError::Driver(DriverError::OutOfMemory) => "Driver(OutOfMemory)"@,
            DisplayError::Driver(DriverError::Unsupported) => "Driver(Unsupported)"@,
        }
    }

    /// Formats this error for display.
    pub fn to_string(&self) -> (s: String)
        ensures
            s@ == self.text(),
    {
        match self {
            DisplayError::DeviceLost => "DeviceLost".to_owned(),
            DisplayError::Driver(DriverError::InvalidData) => "Driver(InvalidData)".to_owned(),
            DisplayError::Driver(DriverError::OutOfMemory) => "Driver(OutOfMemory)".to_owned(),
            DisplayError::Driver(DriverError::Unsupported) => "Driver(Unsupported)".to_owned(),
        }
    }
}

/// A device call which reported nothing but its failure means that the device is lost.
impl From<()> for DisplayError {
    fn from(_unit: ()) -> (e: DisplayError) {
        DisplayError::DeviceLost
    }
}

impl FromSpecImpl<()> for DisplayError {
    open spec fn obeys_from_spec() -> bool {
        true
    }

    open spec fn from_spec(_unit: ()) -> DisplayError {
        DisplayError::DeviceLost
    }
}

/// A driver error is passed on unchanged.
impl From<DriverError> for DisplayError {
    fn from(err: DriverError) -> (e: DisplayError) {
        DisplayError::Driver(err)
    }
}

impl FromSpecImpl<DriverError> for DisplayError {
    open spec fn obeys_from_spec() -> bool {
        true
    }

    open spec fn from_spec(err: DriverError) -> DisplayError {
        DisplayError::Driver(err)
    }
}

/// Every failure to acquire a swapchain image counts as a lost device, also where building the
/// swapchain again would have been enough.
impl From<SwapchainImageError> for DisplayError {
    fn from(_err: SwapchainImageError) -> (e: DisplayError) {
        DisplayError::DeviceLost
    }
}

impl FromSpecImpl<SwapchainImageError> for DisplayError {
    open spec fn obeys_from_spec() -> bool {
        true
    }

    open spec fn from_spec(_err: SwapchainImageError) -> DisplayError {
        DisplayError::DeviceLost
    }
}

} // verus!

//! Input of the user.

pub mod mouse_buf;

//! Input devices that the first interface adapter scans.

pub mod joystick;
pub mod keyboard;

pub use self::joystick::Joystick;
pub use self::keyboard::Keyboard;

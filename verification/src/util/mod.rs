//! Register-level building blocks shared by the chips.

pub mod bcd;
pub mod bit;
pub mod icr;
pub mod io_port;
pub mod pin;
pub mod rtc;

pub use self::icr::Icr;
pub use self::io_port::IoPort;
pub use self::pin::Pin;
pub use self::rtc::Rtc;

//! Putting the machine together.

pub mod c64_factory;
pub mod config;

pub use self::c64_factory::C64Factory;
pub use self::config::Config;

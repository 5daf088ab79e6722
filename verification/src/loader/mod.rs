//! Program image formats.

pub mod p00;

pub use self::p00::P00Loader;

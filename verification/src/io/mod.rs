//! Peripheral chips.

pub mod cia;
pub mod cia_lemmas;
pub mod cia_state;
pub mod timer;

pub use self::cia::Cia;
pub use self::cia_state::CiaState;

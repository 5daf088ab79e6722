//! The settings that the chips are built with.

use vstd::prelude::*;

verus! {

/// The machine model.
pub struct SystemModel {
    /// Frequency of the system clock in Hz.
    pub cpu_freq: u32,
}

/// The sound output.
pub struct SoundConfig {
    /// Samples per second.
    pub sample_rate: u32,
    /// Whether the sound chip's filters are emulated.
    pub sid_filters: bool,
}

pub struct Config {
    pub model: SystemModel,
    pub sound: SoundConfig,
}

} // verus!

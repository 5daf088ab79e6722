//! Builds the chips of the machine from its configuration.

use std::rc::Rc;
use vstd::prelude::*;
use crate::cpu::CpuIo;
use crate::device::{Joystick, Keyboard};
use crate::io::cia::{joystick_view, CiaIo, Mode};
use crate::io::{Cia, CiaState};
use crate::system::Config;

verus! {

/// How the sound chip turns its output into samples.
#[derive(Clone, Copy, Debug, PartialEq, Eq, Structural)]
pub enum SamplingMethod {
    Fast,
    Interpolate,
    Resample,
    ResampleFast,
}

/// What the sound chip is set up with.
pub struct SidSettings {
    pub sampling_method: SamplingMethod,
    pub clock_freq: u32,
    pub sample_freq: u32,
    pub filter: bool,
}

pub struct C64Factory {
    config: Rc<Config>,
}

impl C64Factory {
    /// The configuration that the factory builds from.
    pub closed spec fn config(&self) -> Config {
        *self.config
    }

    pub fn new(config: Rc<Config>) -> (factory: C64Factory)
        ensures
            factory.config() == *config,
    {
        C64Factory { config }
    }

    /// The first adapter: it scans the keyboard and both joysticks and
    /// drives IRQ.
    pub fn new_cia_1(
        &self,
        cia_io: CiaIo,
        cpu_io: CpuIo,
        joystick_1: Joystick,
        joystick_2: Joystick,
        keyboard: Keyboard,
    ) -> (cia: Cia)
        ensures
            cia@ == CiaState::initial(
                Mode::Cia1,
                cia_io.cnt@,
                cia_io.flag@,
                cpu_io.irq@,
                cpu_io.nmi@,
                Some(joystick_1@),
                Some(joystick_2@),
                keyboard@,
            ),
            cia@.wf(),
    {
        Cia::new(Mode::Cia1, cia_io, cpu_io, Some(joystick_1), Some(joystick_2), keyboard)
    }

    /// The second adapter: plain ports, no joystick, and it drives NMI.
    pub fn new_cia_2(&self, cia_io: CiaIo, cpu_io: CpuIo, keyboard: Keyboard) -> (cia: Cia)
        ensures
            cia@ == CiaState::initial(
                Mode::Cia2,
                cia_io.cnt@,
                cia_io.flag@,
                cpu_io.irq@,
                cpu_io.nmi@,
                None,
                None,
                keyboard@,
            ),
            cia@.wf(),
    {
        Cia::new(Mode::Cia2, cia_io, cpu_io, None, None, keyboard)
    }

    /// The set-up of the sound chip: fast resampling from the system
    /// clock to the configured sample rate, filters as configured.
    pub fn sid_settings(&self) -> (settings: SidSettings)
        ensures
            settings.sampling_method == SamplingMethod::ResampleFast,
            settings.clock_freq == self.config().model.cpu_freq,
            settings.sample_freq == self.config().sound.sample_rate,
            settings.filter == self.config().sound.sid_filters,
    {
        SidSettings {
            sampling_method: SamplingMethod::ResampleFast,
            clock_freq: self.config.model.cpu_freq,
            sample_freq: self.config.sound.sample_rate,
            filter: self.config.sound.sid_filters,
        }
    }
}

} // verus!

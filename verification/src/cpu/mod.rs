//! The processor's side of the lines that the chips drive.

pub mod interrupt_line;

pub use self::interrupt_line::InterruptLine;

use vstd::prelude::*;

verus! {

/// The two interrupt inputs of the processor.
pub struct CpuIo {
    pub irq: InterruptLine,
    pub nmi: InterruptLine,
}

impl CpuIo {
    /// Both lines released.
    pub fn new() -> (io: CpuIo)
        ensures
            io.irq@ == Set::<interrupt_line::Source>::empty(),
            io.nmi@ == Set::<interrupt_line::Source>::empty(),
    {
        CpuIo { irq: InterruptLine::new(), nmi: InterruptLine::new() }
    }

    /// Releases both lines for every source.
    pub fn reset(&mut self)
        ensures
            final(self).irq@ == Set::<interrupt_line::Source>::empty(),
            final(self).nmi@ == Set::<interrupt_line::Source>::empty(),
    {
        self.irq.reset();
        self.nmi.reset();
    }
}

} // verus!

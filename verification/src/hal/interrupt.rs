//! Interrupt lines and the interrupt controller capability trait.

use vstd::prelude::*;

use crate::hal::error::HalError;

verus! {

/// An interrupt line, numbered as the controller numbers it.
#[derive(Debug, Clone, Copy, PartialEq, Eq, PartialOrd, Ord, Hash, Structural)]
pub struct IrqId(pub u32);

impl IrqId {
    /// The line numbered `id`.
    pub fn new(id: u32) -> (r: Self)
        ensures
            r.0 == id,
    {
        IrqId(id)
    }

    /// The line's number.
    pub fn as_u32(self) -> (r: u32)
        ensures
            r == self.0,
    {
        self.0
    }
}

/// What each architecture's interrupt controller must offer.
pub trait InterruptController {
    /// What is invoked when a line fires.
    type Handler;

    /// Registers `handler` for `irq` and unmasks the line.
    fn register_irq(&self, irq: IrqId, handler: Self::Handler) -> Result<(), HalError>;

    /// Removes the handler of `irq`, if any, and masks the line.
    fn unregister_irq(&self, irq: IrqId);

    /// Stops delivery of `irq`.
    fn mask_irq(&self, irq: IrqId) -> Result<(), HalError>;

    /// Resumes delivery of `irq`.
    fn unmask_irq(&self, irq: IrqId) -> Result<(), HalError>;

    /// Interrupts `target_core` with `vector`.
    fn send_ipi(&self, target_core: usize, vector: u8) -> Result<(), HalError>;

    /// How many lines the controller has.
    fn irq_line_count(&self) -> u32;

    /// How many cores `send_ipi` can reach.
    fn ipi_target_core_count(&self) -> u32;

    /// Tells the controller that the interrupt being serviced is done.
    fn end_of_interrupt(&self, irq: IrqId);
}

} // verus!

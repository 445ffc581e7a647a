//! The platform-level interrupt controller, and the dispatch of interrupts.

use vstd::prelude::*;

use crate::bits::{bit, lemma_clear_bit, lemma_set_bit};
use crate::hal::error::HalError;
use crate::hal::interrupt::IrqId;
use crate::irq_table::{after_register, after_unregister, register_result, IrqTable};
use crate::manifest::raw::InterruptControllerKindRaw;
use crate::riscv64::timer::{on_timer_interrupt, Timer};

verus! {

/// Offset of the priorities, one word for each source.
pub const PRIORITY_BASE: u64 = 0x0000;

/// Offset of the enable bits, one for each source.
pub const ENABLE_BASE: u64 = 0x2000;

/// The bytes of enable bits that each context has.
pub const ENABLE_CONTEXT_STRIDE: u64 = 0x80;

/// Offset of the registers of the first context.
pub const CONTEXT_BASE: u64 = 0x20_0000;

/// The bytes of registers that each context has.
pub const CONTEXT_STRIDE: u64 = 0x1000;

/// A context's priority threshold.
pub const THRESHOLD_OFFSET: u64 = 0x0000;

/// A context's claim register, which also takes completions.
pub const CLAIM_COMPLETE_OFFSET: u64 = 0x0004;

/// The context of the first hart's supervisor mode.
pub const PLIC_CONTEXT: u64 = 1;

/// The first source that can be given a handler: zero means none.
pub const FIRST_USABLE_SOURCE: u32 = 1;

/// How many sources are kept track of.
pub const MAX_TRACKED_SOURCES: usize = 512;

/// The firmware extension that interrupts other harts.
pub const SBI_EXT_IPI: u64 = 0x73_5049;

/// Its function that does so.
pub const SBI_IPI_SEND_IPI: u64 = 0;

/// The external and software bits of the interrupt enable register.
pub const SIE_EXTERNAL_AND_SOFTWARE: u64 = 0x202;

/// The software bit of the interrupt pending register.
pub const SIP_SOFTWARE: u64 = 0x2;

/// The code of a software interrupt.
pub const SCAUSE_SUPERVISOR_SOFTWARE_INTERRUPT: u32 = 1;

/// The code of a timer interrupt.
pub const SCAUSE_SUPERVISOR_TIMER_INTERRUPT: u32 = 5;

/// The code of an external interrupt.
pub const SCAUSE_SUPERVISOR_EXTERNAL_INTERRUPT: u32 = 9;

/// What is to be done to the controller.
#[derive(Debug, Clone, Copy, PartialEq, Eq, Structural)]
pub enum PlicOp {
    /// Write `value` to the word at `address`.
    Write { address: u64, value: u32 },
    /// Change one bit of the word at `address` and keep the others.
    SetBit { address: u64, bit: u32, on: bool },
}

/// The word after one bit of it was changed.
pub fn word_with_bit(word: u32, n: u32, on: bool) -> (r: u32)
    requires
        n < 32,
    ensures
        forall|k: u64|
            k < 32 ==> #[trigger] bit(r as u64, k) == (if k == n {
                on
            } else {
                bit(word as u64, k)
            }),
{
    let r: u32 = if on {
        word | (1u32 << n)
    } else {
        word & !(1u32 << n)
    };
    proof {
        let m = n as u64;
        lemma_set_bit(word as u64, m);
        lemma_clear_bit(word as u64, m);
        assert((word | (1u32 << n)) as u64 == (word as u64) | (1u64 << (n as u64)) && (word & !(1u32
            << n)) as u64 == (word as u64) & !(1u64 << (n as u64))) by (bit_vector)
            requires
                n < 32,
        ;
    }
    r
}

/// The interrupt controller as one hart sees it.
pub struct InterruptCtrl<H: Copy> {
    pub plic_base: u64,
    /// Handlers by source, from `FIRST_USABLE_SOURCE` on.
    pub handlers: IrqTable<H, 512>,
    pub ipi_target_core_count: u32,
}

impl<H: Copy> InterruptCtrl<H> {
    /// Every register has an address; the claim register's is the highest.
    pub open spec fn well_formed(self) -> bool {
        self.plic_base + CONTEXT_BASE + PLIC_CONTEXT * CONTEXT_STRIDE + CLAIM_COMPLETE_OFFSET
            <= u64::MAX
    }

    /// `irq` can be given a handler.
    pub open spec fn usable(irq: IrqId) -> bool {
        FIRST_USABLE_SOURCE <= irq.0 < MAX_TRACKED_SOURCES
    }

    /// The place of a source's handler in the table.
    pub open spec fn slot(irq: IrqId) -> int {
        irq.0 - FIRST_USABLE_SOURCE
    }

    /// Everything but the handlers is the same in `other`.
    pub open spec fn same_but_handlers(self, other: Self) -> bool {
        self.plic_base == other.plic_base && self.ipi_target_core_count
            == other.ipi_target_core_count
    }

    /// The address of the claim register.
    pub open spec fn claim_address(self) -> u64 {
        (self.plic_base + CONTEXT_BASE + PLIC_CONTEXT * CONTEXT_STRIDE + CLAIM_COMPLETE_OFFSET) as u64
    }

    /// Setting a source's priority.
    pub open spec fn priority_op(self, source: u32, priority: u32) -> PlicOp {
        PlicOp::Write {
            address: (self.plic_base + PRIORITY_BASE + source * 4) as u64,
            value: priority,
        }
    }

    /// Setting a source's enable bit.
    pub open spec fn enable_op(self, source: u32, on: bool) -> PlicOp {
        PlicOp::SetBit {
            address: (self.plic_base + ENABLE_BASE + PLIC_CONTEXT * ENABLE_CONTEXT_STRIDE + source
                as int / 32 * 4) as u64,
            bit: (source as int % 32) as u32,
            on,
        }
    }

    /// A controller at `plic_base` without handlers, which reaches one hart.
    pub fn new(plic_base: u64) -> (r: Self)
        ensures
            r.plic_base == plic_base,
            forall|i: int| 0 <= i < MAX_TRACKED_SOURCES ==> #[trigger] r.handlers@[i] is None,
            r.ipi_target_core_count == 1,
    {
        InterruptCtrl { plic_base, handlers: IrqTable::new(), ipi_target_core_count: 1 }
    }

    /// Sets how many harts can be interrupted.
    pub fn set_topology(&mut self, core_count: u32)
        ensures
            *final(self) == (InterruptCtrl { ipi_target_core_count: core_count, ..*old(self) }),
    {
        self.ipi_target_core_count = core_count;
    }

    /// The kind of controller.
    pub fn detected_kind(&self) -> (r: InterruptControllerKindRaw)
        ensures
            r == InterruptControllerKindRaw::PlicClic,
    {
        InterruptControllerKindRaw::PlicClic
    }

    /// The controller's address.
    pub fn primary_base(&self) -> (r: u64)
        ensures
            r == self.plic_base,
    {
        self.plic_base
    }

    /// There is no second region.
    pub fn secondary_base(&self) -> (r: Option<u64>)
        ensures
            r is None,
    {
        None
    }

    /// How to set a source's priority.
    pub fn set_priority(&self, source: u32, priority: u32) -> (r: PlicOp)
        requires
            self.well_formed(),
            source < MAX_TRACKED_SOURCES,
        ensures
            r == self.priority_op(source, priority),
    {
        PlicOp::Write {
            address: self.plic_base + PRIORITY_BASE + source as u64 * 4,
            value: priority,
        }
    }

    /// How to set a source's enable bit.
    pub fn set_enabled(&self, source: u32, enabled: bool) -> (r: PlicOp)
        requires
            self.well_formed(),
            source < MAX_TRACKED_SOURCES,
        ensures
            r == self.enable_op(source, enabled),
    {
        PlicOp::SetBit {
            address: self.plic_base + ENABLE_BASE + PLIC_CONTEXT * ENABLE_CONTEXT_STRIDE + source
                as u64 / 32 * 4,
            bit: source % 32,
            on: enabled,
        }
    }

    /// Gives a source a handler, and says how to let it through: with the lowest
    /// priority, enabled. Fails if the source is reserved or has a handler.
    pub fn register_irq(&mut self, irq: IrqId, handler: H) -> (r: Result<Vec<PlicOp>, HalError>)
        requires
            old(self).well_formed(),
        ensures
            match r {
                Ok(ops) => {
                    &&& Self::usable(irq)
                    &&& register_result(old(self).handlers@, Self::slot(irq)) is Ok
                    &&& ops@ == seq![
                        old(self).priority_op(irq.0, 1),
                        old(self).enable_op(irq.0, true),
                    ]
                },
                Err(e) => if Self::usable(irq) {
                    register_result(old(self).handlers@, Self::slot(irq)) == Err::<(), HalError>(e)
                } else {
                    e == HalError::InvalidIrqId
                },
            },
            final(self).handlers@ == (if Self::usable(irq) {
                after_register(old(self).handlers@, Self::slot(irq), handler)
            } else {
                old(self).handlers@
            }),
            final(self).same_but_handlers(*old(self)),
    {
        let source: u32 = irq.as_u32();
        if source < FIRST_USABLE_SOURCE || source as usize >= MAX_TRACKED_SOURCES {
            return Err(HalError::InvalidIrqId);
        }
        match self.handlers.register((source - FIRST_USABLE_SOURCE) as usize, handler) {
            Err(e) => Err(e),
            Ok(()) => {
                let mut ops: Vec<PlicOp> = Vec::new();
                ops.push(self.set_priority(source, 1));
                ops.push(self.set_enabled(source, true));
                Ok(ops)
            },
        }
    }

    /// Takes a source's handler away and says how to disable the source; nothing
    /// is done if the source has no handler.
    pub fn unregister_irq(&mut self, irq: IrqId) -> (r: Option<PlicOp>)
        requires
            old(self).well_formed(),
        ensures
            r == (if Self::usable(irq) && old(self).handlers@[Self::slot(irq)] is Some {
                Some(old(self).enable_op(irq.0, false))
            } else {
                None
            }),
            final(self).handlers@ == (if Self::usable(irq) {
                after_unregister(old(self).handlers@, Self::slot(irq))
            } else {
                old(self).handlers@
            }),
            final(self).same_but_handlers(*old(self)),
    {
        let source: u32 = irq.as_u32();
        if source >= FIRST_USABLE_SOURCE && (source as usize) < MAX_TRACKED_SOURCES {
            let slot: usize = (source - FIRST_USABLE_SOURCE) as usize;
            if self.handlers.handler(slot).is_some() {
                self.handlers.unregister(slot);
                return Some(self.set_enabled(source, false));
            }
            assert(after_unregister(self.handlers@, slot as int) =~= self.handlers@);
        }
        None
    }

    /// How to stop delivery of a source.
    pub fn mask_irq(&self, irq: IrqId) -> (r: Result<PlicOp, HalError>)
        requires
            self.well_formed(),
        ensures
            r == (if Self::usable(irq) {
                Ok(self.enable_op(irq.0, false))
            } else {
                Err(HalError::InvalidIrqId)
            }),
    {
        let source: u32 = irq.as_u32();
        if source < FIRST_USABLE_SOURCE || source as usize >= MAX_TRACKED_SOURCES {
            return Err(HalError::InvalidIrqId);
        }
        Ok(self.set_enabled(source, false))
    }

    /// How to resume delivery of a source.
    pub fn unmask_irq(&self, irq: IrqId) -> (r: Result<PlicOp, HalError>)
        requires
            self.well_formed(),
        ensures
            r == (if Self::usable(irq) {
                Ok(self.enable_op(irq.0, true))
            } else {
                Err(HalError::InvalidIrqId)
            }),
    {
        let source: u32 = irq.as_u32();
        if source < FIRST_USABLE_SOURCE || source as usize >= MAX_TRACKED_SOURCES {
            return Err(HalError::InvalidIrqId);
        }
        Ok(self.set_enabled(source, true))
    }

    /// The mask of harts to hand to firmware to interrupt one; it carries no
    /// vector.
    pub fn send_ipi(&self, target_core: usize, vector: u8) -> (r: Result<u64, HalError>)
        requires
            target_core < self.ipi_target_core_count ==> target_core < 64,
        ensures
            r == (if target_core < self.ipi_target_core_count {
                Ok(1u64 << (target_core as u64))
            } else {
                Err(HalError::InvalidIpiTarget)
            }),
    {
        if target_core as u64 >= self.ipi_target_core_count as u64 {
            return Err(HalError::InvalidIpiTarget);
        }
        Ok(1u64 << (target_core as u64))
    }

    /// How many sources are kept track of.
    pub fn irq_line_count(&self) -> (r: u32)
        ensures
            r == MAX_TRACKED_SOURCES,
    {
        MAX_TRACKED_SOURCES as u32
    }

    /// How many harts can be interrupted.
    pub fn ipi_target_core_count(&self) -> (r: u32)
        ensures
            r == self.ipi_target_core_count,
    {
        self.ipi_target_core_count
    }

    /// How to tell the controller that the claimed source has been serviced.
    pub fn end_of_interrupt(&self, irq: IrqId) -> (r: PlicOp)
        requires
            self.well_formed(),
        ensures
            r == (PlicOp::Write { address: self.claim_address(), value: irq.0 }),
    {
        PlicOp::Write { address: self.read_claim(), value: irq.as_u32() }
    }

    /// The address to read to claim the pending source of highest priority.
    pub fn read_claim(&self) -> (r: u64)
        requires
            self.well_formed(),
        ensures
            r == self.claim_address(),
    {
        self.plic_base + CONTEXT_BASE + PLIC_CONTEXT * CONTEXT_STRIDE + CLAIM_COMPLETE_OFFSET
    }

    /// How to bring up the controller for the current hart: every priority gets
    /// through. `SIE_EXTERNAL_AND_SOFTWARE` is then to be set in the interrupt
    /// enable register.
    pub fn bootstrap_current_core(&self) -> (r: PlicOp)
        requires
            self.well_formed(),
        ensures
            r == (PlicOp::Write {
                address: (self.plic_base + CONTEXT_BASE + PLIC_CONTEXT * CONTEXT_STRIDE
                    + THRESHOLD_OFFSET) as u64,
                value: 0,
            }),
    {
        PlicOp::Write {
            address: self.plic_base + CONTEXT_BASE + PLIC_CONTEXT * CONTEXT_STRIDE
                + THRESHOLD_OFFSET,
            value: 0,
        }
    }
}

/// The controller and timer that interrupts go to, once they are set.
pub struct GlobalState<H: Copy, C> {
    pub controller: Option<InterruptCtrl<H>>,
    pub timer: Option<Timer<C>>,
}

impl<H: Copy, C> GlobalState<H, C> {
    /// Neither is set.
    pub fn new() -> (r: Self)
        ensures
            r.controller is None,
            r.timer is None,
    {
        GlobalState { controller: None, timer: None }
    }
}

/// Makes `controller` the one that external interrupts go to.
pub fn set_global_controller<H: Copy, C>(
    state: &mut GlobalState<H, C>,
    controller: InterruptCtrl<H>,
)
    ensures
        final(state).controller == Some(controller),
        final(state).timer == old(state).timer,
{
    state.controller = Some(controller);
}

/// Makes `timer` the one whose callback timer interrupts invoke.
pub fn set_global_timer<H: Copy, C>(state: &mut GlobalState<H, C>, timer: Timer<C>)
    ensures
        final(state).timer == Some(timer),
        final(state).controller == old(state).controller,
{
    state.timer = Some(timer);
}

/// What is left to do after an interrupt was dispatched.
#[derive(Debug, Clone, Copy, PartialEq, Eq, Structural)]
pub enum DispatchEnd {
    /// Nothing.
    Nothing,
    /// Clear `SIP_SOFTWARE` in the interrupt pending register.
    ClearSoftware,
    /// Complete the claimed source.
    Complete(PlicOp),
}

/// The address to claim a source at before an interrupt is dispatched: only an
/// external interrupt claims, and only from a controller that is set.
pub open spec fn claim_of<H: Copy, C>(state: GlobalState<H, C>, cause_code: u32) -> Option<u64> {
    if cause_code == SCAUSE_SUPERVISOR_EXTERNAL_INTERRUPT {
        match state.controller {
            Some(controller) => Some(controller.claim_address()),
            None => None,
        }
    } else {
        None
    }
}

/// The address to claim a source at before an interrupt is dispatched.
pub fn claim_address<H: Copy, C>(state: &GlobalState<H, C>, cause_code: u32) -> (r: Option<u64>)
    requires
        state.controller matches Some(controller) ==> controller.well_formed(),
    ensures
        r == claim_of(*state, cause_code),
{
    if cause_code != SCAUSE_SUPERVISOR_EXTERNAL_INTERRUPT {
        return None;
    }
    match &state.controller {
        Some(controller) => Some(controller.read_claim()),
        None => None,
    }
}

/// What an interrupt invokes.
#[derive(Debug, PartialEq, Eq)]
pub enum DispatchTarget<H> {
    /// Nothing.
    Unhandled,
    /// The timer's callback.
    Timer,
    /// A registered handler.
    Handler(H),
}

/// What an interrupt invokes when the claimed source is `claimed`.
pub open spec fn target_of<H: Copy, C>(
    state: GlobalState<H, C>,
    cause_code: u32,
    claimed: u32,
) -> DispatchTarget<H> {
    if cause_code == SCAUSE_SUPERVISOR_TIMER_INTERRUPT {
        DispatchTarget::Timer
    } else if claim_of(state, cause_code) is Some && InterruptCtrl::<H>::usable(IrqId(claimed)) {
        match state.controller->0.handlers@[InterruptCtrl::<H>::slot(IrqId(claimed))] {
            Some(handler) => DispatchTarget::Handler(handler),
            None => DispatchTarget::Unhandled,
        }
    } else {
        DispatchTarget::Unhandled
    }
}

/// What is left to do when the claimed source is `claimed`: source zero means
/// that none was pending, and must not be completed.
pub open spec fn end_of<H: Copy, C>(
    state: GlobalState<H, C>,
    cause_code: u32,
    claimed: u32,
) -> DispatchEnd {
    if cause_code == SCAUSE_SUPERVISOR_SOFTWARE_INTERRUPT {
        DispatchEnd::ClearSoftware
    } else if claim_of(state, cause_code) is Some && claimed != 0 {
        DispatchEnd::Complete(
            PlicOp::Write { address: state.controller->0.claim_address(), value: claimed },
        )
    } else {
        DispatchEnd::Nothing
    }
}

/// Selects what an interrupt invokes when the claimed source is `claimed`.
pub fn select_target<H: Copy, C>(state: &GlobalState<H, C>, cause_code: u32, claimed: u32) -> (r:
    DispatchTarget<H>)
    ensures
        r == target_of(*state, cause_code, claimed),
{
    if cause_code == SCAUSE_SUPERVISOR_TIMER_INTERRUPT {
        return DispatchTarget::Timer;
    }
    if cause_code == SCAUSE_SUPERVISOR_EXTERNAL_INTERRUPT {
        if let Some(controller) = &state.controller {
            if claimed >= FIRST_USABLE_SOURCE && (claimed as usize) < MAX_TRACKED_SOURCES {
                if let Some(handler) = controller.handlers.handler(
                    (claimed - FIRST_USABLE_SOURCE) as usize,
                ) {
                    return DispatchTarget::Handler(handler);
                }
            }
        }
    }
    DispatchTarget::Unhandled
}

/// Invokes what an interrupt is for and returns what is left to do. `claimed` is
/// what was read at `claim_address`, and means nothing if there is none.
pub fn dispatch_current_interrupt<H: Copy + Fn(IrqId), C: Fn()>(
    state: &GlobalState<H, C>,
    cause_code: u32,
    claimed: u32,
) -> (r: DispatchEnd)
    requires
        state.controller matches Some(controller) ==> controller.well_formed(),
        cause_code == SCAUSE_SUPERVISOR_TIMER_INTERRUPT ==> state.timer is Some && (
        state.timer->0.callback matches Some(callback) ==> call_requires(callback, ())),
        target_of(*state, cause_code, claimed) matches DispatchTarget::Handler(handler)
            ==> call_requires(handler, (IrqId(claimed),)),
    ensures
        r == end_of(*state, cause_code, claimed),
        target_of(*state, cause_code, claimed) matches DispatchTarget::Handler(handler)
            ==> call_ensures(handler, (IrqId(claimed),), ()),
        target_of(*state, cause_code, claimed) is Timer ==> (
        state.timer->0.callback matches Some(callback) ==> call_ensures(callback, (), ())),
{
    match select_target(state, cause_code, claimed) {
        DispatchTarget::Timer => {
            if let Some(timer) = &state.timer {
                on_timer_interrupt(timer);
            }
        },
        DispatchTarget::Handler(handler) => handler(IrqId::new(claimed)),
        DispatchTarget::Unhandled => {},
    }
    if cause_code == SCAUSE_SUPERVISOR_SOFTWARE_INTERRUPT {
        return DispatchEnd::ClearSoftware;
    }
    if cause_code == SCAUSE_SUPERVISOR_EXTERNAL_INTERRUPT && claimed != 0 {
        if let Some(controller) = &state.controller {
            return DispatchEnd::Complete(controller.end_of_interrupt(IrqId::new(claimed)));
        }
    }
    DispatchEnd::Nothing
}

/// Every claimed source is completed, whether or not it has a handler, and it is
/// completed where it was claimed.
pub proof fn claimed_source_is_completed<H: Copy, C>(
    state: GlobalState<H, C>,
    cause_code: u32,
    claimed: u32,
)
    requires
        claim_of(state, cause_code) is Some,
        claimed != 0,
    ensures
        end_of(state, cause_code, claimed) == DispatchEnd::Complete(
            PlicOp::Write { address: claim_of(state, cause_code)->0, value: claimed },
        ),
{
}

} // verus!

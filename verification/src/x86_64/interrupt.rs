//! The local interrupt controller, reached through memory or through
//! model-specific registers, and the dispatch of fired vectors.

use vstd::prelude::*;

use crate::bits::{bit, test_bit};
use crate::hal::error::HalError;
use crate::hal::interrupt::IrqId;
use crate::irq_table::{after_register, after_unregister, register_result, IrqTable};
use crate::manifest::raw::InterruptControllerKindRaw;
use crate::x86_64::cpu::{CpuidResult, CpuidSource};
use crate::x86_64::timer::{on_timer_interrupt, Timer};

verus! {

/// Whether leaf 1 reports the register-based controller.
pub open spec fn x2apic_in(leaf1: CpuidResult) -> bool {
    bit(leaf1.ecx as u64, 21)
}

/// Whether leaf 1 reports the register-based controller.
pub fn x2apic_from_leaf(leaf1: &CpuidResult) -> (r: bool)
    ensures
        r == x2apic_in(*leaf1),
{
    test_bit(leaf1.ecx as u64, 21)
}

/// `present` is what some answer that `cpuid` may give for leaf 1 reports.
pub open spec fn x2apic_from<S: CpuidSource>(cpuid: &S, present: bool) -> bool {
    exists|leaf1: CpuidResult|
        call_ensures(S::cpuid, (cpuid, 1, 0), leaf1) && present == #[trigger] x2apic_in(leaf1)
}

/// Detects whether the controller is reached through registers.
pub fn detect_x2apic<S: CpuidSource>(cpuid: &S) -> (r: bool)
    requires
        call_requires(S::cpuid, (cpuid, 1, 0)),
    ensures
        x2apic_from(cpuid, r),
{
    let leaf1 = cpuid.cpuid(1, 0);
    x2apic_from_leaf(&leaf1)
}

/// The register that holds the controller's base address and enable bits.
pub const IA32_APIC_BASE_MSR: u32 = 0x1B;

/// The register of the offset zero; each 16 bytes of offset are one register.
pub const X2APIC_MSR_BASE: u32 = 0x800;

/// Offset of the controller's own id.
pub const APIC_ID: u32 = 0x20;

/// Offset of the end-of-interrupt register.
pub const APIC_EOI: u32 = 0xB0;

/// Offset of the spurious interrupt vector register.
pub const APIC_SPURIOUS_INTERRUPT_VECTOR: u32 = 0xF0;

/// Offset of the low half of the interrupt command register.
pub const APIC_ICR_LOW: u32 = 0x300;

/// Offset of the high half of the interrupt command register.
pub const APIC_ICR_HIGH: u32 = 0x310;

/// Offset of the timer's entry in the local vector table.
pub const APIC_LVT_TIMER: u32 = 0x320;

/// The vector of the local timer.
pub const TIMER_VECTOR: u8 = 32;

/// The first vector that can be given a handler: those below are the CPU's
/// exceptions and the timer.
pub const FIRST_USABLE_IRQ_VECTOR: u8 = 33;

/// How many vectors can be given a handler.
pub const IRQ_TABLE_SIZE: usize = 223;

/// The address bits of the base register.
pub open spec fn mmio_base_in(apic_base: u64) -> int {
    apic_base as int % 0x10_0000_0000_0000 / 0x1000 * 0x1000
}

/// Extracts the controller's address from the base register's value.
pub fn xapic_mmio_base(apic_base: u64) -> (r: u64)
    ensures
        r == mmio_base_in(apic_base),
        r <= 0x000F_FFFF_FFFF_F000,
{
    let base: u64 = apic_base & 0x000F_FFFF_FFFF_F000;
    assert(base == apic_base % 0x10_0000_0000_0000 / 0x1000 * 0x1000 && base
        <= 0x000F_FFFF_FFFF_F000) by (bit_vector)
        requires
            base == apic_base & 0x000F_FFFF_FFFF_F000,
    ;
    base
}

/// How the controller's registers are reached.
#[derive(Debug, Clone, Copy, PartialEq, Eq, Structural)]
pub enum ApicMode {
    /// In memory, from a base address on.
    Xapic { mmio_base: u64 },
    /// As model-specific registers.
    X2apic,
}

impl ApicMode {
    /// Every register has an address.
    pub open spec fn addressable(self) -> bool {
        self matches ApicMode::Xapic { mmio_base } ==> mmio_base + 0xFFF <= u64::MAX
    }

    /// Where the register of an offset is.
    pub open spec fn register_at(self, offset: u32) -> ApicRegister {
        match self {
            ApicMode::Xapic { mmio_base } => ApicRegister::Mmio {
                address: (mmio_base + offset) as u64,
            },
            ApicMode::X2apic => ApicRegister::Msr { msr: (0x800 + offset as int / 16) as u32 },
        }
    }

    /// Writing `value` to the register of an offset.
    pub open spec fn write_of(self, offset: u32, value: u32) -> RegisterWrite {
        RegisterWrite { register: self.register_at(offset), value: value as u64 }
    }
}

/// Where a register of the controller is.
#[derive(Debug, Clone, Copy, PartialEq, Eq, Structural)]
pub enum ApicRegister {
    /// A 32-bit word in memory.
    Mmio { address: u64 },
    /// A model-specific register.
    Msr { msr: u32 },
}

/// A value to write to a register.
#[derive(Debug, Clone, Copy, PartialEq, Eq, Structural)]
pub struct RegisterWrite {
    pub register: ApicRegister,
    pub value: u64,
}

/// The interrupt controller of one core.
pub struct InterruptCtrl<H: Copy> {
    pub mode: ApicMode,
    /// Handlers by vector, from `FIRST_USABLE_IRQ_VECTOR` on.
    pub handlers: IrqTable<H, 223>,
    pub ipi_target_core_count: u32,
}

impl<H: Copy> InterruptCtrl<H> {
    /// Every register has an address.
    pub open spec fn well_formed(self) -> bool {
        self.mode.addressable()
    }

    /// `irq` can be given a handler.
    pub open spec fn usable(irq: IrqId) -> bool {
        FIRST_USABLE_IRQ_VECTOR <= irq.0 <= 255
    }

    /// The place of a vector's handler in the table.
    pub open spec fn slot(irq: IrqId) -> int {
        irq.0 - FIRST_USABLE_IRQ_VECTOR
    }

    /// Everything but the handlers is the same in `other`.
    pub open spec fn same_but_handlers(self, other: Self) -> bool {
        self.mode == other.mode && self.ipi_target_core_count == other.ipi_target_core_count
    }

    /// The controller is the one that answers of `cpuid` and the base register
    /// describe, and has no handlers.
    pub open spec fn identified_by<S: CpuidSource>(self, cpuid: &S, apic_base: u64) -> bool {
        &&& exists|present: bool| #[trigger]
            x2apic_from(cpuid, present) && self.mode == if present {
                ApicMode::X2apic
            } else {
                ApicMode::Xapic { mmio_base: mmio_base_in(apic_base) as u64 }
            }
        &&& forall|i: int| 0 <= i < IRQ_TABLE_SIZE ==> #[trigger] self.handlers@[i] is None
    }

    /// A controller without handlers, which reaches one core.
    pub fn with_mode(mode: ApicMode) -> (r: Self)
        requires
            mode.addressable(),
        ensures
            r.well_formed(),
            r.mode == mode,
            forall|i: int| 0 <= i < IRQ_TABLE_SIZE ==> #[trigger] r.handlers@[i] is None,
            r.ipi_target_core_count == 1,
    {
        InterruptCtrl { mode, handlers: IrqTable::new(), ipi_target_core_count: 1 }
    }

    /// The controller of the current core: reached through registers if CPUID
    /// reports that, else at the address that the base register gives.
    pub fn new<S: CpuidSource>(cpuid: &S, apic_base: u64) -> (r: Self)
        requires
            call_requires(S::cpuid, (cpuid, 1, 0)),
        ensures
            r.well_formed(),
            r.identified_by(cpuid, apic_base),
            r.ipi_target_core_count == 1,
    {
        let mode = if detect_x2apic(cpuid) {
            ApicMode::X2apic
        } else {
            ApicMode::Xapic { mmio_base: xapic_mmio_base(apic_base) }
        };
        InterruptCtrl::with_mode(mode)
    }

    /// Sets how many cores can be interrupted.
    pub fn set_topology(&mut self, core_count: u32)
        ensures
            *final(self) == (InterruptCtrl { ipi_target_core_count: core_count, ..*old(self) }),
    {
        self.ipi_target_core_count = core_count;
    }

    /// Where the register of an offset is.
    pub fn register_at(&self, offset: u32) -> (r: ApicRegister)
        requires
            self.well_formed(),
            offset < 0x1000,
        ensures
            r == self.mode.register_at(offset),
    {
        match self.mode {
            ApicMode::Xapic { mmio_base } => ApicRegister::Mmio {
                address: mmio_base + offset as u64,
            },
            ApicMode::X2apic => ApicRegister::Msr { msr: X2APIC_MSR_BASE + offset / 16 },
        }
    }

    /// How to write `value` to the register of an offset.
    pub fn write_reg(&self, offset: u32, value: u32) -> (r: RegisterWrite)
        requires
            self.well_formed(),
            offset < 0x1000,
        ensures
            r == self.mode.write_of(offset, value),
    {
        RegisterWrite { register: self.register_at(offset), value: value as u64 }
    }

    /// The writes, in order, that send a command to another core: in memory the
    /// destination first, since writing the low half sends; as registers one
    /// write of both.
    pub open spec fn icr_writes(self, destination: u32, low_bits: u32) -> Seq<RegisterWrite> {
        match self.mode {
            ApicMode::Xapic { .. } => seq![
                self.mode.write_of(APIC_ICR_HIGH, destination << 24),
                self.mode.write_of(APIC_ICR_LOW, low_bits),
            ],
            ApicMode::X2apic => seq![
                RegisterWrite {
                    register: self.mode.register_at(APIC_ICR_LOW),
                    value: (destination * 0x1_0000_0000 + low_bits) as u64,
                },
            ],
        }
    }

    /// How to send a command to another core.
    pub fn write_icr(&self, destination: u32, low_bits: u32) -> (r: Vec<RegisterWrite>)
        requires
            self.well_formed(),
        ensures
            r@ == self.icr_writes(destination, low_bits),
    {
        let mut writes: Vec<RegisterWrite> = Vec::new();
        match self.mode {
            ApicMode::Xapic { .. } => {
                writes.push(self.write_reg(APIC_ICR_HIGH, destination << 24));
                writes.push(self.write_reg(APIC_ICR_LOW, low_bits));
            },
            ApicMode::X2apic => {
                let value: u64 = ((destination as u64) << 32) | low_bits as u64;
                assert(value == destination * 0x1_0000_0000 + low_bits) by (bit_vector)
                    requires
                        value == ((destination as u64) << 32) | low_bits as u64,
                ;
                writes.push(RegisterWrite { register: self.register_at(APIC_ICR_LOW), value });
            },
        }
        writes
    }

    /// The kind of controller.
    pub fn detected_kind(&self) -> (r: InterruptControllerKindRaw)
        ensures
            r == match self.mode {
                ApicMode::Xapic { .. } => InterruptControllerKindRaw::ApicXapic,
                ApicMode::X2apic => InterruptControllerKindRaw::ApicX2apic,
            },
    {
        match self.mode {
            ApicMode::Xapic { .. } => InterruptControllerKindRaw::ApicXapic,
            ApicMode::X2apic => InterruptControllerKindRaw::ApicX2apic,
        }
    }

    /// The controller's address, or zero if it is reached through registers.
    pub fn primary_base(&self) -> (r: u64)
        ensures
            r == match self.mode {
                ApicMode::Xapic { mmio_base } => mmio_base,
                ApicMode::X2apic => 0,
            },
    {
        match self.mode {
            ApicMode::Xapic { mmio_base } => mmio_base,
            ApicMode::X2apic => 0,
        }
    }

    /// There is no second region.
    pub fn secondary_base(&self) -> (r: Option<u64>)
        ensures
            r is None,
    {
        None
    }

    /// Gives a vector a handler; fails if the vector is reserved or has one.
    pub fn register_irq(&mut self, irq: IrqId, handler: H) -> (r: Result<(), HalError>)
        ensures
            r == (if !Self::usable(irq) {
                Err(HalError::InvalidIrqId)
            } else {
                register_result(old(self).handlers@, Self::slot(irq))
            }),
            final(self).handlers@ == (if !Self::usable(irq) {
                old(self).handlers@
            } else {
                after_register(old(self).handlers@, Self::slot(irq), handler)
            }),
            final(self).same_but_handlers(*old(self)),
    {
        let vector: u32 = irq.as_u32();
        if vector < FIRST_USABLE_IRQ_VECTOR as u32 || vector > 255 {
            return Err(HalError::InvalidIrqId);
        }
        self.handlers.register((vector - FIRST_USABLE_IRQ_VECTOR as u32) as usize, handler)
    }

    /// Takes a vector's handler away, if it has one.
    pub fn unregister_irq(&mut self, irq: IrqId)
        ensures
            final(self).handlers@ == (if !Self::usable(irq) {
                old(self).handlers@
            } else {
                after_unregister(old(self).handlers@, Self::slot(irq))
            }),
            final(self).same_but_handlers(*old(self)),
    {
        let vector: u32 = irq.as_u32();
        if vector >= FIRST_USABLE_IRQ_VECTOR as u32 && vector <= 255 {
            self.handlers.unregister((vector - FIRST_USABLE_IRQ_VECTOR as u32) as usize);
        }
    }

    /// Whether delivery of a vector can be stopped. The local controller has no
    /// mask for single vectors, so nothing is to be written.
    pub fn mask_irq(&self, irq: IrqId) -> (r: Result<(), HalError>)
        ensures
            r == (if Self::usable(irq) {
                Ok(())
            } else {
                Err(HalError::InvalidIrqId)
            }),
    {
        let vector: u32 = irq.as_u32();
        if vector < FIRST_USABLE_IRQ_VECTOR as u32 || vector > 255 {
            return Err(HalError::InvalidIrqId);
        }
        Ok(())
    }

    /// Whether delivery of a vector can be resumed; as for stopping it.
    pub fn unmask_irq(&self, irq: IrqId) -> (r: Result<(), HalError>)
        ensures
            r == (if Self::usable(irq) {
                Ok(())
            } else {
                Err(HalError::InvalidIrqId)
            }),
    {
        self.mask_irq(irq)
    }

    /// How to interrupt another core with `vector`: a fixed-delivery, asserted
    /// command with the core's number as its destination.
    pub fn send_ipi(&self, target_core: usize, vector: u8) -> (r: Result<
        Vec<RegisterWrite>,
        HalError,
    >)
        requires
            self.well_formed(),
        ensures
            match r {
                Ok(writes) => target_core < self.ipi_target_core_count && writes@
                    == self.icr_writes(target_core as u32, (0x4000 + vector) as u32),
                Err(e) => target_core >= self.ipi_target_core_count && e
                    == HalError::InvalidIpiTarget,
            },
    {
        if target_core as u64 >= self.ipi_target_core_count as u64 {
            return Err(HalError::InvalidIpiTarget);
        }
        Ok(self.write_icr(target_core as u32, 0x4000 + vector as u32))
    }

    /// How many vectors can be given a handler.
    pub fn irq_line_count(&self) -> (r: u32)
        ensures
            r == IRQ_TABLE_SIZE,
    {
        IRQ_TABLE_SIZE as u32
    }

    /// How many cores can be interrupted.
    pub fn ipi_target_core_count(&self) -> (r: u32)
        ensures
            r == self.ipi_target_core_count,
    {
        self.ipi_target_core_count
    }

    /// How to tell the controller that an interrupt has been serviced.
    pub fn end_of_interrupt(&self, irq: IrqId) -> (r: RegisterWrite)
        requires
            self.well_formed(),
        ensures
            r == self.mode.write_of(APIC_EOI, 0),
    {
        self.write_reg(APIC_EOI, 0)
    }

    /// The base register's value with the controller enabled.
    pub open spec fn enabled_base(self, apic_base: u64) -> u64 {
        match self.mode {
            ApicMode::Xapic { .. } => apic_base | (1u64 << 11),
            ApicMode::X2apic => apic_base | (1u64 << 11) | (1u64 << 10),
        }
    }

    /// The writes, in order, that bring the controller up when the base register
    /// holds `apic_base`: enable it unless it is, enable it by software with
    /// spurious vector 255, and let the timer fire its vector at deadlines.
    pub open spec fn bring_up(self, apic_base: u64) -> Seq<RegisterWrite> {
        let desired = self.enabled_base(apic_base);
        let enable = if desired != apic_base {
            seq![
                RegisterWrite {
                    register: ApicRegister::Msr { msr: IA32_APIC_BASE_MSR },
                    value: desired,
                },
            ]
        } else {
            Seq::empty()
        };
        enable.push(self.mode.write_of(APIC_SPURIOUS_INTERRUPT_VECTOR, 0x1FF)).push(
            self.mode.write_of(APIC_LVT_TIMER, (0x4_0000 + TIMER_VECTOR) as u32),
        )
    }

    /// How to bring up the controller of the current core, whose base register
    /// holds `apic_base`.
    pub fn bootstrap_current_core(&self, apic_base: u64) -> (r: Vec<RegisterWrite>)
        requires
            self.well_formed(),
        ensures
            r@ == self.bring_up(apic_base),
    {
        let mut writes: Vec<RegisterWrite> = Vec::new();
        let desired: u64 = match self.mode {
            ApicMode::Xapic { .. } => apic_base | (1u64 << 11),
            ApicMode::X2apic => apic_base | (1u64 << 11) | (1u64 << 10),
        };
        if desired != apic_base {
            writes.push(
                RegisterWrite {
                    register: ApicRegister::Msr { msr: IA32_APIC_BASE_MSR },
                    value: desired,
                },
            );
        }
        writes.push(self.write_reg(APIC_SPURIOUS_INTERRUPT_VECTOR, 0x1FF));
        writes.push(self.write_reg(APIC_LVT_TIMER, 0x4_0000 + TIMER_VECTOR as u32));
        writes
    }
}

/// What a fired vector invokes.
#[derive(Debug, PartialEq, Eq)]
pub enum DispatchTarget<H> {
    /// Nothing.
    Unhandled,
    /// The timer's callback.
    Timer,
    /// A registered handler.
    Handler(H),
}

/// What `vector` invokes.
pub open spec fn target_of<H: Copy>(controller: InterruptCtrl<H>, vector: u8) -> DispatchTarget<
    H,
> {
    if vector == TIMER_VECTOR {
        DispatchTarget::Timer
    } else if vector < FIRST_USABLE_IRQ_VECTOR {
        DispatchTarget::Unhandled
    } else {
        match controller.handlers@[vector - FIRST_USABLE_IRQ_VECTOR] {
            Some(handler) => DispatchTarget::Handler(handler),
            None => DispatchTarget::Unhandled,
        }
    }
}

/// Selects what `vector` invokes.
pub fn select_target<H: Copy>(controller: &InterruptCtrl<H>, vector: u8) -> (r: DispatchTarget<H>)
    ensures
        r == target_of(*controller, vector),
{
    if vector == TIMER_VECTOR {
        return DispatchTarget::Timer;
    }
    if vector >= FIRST_USABLE_IRQ_VECTOR {
        if let Some(handler) = controller.handlers.handler(
            (vector - FIRST_USABLE_IRQ_VECTOR) as usize,
        ) {
            return DispatchTarget::Handler(handler);
        }
    }
    DispatchTarget::Unhandled
}

/// The controller and timer that fired vectors go to, once they are set.
pub struct GlobalState<H: Copy, C> {
    pub controller: Option<InterruptCtrl<H>>,
    pub timer: Option<Timer<C>>,
}

impl<H: Copy, C> GlobalState<H, C> {
    /// Neither is set.
    pub fn new() -> (r: Self)
        ensures
            r.controller is None,
            r.timer is None,
    {
        GlobalState { controller: None, timer: None }
    }
}

/// Makes `controller` the one that fired vectors go to.
pub fn set_global_controller<H: Copy, C>(
    state: &mut GlobalState<H, C>,
    controller: InterruptCtrl<H>,
)
    ensures
        final(state).controller == Some(controller),
        final(state).timer == old(state).timer,
{
    state.controller = Some(controller);
}

/// Makes `timer` the one whose callback the timer's vector invokes.
pub fn set_global_timer<H: Copy, C>(state: &mut GlobalState<H, C>, timer: Timer<C>)
    ensures
        final(state).timer == Some(timer),
        final(state).controller == old(state).controller,
{
    state.timer = Some(timer);
}

/// Invokes what `vector` is for and returns how to end the interrupt, which is
/// due whether or not anything was invoked. Without a controller nothing is done.
pub fn dispatch_vector<H: Copy + Fn(IrqId), C: Fn()>(
    state: &GlobalState<H, C>,
    vector: u8,
) -> (r: Option<RegisterWrite>)
    requires
        state.controller matches Some(controller) ==> {
            &&& controller.well_formed()
            &&& target_of(controller, vector) matches DispatchTarget::Handler(handler)
                ==> call_requires(handler, (IrqId(vector as u32),))
            &&& target_of(controller, vector) is Timer ==> state.timer is Some && (
            state.timer->0.callback matches Some(callback) ==> call_requires(callback, ()))
        },
    ensures
        state.controller is None ==> r is None,
        state.controller matches Some(controller) ==> {
            &&& r == Some(controller.mode.write_of(APIC_EOI, 0))
            &&& target_of(controller, vector) matches DispatchTarget::Handler(handler)
                ==> call_ensures(handler, (IrqId(vector as u32),), ())
            &&& target_of(controller, vector) is Timer ==> (state.timer->0.callback matches Some(
                callback,
            ) ==> call_ensures(callback, (), ()))
        },
{
    match &state.controller {
        None => None,
        Some(controller) => {
            match select_target(controller, vector) {
                DispatchTarget::Timer => {
                    if let Some(timer) = &state.timer {
                        on_timer_interrupt(timer);
                    }
                },
                DispatchTarget::Handler(handler) => handler(IrqId::new(vector as u32)),
                DispatchTarget::Unhandled => {},
            }
            Some(controller.end_of_interrupt(IrqId::new(vector as u32)))
        },
    }
}

} // verus!

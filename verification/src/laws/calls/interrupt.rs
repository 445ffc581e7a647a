//! Calls of interrupt controllers and of dispatch.

use vstd::prelude::*;

use crate::hal::error::HalError;
use crate::hal::interrupt::IrqId;
use crate::laws::interrupts::{
    command_reaches_its_destination, controller_is_enabled_and_times_deadlines,
};
use crate::manifest::raw::InterruptControllerKindRaw;
use crate::riscv64::interrupt as plic;
use crate::riscv64::interrupt::PlicOp;
use crate::x86_64::cpu::{CpuidResult, CpuidSource};
use crate::x86_64::interrupt as apic;
use crate::x86_64::interrupt::{ApicMode, ApicRegister, RegisterWrite};

verus! {

/// Vectors 33 to 255 can be given a handler once: a vector that has one keeps it,
/// and no other vector changes.
pub proof fn register_vector<H: Copy>(
    controller: &mut apic::InterruptCtrl<H>,
    irq: IrqId,
    handler: H,
    r: Result<(), HalError>,
)
    requires
        call_ensures(apic::InterruptCtrl::<H>::register_irq, (controller, irq, handler), r),
    ensures
        ({
            let before = old(controller).handlers@;
            let after = final(controller).handlers@;
            let usable = 33 <= irq.0 <= 255;
            &&& r is Ok <==> usable && before[irq.0 - 33] is None
            &&& r matches Err(e) ==> e == if usable {
                HalError::IrqAlreadyRegistered
            } else {
                HalError::InvalidIrqId
            }
            &&& r is Err ==> after == before
            &&& r is Ok ==> after == before.update(irq.0 - 33, Some(handler))
        }),
        final(controller).mode == old(controller).mode,
        final(controller).ipi_target_core_count == old(controller).ipi_target_core_count,
{
}

/// Unregistering a vector takes its handler away and changes nothing else.
pub proof fn unregister_vector<H: Copy>(controller: &mut apic::InterruptCtrl<H>, irq: IrqId)
    requires
        call_ensures(apic::InterruptCtrl::<H>::unregister_irq, (controller, irq), ()),
    ensures
        final(controller).handlers@ == (if 33 <= irq.0 <= 255 {
            old(controller).handlers@.update(irq.0 - 33, None)
        } else {
            old(controller).handlers@
        }),
        final(controller).mode == old(controller).mode,
        final(controller).ipi_target_core_count == old(controller).ipi_target_core_count,
{
}

/// Delivery of vectors 33 to 255, and of no others, can be stopped and resumed.
pub proof fn mask_vector<H: Copy>(
    controller: &apic::InterruptCtrl<H>,
    irq: IrqId,
    masked: Result<(), HalError>,
    unmasked: Result<(), HalError>,
)
    requires
        call_ensures(apic::InterruptCtrl::<H>::mask_irq, (controller, irq), masked),
        call_ensures(apic::InterruptCtrl::<H>::unmask_irq, (controller, irq), unmasked),
    ensures
        masked is Ok <==> 33 <= irq.0 <= 255,
        masked matches Err(e) ==> e == HalError::InvalidIrqId,
        unmasked == masked,
{
}

/// A core that exists is interrupted by a command that carries the vector in its
/// low byte, is asserted, and is addressed to that core; for another core nothing
/// is written.
pub proof fn interrupt_core<H: Copy>(
    controller: &apic::InterruptCtrl<H>,
    target: usize,
    vector: u8,
    r: Result<Vec<RegisterWrite>, HalError>,
)
    requires
        controller.well_formed(),
        call_ensures(apic::InterruptCtrl::<H>::send_ipi, (controller, target, vector), r),
    ensures
        match r {
            Err(e) => e == HalError::InvalidIpiTarget && target >= controller.ipi_target_core_count,
            Ok(writes) => {
                &&& target < controller.ipi_target_core_count
                &&& match controller.mode {
                    ApicMode::Xapic { mmio_base } => {
                        &&& writes@.len() == 2
                        &&& writes@[0].register == (ApicRegister::Mmio {
                            address: (mmio_base + 0x310) as u64,
                        })
                        &&& writes@[0].value == target % 0x100 * 0x100_0000
                        &&& writes@[1].register == (ApicRegister::Mmio {
                            address: (mmio_base + 0x300) as u64,
                        })
                        &&& writes@[1].value == 0x4000 + vector
                    },
                    ApicMode::X2apic => {
                        &&& writes@.len() == 1
                        &&& writes@[0].register == (ApicRegister::Msr { msr: 0x830 })
                        &&& writes@[0].value == target * 0x1_0000_0000 + 0x4000 + vector
                    },
                }
            },
        },
{
    if target < controller.ipi_target_core_count {
        command_reaches_its_destination(*controller, target as u32, (0x4000 + vector) as u32);
    }
}

/// An interrupt ends with a zero in the end-of-interrupt register, whatever its
/// vector.
pub proof fn end_vector<H: Copy>(
    controller: &apic::InterruptCtrl<H>,
    irq: IrqId,
    r: RegisterWrite,
)
    requires
        controller.well_formed(),
        call_ensures(apic::InterruptCtrl::<H>::end_of_interrupt, (controller, irq), r),
    ensures
        r.value == 0,
        r.register == (match controller.mode {
            ApicMode::Xapic { mmio_base } => ApicRegister::Mmio {
                address: (mmio_base + 0xB0) as u64,
            },
            ApicMode::X2apic => ApicRegister::Msr { msr: 0x80B },
        }),
{
}

/// The controller is brought up by at most one write to the base register, which
/// sets enable bits and no others, and by its spurious vector and its timer.
pub proof fn bring_up_controller<H: Copy>(
    controller: &apic::InterruptCtrl<H>,
    apic_base: u64,
    writes: Vec<RegisterWrite>,
)
    requires
        controller.well_formed(),
        call_ensures(
            apic::InterruptCtrl::<H>::bootstrap_current_core,
            (controller, apic_base),
            writes,
        ),
    ensures
        ({
            let n = writes@.len();
            let off11 = apic_base / 0x800 % 2 == 0;
            let off10 = controller.mode is X2apic && apic_base / 0x400 % 2 == 0;
            &&& n == 3 <==> off11 || off10
            &&& n == 2 || n == 3
            &&& n == 3 ==> writes@[0].register == (ApicRegister::Msr { msr: 0x1B })
                && writes@[0].value == apic_base + (if off11 {
                0x800int
            } else {
                0
            }) + (if off10 {
                0x400int
            } else {
                0
            })
            &&& writes@[n - 2].value == 0x1FF
            &&& writes@[n - 1].value == 0x4_0020
        }),
{
    controller_is_enabled_and_times_deadlines(*controller, apic_base);
}

/// The controller tells what it is: its kind and address by how it is reached, one
/// region, 223 lines, and the cores it was told of.
pub proof fn describe_controller<H: Copy>(
    controller: &apic::InterruptCtrl<H>,
    kind: InterruptControllerKindRaw,
    base: u64,
    second: Option<u64>,
    lines: u32,
    cores: u32,
)
    requires
        call_ensures(apic::InterruptCtrl::<H>::detected_kind, (controller,), kind),
        call_ensures(apic::InterruptCtrl::<H>::primary_base, (controller,), base),
        call_ensures(apic::InterruptCtrl::<H>::secondary_base, (controller,), second),
        call_ensures(apic::InterruptCtrl::<H>::irq_line_count, (controller,), lines),
        call_ensures(apic::InterruptCtrl::<H>::ipi_target_core_count, (controller,), cores),
    ensures
        kind is ApicX2apic <==> controller.mode is X2apic,
        kind is ApicXapic <==> controller.mode is Xapic,
        base == (match controller.mode {
            ApicMode::Xapic { mmio_base } => mmio_base,
            ApicMode::X2apic => 0,
        }),
        second is None,
        lines == 223,
        cores == controller.ipi_target_core_count,
{
}

/// A fired vector invokes its own handler with its own number, vector 32 the
/// timer's callback, and ends with the end of the interrupt, whether or not
/// anything was invoked.
pub proof fn dispatch_vector<H: Copy + Fn(IrqId), C: Fn()>(
    state: &apic::GlobalState<H, C>,
    vector: u8,
    r: Option<RegisterWrite>,
)
    requires
        call_ensures(apic::dispatch_vector::<H, C>, (state, vector), r),
        state.controller matches Some(controller) ==> controller.well_formed(),
    ensures
        r is Some <==> state.controller is Some,
        state.controller matches Some(controller) ==> {
            &&& r->0.value == 0
            &&& r->0.register == match controller.mode {
                ApicMode::Xapic { mmio_base } => ApicRegister::Mmio {
                    address: (mmio_base + 0xB0) as u64,
                },
                ApicMode::X2apic => ApicRegister::Msr { msr: 0x80B },
            }
            &&& vector > 32 && controller.handlers@[vector - 33] is Some ==> call_ensures(
                controller.handlers@[vector - 33]->0,
                (IrqId(vector as u32),),
                (),
            )
            &&& vector == 32 && state.timer is Some && state.timer->0.callback is Some
                ==> call_ensures(state.timer->0.callback->0, (), ())
        },
{
}

/// Sources 1 to 511 can be given a handler once; a registered source is then let
/// through with priority 1.
pub proof fn register_source<H: Copy>(
    controller: &mut plic::InterruptCtrl<H>,
    irq: IrqId,
    handler: H,
    r: Result<Vec<PlicOp>, HalError>,
)
    requires
        old(controller).plic_base + 0x20_1004 <= u64::MAX,
        call_ensures(plic::InterruptCtrl::<H>::register_irq, (controller, irq, handler), r),
    ensures
        ({
            let before = old(controller).handlers@;
            let after = final(controller).handlers@;
            let base = old(controller).plic_base;
            let usable = 1 <= irq.0 <= 511;
            &&& r is Ok <==> usable && before[irq.0 - 1] is None
            &&& r matches Err(e) ==> after == before && e == if usable {
                HalError::IrqAlreadyRegistered
            } else {
                HalError::InvalidIrqId
            }
            &&& r matches Ok(ops) ==> {
                &&& after == before.update(irq.0 - 1, Some(handler))
                &&& ops@.len() == 2
                &&& ops@[0] matches PlicOp::Write { address, value } && address == base + 4 * irq.0
                    && value == 1
                &&& ops@[1] matches PlicOp::SetBit { address, bit, on } && on && bit < 32 && 8 * (
                address - base - 0x2080) + bit == irq.0
            }
        }),
        final(controller).plic_base == old(controller).plic_base,
        final(controller).ipi_target_core_count == old(controller).ipi_target_core_count,
{
}

/// Unregistering a source that has a handler takes it away and disables the source;
/// otherwise nothing is done.
pub proof fn unregister_source<H: Copy>(
    controller: &mut plic::InterruptCtrl<H>,
    irq: IrqId,
    r: Option<PlicOp>,
)
    requires
        old(controller).plic_base + 0x20_1004 <= u64::MAX,
        call_ensures(plic::InterruptCtrl::<H>::unregister_irq, (controller, irq), r),
    ensures
        ({
            let before = old(controller).handlers@;
            let base = old(controller).plic_base;
            let had = 1 <= irq.0 <= 511 && before[irq.0 - 1] is Some;
            &&& r is Some <==> had
            &&& r matches Some(op) ==> (op matches PlicOp::SetBit { address, bit, on } && !on && bit
                < 32 && 8 * (address - base - 0x2080) + bit == irq.0)
            &&& 1 <= irq.0 <= 511 ==> final(controller).handlers@ == before.update(irq.0 - 1, None)
            &&& !(1 <= irq.0 <= 511) ==> final(controller).handlers@ == before
        }),
        final(controller).plic_base == old(controller).plic_base,
{
}

/// Delivery of sources 1 to 511 is stopped and resumed by their enable bits.
pub proof fn mask_source<H: Copy>(
    controller: &plic::InterruptCtrl<H>,
    irq: IrqId,
    masked: Result<PlicOp, HalError>,
    unmasked: Result<PlicOp, HalError>,
)
    requires
        controller.plic_base + 0x20_1004 <= u64::MAX,
        call_ensures(plic::InterruptCtrl::<H>::mask_irq, (controller, irq), masked),
        call_ensures(plic::InterruptCtrl::<H>::unmask_irq, (controller, irq), unmasked),
    ensures
        masked is Ok <==> 1 <= irq.0 <= 511,
        unmasked is Ok <==> 1 <= irq.0 <= 511,
        masked matches Err(e) ==> e == HalError::InvalidIrqId,
        unmasked matches Err(e) ==> e == HalError::InvalidIrqId,
        masked matches Ok(op) ==> (op matches PlicOp::SetBit { address, bit, on } && !on && bit < 32
            && 8 * (address - controller.plic_base - 0x2080) + bit == irq.0),
        unmasked matches Ok(op) ==> (op matches PlicOp::SetBit { address, bit, on } && on && bit < 32
            && 8 * (address - controller.plic_base - 0x2080) + bit == irq.0),
{
}

/// A hart that exists is interrupted through a mask with its bit alone.
pub proof fn interrupt_hart<H: Copy>(
    controller: &plic::InterruptCtrl<H>,
    target: usize,
    vector: u8,
    r: Result<u64, HalError>,
    other: u64,
)
    requires
        target < controller.ipi_target_core_count ==> target < 64,
        call_ensures(plic::InterruptCtrl::<H>::send_ipi, (controller, target, vector), r),
        other < 64,
    ensures
        r is Ok <==> target < controller.ipi_target_core_count,
        r matches Err(e) ==> e == HalError::InvalidIpiTarget,
        r matches Ok(mask) ==> (crate::bits::bit(mask, other) <==> other == target),
{
    if target < 64 {
        let t = target as u64;
        assert((((1u64 << t) >> other) & 1 == 1) == (other == t)) by (bit_vector)
            requires
                t < 64,
                other < 64,
        ;
    }
}

/// The platform controller is claimed from and completed at 0x20_1004, and every
/// priority gets through once its threshold at 0x20_1000 is zero.
pub proof fn claim_and_complete<H: Copy>(
    controller: &plic::InterruptCtrl<H>,
    irq: IrqId,
    claim: u64,
    end: PlicOp,
    threshold: PlicOp,
)
    requires
        controller.plic_base + 0x20_1004 <= u64::MAX,
        call_ensures(plic::InterruptCtrl::<H>::read_claim, (controller,), claim),
        call_ensures(plic::InterruptCtrl::<H>::end_of_interrupt, (controller, irq), end),
        call_ensures(plic::InterruptCtrl::<H>::bootstrap_current_core, (controller,), threshold),
    ensures
        claim == controller.plic_base + 0x20_1004,
        end matches PlicOp::Write { address, value } && address == claim && value == irq.0,
        threshold matches PlicOp::Write { address, value } && address == controller.plic_base
            + 0x20_1000 && value == 0,
{
}

/// An external interrupt invokes the claimed source's own handler with its number
/// and completes the source; a timer interrupt invokes the timer's callback; a
/// software interrupt is cleared.
pub proof fn dispatch_interrupt<H: Copy + Fn(IrqId), C: Fn()>(
    state: &plic::GlobalState<H, C>,
    cause: u32,
    claimed: u32,
    r: plic::DispatchEnd,
)
    requires
        call_ensures(plic::dispatch_current_interrupt::<H, C>, (state, cause, claimed), r),
        state.controller matches Some(controller) ==> controller.plic_base + 0x20_1004 <= u64::MAX,
    ensures
        cause == 9 && state.controller is Some && 1 <= claimed <= 511
            && state.controller->0.handlers@[claimed - 1] is Some ==> call_ensures(
            state.controller->0.handlers@[claimed - 1]->0,
            (IrqId(claimed),),
            (),
        ),
        cause == 5 && state.timer is Some && state.timer->0.callback is Some ==> call_ensures(
            state.timer->0.callback->0,
            (),
            (),
        ),
        cause == 1 <==> r is ClearSoftware,
        cause == 9 && state.controller is Some && claimed != 0 <==> r is Complete,
        r matches plic::DispatchEnd::Complete(op) ==> (op matches PlicOp::Write { address, value }
            && address == state.controller->0.plic_base + 0x20_1004 && value == claimed),
{
}

/// Changing one bit of a word keeps every other.
pub proof fn change_one_bit(word: u32, n: u32, on: bool, r: u32, k: u64)
    requires
        n < 32,
        k < 32,
        call_ensures(plic::word_with_bit, (word, n, on), r),
    ensures
        k == n ==> crate::bits::bit(r as u64, k) == on,
        k != n ==> crate::bits::bit(r as u64, k) == crate::bits::bit(word as u64, k),
{
}

/// What is made global is what interrupts go to, and the other part stays.
pub proof fn make_global<H: Copy, C>(
    a: &mut apic::GlobalState<H, C>,
    b: &mut apic::GlobalState<H, C>,
    controller: apic::InterruptCtrl<H>,
    timer: crate::x86_64::timer::Timer<C>,
)
    requires
        call_ensures(apic::set_global_controller::<H, C>, (a, controller), ()),
        call_ensures(apic::set_global_timer::<H, C>, (b, timer), ()),
    ensures
        final(a).controller == Some(controller),
        final(a).timer == old(a).timer,
        final(b).timer == Some(timer),
        final(b).controller == old(b).controller,
{
}

/// The local controller that is made is reached through registers exactly if bit 21 of
/// leaf 1's ECX is set, else at the page that the base register gives; it has no
/// handler and reaches one core, until it is told of more.
pub proof fn make_local_controller<H: Copy, S: CpuidSource>(
    cpuid: &S,
    apic_base: u64,
    leaf1: CpuidResult,
    through_registers: bool,
    asked: bool,
    base: u64,
    controller: apic::InterruptCtrl<H>,
    v: int,
)
    requires
        forall|r: CpuidResult| call_ensures(S::cpuid, (cpuid, 1, 0), r) ==> r == leaf1,
        call_ensures(apic::x2apic_from_leaf, (&leaf1,), through_registers),
        call_ensures(apic::detect_x2apic::<S>, (cpuid,), asked),
        call_ensures(apic::xapic_mmio_base, (apic_base,), base),
        call_ensures(apic::InterruptCtrl::<H>::new::<S>, (cpuid, apic_base), controller),
        33 <= v < 256,
    ensures
        through_registers <==> leaf1.ecx / 0x20_0000 % 2 == 1,
        asked == through_registers,
        base % 4096 == 0 && base <= apic_base % 0x10_0000_0000_0000 < base + 4096,
        controller.mode == (if through_registers {
            ApicMode::X2apic
        } else {
            ApicMode::Xapic { mmio_base: base }
        }),
        controller.handlers@[v - 33] is None,
        controller.ipi_target_core_count == 1,
{
    crate::laws::interrupts::controller_address_is_a_page(apic_base);
    crate::laws::interrupts::local_controller_is_the_reported_one(
        controller,
        cpuid,
        apic_base,
        leaf1,
        v as u8,
    );
    crate::laws::words::digits_of_a_word(leaf1.ecx);
    assert(controller.handlers@[v - 33] is None);
}

/// Being told of more cores changes nothing else of a controller.
pub proof fn tell_of_cores<H: Copy>(
    a: &mut apic::InterruptCtrl<H>,
    b: &mut plic::InterruptCtrl<H>,
    cores: u32,
)
    requires
        call_ensures(apic::InterruptCtrl::<H>::set_topology, (a, cores), ()),
        call_ensures(plic::InterruptCtrl::<H>::set_topology, (b, cores), ()),
    ensures
        final(a).ipi_target_core_count == cores && final(b).ipi_target_core_count == cores,
        final(a).mode == old(a).mode && final(b).plic_base == old(b).plic_base,
        final(a).handlers == old(a).handlers && final(b).handlers == old(b).handlers,
{
}

/// A value is written to the local register of its offset, and a command to another
/// core as one word or two.
pub proof fn write_local_registers<H: Copy>(
    controller: &apic::InterruptCtrl<H>,
    offset: u32,
    value: u32,
    at: ApicRegister,
    write: RegisterWrite,
    destination: u32,
    writes: Vec<RegisterWrite>,
)
    requires
        controller.well_formed(),
        offset < 0x1000,
        call_ensures(apic::InterruptCtrl::<H>::register_at, (controller, offset), at),
        call_ensures(apic::InterruptCtrl::<H>::write_reg, (controller, offset, value), write),
        call_ensures(apic::InterruptCtrl::<H>::write_icr, (controller, destination, value), writes),
    ensures
        write.register == at && write.value == value,
        match controller.mode {
            ApicMode::Xapic { mmio_base } => {
                &&& at matches ApicRegister::Mmio { address } && address == mmio_base + offset
                &&& writes@.len() == 2
                &&& writes@[0].register == (ApicRegister::Mmio {
                    address: (mmio_base + 0x310) as u64,
                })
                &&& writes@[0].value == destination % 0x100 * 0x100_0000
                &&& writes@[1].register == (ApicRegister::Mmio {
                    address: (mmio_base + 0x300) as u64,
                })
                &&& writes@[1].value == value
            },
            ApicMode::X2apic => {
                &&& at matches ApicRegister::Msr { msr } && 16 * (msr - 0x800) <= offset < 16 * (msr
                    - 0x800) + 16
                &&& writes@.len() == 1
                &&& writes@[0].register == (ApicRegister::Msr { msr: 0x830 })
                &&& writes@[0].value == destination * 0x1_0000_0000 + value
            },
        },
{
    command_reaches_its_destination(*controller, destination, value);
}

/// A fired vector goes to the timer if it is 32, and to its own handler if it has one.
pub proof fn choose_target<H: Copy>(
    controller: &apic::InterruptCtrl<H>,
    vector: u8,
    r: apic::DispatchTarget<H>,
)
    requires
        call_ensures(apic::select_target::<H>, (controller, vector), r),
    ensures
        r is Timer <==> vector == 32,
        r matches apic::DispatchTarget::Handler(handler) ==> vector > 32
            && controller.handlers@[vector - 33] == Some(handler),
        vector > 32 && controller.handlers@[vector - 33] is Some ==> r is Handler,
{
}

/// A hart's interrupt goes to the timer if its cause is 5, and if it is 9 to the
/// handler of the source that was claimed, if that has one.
pub proof fn choose_target_on_riscv64<H: Copy, C>(
    state: &plic::GlobalState<H, C>,
    cause: u32,
    claimed: u32,
    r: plic::DispatchTarget<H>,
)
    requires
        call_ensures(plic::select_target::<H, C>, (state, cause, claimed), r),
    ensures
        r is Timer <==> cause == 5,
        r matches plic::DispatchTarget::Handler(handler) ==> cause == 9 && 1 <= claimed <= 511 && (
        state.controller matches Some(controller) && controller.handlers@[claimed - 1] == Some(
            handler,
        )),
        cause == 9 && 1 <= claimed <= 511 && (state.controller matches Some(controller)
            && controller.handlers@[claimed - 1] is Some) ==> r is Handler,
{
}

/// The priority of a source is a word of its own, and its enable bit is that of its
/// number in the hart's row of words.
pub proof fn place_sources<H: Copy>(
    fresh: plic::InterruptCtrl<H>,
    base: u64,
    controller: &plic::InterruptCtrl<H>,
    source: u32,
    priority: u32,
    enabled: bool,
    a: PlicOp,
    b: PlicOp,
    i: int,
)
    requires
        controller.plic_base + 0x20_1004 <= u64::MAX,
        source < 512,
        0 <= i < 511,
        call_ensures(plic::InterruptCtrl::<H>::new, (base,), fresh),
        call_ensures(plic::InterruptCtrl::<H>::set_priority, (controller, source, priority), a),
        call_ensures(plic::InterruptCtrl::<H>::set_enabled, (controller, source, enabled), b),
    ensures
        fresh.plic_base == base && fresh.handlers@[i] is None && fresh.ipi_target_core_count == 1,
        a matches PlicOp::Write { address, value } && value == priority && address
            == controller.plic_base + 4 * source,
        b matches PlicOp::SetBit { address, bit, on } && on == enabled && bit < 32 && 8 * (address
            - controller.plic_base - 0x2080) + bit == source,
{
    assert(fresh.handlers@[i] is None);
}

/// The controller of a RISC-V machine is one region at its address, with 512 sources.
pub proof fn describe_platform_controller<H: Copy>(
    controller: &plic::InterruptCtrl<H>,
    kind: InterruptControllerKindRaw,
    base: u64,
    second: Option<u64>,
    lines: u32,
    cores: u32,
)
    requires
        call_ensures(plic::InterruptCtrl::<H>::detected_kind, (controller,), kind),
        call_ensures(plic::InterruptCtrl::<H>::primary_base, (controller,), base),
        call_ensures(plic::InterruptCtrl::<H>::secondary_base, (controller,), second),
        call_ensures(plic::InterruptCtrl::<H>::irq_line_count, (controller,), lines),
        call_ensures(plic::InterruptCtrl::<H>::ipi_target_core_count, (controller,), cores),
    ensures
        kind is PlicClic,
        base == controller.plic_base,
        second is None,
        lines == 512,
        cores == controller.ipi_target_core_count,
{
}

/// A controller of a given mode starts without handlers and reaches one core; nothing is
/// set globally at first.
pub proof fn start_empty<H: Copy, C>(
    mode: ApicMode,
    controller: apic::InterruptCtrl<H>,
    a: apic::GlobalState<H, C>,
    b: plic::GlobalState<H, C>,
    i: int,
)
    requires
        mode.addressable(),
        0 <= i < 223,
        call_ensures(apic::InterruptCtrl::<H>::with_mode, (mode,), controller),
        call_ensures(apic::GlobalState::<H, C>::new, (), a),
        call_ensures(plic::GlobalState::<H, C>::new, (), b),
    ensures
        controller.mode == mode && controller.ipi_target_core_count == 1,
        controller.handlers@[i] is None,
        a.controller is None && a.timer is None && b.controller is None && b.timer is None,
{
    assert(controller.handlers@[i] is None);
}

} // verus!

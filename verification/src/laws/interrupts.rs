//! Laws of interrupt controllers and of dispatch.

use vstd::prelude::*;

use crate::hal::interrupt::IrqId;
use crate::irq_table::{after_register, after_unregister, register_result};
use crate::laws::words::digits_of_a_word;
use crate::riscv64::interrupt as plic;
use crate::riscv64::interrupt::PlicOp;
use crate::x86_64::cpu::{CpuidResult, CpuidSource};
use crate::x86_64::interrupt as apic;
use crate::x86_64::interrupt::{ApicMode, ApicRegister, RegisterWrite};

verus! {

/// The local controller's address is the base register's value without the bits
/// from 52 on, rounded down to a page.
pub proof fn controller_address_is_a_page(apic_base: u64)
    ensures
        apic::mmio_base_in(apic_base) % 4096 == 0,
        apic::mmio_base_in(apic_base) <= apic_base % 0x10_0000_0000_0000 < apic::mmio_base_in(
            apic_base,
        ) + 4096,
{
}

/// A register of the local controller is at the base plus its offset, or is the
/// model-specific register from 0x800 on that each 16 bytes of offset stand for.
pub proof fn local_registers_are_at_their_offsets(base: u64, offset: u32, value: u32)
    requires
        base + 0xFFF <= u64::MAX,
        offset < 0x1000,
    ensures
        (ApicMode::Xapic { mmio_base: base }).addressable(),
        ApicMode::X2apic.addressable(),
        ({
            let w = (ApicMode::Xapic { mmio_base: base }).write_of(offset, value);
            &&& w.value == value
            &&& w.register matches ApicRegister::Mmio { address } && address == base + offset
        }),
        ({
            let w = ApicMode::X2apic.write_of(offset, value);
            &&& w.value == value
            &&& w.register matches ApicRegister::Msr { msr } && 16 * (msr - 0x800) <= offset < 16 * (
            msr - 0x800) + 16
        }),
{
}

/// An interrupt ends with a zero at offset 0xB0.
pub proof fn interrupt_ends_at_its_register(base: u64)
    requires
        base + 0xFFF <= u64::MAX,
    ensures
        (ApicMode::Xapic { mmio_base: base }).write_of(apic::APIC_EOI, 0) == (RegisterWrite {
            register: ApicRegister::Mmio { address: (base + 0xB0) as u64 },
            value: 0,
        }),
        ApicMode::X2apic.write_of(apic::APIC_EOI, 0) == (RegisterWrite {
            register: ApicRegister::Msr { msr: 0x80B },
            value: 0,
        }),
{
}

/// A command goes to another core as two words in memory, the destination in the
/// top byte at offset 0x310 first and the command at offset 0x300 last, or as one
/// register with the destination above the command.
pub proof fn command_reaches_its_destination<H: Copy>(
    controller: apic::InterruptCtrl<H>,
    destination: u32,
    low_bits: u32,
)
    requires
        controller.well_formed(),
    ensures
        controller.mode matches ApicMode::Xapic { mmio_base } ==> {
            let writes = controller.icr_writes(destination, low_bits);
            &&& writes.len() == 2
            &&& writes[0].register == (ApicRegister::Mmio { address: (mmio_base + 0x310) as u64 })
            &&& writes[0].value == destination % 0x100 * 0x100_0000
            &&& writes[1].register == (ApicRegister::Mmio { address: (mmio_base + 0x300) as u64 })
            &&& writes[1].value == low_bits
        },
        controller.mode is X2apic ==> {
            let writes = controller.icr_writes(destination, low_bits);
            &&& writes.len() == 1
            &&& writes[0].register == (ApicRegister::Msr { msr: 0x830 })
            &&& writes[0].value / 0x1_0000_0000 == destination
            &&& writes[0].value % 0x1_0000_0000 == low_bits
        },
{
    assert(destination << 24u32 == destination % 0x100 * 0x100_0000) by (bit_vector);
}

/// Bringing up the controller sets, unless they are set, the enable bit 11 of the
/// base register, and bit 10 too if it is reached through registers, and no other
/// bit; then it enables the controller with spurious vector 255 and has the timer
/// fire vector 32 at deadlines.
pub proof fn controller_is_enabled_and_times_deadlines<H: Copy>(
    controller: apic::InterruptCtrl<H>,
    apic_base: u64,
)
    requires
        controller.well_formed(),
    ensures
        ({
            let writes = controller.bring_up(apic_base);
            let n = writes.len();
            let off11 = apic_base / 0x800 % 2 == 0;
            let off10 = controller.mode is X2apic && apic_base / 0x400 % 2 == 0;
            &&& n == if off11 || off10 {
                3nat
            } else {
                2
            }
            &&& n == 3 ==> writes[0].register == (ApicRegister::Msr { msr: 0x1B })
                && writes[0].value == apic_base + (if off11 {
                0x800int
            } else {
                0
            }) + (if off10 {
                0x400int
            } else {
                0
            })
            &&& writes[n - 2].value == 0x1FF
            &&& writes[n - 1].value == 0x4_0020
            &&& match controller.mode {
                ApicMode::Xapic { mmio_base } => {
                    &&& writes[n - 2].register == (ApicRegister::Mmio {
                        address: (mmio_base + 0xF0) as u64,
                    })
                    &&& writes[n - 1].register == (ApicRegister::Mmio {
                        address: (mmio_base + 0x320) as u64,
                    })
                },
                ApicMode::X2apic => {
                    &&& writes[n - 2].register == (ApicRegister::Msr { msr: 0x80F })
                    &&& writes[n - 1].register == (ApicRegister::Msr { msr: 0x832 })
                },
            }
        }),
{
    let b = apic_base;
    assert((b | (1u64 << 11)) == b + (if b / 0x800 % 2 == 0 {
        0x800u64
    } else {
        0
    }) && (b | (1u64 << 11) | (1u64 << 10)) == b + (if b / 0x800 % 2 == 0 {
        0x800u64
    } else {
        0
    }) + (if b / 0x400 % 2 == 0 {
        0x400u64
    } else {
        0
    })) by (bit_vector);
}

/// The local controller is reached through registers exactly if bit 21 of leaf 1's
/// ECX is set, and has no handlers at first.
pub proof fn local_controller_is_the_reported_one<H: Copy, S: CpuidSource>(
    controller: apic::InterruptCtrl<H>,
    cpuid: &S,
    apic_base: u64,
    leaf1: CpuidResult,
    vector: u8,
)
    requires
        controller.identified_by(cpuid, apic_base),
        forall|r: CpuidResult| call_ensures(S::cpuid, (cpuid, 1, 0), r) ==> r == leaf1,
    ensures
        controller.mode is X2apic <==> leaf1.ecx / 0x20_0000 % 2 == 1,
        controller.mode matches ApicMode::Xapic { mmio_base } ==> mmio_base == apic::mmio_base_in(
            apic_base,
        ),
        vector != 32 ==> apic::target_of(controller, vector) is Unhandled,
{
    digits_of_a_word(leaf1.ecx);
    assert(apic::x2apic_in(leaf1) == (leaf1.ecx / 0x20_0000 % 2 == 1));
    if vector > 32 {
        assert(controller.handlers@[vector - 33] is None);
    }
}

/// Vectors 33 to 255 can be given a handler. A vector fires its own handler, and
/// none if it has none; vector 32 fires the timer, whatever is registered, and the
/// exceptions below fire nothing here.
pub proof fn vector_fires_its_own_handler<H: Copy>(
    controller: apic::InterruptCtrl<H>,
    irq: IrqId,
    vector: u8,
)
    ensures
        apic::InterruptCtrl::<H>::usable(irq) <==> 33 <= irq.0 <= 255,
        vector == 32 <==> apic::target_of(controller, vector) is Timer,
        vector < 32 ==> apic::target_of(controller, vector) is Unhandled,
        vector > 32 ==> match controller.handlers@[vector - 33] {
            Some(handler) => apic::target_of(controller, vector) == apic::DispatchTarget::Handler(
                handler,
            ),
            None => apic::target_of(controller, vector) is Unhandled,
        },
{
}

/// A handler that was registered for a vector is what that vector fires, until it
/// is unregistered; no other vector is affected by either.
pub proof fn registered_vector_fires<H: Copy>(
    before: apic::InterruptCtrl<H>,
    registered: apic::InterruptCtrl<H>,
    unregistered: apic::InterruptCtrl<H>,
    irq: IrqId,
    handler: H,
    vector: u8,
)
    requires
        33 <= irq.0 <= 255,
        register_result(before.handlers@, apic::InterruptCtrl::<H>::slot(irq)) is Ok,
        registered.handlers@ == after_register(
            before.handlers@,
            apic::InterruptCtrl::<H>::slot(irq),
            handler,
        ),
        unregistered.handlers@ == after_unregister(
            registered.handlers@,
            apic::InterruptCtrl::<H>::slot(irq),
        ),
    ensures
        vector == irq.0 ==> apic::target_of(registered, vector) == apic::DispatchTarget::Handler(
            handler,
        ),
        vector == irq.0 ==> apic::target_of(unregistered, vector) is Unhandled,
        vector != irq.0 ==> apic::target_of(registered, vector) == apic::target_of(before, vector),
        vector != irq.0 ==> apic::target_of(unregistered, vector) == apic::target_of(
            before,
            vector,
        ),
{
}

/// The platform controller's registers are where it has them for the supervisor
/// mode of the first hart: a source's priority four bytes per source from the base
/// on, its enable bit from 0x2080 on, the claim register at 0x20_1004.
pub proof fn platform_registers_are_at_their_offsets<H: Copy>(
    controller: plic::InterruptCtrl<H>,
    source: u32,
    priority: u32,
    on: bool,
)
    requires
        controller.plic_base + 0x20_1004 <= u64::MAX,
        source < 512,
    ensures
        controller.well_formed(),
        controller.claim_address() == controller.plic_base + 0x20_1004,
        controller.priority_op(source, priority) matches PlicOp::Write { address, value } && address
            == controller.plic_base + 4 * source && value == priority,
        controller.enable_op(source, on) matches PlicOp::SetBit { address, bit, on: o } && o == on
            && bit < 32 && 8 * (address - controller.plic_base - 0x2080) + bit == source && (address
            - controller.plic_base) % 4 == 0,
{
}

/// Sources 1 to 511 can be given a handler, each in a place of its own.
pub proof fn sources_have_their_own_places<H: Copy>(one: IrqId, other: IrqId)
    ensures
        plic::InterruptCtrl::<H>::usable(one) <==> 1 <= one.0 <= 511,
        plic::InterruptCtrl::<H>::usable(one) ==> 0 <= plic::InterruptCtrl::<H>::slot(one) < 512,
        one.0 != other.0 ==> plic::InterruptCtrl::<H>::slot(one)
            != plic::InterruptCtrl::<H>::slot(other),
{
}

/// Cause 1 is a software interrupt, which is cleared; cause 5 fires the timer;
/// cause 9 claims a source of the controller that is set, fires the source's own
/// handler, and completes the source at the address it was claimed at. Source zero
/// is none: it fires and completes nothing. Any other cause does nothing.
pub proof fn cause_decides_what_happens<H: Copy, C>(
    state: plic::GlobalState<H, C>,
    cause: u32,
    claimed: u32,
)
    ensures
        plic::claim_of(state, cause) is Some <==> cause == 9 && state.controller is Some,
        plic::claim_of(state, cause) matches Some(address) ==> address
            == state.controller->0.claim_address(),
        plic::target_of(state, cause, claimed) is Timer <==> cause == 5,
        cause == 9 && state.controller is Some && 1 <= claimed
            <= 511 ==> match state.controller->0.handlers@[claimed - 1] {
            Some(handler) => plic::target_of(state, cause, claimed)
                == plic::DispatchTarget::Handler(handler),
            None => plic::target_of(state, cause, claimed) is Unhandled,
        },
        cause != 5 && (cause != 9 || state.controller is None || claimed == 0 || claimed > 511)
            ==> plic::target_of(state, cause, claimed) is Unhandled,
        plic::end_of(state, cause, claimed) is ClearSoftware <==> cause == 1,
        cause == 9 && state.controller is Some && claimed != 0 ==> plic::end_of(
            state,
            cause,
            claimed,
        ) == plic::DispatchEnd::Complete(
            PlicOp::Write { address: state.controller->0.claim_address(), value: claimed },
        ),
        cause != 1 && (cause != 9 || state.controller is None || claimed == 0) ==> plic::end_of(
            state,
            cause,
            claimed,
        ) is Nothing,
{
}

/// A handler that was registered for a source is what that source fires, until it
/// is unregistered; no other source is affected by either.
pub proof fn registered_source_fires<H: Copy, C>(
    before: plic::GlobalState<H, C>,
    registered: plic::GlobalState<H, C>,
    unregistered: plic::GlobalState<H, C>,
    irq: IrqId,
    handler: H,
    claimed: u32,
)
    requires
        1 <= irq.0 <= 511,
        before.controller is Some,
        registered.controller is Some,
        unregistered.controller is Some,
        register_result(before.controller->0.handlers@, plic::InterruptCtrl::<H>::slot(irq)) is Ok,
        registered.controller->0.handlers@ == after_register(
            before.controller->0.handlers@,
            plic::InterruptCtrl::<H>::slot(irq),
            handler,
        ),
        unregistered.controller->0.handlers@ == after_unregister(
            registered.controller->0.handlers@,
            plic::InterruptCtrl::<H>::slot(irq),
        ),
    ensures
        claimed == irq.0 ==> plic::target_of(registered, 9, claimed)
            == plic::DispatchTarget::Handler(handler),
        claimed == irq.0 ==> plic::target_of(unregistered, 9, claimed) is Unhandled,
        claimed != irq.0 ==> plic::target_of(registered, 9, claimed) == plic::target_of(
            before,
            9,
            claimed,
        ),
        claimed != irq.0 ==> plic::target_of(unregistered, 9, claimed) == plic::target_of(
            before,
            9,
            claimed,
        ),
{
}

/// The interrupts that are enabled and cleared are those of their causes: each bit
/// of the interrupt registers has the number of a cause.
pub proof fn interrupt_bits_are_numbered_by_cause(cause: u64)
    requires
        cause < 64,
    ensures
        crate::bits::bit(plic::SIE_EXTERNAL_AND_SOFTWARE, cause) <==> cause == 1 || cause == 9,
        crate::bits::bit(plic::SIP_SOFTWARE, cause) <==> cause == 1,
        crate::bits::bit(crate::riscv64::timer::SIE_STIE_BIT, cause) <==> cause == 5,
{
    assert(((0x202u64 >> cause) & 1 == 1) == (cause == 1 || cause == 9) && ((0x2u64 >> cause) & 1
        == 1) == (cause == 1) && (((1u64 << 5) >> cause) & 1 == 1) == (cause == 5)) by (bit_vector)
        requires
            cause < 64,
    ;
}

} // verus!

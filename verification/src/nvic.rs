//! Interrupt priorities.
//!
//! The processor implements `NVIC_PRIO_BITS` priority bits. A priority group
//! splits them into a preemption field, which decides whether one handler
//! may interrupt another, above a sub-priority field, which orders what is
//! pending at one preemption level. `encode_priority` packs a value for each
//! field into one priority. `set_priority` finds where the priority of an
//! interrupt or an exception is kept, and `set_priority_grouping` gives the
//! register value that selects a group.
//!
//! Nothing here touches a register: the functions give the values to write.

use vstd::arithmetic::div_mod::lemma_fundamental_div_mod_converse;
use vstd::arithmetic::power2::{lemma2_to64, pow2};
use vstd::math::min;
use vstd::prelude::*;

verus! {

/// Number of priority bits the processor implements.
pub const NVIC_PRIO_BITS: u32 = 3;

/// Position of the key field in the application interrupt and reset control
/// register.
pub const SCB_AIRCR_VECTKEY_POS: u32 = 16;

/// Mask of the key field.
pub const SCB_AIRCR_VECTKEY_MSK: u32 = 0xFFFF_0000;

/// The key that a write to the register has to carry in the key field.
pub const SCB_AIRCR_VECTKEY: u32 = 0x5FA;

/// Position of the priority group field in the register.
pub const SCB_AIRCR_PRIGROUP_POS: u32 = 8;

/// Mask of the priority group field.
pub const SCB_AIRCR_PRIGROUP_MSK: u32 = 0x0000_0700;

/// Width of the preemption field under `priority_group`, of which only the
/// low three bits count.
pub open spec fn preempt_priority_bits(priority_group: u32) -> nat {
    let group: int = priority_group as int % 8;
    min(NVIC_PRIO_BITS as int, 7 - group) as nat
}

/// Width of the sub-priority field under `priority_group`, of which only the
/// low three bits count.
pub open spec fn sub_priority_bits(priority_group: u32) -> nat {
    let group: int = priority_group as int % 8;
    if group + NVIC_PRIO_BITS < 7 {
        0
    } else {
        (group - 7 + NVIC_PRIO_BITS) as nat
    }
}

/// The priority value: `preempt_priority`, cut to the preemption field,
/// above `sub_priority`, cut to the sub-priority field.
pub open spec fn encoded_priority(priority_group: u32, preempt_priority: u32, sub_priority: u32) -> int {
    let high: int = pow2(preempt_priority_bits(priority_group)) as int;
    let low: int = pow2(sub_priority_bits(priority_group)) as int;
    (preempt_priority as int % high) * low + sub_priority as int % low
}

/// Packs a preemption priority and a sub-priority into the value that the
/// interrupt controller takes, split as `priority_group` says.
pub fn encode_priority(priority_group: u32, preempt_priority: u32, sub_priority: u32) -> (value: u32)
    ensures
        value == encoded_priority(priority_group, preempt_priority, sub_priority),
{
    let group: u32 = priority_group & 0x7;
    proof {
        lemma_low_three_bits(priority_group);
    }
    let preempt_priority_bits: u32 = if 7 - group > NVIC_PRIO_BITS {
        NVIC_PRIO_BITS
    } else {
        7 - group
    };
    let sub_priority_bits: u32 = if group + NVIC_PRIO_BITS < 7 {
        0
    } else {
        group + NVIC_PRIO_BITS - 7
    };
    proof {
        lemma_pack_is_arithmetic(preempt_priority, sub_priority, preempt_priority_bits, sub_priority_bits);
    }
    ((preempt_priority & ((1u32 << preempt_priority_bits) - 1)) << sub_priority_bits) | (sub_priority
        & ((1u32 << sub_priority_bits) - 1))
}

/// The key field of a value of the application interrupt and reset control
/// register.
pub open spec fn vectkey_field(aircr: u32) -> u32 {
    (aircr & SCB_AIRCR_VECTKEY_MSK) >> SCB_AIRCR_VECTKEY_POS
}

/// The priority group field of a value of the register.
pub open spec fn prigroup_field(aircr: u32) -> u32 {
    (aircr & SCB_AIRCR_PRIGROUP_MSK) >> SCB_AIRCR_PRIGROUP_POS
}

/// A value of the register with the key and the priority group blanked.
pub open spec fn other_fields(aircr: u32) -> u32 {
    aircr & !(SCB_AIRCR_VECTKEY_MSK | SCB_AIRCR_PRIGROUP_MSK)
}

/// Gives the value to write to the application interrupt and reset control
/// register, which was read as `aircr`, to make `priority_group` the
/// priority group: the low three bits of `priority_group` in the group
/// field, the key in the key field, and every other bit as it was read.
pub fn set_priority_grouping(aircr: u32, priority_group: u32) -> (value: u32)
    ensures
        vectkey_field(value) == SCB_AIRCR_VECTKEY,
        prigroup_field(value) == priority_group % 8,
        other_fields(value) == other_fields(aircr),
{
    let group: u32 = priority_group & 0x07;
    let kept: u32 = aircr & !(SCB_AIRCR_VECTKEY_MSK | SCB_AIRCR_PRIGROUP_MSK);
    let value: u32 = kept | (SCB_AIRCR_VECTKEY << SCB_AIRCR_VECTKEY_POS) | (group
        << SCB_AIRCR_PRIGROUP_POS);
    proof {
        lemma_grouping_fields(aircr, priority_group, value);
    }
    value
}

/// The exceptions of the processor whose priority can be set.
#[derive(Clone, Copy, PartialEq, Eq, Debug, Structural)]
pub enum SystemHandler {
    MemoryManagement,
    BusFault,
    UsageFault,
    SVCall,
    DebugMonitor,
    PendSV,
    SysTick,
}

impl SystemHandler {
    /// The exception's number.
    pub open spec fn spec_index(self) -> int {
        match self {
            SystemHandler::MemoryManagement => 4,
            SystemHandler::BusFault => 5,
            SystemHandler::UsageFault => 6,
            SystemHandler::SVCall => 11,
            SystemHandler::DebugMonitor => 12,
            SystemHandler::PendSV => 14,
            SystemHandler::SysTick => 15,
        }
    }

    /// The exception's number.
    pub fn index(self) -> (index: u8)
        ensures
            index == self.spec_index(),
    {
        match self {
            SystemHandler::MemoryManagement => 4,
            SystemHandler::BusFault => 5,
            SystemHandler::UsageFault => 6,
            SystemHandler::SVCall => 11,
            SystemHandler::DebugMonitor => 12,
            SystemHandler::PendSV => 14,
            SystemHandler::SysTick => 15,
        }
    }
}

/// Where a priority is kept: in the interrupt controller, by interrupt
/// number, or in the processor's own registers, by exception.
#[derive(Clone, Copy, PartialEq, Eq, Debug, Structural)]
pub enum PrioritySlot {
    Interrupt { nr: u8 },
    Exception { handler: SystemHandler },
}

/// One priority to store.
#[derive(Clone, Copy, PartialEq, Eq, Debug, Structural)]
pub struct PriorityWrite {
    pub slot: PrioritySlot,
    pub prio: u8,
}

/// The low four bits of `irq` in two's complement.
pub open spec fn selector(irq: i32) -> int {
    irq as int % 16
}

/// The exception that has the number `number`, if one has.
pub open spec fn handler_numbered(number: int) -> Option<SystemHandler> {
    if number == 4 {
        Some(SystemHandler::MemoryManagement)
    } else if number == 5 {
        Some(SystemHandler::BusFault)
    } else if number == 6 {
        Some(SystemHandler::UsageFault)
    } else if number == 11 {
        Some(SystemHandler::SVCall)
    } else if number == 12 {
        Some(SystemHandler::DebugMonitor)
    } else if number == 14 {
        Some(SystemHandler::PendSV)
    } else if number == 15 {
        Some(SystemHandler::SysTick)
    } else {
        None
    }
}

/// The slot that `irq` names. From zero up it is an interrupt, numbered by
/// the low eight bits. Below zero it is the exception whose number is
/// `selector(irq)`, and there is no slot where no exception has that number.
pub open spec fn spec_priority_slot(irq: i32) -> Option<PrioritySlot> {
    if irq >= 0 {
        Some(PrioritySlot::Interrupt { nr: (irq as int % 256) as u8 })
    } else {
        match handler_numbered(selector(irq)) {
            Some(handler) => Some(PrioritySlot::Exception { handler }),
            None => None,
        }
    }
}

/// Finds the slot that `irq` names, if it names one.
#[verifier::when_used_as_spec(spec_priority_slot)]
pub fn priority_slot(irq: i32) -> (slot: Option<PrioritySlot>)
    ensures
        slot == spec_priority_slot(irq),
{
    proof {
        lemma_low_bits(irq);
    }
    if irq >= 0 {
        let nr: u8 = (irq & 0xff) as u8;
        Some(PrioritySlot::Interrupt { nr })
    } else {
        let found: Option<SystemHandler> = match irq & 0xf {
            4 => Some(SystemHandler::MemoryManagement),
            5 => Some(SystemHandler::BusFault),
            6 => Some(SystemHandler::UsageFault),
            11 => Some(SystemHandler::SVCall),
            12 => Some(SystemHandler::DebugMonitor),
            14 => Some(SystemHandler::PendSV),
            15 => Some(SystemHandler::SysTick),
            _ => None,
        };
        match found {
            Some(handler) => Some(PrioritySlot::Exception { handler }),
            None => None,
        }
    }
}

/// Routes a priority to where it is kept. `irq` names the slot, and the low
/// eight bits of `prio` are the priority to store there. A number that
/// names no slot is a mistake of the caller: `priority_slot` tells.
pub fn set_priority(irq: i32, prio: u32) -> (write: PriorityWrite)
    requires
        priority_slot(irq) is Some,
    ensures
        Some(write.slot) == priority_slot(irq),
        write.prio == prio % 256,
{
    proof {
        lemma_low_byte(prio);
    }
    let slot: PrioritySlot = priority_slot(irq).unwrap();
    PriorityWrite { slot, prio: (prio & 0xff) as u8 }
}

/// Whatever the priority group, the preemption field and the sub-priority
/// field together take up exactly the implemented priority bits.
pub proof fn lemma_fields_share_implemented_bits(priority_group: u32)
    ensures
        preempt_priority_bits(priority_group) + sub_priority_bits(priority_group)
            == NVIC_PRIO_BITS,
{
}

/// Only the low three bits of the priority group count.
pub proof fn lemma_group_is_masked(priority_group: u32, preempt_priority: u32, sub_priority: u32)
    ensures
        encoded_priority(priority_group, preempt_priority, sub_priority) == encoded_priority(
            (priority_group % 8) as u32,
            preempt_priority,
            sub_priority,
        ),
{
}

/// An encoded priority fits in the implemented priority bits. The
/// preemption priority, cut to its field, is what lies above the
/// sub-priority field, and the sub-priority, cut to its field, is what lies
/// in it.
pub proof fn lemma_encoded_priority_fields(priority_group: u32, preempt_priority: u32, sub_priority: u32)
    ensures
        0 <= encoded_priority(priority_group, preempt_priority, sub_priority) < pow2(
            NVIC_PRIO_BITS as nat,
        ),
        encoded_priority(priority_group, preempt_priority, sub_priority) / pow2(
            sub_priority_bits(priority_group),
        ) as int == preempt_priority as int % pow2(preempt_priority_bits(priority_group)) as int,
        encoded_priority(priority_group, preempt_priority, sub_priority) % pow2(
            sub_priority_bits(priority_group),
        ) as int == sub_priority as int % pow2(sub_priority_bits(priority_group)) as int,
{
    lemma2_to64();
    let group: int = priority_group as int % 8;
    let low: int = pow2(sub_priority_bits(priority_group)) as int;
    let high: int = pow2(preempt_priority_bits(priority_group)) as int;
    let upper: int = preempt_priority as int % high;
    let lower: int = sub_priority as int % low;
    assert(high == 8 && low == 1 || high == 4 && low == 2 || high == 2 && low == 4 || high == 1
        && low == 8) by {
        if group <= 4 {
            assert(high == 8 && low == 1);
        } else if group == 5 {
            assert(high == 4 && low == 2);
        } else if group == 6 {
            assert(high == 2 && low == 4);
        } else {
            assert(high == 1 && low == 8);
        }
    }
    assert(high * low == 8) by (nonlinear_arith)
        requires
            high == 8 && low == 1 || high == 4 && low == 2 || high == 2 && low == 4 || high == 1
                && low == 8,
    ;
    assert(0 <= upper * low <= (high - 1) * low) by (nonlinear_arith)
        requires
            0 <= upper <= high - 1,
            low > 0,
    ;
    assert((high - 1) * low == high * low - low) by (nonlinear_arith);
    lemma_fundamental_div_mod_converse(upper * low + lower, low, upper, lower);
}

/// With priority group 0 all implemented bits are preemption bits: the
/// encoded priority is the preemption priority, cut to three bits.
pub proof fn lemma_group_zero_is_all_preemption(preempt_priority: u32, sub_priority: u32)
    ensures
        encoded_priority(0, preempt_priority, sub_priority) == preempt_priority % 8,
{
    lemma2_to64();
    assert(preempt_priority_bits(0) == 3 && sub_priority_bits(0) == 0);
}

/// With priority group 7 no bit is a preemption bit: the encoded priority
/// is the sub-priority, cut to three bits.
pub proof fn lemma_group_seven_is_all_sub_priority(preempt_priority: u32, sub_priority: u32)
    ensures
        encoded_priority(7, preempt_priority, sub_priority) == sub_priority % 8,
{
    lemma2_to64();
    assert(preempt_priority_bits(7) == 0 && sub_priority_bits(7) == 3);
}

/// The key, the priority group and the other bits make up the whole
/// register: two values that agree on all three are one value.
pub proof fn lemma_aircr_fields_are_whole(one: u32, other: u32)
    requires
        vectkey_field(one) == vectkey_field(other),
        prigroup_field(one) == prigroup_field(other),
        other_fields(one) == other_fields(other),
    ensures
        one == other,
{
    assert(one == other) by (bit_vector)
        requires
            vectkey_field(one) == vectkey_field(other),
            prigroup_field(one) == prigroup_field(other),
            other_fields(one) == other_fields(other),
    ;
}

/// `handler_numbered` finds an exception by its number: it gives `handler`
/// for the number of `handler` and for no other.
pub proof fn lemma_handler_numbered(number: int, handler: SystemHandler)
    ensures
        handler_numbered(number) == Some(handler) <==> handler.spec_index() == number,
{
}

/// A number below zero whose low four bits number none of the seven
/// exceptions names no slot, and every other number names one.
pub proof fn lemma_slot_missing_iff_unmapped(irq: i32)
    ensures
        priority_slot(irq) is None <==> irq < 0 && selector(irq) != 4 && selector(irq) != 5
            && selector(irq) != 6 && selector(irq) != 11 && selector(irq) != 12 && selector(irq)
            != 14 && selector(irq) != 15,
{
}

proof fn lemma_low_three_bits(priority_group: u32)
    ensures
        priority_group & 0x7 == priority_group % 8,
        priority_group & 0x7 <= 7,
{
    assert(priority_group & 0x7 == priority_group % 8) by (bit_vector);
}

proof fn lemma_pack_is_arithmetic(preempt: u32, sub: u32, high_bits: u32, low_bits: u32)
    requires
        high_bits + low_bits == 3,
    ensures
        1 <= (1u32 << high_bits) == pow2(high_bits as nat),
        1 <= (1u32 << low_bits) == pow2(low_bits as nat),
        ((preempt & (((1u32 << high_bits) - 1) as u32)) << low_bits) | (sub & (((1u32 << low_bits) - 1) as u32))
            == (preempt as int % pow2(high_bits as nat) as int) * pow2(low_bits as nat)
            + sub as int % pow2(low_bits as nat) as int,
{
    lemma2_to64();
    assert(1u32 << 0u32 == 1 && 1u32 << 1u32 == 2 && 1u32 << 2u32 == 4 && 1u32 << 3u32 == 8)
        by (bit_vector);
    if low_bits == 0 {
        assert(((preempt & 7u32) << 0u32) | (sub & 0u32) == (preempt % 8u32) * 1u32 + sub % 1u32)
            by (bit_vector);
    } else if low_bits == 1 {
        assert(((preempt & 3u32) << 1u32) | (sub & 1u32) == (preempt % 4u32) * 2u32 + sub % 2u32)
            by (bit_vector);
    } else if low_bits == 2 {
        assert(((preempt & 1u32) << 2u32) | (sub & 3u32) == (preempt % 2u32) * 4u32 + sub % 4u32)
            by (bit_vector);
    } else {
        assert(((preempt & 0u32) << 3u32) | (sub & 7u32) == (preempt % 1u32) * 8u32 + sub % 8u32)
            by (bit_vector);
    }
}

proof fn lemma_grouping_fields(aircr: u32, priority_group: u32, value: u32)
    requires
        value == (aircr & !(SCB_AIRCR_VECTKEY_MSK | SCB_AIRCR_PRIGROUP_MSK)) | (SCB_AIRCR_VECTKEY
            << SCB_AIRCR_VECTKEY_POS) | ((priority_group & 0x07) << SCB_AIRCR_PRIGROUP_POS),
    ensures
        vectkey_field(value) == SCB_AIRCR_VECTKEY,
        prigroup_field(value) == priority_group % 8,
        other_fields(value) == other_fields(aircr),
{
    assert(vectkey_field(value) == SCB_AIRCR_VECTKEY && prigroup_field(value) == priority_group % 8
        && other_fields(value) == other_fields(aircr)) by (bit_vector)
        requires
            value == (aircr & !(SCB_AIRCR_VECTKEY_MSK | SCB_AIRCR_PRIGROUP_MSK)) | (
            SCB_AIRCR_VECTKEY << SCB_AIRCR_VECTKEY_POS) | ((priority_group & 0x07)
                << SCB_AIRCR_PRIGROUP_POS),
    ;
}

proof fn lemma_low_bits(irq: i32)
    ensures
        irq & 0xf == irq as int % 16,
        irq >= 0 ==> irq & 0xff == irq as int % 256,
{
    assert(0 <= irq & 0xf < 16 && (irq - (irq & 0xf)) % 16 == 0) by (bit_vector);
    assert(irq >= 0 ==> irq & 0xff == irq % 256) by (bit_vector);
}

proof fn lemma_low_byte(word: u32)
    ensures
        word & 0xff == word % 256,
{
    assert(word & 0xff == word % 256) by (bit_vector);
}

} // verus!

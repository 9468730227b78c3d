use periph_hal::nvic::{
    encode_priority, priority_slot, set_priority, set_priority_grouping, PrioritySlot,
    PriorityWrite, SystemHandler, NVIC_PRIO_BITS, SCB_AIRCR_PRIGROUP_MSK, SCB_AIRCR_VECTKEY_MSK,
};

// Field widths for the priority groups 0 to 7.
const PREEMPT_BITS: [u32; 8] = [3, 3, 3, 3, 3, 2, 1, 0];
const SUB_BITS: [u32; 8] = [0, 0, 0, 0, 0, 1, 2, 3];

fn preempt_bits(group: u32) -> u32 {
    PREEMPT_BITS[(group & 7) as usize]
}

fn sub_bits(group: u32) -> u32 {
    SUB_BITS[(group & 7) as usize]
}

#[test]
fn field_widths_add_up_to_implemented_bits() {
    for group in 0..=7u32 {
        // All ones in one field show how wide the field is.
        let sub_field = encode_priority(group, 0, u32::MAX);
        let preempt_field = encode_priority(group, u32::MAX, 0);
        assert_eq!(sub_field.count_ones(), sub_bits(group));
        assert_eq!(preempt_field.count_ones(), preempt_bits(group));
        assert_eq!(preempt_field.count_ones() + sub_field.count_ones(), NVIC_PRIO_BITS);
        // The sub-priority field is at the bottom, the preemption field
        // right above it, and together they fill the implemented bits.
        assert_eq!(sub_field, (1 << sub_bits(group)) - 1);
        assert_eq!(preempt_field, 7 - sub_field);
        assert_eq!(encode_priority(group, u32::MAX, u32::MAX), 7);
    }
}

#[test]
fn group_zero_keeps_the_preemption_priority() {
    assert_eq!(encode_priority(0, 5, 0), 5);
    assert_eq!(encode_priority(0, 5, 7), 5);
    assert_eq!(encode_priority(0, 7, 1), 7);
    assert_eq!(encode_priority(0, 0, u32::MAX), 0);
    // Only three bits of the preemption priority are kept.
    assert_eq!(encode_priority(0, 8, 0), 0);
    assert_eq!(encode_priority(0, 13, 0), 5);
}

#[test]
fn group_seven_keeps_the_sub_priority() {
    assert_eq!(encode_priority(7, 0, 3), 3);
    assert_eq!(encode_priority(7, 7, 3), 3);
    assert_eq!(encode_priority(7, u32::MAX, 0), 0);
    // Only three bits of the sub-priority are kept.
    assert_eq!(encode_priority(7, 0, 11), 3);
    assert_eq!(encode_priority(7, 0, 8), 0);
}

#[test]
fn every_group_packs_both_fields() {
    // preemption 0b101, sub-priority 0b110
    let expected = [5, 5, 5, 5, 5, 2, 6, 6];
    for group in 0..8u32 {
        assert_eq!(encode_priority(group, 0b101, 0b110), expected[group as usize]);
    }
    // preemption 0b011, sub-priority 0b001
    let expected = [3, 3, 3, 3, 3, 7, 5, 1];
    for group in 0..8u32 {
        assert_eq!(encode_priority(group, 0b011, 0b001), expected[group as usize]);
    }
}

#[test]
fn groups_up_to_four_leave_no_sub_priority_bits() {
    for group in 0..=4u32 {
        for sub in 0..16u32 {
            assert_eq!(encode_priority(group, 6, sub), 6);
        }
    }
}

#[test]
fn only_three_bits_of_the_group_count() {
    for group in 0..8u32 {
        for preempt in 0..8u32 {
            for sub in 0..8u32 {
                let plain = encode_priority(group, preempt, sub);
                assert_eq!(encode_priority(group + 8, preempt, sub), plain);
                assert_eq!(encode_priority(group | 0xFFFF_FFF8, preempt, sub), plain);
            }
        }
    }
}

#[test]
fn encoded_priority_splits_back_into_its_fields() {
    for group in 0..8u32 {
        for preempt in 0..16u32 {
            for sub in 0..16u32 {
                let value = encode_priority(group, preempt, sub);
                assert!(value < 8);
                let low = sub_bits(group);
                assert_eq!(value >> low, preempt & ((1 << preempt_bits(group)) - 1));
                assert_eq!(value & ((1 << low) - 1), sub & ((1 << low) - 1));
            }
        }
    }
}

#[test]
fn grouping_keeps_the_unrelated_bits() {
    let unrelated = !(SCB_AIRCR_VECTKEY_MSK | SCB_AIRCR_PRIGROUP_MSK);
    assert_eq!(unrelated, 0x0000_F8FF);
    for aircr in [0u32, 0x0000_8004, 0x0000_F8FF, 0xFFFF_FFFF, 0xFA05_0000, 0x1234_5678] {
        for group in 0..8u32 {
            let value = set_priority_grouping(aircr, group);
            assert_eq!(value & unrelated, aircr & unrelated);
        }
    }
}

#[test]
fn grouping_sets_key_and_group() {
    assert_eq!(set_priority_grouping(0, 0), 0x05FA_0000);
    assert_eq!(set_priority_grouping(0, 3), 0x05FA_0300);
    assert_eq!(set_priority_grouping(0x0000_8004, 3), 0x05FA_8304);
    assert_eq!(set_priority_grouping(0xFFFF_FFFF, 0), 0x05FA_F8FF);
    assert_eq!(set_priority_grouping(0xFFFF_FFFF, 7), 0x05FA_FFFF);
    // An earlier key and group are replaced.
    assert_eq!(set_priority_grouping(0xFA05_0700, 5), 0x05FA_0500);
    assert_eq!(set_priority_grouping(0x05FA_0500, 2), 0x05FA_0200);
    for aircr in [0u32, 0x0000_8004, 0xFFFF_FFFF, 0x1234_5678] {
        for group in 0..8u32 {
            let value = set_priority_grouping(aircr, group);
            assert_eq!(value >> 16, 0x5FA);
            assert_eq!((value >> 8) & 7, group);
        }
    }
}

#[test]
fn grouping_masks_the_group_to_three_bits() {
    assert_eq!(set_priority_grouping(0, 8), 0x05FA_0000);
    assert_eq!(set_priority_grouping(0, 0xF), 0x05FA_0700);
    assert_eq!(set_priority_grouping(0, 0xFFFF_FFFD), 0x05FA_0500);
    assert_eq!(set_priority_grouping(0x0000_0800, 0x10), 0x05FA_0800);
}

#[test]
fn grouping_twice_is_grouping_once() {
    for aircr in [0u32, 0x0000_8004, 0xFFFF_FFFF] {
        for group in 0..8u32 {
            let once = set_priority_grouping(aircr, group);
            assert_eq!(set_priority_grouping(once, group), once);
        }
    }
}

#[test]
fn interrupts_are_numbered_by_their_low_byte() {
    assert_eq!(priority_slot(0), Some(PrioritySlot::Interrupt { nr: 0 }));
    assert_eq!(priority_slot(17), Some(PrioritySlot::Interrupt { nr: 17 }));
    assert_eq!(priority_slot(255), Some(PrioritySlot::Interrupt { nr: 255 }));
    assert_eq!(priority_slot(256), Some(PrioritySlot::Interrupt { nr: 0 }));
    assert_eq!(priority_slot(300), Some(PrioritySlot::Interrupt { nr: 44 }));
    assert_eq!(priority_slot(i32::MAX), Some(PrioritySlot::Interrupt { nr: 255 }));
}

#[test]
fn exceptions_are_found_by_the_low_four_bits() {
    let exception = |handler| Some(PrioritySlot::Exception { handler });
    assert_eq!(priority_slot(-12), exception(SystemHandler::MemoryManagement));
    assert_eq!(priority_slot(-11), exception(SystemHandler::BusFault));
    assert_eq!(priority_slot(-10), exception(SystemHandler::UsageFault));
    assert_eq!(priority_slot(-5), exception(SystemHandler::SVCall));
    assert_eq!(priority_slot(-4), exception(SystemHandler::DebugMonitor));
    assert_eq!(priority_slot(-2), exception(SystemHandler::PendSV));
    assert_eq!(priority_slot(-1), exception(SystemHandler::SysTick));
    // Sixteen lower, the low four bits are the same.
    assert_eq!(priority_slot(-17), exception(SystemHandler::SysTick));
    assert_eq!(priority_slot(-28), exception(SystemHandler::MemoryManagement));
    assert_eq!(priority_slot(i32::MIN + 11), exception(SystemHandler::SVCall));
}

#[test]
fn other_negative_numbers_have_no_slot() {
    for irq in [-3, -6, -7, -8, -9, -13, -14, -15, -16] {
        assert_eq!(priority_slot(irq), None);
        assert_eq!(priority_slot(irq - 16), None);
        assert_eq!(priority_slot(irq - 1600), None);
    }
    assert_eq!(priority_slot(i32::MIN), None);
}

#[test]
fn each_negative_number_has_a_slot_iff_its_low_bits_number_an_exception() {
    let numbers = [4u32, 5, 6, 11, 12, 14, 15];
    for irq in -64..0i32 {
        let low = (irq as u32) & 0xf;
        match priority_slot(irq) {
            Some(PrioritySlot::Exception { handler }) => {
                assert!(numbers.contains(&low));
                assert_eq!(handler.index() as u32, low);
            }
            Some(PrioritySlot::Interrupt { .. }) => panic!("{} is no interrupt", irq),
            None => assert!(!numbers.contains(&low)),
        }
    }
}

#[test]
fn exception_numbers() {
    assert_eq!(SystemHandler::MemoryManagement.index(), 4);
    assert_eq!(SystemHandler::BusFault.index(), 5);
    assert_eq!(SystemHandler::UsageFault.index(), 6);
    assert_eq!(SystemHandler::SVCall.index(), 11);
    assert_eq!(SystemHandler::DebugMonitor.index(), 12);
    assert_eq!(SystemHandler::PendSV.index(), 14);
    assert_eq!(SystemHandler::SysTick.index(), 15);
}

#[test]
fn set_priority_routes_interrupts_to_the_controller() {
    assert_eq!(
        set_priority(3, 0x40),
        PriorityWrite { slot: PrioritySlot::Interrupt { nr: 3 }, prio: 0x40 }
    );
    assert_eq!(
        set_priority(0, 0),
        PriorityWrite { slot: PrioritySlot::Interrupt { nr: 0 }, prio: 0 }
    );
    assert_eq!(
        set_priority(511, 0xE0),
        PriorityWrite { slot: PrioritySlot::Interrupt { nr: 255 }, prio: 0xE0 }
    );
}

#[test]
fn set_priority_routes_exceptions_to_the_processor() {
    assert_eq!(
        set_priority(-1, 0xE0),
        PriorityWrite { slot: PrioritySlot::Exception { handler: SystemHandler::SysTick }, prio: 0xE0 }
    );
    assert_eq!(
        set_priority(-2, 0xFF),
        PriorityWrite { slot: PrioritySlot::Exception { handler: SystemHandler::PendSV }, prio: 0xFF }
    );
    assert_eq!(
        set_priority(-5, 0x20),
        PriorityWrite { slot: PrioritySlot::Exception { handler: SystemHandler::SVCall }, prio: 0x20 }
    );
    assert_eq!(
        set_priority(-12, 1),
        PriorityWrite {
            slot: PrioritySlot::Exception { handler: SystemHandler::MemoryManagement },
            prio: 1
        }
    );
}

#[test]
fn set_priority_keeps_the_low_byte_of_the_priority() {
    assert_eq!(set_priority(7, 0x100).prio, 0);
    assert_eq!(set_priority(7, 0x1E0).prio, 0xE0);
    assert_eq!(set_priority(7, u32::MAX).prio, 0xFF);
    assert_eq!(set_priority(-1, 0xABCD_EF12).prio, 0x12);
}

#[test]
fn encoded_priority_is_routed_unchanged() {
    let prio = encode_priority(5, 2, 1);
    assert_eq!(prio, 5);
    assert_eq!(
        set_priority(9, prio),
        PriorityWrite { slot: PrioritySlot::Interrupt { nr: 9 }, prio: 5 }
    );
}

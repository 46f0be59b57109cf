use gich::{AllocError, GicHypervisorInterface, SlotState};

/// Simulated hardware acknowledgement: the guest takes the interrupt, so the
/// slot's state bits move from pending to active.
fn ack_slot(g: &mut GicHypervisorInterface, idx: usize) {
    let w = g.get_lr(idx);
    g.set_lr(idx, (w & !(3 << 28)) | (2 << 28));
}

/// Simulated guest completion of a software-maintained interrupt: the state
/// bits return to invalid while the end-of-interrupt bit stays set.
fn complete_slot(g: &mut GicHypervisorInterface, idx: usize) {
    let w = g.get_lr(idx);
    g.set_lr(idx, w & !(3 << 28));
}

#[test]
fn capability_discovery_decodes_the_type_register() {
    assert_eq!(GicHypervisorInterface::new(0).get_vtr(), 1);
    assert_eq!(GicHypervisorInterface::new(3).get_vtr(), 4);
    assert_eq!(GicHypervisorInterface::new(0x1f).get_vtr(), 32);
    // Only the low five bits of the type register report the count.
    assert_eq!(GicHypervisorInterface::new(0xffff_ffe3).get_vtr(), 4);
    assert_eq!(GicHypervisorInterface::new(3).capacity(), 4);
}

#[test]
fn reset_state_is_all_invalid() {
    let g = GicHypervisorInterface::new(3);
    assert_eq!(g.get_hcr(), 0);
    assert_eq!(g.get_vmcr(), 0);
    assert_eq!(g.apr(), 0);
    // Every implemented slot is empty; bits past the capacity read as zero.
    assert_eq!(g.elrsr(0), 0xf);
    assert_eq!(g.elrsr(1), 0);
    assert_eq!(g.eisr(0), 0);
    assert_eq!(g.eisr(1), 0);
    assert_eq!(g.misr(), 0);
    assert!(g.active_slots().is_empty());
    for idx in 0..4 {
        let e = g.read(idx);
        assert_eq!(e.state, SlotState::Invalid);
        assert_eq!(e.virtual_id, 0);
        assert_eq!(e.physical_id, None);
        assert_eq!(e.priority, 0);
        assert!(!e.group1);
        assert!(!e.needs_eoi_maintenance);
    }
}

#[test]
fn control_registers_read_back_what_was_written() {
    let mut g = GicHypervisorInterface::new(7);
    g.set_hcr(0x8000_0001);
    assert_eq!(g.get_hcr(), 0x8000_0001);
    g.set_vmcr(0x001f_0042);
    assert_eq!(g.get_vmcr(), 0x001f_0042);
    // Writing one register does not disturb the other.
    assert_eq!(g.get_hcr(), 0x8000_0001);
}

#[test]
fn allocate_writes_the_exact_hardware_encoding() {
    let mut g = GicHypervisorInterface::new(3);
    let r = g.allocate(34, 5, true, Some(100), false);
    assert_eq!(r, Ok(0));
    // 34 | 100 << 10 | 5 << 23 | pending << 28 | group1 | hw-linked
    assert_eq!(g.get_lr(0), 0xd281_9022);
    let e = g.read(0);
    assert_eq!(e.state, SlotState::Pending);
    assert_eq!(e.virtual_id, 34);
    assert_eq!(e.physical_id, Some(100));
    assert_eq!(e.priority, 5);
    assert!(e.group1);
    assert!(!e.needs_eoi_maintenance);
}

#[test]
fn allocate_sets_the_eoi_bit_for_software_maintained_entries() {
    let mut g = GicHypervisorInterface::new(3);
    assert_eq!(g.allocate(34, 0, false, None, true), Ok(0));
    // 34 | eoi bit 19 | pending << 28
    assert_eq!(g.get_lr(0), 0x1008_0022);
    let e = g.read(0);
    assert_eq!(e.physical_id, None);
    assert!(e.needs_eoi_maintenance);
}

#[test]
fn allocate_takes_only_free_slots_and_clears_their_empty_bit() {
    let mut g = GicHypervisorInterface::new(3);
    assert_eq!(g.elrsr(0) & 1, 1);
    assert_eq!(g.allocate(34, 0, false, None, false), Ok(0));
    // The returned slot's empty-status bit is clear from now on.
    assert_eq!(g.elrsr(0) & 1, 0);
    // A further allocation goes to the next slot and leaves slot 0 occupied.
    assert_eq!(g.allocate(35, 0, false, None, false), Ok(1));
    assert_eq!(g.elrsr(0) & 3, 0);
    // Only retire frees the slot again.
    g.retire(0);
    assert_eq!(g.elrsr(0) & 1, 1);
}

#[test]
fn allocate_reuses_the_lowest_retired_slot() {
    let mut g = GicHypervisorInterface::new(3);
    assert_eq!(g.allocate(40, 0, false, None, false), Ok(0));
    assert_eq!(g.allocate(41, 0, false, None, false), Ok(1));
    assert_eq!(g.allocate(42, 0, false, None, false), Ok(2));
    g.retire(1);
    assert_eq!(g.allocate(43, 0, false, None, false), Ok(1));
    assert_eq!(g.read(1).virtual_id, 43);
}

#[test]
fn retire_zeroes_the_slot() {
    let mut g = GicHypervisorInterface::new(3);
    assert_eq!(g.allocate(34, 5, true, Some(100), false), Ok(0));
    g.retire(0);
    assert_eq!(g.get_lr(0), 0);
    let e = g.read(0);
    assert_eq!(e.state, SlotState::Invalid);
    assert_eq!(e.virtual_id, 0);
    assert_eq!(e.physical_id, None);
    assert_eq!(e.priority, 0);
    assert!(!e.group1);
    assert!(!e.needs_eoi_maintenance);
}

#[test]
fn exhausting_the_table_fails_with_no_free_slot() {
    let mut g = GicHypervisorInterface::new(3);
    for i in 0..4 {
        assert_eq!(g.allocate(32 + i as u16, 0, false, None, false), Ok(i));
    }
    assert_eq!(g.allocate(99, 0, false, None, false), Err(AllocError::NoFreeSlot));
    // The empty-status vector reads as entirely clear at that point.
    assert_eq!(g.elrsr(0), 0);
    assert_eq!(g.elrsr(1), 0);
    // The failed call changed nothing.
    for i in 0..4 {
        assert_eq!(g.read(i).virtual_id, 32 + i as u16);
    }
    // A single-slot table behaves the same way.
    let mut small = GicHypervisorInterface::new(0);
    assert_eq!(small.allocate(34, 0, false, None, false), Ok(0));
    assert_eq!(small.allocate(35, 0, false, None, false), Err(AllocError::NoFreeSlot));
}

#[test]
fn active_slots_lists_occupied_indices_in_ascending_order() {
    let mut g = GicHypervisorInterface::new(3);
    assert!(g.active_slots().is_empty());
    assert_eq!(g.allocate(40, 0, false, None, false), Ok(0));
    assert_eq!(g.allocate(41, 0, false, None, false), Ok(1));
    assert_eq!(g.allocate(42, 0, false, None, false), Ok(2));
    g.retire(1);
    assert_eq!(g.active_slots(), vec![0, 2]);
    // Repeated calls have no side effect and agree with the status vector.
    assert_eq!(g.active_slots(), vec![0, 2]);
    for i in 0..4u32 {
        let empty_bit = (g.elrsr(0) >> i) & 1 == 1;
        assert_eq!(g.active_slots().contains(&(i as usize)), !empty_bit);
    }
}

#[test]
fn maintenance_conditions_are_gated_by_their_enable_bits() {
    let mut g = GicHypervisorInterface::new(3);
    // Underflow (fewer than two occupied) and no-pending both hold, but the
    // control register has not enabled them.
    assert_eq!(g.misr(), 0);
    let e = g.pending_events();
    assert!(!e.eoi_maintenance_needed && !e.underflow && !e.no_pending_slots);
    // Enable underflow (bit 1) and no-pending (bit 3).
    g.set_hcr((1 << 1) | (1 << 3));
    assert_eq!(g.misr(), (1 << 1) | (1 << 3));
    let e = g.pending_events();
    assert!(!e.eoi_maintenance_needed && e.underflow && e.no_pending_slots);
    // Two pending entries: neither condition holds any more.
    assert_eq!(g.allocate(40, 0, false, None, false), Ok(0));
    assert_eq!(g.allocate(41, 0, false, None, false), Ok(1));
    assert_eq!(g.misr(), 0);
    // Both acknowledged: still two occupied, but none pending.
    ack_slot(&mut g, 0);
    ack_slot(&mut g, 1);
    assert_eq!(g.misr(), 1 << 3);
    let e = g.pending_events();
    assert!(!e.underflow && e.no_pending_slots);
}

#[test]
fn eoi_lifecycle_raises_and_clears_the_maintenance_condition() {
    // A four-slot table; two software-maintained level interrupts.
    let mut g = GicHypervisorInterface::new(3);
    assert_eq!(g.capacity(), 4);
    assert_eq!(g.allocate(34, 0, false, None, true), Ok(0));
    assert_eq!(g.allocate(35, 0, false, None, true), Ok(1));
    assert_eq!(g.read(0).state, SlotState::Pending);
    assert_eq!(g.read(1).state, SlotState::Pending);
    // The guest acknowledges slot 0.
    ack_slot(&mut g, 0);
    assert_eq!(g.read(0).state, SlotState::Active);
    // No end-of-interrupt flag is set yet, so no maintenance is needed.
    assert_eq!(g.eisr(0), 0);
    assert!(!g.pending_events().eoi_maintenance_needed);
    assert_eq!(g.misr() & 1, 0);
    // The guest completes slot 0's level interrupt.
    complete_slot(&mut g, 0);
    assert_eq!(g.eisr(0), 1);
    assert!(g.pending_events().eoi_maintenance_needed);
    assert_eq!(g.misr() & 1, 1);
    // The hypervisor retires the slot, clearing the condition.
    g.retire(0);
    assert_eq!(g.read(0).state, SlotState::Invalid);
    assert_eq!(g.eisr(0), 0);
    assert!(!g.pending_events().eoi_maintenance_needed);
    // Slot 1 is untouched throughout.
    assert_eq!(g.read(1).state, SlotState::Pending);
    assert_eq!(g.read(1).virtual_id, 35);
}

#[test]
fn eisr_reports_only_software_maintained_completions() {
    let mut g = GicHypervisorInterface::new(3);
    // A hardware-linked entry completes without software help: its slot
    // returns to invalid with the linkage bit still set, and no
    // end-of-interrupt condition is reported.
    assert_eq!(g.allocate(34, 0, false, Some(34), false), Ok(0));
    ack_slot(&mut g, 0);
    complete_slot(&mut g, 0);
    assert_eq!(g.eisr(0), 0);
    assert!(!g.pending_events().eoi_maintenance_needed);
}

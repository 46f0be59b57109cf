//! The list-register word: the 32-bit hardware encoding of one virtual
//! interrupt slot, its field layout, and the decoded software view.
//!
//! Field layout of a list-register word:
//! - bits `[9:0]`: virtual interrupt ID presented to the guest,
//! - bits `[19:10]`: physical interrupt ID, meaningful only when the
//!   hardware-linkage bit is set,
//! - bit `19`: end-of-interrupt maintenance request, meaningful only when the
//!   hardware-linkage bit is clear,
//! - bits `[27:23]`: priority (lower value means higher priority),
//! - bits `[29:28]`: state (`00` invalid, `01` pending, `10` active,
//!   `11` pending and active),
//! - bit `30`: interrupt group (set means group 1),
//! - bit `31`: hardware linkage (set means a physical interrupt is forwarded
//!   through this slot and deactivation is linked to it).

use vstd::prelude::*;

use crate::bits::bit;

verus! {

/// Lifecycle state of one list-register slot, as encoded in its state bits.
#[derive(Clone, Copy, Debug, PartialEq, Eq)]
pub enum SlotState {
    /// The slot holds no interrupt and is free for allocation.
    Invalid,
    /// The interrupt awaits acknowledgement by the guest.
    Pending,
    /// The guest has acknowledged the interrupt and not yet completed it.
    Active,
    /// A second occurrence arrived while the first is still active.
    PendingAndActive,
}

/// The decoded, software-visible content of one list-register slot.
#[derive(Clone, Copy, Debug, PartialEq, Eq)]
pub struct SlotEntry {
    /// Lifecycle state of the slot.
    pub state: SlotState,
    /// Interrupt ID the guest perceives (0..1024).
    pub virtual_id: u16,
    /// Physical interrupt ID forwarded through this slot, when one is linked.
    pub physical_id: Option<u16>,
    /// Priority field (five bits; lower value means higher priority).
    pub priority: u8,
    /// True when the interrupt belongs to group 1.
    pub group1: bool,
    /// True when the guest's end-of-interrupt must raise a maintenance
    /// interrupt so the hypervisor can retire the slot itself.
    pub needs_eoi_maintenance: bool,
}

/// Virtual interrupt ID field of a list-register word.
pub open spec fn lr_vid(w: u32) -> u32 {
    w & 0x3ff
}

/// Physical interrupt ID field of a list-register word.
pub open spec fn lr_pid(w: u32) -> u32 {
    (w >> 10) & 0x3ff
}

/// End-of-interrupt maintenance bit of a list-register word.
pub open spec fn lr_eoi(w: u32) -> bool {
    bit(w, 19)
}

/// Priority field of a list-register word.
pub open spec fn lr_priority(w: u32) -> u32 {
    (w >> 23) & 0x1f
}

/// State bits of a list-register word.
pub open spec fn lr_state_bits(w: u32) -> u32 {
    (w >> 28) & 3
}

/// Group bit of a list-register word.
pub open spec fn lr_group1(w: u32) -> bool {
    bit(w, 30)
}

/// Hardware-linkage bit of a list-register word.
pub open spec fn lr_hw(w: u32) -> bool {
    bit(w, 31)
}

/// A slot is empty when its state bits encode `Invalid`; the empty-status
/// vector reports exactly this, one bit per slot.
pub open spec fn slot_is_empty(w: u32) -> bool {
    lr_state_bits(w) == 0
}

/// A slot is pending when its low state bit is set (`Pending` or
/// `PendingAndActive`).
pub open spec fn slot_is_pending(w: u32) -> bool {
    lr_state_bits(w) == 1 || lr_state_bits(w) == 3
}

/// A slot has an outstanding end-of-interrupt maintenance condition when the
/// guest has completed it (state back to `Invalid`), no physical interrupt is
/// linked, and the maintenance bit was set; the hypervisor must still retire
/// the slot. The eoi-pending-status vector reports exactly this.
pub open spec fn slot_eoi_pending(w: u32) -> bool {
    slot_is_empty(w) && !lr_hw(w) && lr_eoi(w)
}

/// The slot state encoded by a list-register word's state bits.
pub open spec fn spec_state(w: u32) -> SlotState {
    if lr_state_bits(w) == 0 {
        SlotState::Invalid
    } else if lr_state_bits(w) == 1 {
        SlotState::Pending
    } else if lr_state_bits(w) == 2 {
        SlotState::Active
    } else {
        SlotState::PendingAndActive
    }
}

/// The decoded view of a list-register word.
pub open spec fn spec_decode(w: u32) -> SlotEntry {
    SlotEntry {
        state: spec_state(w),
        virtual_id: lr_vid(w) as u16,
        physical_id: if lr_hw(w) {
            Some(lr_pid(w) as u16)
        } else {
            None
        },
        priority: lr_priority(w) as u8,
        group1: lr_group1(w),
        needs_eoi_maintenance: !lr_hw(w) && lr_eoi(w),
    }
}

/// The word written when a pending interrupt is placed into a slot, from its
/// raw field values: `hw` selects between a linked physical ID and the
/// end-of-interrupt maintenance bit.
pub open spec fn raw_encode(vid: u32, prio: u32, grp: bool, hw: bool, pid: u32, eoi: bool) -> u32 {
    vid | (prio << 23) | 0x1000_0000u32 | (if grp {
        0x4000_0000u32
    } else {
        0u32
    }) | (if hw {
        0x8000_0000u32 | (pid << 10)
    } else if eoi {
        0x0008_0000u32
    } else {
        0u32
    })
}

/// The word `allocate` writes for a new pending entry.
pub open spec fn spec_encode(
    virtual_id: u16,
    priority: u8,
    group1: bool,
    physical_id: Option<u16>,
    needs_eoi_maintenance: bool,
) -> u32 {
    match physical_id {
        Some(p) => raw_encode(virtual_id as u32, priority as u32, group1, true, p as u32, false),
        None => raw_encode(
            virtual_id as u32,
            priority as u32,
            group1,
            false,
            0,
            needs_eoi_maintenance,
        ),
    }
}

/// Encode a new pending entry into its list-register word.
pub fn encode_pending(
    virtual_id: u16,
    priority: u8,
    group1: bool,
    physical_id: Option<u16>,
    needs_eoi_maintenance: bool,
) -> (w: u32)
    requires
        virtual_id < 1024,
        priority < 32,
        physical_id matches Some(p) ==> p < 1024,
    ensures
        w == spec_encode(virtual_id, priority, group1, physical_id, needs_eoi_maintenance),
{
    let grp: u32 = if group1 {
        0x4000_0000
    } else {
        0
    };
    let base = (virtual_id as u32) | ((priority as u32) << 23) | 0x1000_0000u32 | grp;
    match physical_id {
        Some(p) => base | (0x8000_0000u32 | ((p as u32) << 10)),
        None => {
            let tail: u32 = if needs_eoi_maintenance {
                0x0008_0000
            } else {
                0
            };
            base | tail
        }
    }
}

/// Each field of a freshly encoded pending word reads back as what was
/// written: the fields do not overlap and the state bits encode `Pending`.
proof fn lemma_raw_encode_fields(vid: u32, prio: u32, grp: bool, hw: bool, pid: u32, eoi: bool)
    by (bit_vector)
    requires
        vid < 1024,
        prio < 32,
        pid < 1024,
    ensures
        lr_vid(raw_encode(vid, prio, grp, hw, pid, eoi)) == vid,
        lr_priority(raw_encode(vid, prio, grp, hw, pid, eoi)) == prio,
        lr_state_bits(raw_encode(vid, prio, grp, hw, pid, eoi)) == 1,
        lr_group1(raw_encode(vid, prio, grp, hw, pid, eoi)) == grp,
        lr_hw(raw_encode(vid, prio, grp, hw, pid, eoi)) == hw,
        hw ==> lr_pid(raw_encode(vid, prio, grp, hw, pid, eoi)) == pid,
        !hw ==> lr_eoi(raw_encode(vid, prio, grp, hw, pid, eoi)) == eoi,
{
}

/// Decoding the word that `allocate` writes yields exactly the entry that was
/// requested, in state `Pending`.
pub proof fn lemma_decode_encode(
    virtual_id: u16,
    priority: u8,
    group1: bool,
    physical_id: Option<u16>,
    needs_eoi_maintenance: bool,
)
    requires
        virtual_id < 1024,
        priority < 32,
        physical_id matches Some(p) ==> p < 1024,
        physical_id is Some ==> !needs_eoi_maintenance,
    ensures
        spec_decode(spec_encode(virtual_id, priority, group1, physical_id, needs_eoi_maintenance))
            == (SlotEntry {
            state: SlotState::Pending,
            virtual_id,
            physical_id,
            priority,
            group1,
            needs_eoi_maintenance,
        }),
        !slot_is_empty(
            spec_encode(virtual_id, priority, group1, physical_id, needs_eoi_maintenance),
        ),
        slot_is_pending(
            spec_encode(virtual_id, priority, group1, physical_id, needs_eoi_maintenance),
        ),
{
    match physical_id {
        Some(p) => {
            lemma_raw_encode_fields(
                virtual_id as u32,
                priority as u32,
                group1,
                true,
                p as u32,
                false,
            );
        }
        None => {
            lemma_raw_encode_fields(
                virtual_id as u32,
                priority as u32,
                group1,
                false,
                0,
                needs_eoi_maintenance,
            );
        }
    }
}

/// A retired slot (an all-zero word) decodes to state `Invalid` with every
/// identity, priority and group field zeroed and no maintenance request.
pub proof fn lemma_retired_word_reads_invalid()
    ensures
        spec_decode(0u32) == (SlotEntry {
            state: SlotState::Invalid,
            virtual_id: 0,
            physical_id: None,
            priority: 0,
            group1: false,
            needs_eoi_maintenance: false,
        }),
        slot_is_empty(0u32),
        !slot_is_pending(0u32),
        !slot_eoi_pending(0u32),
{
    assert(lr_state_bits(0u32) == 0 && lr_vid(0u32) == 0 && lr_pid(0u32) == 0 && lr_priority(0u32)
        == 0 && !lr_group1(0u32) && !lr_hw(0u32) && !lr_eoi(0u32)) by (bit_vector);
}

} // verus!

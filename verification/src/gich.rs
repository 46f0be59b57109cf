//! The hypervisor-interface register block and the virtual-interrupt
//! lifecycle protocol driven through it: capability discovery, the
//! list-register table (allocate, read, retire, occupancy), the derived
//! status vectors, and the maintenance event decoder.
//!
//! The block is modelled as per-core owned state: one value of
//! [`GicHypervisorInterface`] stands for one core's hypervisor interface, and
//! the two status vectors and the maintenance-status register are derived,
//! read-only projections of the list-register table, recomputed on every
//! read and never written by software. Hardware-driven transitions of a slot
//! (guest acknowledgement, guest completion) are raw list-register writes
//! from the owner's point of view, so `set_lr` is the full write primitive
//! the protocol rests on.

use vstd::prelude::*;

use crate::bits::{bit, bit_get, lemma_set_bit, lemma_zero_bits};
use crate::list_register::{
    encode_pending, lemma_decode_encode, lemma_retired_word_reads_invalid, slot_eoi_pending,
    slot_is_empty, slot_is_pending, spec_decode, spec_encode, SlotEntry, SlotState,
};

verus! {

/// Number of list-register words the register block lays out. Hardware
/// implements the first `capacity()` of them; the rest read as zero.
pub const GIC_LIST_REGS_NUM: usize = 64;

/// Number of 32-bit words in each status vector.
pub const GIC_STATUS_WORDS: usize = GIC_LIST_REGS_NUM / 32;

/// Bit of the hypervisor control register that enables the underflow
/// maintenance condition.
pub const HCR_UNDERFLOW_ENABLE_BIT: u32 = 1;

/// Bit of the hypervisor control register that enables the no-pending
/// maintenance condition.
pub const HCR_NO_PENDING_ENABLE_BIT: u32 = 3;

/// Bit of the maintenance-status register that reports an outstanding
/// end-of-interrupt condition on some slot.
pub const MISR_EOI_BIT: u32 = 0;

/// Bit of the maintenance-status register that reports the underflow
/// condition.
pub const MISR_UNDERFLOW_BIT: u32 = 1;

/// Bit of the maintenance-status register that reports the no-pending
/// condition.
pub const MISR_NO_PENDING_BIT: u32 = 3;

/// The abstract state of the register block: the software-written control
/// and mirror registers, the hardware-reported type register, and the
/// list-register table. Everything else the block exposes is derived from
/// these.
pub ghost struct GichState {
    /// Hypervisor control register (global and maintenance enables).
    pub hcr: u32,
    /// Type register; its low five bits report the list-register count.
    pub vtr: u32,
    /// Virtual machine control register (the guest's CPU-interface mirror).
    pub vmcr: u32,
    /// Active-priority bitmap (read-only to this layer).
    pub apr: u32,
    /// The list-register words, one per slot.
    pub lr: Seq<u32>,
}

impl GichState {
    /// The hardware-reported slot count: the type register's low five-bit
    /// field plus one, so always within `1..=32`.
    pub open spec fn capacity(&self) -> int {
        (self.vtr & 0x1f) + 1
    }

    /// Bit `n` of the empty-status vector: set exactly when slot `n` exists
    /// and is free for allocation. Bits past the capacity read as zero.
    pub open spec fn empty_status(&self, n: int) -> bool {
        0 <= n < self.capacity() && slot_is_empty(self.lr[n])
    }

    /// Slot `n` exists and currently holds an interrupt: the complement,
    /// within the capacity, of the empty-status vector.
    pub open spec fn occupied_at(&self, n: int) -> bool {
        0 <= n < self.capacity() && !slot_is_empty(self.lr[n])
    }

    /// Bit `n` of the eoi-pending-status vector: set exactly when slot `n`
    /// exists and holds an outstanding end-of-interrupt maintenance
    /// condition. Bits past the capacity read as zero.
    pub open spec fn eoi_pending_status(&self, n: int) -> bool {
        0 <= n < self.capacity() && slot_eoi_pending(self.lr[n])
    }

    /// Some slot has an outstanding end-of-interrupt maintenance condition.
    pub open spec fn eoi_condition(&self) -> bool {
        exists|n: int| self.eoi_pending_status(n)
    }

    /// Number of occupied slots among the first `n`.
    pub open spec fn occupied_below(&self, n: int) -> int
        decreases n,
    {
        if n <= 0 {
            0
        } else {
            self.occupied_below(n - 1) + if slot_is_empty(self.lr[n - 1]) {
                0int
            } else {
                1int
            }
        }
    }

    /// The underflow maintenance condition: enabled through the control
    /// register, and fewer than two slots still hold an interrupt.
    pub open spec fn underflow_condition(&self) -> bool {
        bit(self.hcr, HCR_UNDERFLOW_ENABLE_BIT) && self.occupied_below(self.capacity()) < 2
    }

    /// The no-pending maintenance condition: enabled through the control
    /// register, and no slot is in a pending state.
    pub open spec fn no_pending_condition(&self) -> bool {
        bit(self.hcr, HCR_NO_PENDING_ENABLE_BIT) && forall|n: int|
            0 <= n < self.capacity() ==> !slot_is_pending(self.lr[n])
    }

    /// The value the maintenance-status register reads as: one condition
    /// flag per bit, zero elsewhere.
    pub open spec fn misr_value(&self) -> u32 {
        (if self.eoi_condition() {
            1u32
        } else {
            0u32
        }) | (if self.underflow_condition() {
            2u32
        } else {
            0u32
        }) | (if self.no_pending_condition() {
            8u32
        } else {
            0u32
        })
    }
}

/// One core's hypervisor interface: the owned register block. Exactly one
/// live value per physical core; it is neither copied nor shared, so every
/// register transfer below is single-owner by construction.
pub struct GicHypervisorInterface {
    hcr: u32,
    vtr: u32,
    vmcr: u32,
    apr: u32,
    lr: Vec<u32>,
}

impl View for GicHypervisorInterface {
    type V = GichState;

    closed spec fn view(&self) -> GichState {
        GichState { hcr: self.hcr, vtr: self.vtr, vmcr: self.vmcr, apr: self.apr, lr: self.lr@ }
    }
}

impl GicHypervisorInterface {
    /// The register block always lays out its full complement of
    /// list-register words.
    pub open spec fn wf(&self) -> bool {
        self@.lr.len() == GIC_LIST_REGS_NUM
    }

    /// The capacity never exceeds the laid-out list-register words.
    pub proof fn lemma_capacity_in_range(&self)
        ensures
            1 <= self@.capacity() <= 32,
    {
        let vtr = self@.vtr;
        assert((vtr & 0x1f) < 32) by (bit_vector);
    }

    /// Construct the per-core interface from the hardware-reported type
    /// register value, with every software-writable register at its reset
    /// value and every slot `Invalid`.
    pub fn new(vtr: u32) -> (s: Self)
        ensures
            s.wf(),
            s@.vtr == vtr,
            s@.hcr == 0,
            s@.vmcr == 0,
            s@.apr == 0,
            forall|n: int| 0 <= n < GIC_LIST_REGS_NUM ==> s@.lr[n] == 0u32,
    {
        let mut lr: Vec<u32> = Vec::new();
        let mut i: usize = 0;
        while i < GIC_LIST_REGS_NUM
            invariant
                i <= GIC_LIST_REGS_NUM,
                lr@.len() == i,
                forall|n: int| 0 <= n < i ==> lr@[n] == 0u32,
            decreases GIC_LIST_REGS_NUM - i,
        {
            lr.push(0);
            i += 1;
        }
        GicHypervisorInterface { hcr: 0, vtr, vmcr: 0, apr: 0, lr }
    }

    /// The hardware-reported slot count, decoded from the type register:
    /// the raw five-bit field plus one, hence at least 1 and at most 32.
    /// Constant for the lifetime of the interface.
    pub fn capacity(&self) -> (n: usize)
        ensures
            n == self@.capacity(),
            1 <= n <= 32,
    {
        proof {
            self.lemma_capacity_in_range();
        }
        ((self.vtr & 0x1f) + 1) as usize
    }

    /// The list-register count as the type register reports it: the raw
    /// field value plus one. Identical to `capacity`, kept as the register
    /// accessor.
    pub fn get_vtr(&self) -> (n: u32)
        ensures
            n == self@.capacity(),
            1 <= n <= 32,
    {
        proof {
            self.lemma_capacity_in_range();
        }
        (self.vtr & 0b11111) + 1
    }

    /// Read the hypervisor control register.
    pub fn get_hcr(&self) -> (r: u32)
        ensures
            r == self@.hcr,
    {
        self.hcr
    }

    /// Write the hypervisor control register; nothing else changes.
    pub fn set_hcr(&mut self, hcr: u32)
        requires
            old(self).wf(),
        ensures
            final(self).wf(),
            final(self)@ == (GichState { hcr, ..old(self)@ }),
    {
        self.hcr = hcr;
    }

    /// Read the virtual machine control register.
    pub fn get_vmcr(&self) -> (r: u32)
        ensures
            r == self@.vmcr,
    {
        self.vmcr
    }

    /// Write the virtual machine control register; nothing else changes.
    pub fn set_vmcr(&mut self, vmcr: u32)
        requires
            old(self).wf(),
        ensures
            final(self).wf(),
            final(self)@ == (GichState { vmcr, ..old(self)@ }),
    {
        self.vmcr = vmcr;
    }

    /// Read the active-priority bitmap: one bit per active group-of-eight
    /// priority level. Read-only at this layer.
    pub fn apr(&self) -> (r: u32)
        ensures
            r == self@.apr,
    {
        self.apr
    }

    /// Read the raw list-register word of slot `idx`.
    pub fn get_lr(&self, idx: usize) -> (r: u32)
        requires
            self.wf(),
            idx < self@.capacity(),
        ensures
            r == self@.lr[idx as int],
    {
        proof {
            self.lemma_capacity_in_range();
        }
        self.lr[idx]
    }

    /// Write the raw list-register word of slot `idx`; no other register
    /// changes. This is the one write primitive into the table: `allocate`
    /// and `retire` are specialisations of it, and the guest-driven state
    /// transitions appear to the owner as writes of this shape.
    pub fn set_lr(&mut self, idx: usize, lr: u32)
        requires
            old(self).wf(),
            idx < old(self)@.capacity(),
        ensures
            final(self).wf(),
            final(self)@ == (GichState { lr: old(self)@.lr.update(idx as int, lr), ..old(self)@ }),
    {
        proof {
            self.lemma_capacity_in_range();
        }
        self.lr.set(idx, lr);
    }

    /// Read word `idx` of the empty-status vector: bit `j` of the result is
    /// set exactly when slot `idx * 32 + j` exists and is free for
    /// allocation. Derived from the table on every read, never cached.
    pub fn elrsr(&self, idx: usize) -> (r: u32)
        requires
            self.wf(),
            idx < GIC_STATUS_WORDS,
        ensures
            forall|j: u32| j < 32 ==> #[trigger] bit(r, j) == self@.empty_status(idx * 32 + j),
    {
        let cap = self.capacity();
        let base = idx * 32;
        let mut r: u32 = 0;
        let mut k: u32 = 0;
        proof {
            lemma_zero_bits();
        }
        while k < 32
            invariant
                self.wf(),
                idx < GIC_STATUS_WORDS,
                base == idx * 32,
                cap == self@.capacity(),
                1 <= cap <= 32,
                k <= 32,
                forall|j: u32| j < k ==> #[trigger] bit(r, j) == self@.empty_status(idx * 32 + j),
                forall|j: u32| k <= j < 32 ==> !(#[trigger] bit(r, j)),
            decreases 32 - k,
        {
            let n = base + k as usize;
            if n < cap {
                let w = self.lr[n];
                if (w >> 28) & 3 == 0 {
                    proof {
                        lemma_set_bit(r, k);
                    }
                    r = r | (1u32 << k);
                }
            }
            k += 1;
        }
        r
    }

    /// Read word `idx` of the eoi-pending-status vector: bit `j` of the
    /// result is set exactly when slot `idx * 32 + j` exists and holds an
    /// outstanding end-of-interrupt maintenance condition. Derived from the
    /// table on every read, never cached.
    pub fn eisr(&self, idx: usize) -> (r: u32)
        requires
            self.wf(),
            idx < GIC_STATUS_WORDS,
        ensures
            forall|j: u32| j < 32 ==> #[trigger] bit(r, j) == self@.eoi_pending_status(
                idx * 32 + j,
            ),
    {
        let cap = self.capacity();
        let base = idx * 32;
        let mut r: u32 = 0;
        let mut k: u32 = 0;
        proof {
            lemma_zero_bits();
        }
        while k < 32
            invariant
                self.wf(),
                idx < GIC_STATUS_WORDS,
                base == idx * 32,
                cap == self@.capacity(),
                1 <= cap <= 32,
                k <= 32,
                forall|j: u32| j < k ==> #[trigger] bit(r, j) == self@.eoi_pending_status(
                    idx * 32 + j,
                ),
                forall|j: u32| k <= j < 32 ==> !(#[trigger] bit(r, j)),
            decreases 32 - k,
        {
            let n = base + k as usize;
            if n < cap {
                let w = self.lr[n];
                if (w >> 28) & 3 == 0 && !bit_get(w, 31) && bit_get(w, 19) {
                    proof {
                        lemma_set_bit(r, k);
                    }
                    r = r | (1u32 << k);
                }
            }
            k += 1;
        }
        r
    }

    /// Read the maintenance-status register: the independent condition flags,
    /// each derived from the table and the control-register enables at the
    /// instant of the read. Purely observational; no register changes.
    pub fn misr(&self) -> (r: u32)
        requires
            self.wf(),
        ensures
            r == self@.misr_value(),
            bit(r, MISR_EOI_BIT) == self@.eoi_condition(),
            bit(r, MISR_UNDERFLOW_BIT) == self@.underflow_condition(),
            bit(r, MISR_NO_PENDING_BIT) == self@.no_pending_condition(),
            forall|j: u32|
                j < 32 && j != MISR_EOI_BIT && j != MISR_UNDERFLOW_BIT && j != MISR_NO_PENDING_BIT
                    ==> !(#[trigger] bit(r, j)),
    {
        let cap = self.capacity();
        let mut any_eoi = false;
        let mut any_pending = false;
        let mut occupied: u32 = 0;
        let mut n: usize = 0;
        while n < cap
            invariant
                self.wf(),
                cap == self@.capacity(),
                1 <= cap <= 32,
                n <= cap,
                occupied <= n,
                any_eoi == (exists|m: int| 0 <= m < n && slot_eoi_pending(self@.lr[m])),
                any_pending == (exists|m: int| 0 <= m < n && slot_is_pending(self@.lr[m])),
                occupied == self@.occupied_below(n as int),
            decreases cap - n,
        {
            let w = self.lr[n];
            let state = (w >> 28) & 3;
            if state == 0 {
                if !bit_get(w, 31) && bit_get(w, 19) {
                    proof {
                        assert(slot_eoi_pending(self@.lr[n as int]));
                    }
                    any_eoi = true;
                }
            } else {
                occupied += 1;
                if state == 1 || state == 3 {
                    proof {
                        assert(slot_is_pending(self@.lr[n as int]));
                    }
                    any_pending = true;
                }
            }
            n += 1;
        }
        proof {
            if any_eoi {
                let m = choose|m: int| 0 <= m < cap && slot_eoi_pending(self@.lr[m]);
                assert(self@.eoi_pending_status(m));
            }
            if self@.eoi_condition() {
                let m = choose|m: int| self@.eoi_pending_status(m);
                assert(0 <= m < cap && slot_eoi_pending(self@.lr[m]));
            }
            if !any_pending {
                assert forall|m: int| 0 <= m < self@.capacity() implies !slot_is_pending(
                    self@.lr[m],
                ) by {
                    assert(!(0 <= m < cap && slot_is_pending(self@.lr[m])));
                }
            }
        }
        let underflow = bit_get(self.hcr, HCR_UNDERFLOW_ENABLE_BIT) && occupied < 2;
        let no_pending = bit_get(self.hcr, HCR_NO_PENDING_ENABLE_BIT) && !any_pending;
        let fa: u32 = if any_eoi {
            1
        } else {
            0
        };
        let fb: u32 = if underflow {
            2
        } else {
            0
        };
        let fc: u32 = if no_pending {
            8
        } else {
            0
        };
        let r = fa | fb | fc;
        proof {
            lemma_flag_bits(fa, fb, fc);
        }
        r
    }

    /// Index of the lowest free slot, scanning the empty-status projection
    /// of the table; `None` when every slot is occupied.
    fn first_empty(&self) -> (r: Option<usize>)
        requires
            self.wf(),
        ensures
            match r {
                Some(i) => self@.empty_status(i as int) && forall|j: int|
                    0 <= j < i ==> !self@.empty_status(j),
                None => forall|j: int| !self@.empty_status(j),
            },
    {
        let cap = self.capacity();
        let mut i: usize = 0;
        while i < cap
            invariant
                self.wf(),
                cap == self@.capacity(),
                1 <= cap <= 32,
                i <= cap,
                forall|j: int| 0 <= j < i ==> !self@.empty_status(j),
            decreases cap - i,
        {
            let w = self.lr[i];
            if (w >> 28) & 3 == 0 {
                return Some(i);
            }
            i += 1;
        }
        None
    }

    /// Place a new virtual interrupt into the lowest-indexed free slot,
    /// written as a pending entry, and return that slot's index. A linked
    /// physical ID establishes the hardware deactivation linkage and excludes
    /// the end-of-interrupt maintenance request. Fails with `NoFreeSlot`,
    /// changing nothing, exactly when the empty-status vector is entirely
    /// clear: an expected condition under interrupt pressure, reported for
    /// backpressure handling.
    pub fn allocate(
        &mut self,
        virtual_id: u16,
        priority: u8,
        group1: bool,
        physical_id: Option<u16>,
        needs_eoi_maintenance: bool,
    ) -> (r: Result<usize, AllocError>)
        requires
            old(self).wf(),
            virtual_id < 1024,
            priority < 32,
            physical_id matches Some(p) ==> p < 1024,
            physical_id is Some ==> !needs_eoi_maintenance,
        ensures
            final(self).wf(),
            match r {
                Ok(i) => {
                    &&& old(self)@.empty_status(i as int)
                    &&& forall|j: int| 0 <= j < i ==> !old(self)@.empty_status(j)
                    &&& final(self)@ == (GichState {
                        lr: old(self)@.lr.update(
                            i as int,
                            spec_encode(
                                virtual_id,
                                priority,
                                group1,
                                physical_id,
                                needs_eoi_maintenance,
                            ),
                        ),
                        ..old(self)@
                    })
                    &&& spec_decode(final(self)@.lr[i as int]) == (SlotEntry {
                        state: SlotState::Pending,
                        virtual_id,
                        physical_id,
                        priority,
                        group1,
                        needs_eoi_maintenance,
                    })
                    &&& !final(self)@.empty_status(i as int)
                },
                Err(e) => {
                    &&& e == AllocError::NoFreeSlot
                    &&& forall|j: int| !old(self)@.empty_status(j)
                    &&& final(self)@ == old(self)@
                },
            },
    {
        proof {
            self.lemma_capacity_in_range();
        }
        match self.first_empty() {
            Some(i) => {
                let w = encode_pending(
                    virtual_id,
                    priority,
                    group1,
                    physical_id,
                    needs_eoi_maintenance,
                );
                self.lr.set(i, w);
                proof {
                    lemma_decode_encode(
                        virtual_id,
                        priority,
                        group1,
                        physical_id,
                        needs_eoi_maintenance,
                    );
                }
                Ok(i)
            }
            None => Err(AllocError::NoFreeSlot),
        }
    }

    /// Decode the slot at `index` into its structured entry: a read-only
    /// snapshot of live state, recomputed from the register on each call and
    /// never cached in software.
    pub fn read(&self, index: usize) -> (e: SlotEntry)
        requires
            self.wf(),
            index < self@.capacity(),
        ensures
            e == spec_decode(self@.lr[index as int]),
    {
        proof {
            self.lemma_capacity_in_range();
        }
        let w = self.lr[index];
        let state_bits = (w >> 28) & 3;
        let state = if state_bits == 0 {
            SlotState::Invalid
        } else if state_bits == 1 {
            SlotState::Pending
        } else if state_bits == 2 {
            SlotState::Active
        } else {
            SlotState::PendingAndActive
        };
        let hw = bit_get(w, 31);
        SlotEntry {
            state,
            virtual_id: (w & 0x3ff) as u16,
            physical_id: if hw {
                Some(((w >> 10) & 0x3ff) as u16)
            } else {
                None
            },
            priority: ((w >> 23) & 0x1f) as u8,
            group1: bit_get(w, 30),
            needs_eoi_maintenance: !hw && bit_get(w, 19),
        }
    }

    /// Write the slot at `index` back to the all-zero `Invalid` encoding,
    /// freeing it and clearing any outstanding maintenance condition. On a
    /// slot the guest still holds this is a forced reset, appropriate only at
    /// context teardown; normal retirement targets a slot hardware has
    /// already vacated.
    pub fn retire(&mut self, index: usize)
        requires
            old(self).wf(),
            index < old(self)@.capacity(),
        ensures
            final(self).wf(),
            final(self)@ == (GichState {
                lr: old(self)@.lr.update(index as int, 0u32),
                ..old(self)@
            }),
            final(self)@.empty_status(index as int),
            !final(self)@.eoi_pending_status(index as int),
            spec_decode(final(self)@.lr[index as int]) == (SlotEntry {
                state: SlotState::Invalid,
                virtual_id: 0,
                physical_id: None,
                priority: 0,
                group1: false,
                needs_eoi_maintenance: false,
            }),
    {
        proof {
            self.lemma_capacity_in_range();
            lemma_retired_word_reads_invalid();
        }
        self.lr.set(index, 0);
    }

    /// The indices whose empty-status bit is clear, in ascending order:
    /// the slots currently holding an interrupt. Recomputed from live state
    /// on each call, with no side effect, so it is safe to call repeatedly.
    pub fn active_slots(&self) -> (v: Vec<usize>)
        requires
            self.wf(),
        ensures
            forall|k: int| 0 <= k < v@.len() ==> self@.occupied_at(#[trigger] v@[k] as int),
            forall|k1: int, k2: int| 0 <= k1 < k2 < v@.len() ==> v@[k1] < v@[k2],
            forall|n: int| self@.occupied_at(n) ==> v@.contains(n as usize),
    {
        let cap = self.capacity();
        let mut v: Vec<usize> = Vec::new();
        let mut i: usize = 0;
        while i < cap
            invariant
                self.wf(),
                cap == self@.capacity(),
                1 <= cap <= 32,
                i <= cap,
                forall|k: int| 0 <= k < v@.len() ==> self@.occupied_at(#[trigger] v@[k] as int),
                forall|k: int| 0 <= k < v@.len() ==> v@[k] < i,
                forall|k1: int, k2: int| 0 <= k1 < k2 < v@.len() ==> v@[k1] < v@[k2],
                forall|n: int| 0 <= n < i && self@.occupied_at(n) ==> v@.contains(n as usize),
            decreases cap - i,
        {
            let w = self.lr[i];
            if (w >> 28) & 3 != 0 {
                let ghost pre = v@;
                v.push(i);
                proof {
                    assert(v@[v@.len() - 1] == i);
                    assert forall|n: int| 0 <= n < i + 1 && self@.occupied_at(n) implies v@
                        .contains(n as usize) by {
                        if n < i {
                            let k = choose|k: int| 0 <= k < pre.len() && pre[k] == n as usize;
                            assert(v@[k] == n as usize);
                        } else {
                            assert(v@[v@.len() - 1] == n as usize);
                        }
                    }
                }
            }
            i += 1;
        }
        v
    }

    /// Decode the maintenance-status register into its named conditions.
    /// Each asserted condition calls for hypervisor action: an outstanding
    /// end-of-interrupt means scanning `eisr` and retiring the indicated
    /// slots; underflow and no-pending mean refilling the table through
    /// `allocate`. Purely observational; no register changes.
    pub fn pending_events(&self) -> (e: MaintenanceEvents)
        requires
            self.wf(),
        ensures
            e.eoi_maintenance_needed == self@.eoi_condition(),
            e.underflow == self@.underflow_condition(),
            e.no_pending_slots == self@.no_pending_condition(),
    {
        let r = self.misr();
        MaintenanceEvents {
            eoi_maintenance_needed: bit_get(r, MISR_EOI_BIT),
            underflow: bit_get(r, MISR_UNDERFLOW_BIT),
            no_pending_slots: bit_get(r, MISR_NO_PENDING_BIT),
        }
    }
}

/// The decoded maintenance-status conditions, one flag per independent
/// hardware condition.
#[derive(Clone, Copy, Debug, PartialEq, Eq)]
pub struct MaintenanceEvents {
    /// Some slot holds a completed interrupt that awaits software
    /// end-of-interrupt handling and retirement.
    pub eoi_maintenance_needed: bool,
    /// Fewer than two slots still hold an interrupt (and the condition is
    /// enabled in the control register).
    pub underflow: bool,
    /// No slot is in a pending state (and the condition is enabled in the
    /// control register).
    pub no_pending_slots: bool,
}

/// The one recoverable failure of the table manager.
#[derive(Clone, Copy, Debug, PartialEq, Eq)]
pub enum AllocError {
    /// Every slot is occupied; the caller must apply backpressure (defer,
    /// coalesce or drop by its own policy) rather than treat this as fatal.
    NoFreeSlot,
}

/// A successful allocation leaves every occupied slot occupied: it writes
/// only a slot whose empty-status bit was set, so a slot handed out by
/// `allocate` keeps its empty-status bit clear across later allocations,
/// until `retire` frees it.
pub proof fn lemma_allocate_keeps_occupied(
    pre: GichState,
    post: GichState,
    target: int,
    w: u32,
    i: int,
)
    requires
        0 <= target < pre.lr.len(),
        slot_is_empty(pre.lr[target]),
        post.lr == pre.lr.update(target, w),
        0 <= i < pre.lr.len(),
        !slot_is_empty(pre.lr[i]),
    ensures
        !slot_is_empty(post.lr[i]),
{
    assert(i != target);
}

/// Two states whose first `n` slots agree count the same occupancy there.
proof fn lemma_occupied_below_agree(a: GichState, b: GichState, n: int)
    requires
        forall|j: int| 0 <= j < n ==> a.lr[j] == b.lr[j],
    ensures
        a.occupied_below(n) == b.occupied_below(n),
    decreases n,
{
    if n > 0 {
        lemma_occupied_below_agree(a, b, n - 1);
    }
}

/// The occupancy count of the first `n` slots lies between 0 and `n`; it is
/// 0 exactly when all of those slots are free, and it reaches `n` exactly
/// when every one of them is occupied — that is, exactly when the
/// empty-status vector is entirely clear and `allocate` must fail with
/// `NoFreeSlot`.
pub proof fn lemma_occupied_below_bounds(s: GichState, n: int)
    requires
        0 <= n,
    ensures
        0 <= s.occupied_below(n) <= n,
        (s.occupied_below(n) == 0) <==> (forall|j: int| 0 <= j < n ==> slot_is_empty(s.lr[j])),
        (s.occupied_below(n) == n) <==> (forall|j: int| 0 <= j < n ==> !slot_is_empty(s.lr[j])),
    decreases n,
{
    if n > 0 {
        lemma_occupied_below_bounds(s, n - 1);
    }
}

/// A successful allocation raises the occupancy count of the table by
/// exactly one. Starting from an empty table, `n` successful allocations
/// therefore occupy all `n` slots, and by `lemma_occupied_below_bounds` the
/// next call finds the empty-status vector entirely clear and fails with
/// `NoFreeSlot`.
pub proof fn lemma_allocate_fills_one(
    pre: GichState,
    post: GichState,
    target: int,
    w: u32,
    n: int,
)
    requires
        0 <= target < n <= pre.lr.len(),
        slot_is_empty(pre.lr[target]),
        !slot_is_empty(w),
        post.lr == pre.lr.update(target, w),
    ensures
        post.occupied_below(n) == pre.occupied_below(n) + 1,
    decreases n,
{
    if n == target + 1 {
        lemma_occupied_below_agree(pre, post, target);
    } else {
        lemma_allocate_fills_one(pre, post, target, w, n - 1);
    }
}

/// Assembling the three maintenance flags into a word places each at its own
/// bit and leaves every other bit clear.
proof fn lemma_flag_bits(fa: u32, fb: u32, fc: u32)
    by (bit_vector)
    requires
        fa == 0 || fa == 1,
        fb == 0 || fb == 2,
        fc == 0 || fc == 8,
    ensures
        bit(fa | fb | fc, 0) == (fa == 1),
        bit(fa | fb | fc, 1) == (fb == 2),
        bit(fa | fb | fc, 3) == (fc == 8),
        forall|j: u32| j < 32 && j != 0 && j != 1 && j != 3 ==> !(#[trigger] bit(fa | fb | fc, j)),
{
}

} // verus!


//! A verified model of a GICv2 hypervisor interface: the per-core register
//! block through which a hypervisor injects, tracks and retires virtual
//! interrupts for a guest, plus the interrupt-ID range translation used to
//! name interrupts globally.

use vstd::prelude::*;

pub mod bits;
pub mod gich;
pub mod list_register;

pub use crate::gich::{
    AllocError, GicHypervisorInterface, GichState, MaintenanceEvents, GIC_LIST_REGS_NUM,
    GIC_STATUS_WORDS, HCR_NO_PENDING_ENABLE_BIT, HCR_UNDERFLOW_ENABLE_BIT, MISR_EOI_BIT,
    MISR_NO_PENDING_BIT, MISR_UNDERFLOW_BIT,
};
pub use crate::list_register::{SlotEntry, SlotState};

verus! {

/// SGI (software-generated interrupt) IDs occupy `0..16`.
pub const SGI_RANGE_START: usize = 0;
/// One past the largest SGI ID.
pub const SGI_RANGE_END: usize = 16;
/// PPI (private peripheral interrupt) IDs occupy `16..32`.
pub const PPI_RANGE_START: usize = 16;
/// One past the largest PPI ID.
pub const PPI_RANGE_END: usize = 32;
/// SPI (shared peripheral interrupt) IDs occupy `32..1020`.
pub const SPI_RANGE_START: usize = 32;
/// One past the largest SPI ID.
pub const SPI_RANGE_END: usize = 1020;
/// Maximum number of interrupt IDs the controller can name.
pub const GIC_MAX_IRQ: usize = 1024;
/// Number of configuration bits per interrupt in the distributor.
pub const GIC_CONFIG_BITS: usize = 2;

/// CPU-interface control register bit that enables signalling of group 0
/// interrupts to the connected processor.
pub const GICC_CTLR_EN_BIT: u32 = 0x1;

/// CPU-interface control register bit that splits end-of-interrupt writes
/// into priority drop and explicit deactivation.
pub const GICC_CTLR_EOIMODENS_BIT: u32 = 1 << 9;

/// Interrupt trigger mode, as configured in the distributor.
#[derive(Clone, Copy, Debug, PartialEq, Eq)]
pub enum TriggerMode {
    /// Edge-triggered: asserted on a rising edge and latched until handled.
    Edge,
    /// Level-sensitive: asserted while the interrupt signal level is active.
    Level,
}

/// The three classes of interrupt the controller distinguishes, each owning
/// a sub-range of the global interrupt-ID space.
#[derive(Clone, Copy, Debug, PartialEq, Eq)]
pub enum InterruptType {
    /// Software-generated interrupt, used for inter-processor signalling.
    SGI,
    /// Private peripheral interrupt, specific to a single core.
    PPI,
    /// Shared peripheral interrupt, routable to any connected core.
    SPI,
}

/// The global interrupt ID for local index `id` within the sub-range owned
/// by `int_type`, or `None` when `id` lies outside that sub-range.
pub open spec fn spec_translate_irq(id: usize, int_type: InterruptType) -> Option<usize> {
    match int_type {
        InterruptType::SGI => if id < SGI_RANGE_END {
            Some(id)
        } else {
            None
        },
        InterruptType::PPI => if id < PPI_RANGE_END - PPI_RANGE_START {
            Some((id + PPI_RANGE_START) as usize)
        } else {
            None
        },
        InterruptType::SPI => if id < SPI_RANGE_END - SPI_RANGE_START {
            Some((id + SPI_RANGE_START) as usize)
        } else {
            None
        },
    }
}

/// Translate an interrupt of a given type and local index to a global GIC
/// interrupt ID. Indices outside the type's range yield `None` rather than
/// wrapping into a neighbouring range.
pub fn translate_irq(id: usize, int_type: InterruptType) -> (r: Option<usize>)
    ensures
        r == spec_translate_irq(id, int_type),
{
    match int_type {
        InterruptType::SGI => {
            if id < SGI_RANGE_END {
                Some(id)
            } else {
                None
            }
        }
        InterruptType::PPI => {
            if id < PPI_RANGE_END - PPI_RANGE_START {
                Some(id + PPI_RANGE_START)
            } else {
                None
            }
        }
        InterruptType::SPI => {
            if id < SPI_RANGE_END - SPI_RANGE_START {
                Some(id + SPI_RANGE_START)
            } else {
                None
            }
        }
    }
}

} // verus!

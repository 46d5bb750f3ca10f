//! The interrupt controller: configuration, registers and saved state.
//!
//! A virtual machine carries at most one interrupt controller instance,
//! created together with the machine from a [`GicConfig`]. The controller's
//! registers are read and written through a [`VirtualMachineInstance`]
//! marked [`GicEnabled`], and its state can be saved into and restored from
//! an opaque blob through [`GicState`].

use vstd::prelude::*;

use crate::backend::Backend;
use crate::backend::GIC_DIST_REG_COUNT;
use crate::backend::GIC_MSI_REG_COUNT;
use crate::backend::GIC_SPI_INTID_BASE;
use crate::backend::GIC_SPI_INTID_COUNT;
use crate::backend::GIC_STATE_SIZE;
use crate::backend::HV_SUCCESS;
use crate::backend::msi_ok;
use crate::backend::spi_ok;
use crate::error::HypervisorError;
use crate::vm::GicEnabled;
use crate::vm::VirtualMachineInstance;

verus! {

/// The size in bytes of the controller's distributor region.
pub const GIC_DISTRIBUTOR_SIZE: usize = 0x10000;

/// The alignment in bytes of the distributor region's base address.
pub const GIC_DISTRIBUTOR_BASE_ALIGNMENT: usize = 0x10000;

/// The total size in bytes of the controller's redistributor region.
pub const GIC_REDISTRIBUTOR_REGION_SIZE: usize = 0x40000;

/// The size in bytes of a single redistributor.
pub const GIC_REDISTRIBUTOR_SIZE: usize = 0x20000;

/// The alignment in bytes of the redistributor region's base address.
pub const GIC_REDISTRIBUTOR_BASE_ALIGNMENT: usize = 0x10000;

/// The size in bytes of the message-signaled-interrupt region.
pub const GIC_MSI_REGION_SIZE: usize = 0x1000;

/// The alignment in bytes of the message-signaled-interrupt region's base
/// address.
pub const GIC_MSI_REGION_BASE_ALIGNMENT: usize = 0x1000;

/// Identifies a reserved interrupt of the controller.
#[derive(Clone, Copy, Debug, PartialEq, Eq, Structural)]
pub enum GicIntId {
    /// The maintenance interrupt.
    MAINTENANCE,
    /// The performance monitor interrupt.
    PERFORMANCE_MONITOR,
    /// The EL1 virtual timer interrupt.
    EL1_VIRTUAL_TIMER,
    /// The EL1 physical timer interrupt.
    EL1_PHYSICAL_TIMER,
    /// The EL2 physical timer interrupt.
    EL2_PHYSICAL_TIMER,
}

/// The interrupt id of a reserved interrupt.
pub open spec fn intid_of(interrupt: GicIntId) -> u32 {
    match interrupt {
        GicIntId::MAINTENANCE => 25,
        GicIntId::PERFORMANCE_MONITOR => 23,
        GicIntId::EL1_VIRTUAL_TIMER => 27,
        GicIntId::EL1_PHYSICAL_TIMER => 30,
        GicIntId::EL2_PHYSICAL_TIMER => 26,
    }
}

/// A distributor register of the controller.
#[derive(Clone, Copy, Debug, PartialEq, Eq, Structural)]
pub enum GicDistributorReg {
    /// Interrupt controller type register.
    TYPER,
    /// Peripheral identification register 2.
    PIDR2,
    /// Interrupt group register 0.
    IGROUPR0,
    /// Interrupt set-enable register 0.
    ISENABLER0,
    /// Interrupt clear-enable register 0.
    ICENABLER0,
    /// Interrupt set-pending register 0.
    ISPENDR0,
    /// Interrupt clear-pending register 0.
    ICPENDR0,
    /// Interrupt set-active register 0.
    ISACTIVER0,
    /// Interrupt clear-active register 0.
    ICACTIVER0,
    /// Interrupt priority register 0.
    IPRIORITYR0,
    /// Interrupt priority register 1.
    IPRIORITYR1,
    /// Interrupt priority register 2.
    IPRIORITYR2,
    /// Interrupt priority register 3.
    IPRIORITYR3,
    /// Interrupt priority register 4.
    IPRIORITYR4,
    /// Interrupt priority register 5.
    IPRIORITYR5,
    /// Interrupt priority register 6.
    IPRIORITYR6,
    /// Interrupt priority register 7.
    IPRIORITYR7,
    /// Interrupt configuration register 0.
    ICFGR0,
    /// Interrupt configuration register 1.
    ICFGR1,
}

/// The register-file index of a distributor register.
pub open spec fn dist_reg_index(reg: GicDistributorReg) -> int {
    match reg {
        GicDistributorReg::TYPER => 0,
        GicDistributorReg::PIDR2 => 1,
        GicDistributorReg::IGROUPR0 => 2,
        GicDistributorReg::ISENABLER0 => 3,
        GicDistributorReg::ICENABLER0 => 4,
        GicDistributorReg::ISPENDR0 => 5,
        GicDistributorReg::ICPENDR0 => 6,
        GicDistributorReg::ISACTIVER0 => 7,
        GicDistributorReg::ICACTIVER0 => 8,
        GicDistributorReg::IPRIORITYR0 => 9,
        GicDistributorReg::IPRIORITYR1 => 10,
        GicDistributorReg::IPRIORITYR2 => 11,
        GicDistributorReg::IPRIORITYR3 => 12,
        GicDistributorReg::IPRIORITYR4 => 13,
        GicDistributorReg::IPRIORITYR5 => 14,
        GicDistributorReg::IPRIORITYR6 => 15,
        GicDistributorReg::IPRIORITYR7 => 16,
        GicDistributorReg::ICFGR0 => 17,
        GicDistributorReg::ICFGR1 => 18,
    }
}

impl GicDistributorReg {
    /// Returns the register-file index of this register.
    pub fn index(self) -> (r: usize)
        ensures
            r == dist_reg_index(self),
            r < GIC_DIST_REG_COUNT,
    {
        match self {
            GicDistributorReg::TYPER => 0,
            GicDistributorReg::PIDR2 => 1,
            GicDistributorReg::IGROUPR0 => 2,
            GicDistributorReg::ISENABLER0 => 3,
            GicDistributorReg::ICENABLER0 => 4,
            GicDistributorReg::ISPENDR0 => 5,
            GicDistributorReg::ICPENDR0 => 6,
            GicDistributorReg::ISACTIVER0 => 7,
            GicDistributorReg::ICACTIVER0 => 8,
            GicDistributorReg::IPRIORITYR0 => 9,
            GicDistributorReg::IPRIORITYR1 => 10,
            GicDistributorReg::IPRIORITYR2 => 11,
            GicDistributorReg::IPRIORITYR3 => 12,
            GicDistributorReg::IPRIORITYR4 => 13,
            GicDistributorReg::IPRIORITYR5 => 14,
            GicDistributorReg::IPRIORITYR6 => 15,
            GicDistributorReg::IPRIORITYR7 => 16,
            GicDistributorReg::ICFGR0 => 17,
            GicDistributorReg::ICFGR1 => 18,
        }
    }
}

/// A message-signaled-interrupt register of the controller.
#[derive(Clone, Copy, Debug, PartialEq, Eq, Structural)]
pub enum GicMsiReg {
    /// Message-signaled-interrupt type register.
    TYPER,
    /// Set shared-peripheral-interrupt register.
    SET_SPI_NSR,
}

/// The register-file index of a message-signaled-interrupt register.
pub open spec fn msi_reg_index(reg: GicMsiReg) -> int {
    match reg {
        GicMsiReg::TYPER => 0,
        GicMsiReg::SET_SPI_NSR => 1,
    }
}

impl GicMsiReg {
    /// Returns the register-file index of this register.
    pub fn index(self) -> (r: usize)
        ensures
            r == msi_reg_index(self),
            r < GIC_MSI_REG_COUNT,
    {
        match self {
            GicMsiReg::TYPER => 0,
            GicMsiReg::SET_SPI_NSR => 1,
        }
    }
}

/// A configuration for the interrupt controller: the region base addresses
/// and the message-signaled-interrupt range. Each setter validates that the
/// region it places cannot overflow the address space; the base addresses
/// themselves are checked by the backend when the controller is created.
#[derive(Clone, Debug, PartialEq, Eq, Hash)]
pub struct GicConfig {
    /// Configured distributor region base address, if any.
    pub distributor_base: Option<u64>,
    /// Configured redistributor region base address, if any.
    pub redistributor_base: Option<u64>,
    /// Configured message-signaled-interrupt region base address, if any.
    pub msi_region_base: Option<u64>,
    /// First interrupt id of the configured message-signaled range.
    pub msi_intid_base: u32,
    /// Number of ids in the configured message-signaled range; zero while
    /// unconfigured.
    pub msi_intid_count: u32,
}

impl GicConfig {
    /// Well-formedness of a configuration: a configured message-signaled
    /// range lies inside the shared-peripheral-interrupt range. The
    /// constructor establishes this and every setter preserves it.
    pub open spec fn wf(&self) -> bool {
        self.msi_intid_count > 0 ==> GIC_SPI_INTID_BASE <= self.msi_intid_base
            && self.msi_intid_base + self.msi_intid_count <= GIC_SPI_INTID_BASE
            + GIC_SPI_INTID_COUNT
    }

    /// Creates a controller configuration with nothing configured.
    pub fn new() -> (r: GicConfig)
        ensures
            r.distributor_base is None,
            r.redistributor_base is None,
            r.msi_region_base is None,
            r.msi_intid_count == 0,
    {
        GicConfig {
            distributor_base: None,
            redistributor_base: None,
            msi_region_base: None,
            msi_intid_base: 0,
            msi_intid_count: 0,
        }
    }

    /// Sets the distributor region base address; rejects an address whose
    /// region would overflow the address space.
    pub fn set_distributor_base(&mut self, distributor_base_address: u64) -> (r: Result<
        (),
        HypervisorError,
    >)
        ensures
            distributor_base_address + GIC_DISTRIBUTOR_SIZE > u64::MAX ==> r == Result::<
                (),
                HypervisorError,
            >::Err(HypervisorError::BadArgument) && *final(self) == *old(self),
            distributor_base_address + GIC_DISTRIBUTOR_SIZE <= u64::MAX ==> r is Ok && *final(self)
                == (GicConfig {
                distributor_base: Some(distributor_base_address),
                ..*old(self)
            }),
    {
        if distributor_base_address > u64::MAX - (GIC_DISTRIBUTOR_SIZE as u64) {
            return Err(HypervisorError::BadArgument);
        }
        self.distributor_base = Some(distributor_base_address);
        Ok(())
    }

    /// Sets the redistributor region base address; rejects an address whose
    /// region would overflow the address space.
    pub fn set_redistributor_base(&mut self, redistributor_base_address: u64) -> (r: Result<
        (),
        HypervisorError,
    >)
        ensures
            redistributor_base_address + GIC_REDISTRIBUTOR_REGION_SIZE > u64::MAX ==> r
                == Result::<(), HypervisorError>::Err(HypervisorError::BadArgument) && *final(self)
                == *old(self),
            redistributor_base_address + GIC_REDISTRIBUTOR_REGION_SIZE <= u64::MAX ==> r is Ok
                && *final(self) == (GicConfig {
                redistributor_base: Some(redistributor_base_address),
                ..*old(self)
            }),
    {
        if redistributor_base_address > u64::MAX - (GIC_REDISTRIBUTOR_REGION_SIZE as u64) {
            return Err(HypervisorError::BadArgument);
        }
        self.redistributor_base = Some(redistributor_base_address);
        Ok(())
    }

    /// Sets the message-signaled-interrupt region base address; rejects an
    /// address whose region would overflow the address space.
    pub fn set_msi_region_base(&mut self, msi_region_base_address: u64) -> (r: Result<
        (),
        HypervisorError,
    >)
        ensures
            msi_region_base_address + GIC_MSI_REGION_SIZE > u64::MAX ==> r == Result::<
                (),
                HypervisorError,
            >::Err(HypervisorError::BadArgument) && *final(self) == *old(self),
            msi_region_base_address + GIC_MSI_REGION_SIZE <= u64::MAX ==> r is Ok && *final(self)
                == (GicConfig {
                msi_region_base: Some(msi_region_base_address),
                ..*old(self)
            }),
    {
        if msi_region_base_address > u64::MAX - (GIC_MSI_REGION_SIZE as u64) {
            return Err(HypervisorError::BadArgument);
        }
        self.msi_region_base = Some(msi_region_base_address);
        Ok(())
    }

    /// Sets the range of message-signaled interrupts supported; the range
    /// must lie inside the shared-peripheral-interrupt range.
    pub fn set_msi_interrupt_range(&mut self, msi_intid_base: u32, msi_intid_count: u32) -> (r:
        Result<(), HypervisorError>)
        ensures
            !(GIC_SPI_INTID_BASE <= msi_intid_base && msi_intid_base + msi_intid_count
                <= GIC_SPI_INTID_BASE + GIC_SPI_INTID_COUNT) ==> r == Result::<
                (),
                HypervisorError,
            >::Err(HypervisorError::BadArgument) && *final(self) == *old(self),
            GIC_SPI_INTID_BASE <= msi_intid_base && msi_intid_base + msi_intid_count
                <= GIC_SPI_INTID_BASE + GIC_SPI_INTID_COUNT ==> r is Ok && *final(self) == (
            GicConfig { msi_intid_base, msi_intid_count, ..*old(self) }),
    {
        if msi_intid_base < GIC_SPI_INTID_BASE || (msi_intid_base as u64) + (msi_intid_count
            as u64) > (GIC_SPI_INTID_BASE as u64) + (GIC_SPI_INTID_COUNT as u64) {
            return Err(HypervisorError::BadArgument);
        }
        self.msi_intid_base = msi_intid_base;
        self.msi_intid_count = msi_intid_count;
        Ok(())
    }

    /// Gets the size in bytes of the distributor region.
    pub fn get_distributor_size() -> (r: Result<usize, HypervisorError>)
        ensures
            r == Result::<usize, HypervisorError>::Ok(GIC_DISTRIBUTOR_SIZE),
    {
        Ok(GIC_DISTRIBUTOR_SIZE)
    }

    /// Gets the alignment in bytes for the base address of the distributor
    /// region.
    pub fn get_distributor_base_alignment() -> (r: Result<usize, HypervisorError>)
        ensures
            r == Result::<usize, HypervisorError>::Ok(GIC_DISTRIBUTOR_BASE_ALIGNMENT),
    {
        Ok(GIC_DISTRIBUTOR_BASE_ALIGNMENT)
    }

    /// Gets the total size in bytes of the redistributor region.
    pub fn get_redistributor_region_size() -> (r: Result<usize, HypervisorError>)
        ensures
            r == Result::<usize, HypervisorError>::Ok(GIC_REDISTRIBUTOR_REGION_SIZE),
    {
        Ok(GIC_REDISTRIBUTOR_REGION_SIZE)
    }

    /// Gets the size in bytes of a single redistributor.
    pub fn get_redistributor_size() -> (r: Result<usize, HypervisorError>)
        ensures
            r == Result::<usize, HypervisorError>::Ok(GIC_REDISTRIBUTOR_SIZE),
    {
        Ok(GIC_REDISTRIBUTOR_SIZE)
    }

    /// Gets the alignment in bytes for the base address of the
    /// redistributor region.
    pub fn get_redistributor_base_alignment() -> (r: Result<usize, HypervisorError>)
        ensures
            r == Result::<usize, HypervisorError>::Ok(GIC_REDISTRIBUTOR_BASE_ALIGNMENT),
    {
        Ok(GIC_REDISTRIBUTOR_BASE_ALIGNMENT)
    }

    /// Gets the size in bytes of the message-signaled-interrupt region.
    pub fn get_msi_region_size() -> (r: Result<usize, HypervisorError>)
        ensures
            r == Result::<usize, HypervisorError>::Ok(GIC_MSI_REGION_SIZE),
    {
        Ok(GIC_MSI_REGION_SIZE)
    }

    /// Gets the alignment in bytes for the base address of the
    /// message-signaled-interrupt region.
    pub fn get_msi_region_base_alignment() -> (r: Result<usize, HypervisorError>)
        ensures
            r == Result::<usize, HypervisorError>::Ok(GIC_MSI_REGION_BASE_ALIGNMENT),
    {
        Ok(GIC_MSI_REGION_BASE_ALIGNMENT)
    }

    /// Gets the range of shared peripheral interrupts supported, as first id
    /// and count.
    pub fn get_spi_interrupt_range() -> (r: Result<(u32, u32), HypervisorError>)
        ensures
            r == Result::<(u32, u32), HypervisorError>::Ok(
                (GIC_SPI_INTID_BASE, GIC_SPI_INTID_COUNT),
            ),
    {
        Ok((GIC_SPI_INTID_BASE, GIC_SPI_INTID_COUNT))
    }

    /// Gets the interrupt id for a reserved interrupt.
    pub fn get_intid(interrupt: GicIntId) -> (r: Result<u32, HypervisorError>)
        ensures
            r == Result::<u32, HypervisorError>::Ok(intid_of(interrupt)),
    {
        match interrupt {
            GicIntId::MAINTENANCE => Ok(25),
            GicIntId::PERFORMANCE_MONITOR => Ok(23),
            GicIntId::EL1_VIRTUAL_TIMER => Ok(27),
            GicIntId::EL1_PHYSICAL_TIMER => Ok(30),
            GicIntId::EL2_PHYSICAL_TIMER => Ok(26),
        }
    }
}

impl Default for GicConfig {
    /// The default configuration: nothing configured.
    fn default() -> (r: GicConfig)
        ensures
            r.distributor_base is None,
            r.redistributor_base is None,
            r.msi_region_base is None,
            r.msi_intid_count == 0,
    {
        GicConfig::new()
    }
}

/// A saved interrupt-controller state blob: a format marker followed by the
/// register files in little-endian order. Restoring it validates the size
/// and the marker, then reads the registers back.
#[derive(Clone, Debug)]
pub struct GicState {
    /// The saved blob bytes.
    pub data: Vec<u8>,
}

impl GicState {
    /// A blob is well-formed when it has the saved size and carries the
    /// format marker.
    pub open spec fn wf(&self) -> bool {
        self.data@.len() == GIC_STATE_SIZE && self.data@[0] == 1
    }

    /// Returns the size in bytes of the saved state.
    pub fn size(&self) -> (r: Result<usize, HypervisorError>)
        ensures
            r == Result::<usize, HypervisorError>::Ok(self.data@.len() as usize),
    {
        Ok(self.data.len())
    }

    /// Copies the saved state into the caller's buffer, which must be at
    /// least the saved size; bytes beyond the saved size are untouched.
    pub fn get(&mut self, data: &mut Vec<u8>) -> (r: Result<(), HypervisorError>)
        ensures
            *final(self) == *old(self),
            final(data)@.len() == old(data)@.len(),
            old(data)@.len() < old(self).data@.len() ==> r == Result::<(), HypervisorError>::Err(
                HypervisorError::BadArgument,
            ) && final(data)@ == old(data)@,
            old(data)@.len() >= old(self).data@.len() ==> r is Ok && final(data)@ == old(
                self,
            ).data@ + old(data)@.subrange(old(self).data@.len() as int, old(data)@.len() as int),
    {
        if data.len() < self.data.len() {
            return Err(HypervisorError::BadArgument);
        }
        let n = self.data.len();
        let mut i: usize = 0;
        while i < n
            invariant
                0 <= i <= n,
                n == self.data@.len(),
                *self == *old(self),
                data@.len() == old(data)@.len(),
                n <= data@.len(),
                forall|j: int| 0 <= j < i ==> data@[j] == self.data@[j],
                forall|j: int| i <= j < data@.len() ==> data@[j] == old(data)@[j],
            decreases n - i,
        {
            let v = self.data[i];
            data.set(i, v);
            i = i + 1;
        }
        proof {
            assert(data@ =~= self.data@ + old(data)@.subrange(
                self.data@.len() as int,
                old(data)@.len() as int,
            ));
        }
        Ok(())
    }

    /// Restores the controller from a saved state's bytes as given in
    /// `data`: the backend accepts exactly a blob of the saved size carrying
    /// the format marker, and reads the register files back from it.
    pub fn set(&self, b: &mut Backend, data: &Vec<u8>) -> (r: Result<(), HypervisorError>)
        requires
            old(b).wf(),
            old(b).gic is Some,
        ensures
            final(b).wf(),
            data@.len() == GIC_STATE_SIZE && data@[0] == 1 <==> r is Ok,
            !(data@.len() == GIC_STATE_SIZE && data@[0] == 1) ==> r == Result::<
                (),
                HypervisorError,
            >::Err(HypervisorError::BadArgument) && *final(b) == *old(b),
            r is Ok ==> {
                &&& final(b).gic matches Some(g2) && {
                    &&& g2.dist_regs@.len() == GIC_DIST_REG_COUNT
                    &&& g2.msi_regs@.len() == GIC_MSI_REG_COUNT
                    &&& forall|i: int|
                        0 <= i < GIC_DIST_REG_COUNT ==> #[trigger] g2.dist_regs@[i]
                            == crate::memory::u64_of_le_bytes(
                            data@.subrange(1 + 8 * i, 9 + 8 * i),
                        )
                    &&& forall|i: int|
                        0 <= i < GIC_MSI_REG_COUNT ==> #[trigger] g2.msi_regs@[i]
                            == crate::memory::u64_of_le_bytes(
                            data@.subrange(
                                1 + 8 * (GIC_DIST_REG_COUNT + i),
                                9 + 8 * (GIC_DIST_REG_COUNT + i),
                            ),
                        )
                    &&& g2.msi_region_base == old(b).gic->0.msi_region_base
                    &&& g2.msi_intid_base == old(b).gic->0.msi_intid_base
                    &&& g2.msi_intid_count == old(b).gic->0.msi_intid_count
                }
                &&& final(b).live_vms == old(b).live_vms
                &&& final(b).vm_refs == old(b).vm_refs
                &&& final(b).vcpus == old(b).vcpus
                &&& final(b).regions == old(b).regions
            },
    {
        let code = b.gic_set_state(data);
        crate::error::call_result(code)
    }
}

/// Law: restoring a state blob saved from the controller's registers yields
/// exactly the registers it was saved from, for every register content.
pub proof fn lemma_gic_state_round_trip(
    saved_dist: Seq<u64>,
    saved_msi: Seq<u64>,
    blob: Seq<u8>,
    restored_dist: Seq<u64>,
    restored_msi: Seq<u64>,
)
    requires
        saved_dist.len() == GIC_DIST_REG_COUNT,
        saved_msi.len() == GIC_MSI_REG_COUNT,
        restored_dist.len() == GIC_DIST_REG_COUNT,
        restored_msi.len() == GIC_MSI_REG_COUNT,
        forall|i: int|
            0 <= i < GIC_DIST_REG_COUNT ==> blob.subrange(1 + 8 * i, 9 + 8 * i)
                == crate::memory::u64_le_bytes(#[trigger] saved_dist[i]),
        forall|i: int|
            0 <= i < GIC_MSI_REG_COUNT ==> blob.subrange(
                1 + 8 * (GIC_DIST_REG_COUNT + i),
                9 + 8 * (GIC_DIST_REG_COUNT + i),
            ) == crate::memory::u64_le_bytes(#[trigger] saved_msi[i]),
        forall|i: int|
            0 <= i < GIC_DIST_REG_COUNT ==> #[trigger] restored_dist[i]
                == crate::memory::u64_of_le_bytes(blob.subrange(1 + 8 * i, 9 + 8 * i)),
        forall|i: int|
            0 <= i < GIC_MSI_REG_COUNT ==> #[trigger] restored_msi[i]
                == crate::memory::u64_of_le_bytes(
                blob.subrange(1 + 8 * (GIC_DIST_REG_COUNT + i), 9 + 8 * (GIC_DIST_REG_COUNT + i)),
            ),
    ensures
        restored_dist == saved_dist,
        restored_msi == saved_msi,
{
    assert forall|i: int| 0 <= i < GIC_DIST_REG_COUNT implies #[trigger] restored_dist[i]
        == saved_dist[i] by {
        crate::memory::lemma_u64_le_round_trip(saved_dist[i]);
    }
    assert forall|i: int| 0 <= i < GIC_MSI_REG_COUNT implies #[trigger] restored_msi[i]
        == saved_msi[i] by {
        crate::memory::lemma_u64_le_round_trip(saved_msi[i]);
    }
    assert(restored_dist =~= saved_dist);
    assert(restored_msi =~= saved_msi);
}

impl VirtualMachineInstance<GicEnabled> {
    /// Resets the interrupt controller: all distributor and
    /// message-signaled registers return to zero, the configured regions
    /// and ranges stay.
    pub fn gic_reset(&self, b: &mut Backend) -> (r: Result<(), HypervisorError>)
        requires
            old(b).wf(),
            old(b).gic is Some,
        ensures
            final(b).wf(),
            r is Ok,
            final(b).gic matches Some(g2) && {
                &&& g2.dist_regs@ == Seq::<u64>::new(GIC_DIST_REG_COUNT as nat, |i: int| 0u64)
                &&& g2.msi_regs@ == Seq::<u64>::new(GIC_MSI_REG_COUNT as nat, |i: int| 0u64)
                &&& g2.msi_region_base == old(b).gic->0.msi_region_base
                &&& g2.msi_intid_base == old(b).gic->0.msi_intid_base
                &&& g2.msi_intid_count == old(b).gic->0.msi_intid_count
            },
            final(b).live_vms == old(b).live_vms,
            final(b).vm_refs == old(b).vm_refs,
            final(b).vcpus == old(b).vcpus,
            final(b).regions == old(b).regions,
    {
        let code = b.gic_reset();
        crate::error::call_result(code)
    }

    /// Saves the interrupt controller's state into a blob object holding
    /// the format marker and every register in little-endian order.
    pub fn gic_state_create(&self, b: &Backend) -> (r: Result<GicState, HypervisorError>)
        requires
            b.wf(),
            b.gic is Some,
        ensures
            r matches Result::Ok(st) && {
                &&& st.wf()
                &&& forall|i: int|
                    0 <= i < GIC_DIST_REG_COUNT ==> st.data@.subrange(1 + 8 * i, 9 + 8 * i)
                        == crate::memory::u64_le_bytes(#[trigger] b.gic->0.dist_regs@[i])
                &&& forall|i: int|
                    0 <= i < GIC_MSI_REG_COUNT ==> st.data@.subrange(
                        1 + 8 * (GIC_DIST_REG_COUNT + i),
                        9 + 8 * (GIC_DIST_REG_COUNT + i),
                    ) == crate::memory::u64_le_bytes(#[trigger] b.gic->0.msi_regs@[i])
            },
    {
        let (_code, data) = b.gic_state_bytes();
        Ok(GicState { data })
    }

    /// Triggers a shared peripheral interrupt. The id must lie in the
    /// shared-peripheral range and outside the configured
    /// message-signaled range.
    pub fn gic_set_spi(&self, b: &mut Backend, intid: u32, level: bool) -> (r: Result<
        (),
        HypervisorError,
    >)
        requires
            old(b).wf(),
            old(b).gic is Some,
        ensures
            *final(b) == *old(b),
            r is Ok <==> spi_ok(old(b).gic->0, intid),
            !spi_ok(old(b).gic->0, intid) ==> r == Result::<(), HypervisorError>::Err(
                HypervisorError::BadArgument,
            ),
    {
        let code = b.gic_set_spi(intid, level);
        crate::error::call_result(code)
    }

    /// Sends a message-signaled interrupt. The address must lie in the
    /// configured message region and the id in the configured range.
    pub fn gic_send_msi(&self, b: &mut Backend, address: u64, intid: u32) -> (r: Result<
        (),
        HypervisorError,
    >)
        requires
            old(b).wf(),
            old(b).gic is Some,
        ensures
            *final(b) == *old(b),
            r is Ok <==> msi_ok(old(b).gic->0, address, intid),
            !msi_ok(old(b).gic->0, address, intid) ==> r == Result::<(), HypervisorError>::Err(
                HypervisorError::BadArgument,
            ),
    {
        let code = b.gic_send_msi(address, intid);
        crate::error::call_result(code)
    }

    /// Reads a distributor register.
    pub fn gic_get_distributor_reg(&self, b: &Backend, reg: GicDistributorReg) -> (r: Result<
        u64,
        HypervisorError,
    >)
        requires
            b.wf(),
            b.gic is Some,
        ensures
            r == Result::<u64, HypervisorError>::Ok(b.gic->0.dist_regs@[dist_reg_index(reg)]),
    {
        let (_code, value) = b.gic_get_distributor_reg(reg.index());
        Ok(value)
    }

    /// Writes a distributor register.
    pub fn gic_set_distributor_reg(&self, b: &mut Backend, reg: GicDistributorReg, value: u64) -> (
    r: Result<(), HypervisorError>)
        requires
            old(b).wf(),
            old(b).gic is Some,
        ensures
            final(b).wf(),
            r is Ok,
            final(b).gic matches Some(g2) && {
                &&& g2.dist_regs@ == old(b).gic->0.dist_regs@.update(dist_reg_index(reg), value)
                &&& g2.msi_regs == old(b).gic->0.msi_regs
                &&& g2.msi_region_base == old(b).gic->0.msi_region_base
                &&& g2.msi_intid_base == old(b).gic->0.msi_intid_base
                &&& g2.msi_intid_count == old(b).gic->0.msi_intid_count
            },
            final(b).live_vms == old(b).live_vms,
            final(b).vm_refs == old(b).vm_refs,
            final(b).vcpus == old(b).vcpus,
            final(b).regions == old(b).regions,
    {
        let code = b.gic_set_distributor_reg(reg.index(), value);
        crate::error::call_result(code)
    }

    /// Reads a message-signaled-interrupt register.
    pub fn gic_get_msi_reg(&self, b: &Backend, reg: GicMsiReg) -> (r: Result<
        u64,
        HypervisorError,
    >)
        requires
            b.wf(),
            b.gic is Some,
        ensures
            r == Result::<u64, HypervisorError>::Ok(b.gic->0.msi_regs@[msi_reg_index(reg)]),
    {
        let (_code, value) = b.gic_get_msi_reg(reg.index());
        Ok(value)
    }

    /// Writes a message-signaled-interrupt register.
    pub fn gic_set_msi_reg(&self, b: &mut Backend, reg: GicMsiReg, value: u64) -> (r: Result<
        (),
        HypervisorError,
    >)
        requires
            old(b).wf(),
            old(b).gic is Some,
        ensures
            final(b).wf(),
            r is Ok,
            final(b).gic matches Some(g2) && {
                &&& g2.msi_regs@ == old(b).gic->0.msi_regs@.update(msi_reg_index(reg), value)
                &&& g2.dist_regs == old(b).gic->0.dist_regs
                &&& g2.msi_region_base == old(b).gic->0.msi_region_base
                &&& g2.msi_intid_base == old(b).gic->0.msi_intid_base
                &&& g2.msi_intid_count == old(b).gic->0.msi_intid_count
            },
            final(b).live_vms == old(b).live_vms,
            final(b).vm_refs == old(b).vm_refs,
            final(b).vcpus == old(b).vcpus,
            final(b).regions == old(b).regions,
    {
        let code = b.gic_set_msi_reg(reg.index(), value);
        crate::error::call_result(code)
    }
}

} // verus!

//! Model of the host virtualization facility.
//!
//! The facility is external to this library: it creates and destroys the
//! per-process virtual machine context, virtual CPUs and guest-physical
//! memory mappings, and reports a status code for every call. This module
//! represents its observable state as an explicit [`Backend`] value and gives
//! every call a contract stating its documented success and failure codes.
//! Callers thread the state through explicitly; the library layers above
//! maintain their ownership invariants against these contracts.

use vstd::prelude::*;

use crate::memory::PAGE_SIZE;
use crate::vcpu::ExitReason;
use crate::vcpu::VcpuExitException;

verus! {

/// The operation completed successfully.
pub const HV_SUCCESS: i32 = 0;

/// The operation was unsuccessful (signed value of 0xfae94001).
pub const HV_ERROR: i32 = -85377023;

/// The operation was unsuccessful because the owning resource was busy
/// (signed value of 0xfae94002).
pub const HV_BUSY: i32 = -85377022;

/// The operation was unsuccessful because the function call had an invalid
/// argument (signed value of 0xfae94003).
pub const HV_BAD_ARGUMENT: i32 = -85377021;

/// The operation was unsuccessful because the guest is in an illegal state
/// (signed value of 0xfae94004).
pub const HV_ILLEGAL_GUEST_STATE: i32 = -85377020;

/// The operation was unsuccessful because the host had no resources available
/// to complete the request (signed value of 0xfae94005).
pub const HV_NO_RESOURCES: i32 = -85377019;

/// The operation was unsuccessful because no VM or vCPU was available (signed
/// value of 0xfae94006).
pub const HV_NO_DEVICE: i32 = -85377018;

/// The system did not allow the requested operation (signed value of
/// 0xfae94007).
pub const HV_DENIED: i32 = -85377017;

/// A fault was reported by the hypervisor (signed value of 0xfae94008).
pub const HV_FAULT: i32 = -85377016;

/// The operation requested is not supported (signed value of 0xfae9400f).
pub const HV_UNSUPPORTED: i32 = -85377009;

/// Read permission bit of a guest mapping.
pub const HV_MEMORY_READ: u64 = 1;

/// Write permission bit of a guest mapping.
pub const HV_MEMORY_WRITE: u64 = 2;

/// Execute permission bit of a guest mapping.
pub const HV_MEMORY_EXEC: u64 = 4;

/// The maximum number of virtual CPUs the facility reports as creatable.
pub const HV_MAX_VCPU_COUNT: u32 = 64;

/// The state the facility keeps for one virtual CPU it created.
#[derive(Clone, Copy, Debug)]
pub struct VcpuSlot {
    /// Whether the virtual CPU still exists.
    pub live: bool,
    /// Whether a forced exit was requested and not yet observed by a run.
    pub exit_requested: bool,
    /// The reason the last run returned.
    pub exit_reason: ExitReason,
    /// Exception details of the last run, when the reason is an exception.
    pub exit_exception: VcpuExitException,
    /// Whether an IRQ is pending.
    pub pending_irq: bool,
    /// Whether an FIQ is pending.
    pub pending_fiq: bool,
    /// Whether debug exceptions exit the guest.
    pub trap_debug_exceptions: bool,
    /// Whether debug-register accesses exit the guest.
    pub trap_debug_reg_accesses: bool,
    /// Whether the virtual timer is masked.
    pub vtimer_mask: bool,
    /// The virtual timer offset.
    pub vtimer_offset: u64,
    /// Cumulative guest execution time in nanoseconds.
    pub exec_time: u64,
}

/// The state a fresh virtual CPU starts in.
pub open spec fn fresh_vcpu_slot() -> VcpuSlot {
    VcpuSlot {
        live: true,
        exit_requested: false,
        exit_reason: ExitReason::UNKNOWN,
        exit_exception: VcpuExitException { syndrome: 0, virtual_address: 0, physical_address: 0 },
        pending_irq: false,
        pending_fiq: false,
        trap_debug_exceptions: false,
        trap_debug_reg_accesses: false,
        vtimer_mask: false,
        vtimer_offset: 0,
        exec_time: 0,
    }
}

/// A guest-physical region the facility currently has mapped.
#[derive(Clone, Copy, Debug)]
pub struct Region {
    /// Guest-physical base address; a multiple of the page size.
    pub base: u64,
    /// Size in bytes; a positive multiple of the page size.
    pub size: u64,
    /// Permission bits of the mapping.
    pub flags: u64,
}

/// Whether two mapped regions occupy disjoint guest address ranges.
pub open spec fn regions_disjoint(a: Region, b: Region) -> bool {
    a.base + a.size <= b.base || b.base + b.size <= a.base
}

/// Whether a region is well-formed: page-aligned, non-empty, and not
/// wrapping around the guest address space.
pub open spec fn region_wf(rg: Region) -> bool {
    &&& rg.base % (PAGE_SIZE as u64) == 0
    &&& rg.size % (PAGE_SIZE as u64) == 0
    &&& rg.size > 0
    &&& rg.base + rg.size <= u64::MAX as int + 1
}

/// The number of distributor registers the interrupt controller model
/// keeps.
pub const GIC_DIST_REG_COUNT: usize = 19;

/// The number of message-signaled-interrupt registers the interrupt
/// controller model keeps.
pub const GIC_MSI_REG_COUNT: usize = 2;

/// The size in bytes of a saved interrupt-controller state blob: a format
/// marker followed by every distributor and message-signaled register in
/// little-endian order.
pub const GIC_STATE_SIZE: usize = 169;

/// Lowest shared peripheral interrupt id the controller supports.
pub const GIC_SPI_INTID_BASE: u32 = 32;

/// Number of shared peripheral interrupt ids the controller supports.
pub const GIC_SPI_INTID_COUNT: u32 = 988;

/// The size in bytes of the controller's message-signaled-interrupt region.
pub const GIC_MSI_REGION_SIZE: u64 = 0x1000;

/// The state of the single interrupt controller instance of a virtual
/// machine.
#[derive(Debug)]
pub struct GicUnit {
    /// The distributor registers, indexed by register number.
    pub dist_regs: Vec<u64>,
    /// The message-signaled-interrupt registers, indexed by register number.
    pub msi_regs: Vec<u64>,
    /// Base address of the message-signaled-interrupt region, when one was
    /// configured.
    pub msi_region_base: Option<u64>,
    /// First interrupt id of the configured message-signaled-interrupt
    /// range.
    pub msi_intid_base: u32,
    /// Number of ids in the configured message-signaled-interrupt range;
    /// zero when no range was configured.
    pub msi_intid_count: u32,
}

/// Well-formedness of an interrupt controller instance: the register files
/// have their fixed sizes and the message-signaled-interrupt range lies
/// inside the shared-peripheral-interrupt range.
pub open spec fn gic_unit_wf(g: GicUnit) -> bool {
    &&& g.dist_regs@.len() == GIC_DIST_REG_COUNT
    &&& g.msi_regs@.len() == GIC_MSI_REG_COUNT
    &&& g.msi_intid_count > 0 ==> GIC_SPI_INTID_BASE <= g.msi_intid_base && g.msi_intid_base
        + g.msi_intid_count <= GIC_SPI_INTID_BASE + GIC_SPI_INTID_COUNT
}

/// Whether an interrupt id can be triggered as a shared peripheral
/// interrupt: it lies in the shared-peripheral range and is not claimed by
/// the message-signaled range.
pub open spec fn spi_ok(g: GicUnit, intid: u32) -> bool {
    &&& GIC_SPI_INTID_BASE <= intid < GIC_SPI_INTID_BASE + GIC_SPI_INTID_COUNT
    &&& !(g.msi_intid_base <= intid < g.msi_intid_base + g.msi_intid_count)
}

/// Whether an address and interrupt id form a deliverable message-signaled
/// interrupt: the controller has a message region, the address lies in it,
/// and the id lies in the configured range.
pub open spec fn msi_ok(g: GicUnit, addr: u64, intid: u32) -> bool {
    &&& g.msi_region_base matches Some(base) && base <= addr < base + GIC_MSI_REGION_SIZE
    &&& g.msi_intid_base <= intid < g.msi_intid_base + g.msi_intid_count
}

/// The observable state of the host virtualization facility for one process,
/// together with the shared reference-count token the library layers use to
/// gate the facility's destroy call.
#[derive(Debug)]
pub struct Backend {
    /// The number of live virtual machine contexts; the facility never lets
    /// this exceed one.
    pub live_vms: u64,
    /// The shared reference count of the virtual machine handle layer; the
    /// facility itself never reads or writes it.
    pub vm_refs: u64,
    /// One slot per virtual CPU ever created; the slot index is the vCPU id.
    pub vcpus: Vec<VcpuSlot>,
    /// The guest-physical regions currently mapped.
    pub regions: Vec<Region>,
    /// The single interrupt controller instance, when one was created.
    pub gic: Option<GicUnit>,
}

impl Backend {
    /// Whether the virtual CPU with the given id exists.
    pub open spec fn vcpu_live(&self, id: int) -> bool {
        0 <= id < self.vcpus@.len() && self.vcpus@[id].live
    }

    /// Whether no virtual CPU is live.
    pub open spec fn no_live_vcpus(&self) -> bool {
        forall|i: int| 0 <= i < self.vcpus@.len() ==> !self.vcpus@[i].live
    }

    /// Well-formedness of the facility state: at most one live virtual
    /// machine; no virtual CPU or mapping outlives the machine; all mapped
    /// regions are well-formed and pairwise disjoint.
    pub open spec fn wf(&self) -> bool {
        &&& self.live_vms <= 1
        &&& self.live_vms == 0 ==> self.no_live_vcpus() && self.regions@.len() == 0 && self.gic
            is None
        &&& self.gic matches Some(g) ==> gic_unit_wf(g)
        &&& forall|i: int|
            0 <= i < self.regions@.len() ==> region_wf(#[trigger] self.regions@[i])
        &&& forall|i: int, j: int|
            0 <= i < self.regions@.len() && 0 <= j < self.regions@.len() && i != j
                ==> regions_disjoint(#[trigger] self.regions@[i], #[trigger] self.regions@[j])
    }

    /// A facility state with nothing created yet.
    pub fn new() -> (r: Backend)
        ensures
            r.wf(),
            r.live_vms == 0,
            r.vm_refs == 0,
            r.vcpus@.len() == 0,
            r.regions@.len() == 0,
            r.gic is None,
    {
        Backend { live_vms: 0, vm_refs: 0, vcpus: Vec::new(), regions: Vec::new(), gic: None }
    }

    /// Creates the virtual machine context of the current process. Fails with
    /// a busy status while one is already live.
    pub fn vm_create(&mut self) -> (r: i32)
        requires
            old(self).wf(),
        ensures
            final(self).wf(),
            old(self).live_vms > 0 ==> r == HV_BUSY && *final(self) == *old(self),
            old(self).live_vms == 0 ==> r == HV_SUCCESS && *final(self) == (Backend {
                live_vms: 1,
                ..*old(self)
            }),
    {
        if self.live_vms > 0 {
            HV_BUSY
        } else {
            self.live_vms = 1;
            HV_SUCCESS
        }
    }

    /// Destroys the virtual machine context of the current process. Fails
    /// with a busy status while a virtual CPU or a mapping still exists, and
    /// with a generic failure when no machine is live.
    pub fn vm_destroy(&mut self) -> (r: i32)
        requires
            old(self).wf(),
        ensures
            final(self).wf(),
            old(self).live_vms == 0 ==> r == HV_ERROR && *final(self) == *old(self),
            old(self).live_vms > 0 && !(old(self).no_live_vcpus() && old(self).regions@.len() == 0)
                ==> r == HV_BUSY && *final(self) == *old(self),
            old(self).live_vms > 0 && old(self).no_live_vcpus() && old(self).regions@.len() == 0
                ==> r == HV_SUCCESS && *final(self) == (Backend {
                live_vms: 0,
                gic: None,
                ..*old(self)
            }),
    {
        if self.live_vms == 0 {
            return HV_ERROR;
        }
        if self.regions.len() != 0 {
            return HV_BUSY;
        }
        let mut i: usize = 0;
        while i < self.vcpus.len()
            invariant
                0 <= i <= self.vcpus@.len(),
                forall|j: int| 0 <= j < i ==> !self.vcpus@[j].live,
                *self == *old(self),
                self.wf(),
                self.live_vms > 0,
                self.regions@.len() == 0,
            decreases self.vcpus@.len() - i,
        {
            if self.vcpus[i].live {
                return HV_BUSY;
            }
            i = i + 1;
        }
        self.live_vms = 0;
        self.gic = None;
        HV_SUCCESS
    }

    /// Reports the maximum number of virtual CPUs the facility can create.
    pub fn vm_get_max_vcpu_count(&self) -> (r: (i32, u32))
        ensures
            r.0 == HV_SUCCESS,
            r.1 == HV_MAX_VCPU_COUNT,
    {
        (HV_SUCCESS, HV_MAX_VCPU_COUNT)
    }

    /// Creates a virtual CPU bound to the calling thread and returns its id.
    /// Fails when no virtual machine is live.
    pub fn vcpu_create(&mut self) -> (r: (i32, u64))
        requires
            old(self).wf(),
        ensures
            final(self).wf(),
            old(self).live_vms == 0 ==> r.0 == HV_NO_DEVICE && *final(self) == *old(self),
            old(self).live_vms > 0 ==> {
                &&& r.0 == HV_SUCCESS
                &&& r.1 == old(self).vcpus@.len()
                &&& final(self).vcpus@ == old(self).vcpus@.push(fresh_vcpu_slot())
                &&& final(self).live_vms == old(self).live_vms
                &&& final(self).vm_refs == old(self).vm_refs
                &&& final(self).regions == old(self).regions
                &&& final(self).gic == old(self).gic
            },
    {
        if self.live_vms == 0 {
            return (HV_NO_DEVICE, 0);
        }
        let id = self.vcpus.len() as u64;
        self.vcpus.push(VcpuSlot {
            live: true,
            exit_requested: false,
            exit_reason: ExitReason::UNKNOWN,
            exit_exception: VcpuExitException {
                syndrome: 0,
                virtual_address: 0,
                physical_address: 0,
            },
            pending_irq: false,
            pending_fiq: false,
            trap_debug_exceptions: false,
            trap_debug_reg_accesses: false,
            vtimer_mask: false,
            vtimer_offset: 0,
            exec_time: 0,
        });
        (HV_SUCCESS, id)
    }

    /// Destroys the virtual CPU with the given id. Fails when no such virtual
    /// CPU exists.
    pub fn vcpu_destroy(&mut self, id: u64) -> (r: i32)
        requires
            old(self).wf(),
        ensures
            final(self).wf(),
            !old(self).vcpu_live(id as int) ==> r == HV_BAD_ARGUMENT && *final(self) == *old(self),
            old(self).vcpu_live(id as int) ==> {
                &&& r == HV_SUCCESS
                &&& final(self).vcpus@ == old(self).vcpus@.update(
                    id as int,
                    (VcpuSlot { live: false, ..old(self).vcpus@[id as int] }),
                )
                &&& final(self).live_vms == old(self).live_vms
                &&& final(self).vm_refs == old(self).vm_refs
                &&& final(self).regions == old(self).regions
                &&& final(self).gic == old(self).gic
            },
    {
        if id >= self.vcpus.len() as u64 {
            return HV_BAD_ARGUMENT;
        }
        let idx = id as usize;
        if !self.vcpus[idx].live {
            return HV_BAD_ARGUMENT;
        }
        let mut slot = self.vcpus[idx];
        slot.live = false;
        self.vcpus.set(idx, slot);
        HV_SUCCESS
    }

    /// Runs the virtual CPU with the given id until the facility reports an
    /// exit, updating the virtual CPU's exit information in place.
    ///
    /// The model executes no guest instructions: a run observes a pending
    /// forced exit as a cancellation, and reports an unknown exit otherwise.
    pub fn vcpu_run(&mut self, id: u64) -> (r: i32)
        requires
            old(self).wf(),
        ensures
            final(self).wf(),
            !old(self).vcpu_live(id as int) ==> r == HV_BAD_ARGUMENT && *final(self) == *old(self),
            old(self).vcpu_live(id as int) ==> {
                &&& r == HV_SUCCESS
                &&& final(self).vcpus@ == old(self).vcpus@.update(
                    id as int,
                    (VcpuSlot {
                        exit_requested: false,
                        exit_reason: if old(self).vcpus@[id as int].exit_requested {
                            ExitReason::CANCELED
                        } else {
                            ExitReason::UNKNOWN
                        },
                        ..old(self).vcpus@[id as int]
                    }),
                )
                &&& final(self).live_vms == old(self).live_vms
                &&& final(self).vm_refs == old(self).vm_refs
                &&& final(self).regions == old(self).regions
                &&& final(self).gic == old(self).gic
            },
    {
        if id >= self.vcpus.len() as u64 {
            return HV_BAD_ARGUMENT;
        }
        let idx = id as usize;
        if !self.vcpus[idx].live {
            return HV_BAD_ARGUMENT;
        }
        let mut slot = self.vcpus[idx];
        if slot.exit_requested {
            slot.exit_requested = false;
            slot.exit_reason = ExitReason::CANCELED;
        } else {
            slot.exit_reason = ExitReason::UNKNOWN;
        }
        self.vcpus.set(idx, slot);
        HV_SUCCESS
    }

    /// Requests an exit of every virtual CPU in the given id list. Fails
    /// without effect when any id names no live virtual CPU.
    pub fn vcpus_exit(&mut self, ids: &Vec<u64>) -> (r: i32)
        requires
            old(self).wf(),
        ensures
            final(self).wf(),
            (forall|k: int| 0 <= k < ids@.len() ==> old(self).vcpu_live(#[trigger] ids@[k] as int))
                <==> r == HV_SUCCESS,
            r != HV_SUCCESS ==> r == HV_BAD_ARGUMENT && *final(self) == *old(self),
            r == HV_SUCCESS ==> {
                &&& final(self).vcpus@.len() == old(self).vcpus@.len()
                &&& forall|j: int|
                    0 <= j < old(self).vcpus@.len() ==> #[trigger] final(self).vcpus@[j] == (
                    if ids@.contains(j as u64) {
                        VcpuSlot { exit_requested: true, ..old(self).vcpus@[j] }
                    } else {
                        old(self).vcpus@[j]
                    })
                &&& final(self).live_vms == old(self).live_vms
                &&& final(self).vm_refs == old(self).vm_refs
                &&& final(self).regions == old(self).regions
                &&& final(self).gic == old(self).gic
            },
    {
        let mut k: usize = 0;
        while k < ids.len()
            invariant
                0 <= k <= ids@.len(),
                forall|k2: int| 0 <= k2 < k ==> self.vcpu_live(#[trigger] ids@[k2] as int),
                *self == *old(self),
                self.wf(),
            decreases ids@.len() - k,
        {
            let id = ids[k];
            if id >= self.vcpus.len() as u64 || !self.vcpus[id as usize].live {
                return HV_BAD_ARGUMENT;
            }
            k = k + 1;
        }
        let mut k: usize = 0;
        while k < ids.len()
            invariant
                0 <= k <= ids@.len(),
                forall|k2: int| 0 <= k2 < ids@.len() ==> old(self).vcpu_live(
                    #[trigger] ids@[k2] as int,
                ),
                self.vcpus@.len() == old(self).vcpus@.len(),
                forall|j: int|
                    0 <= j < old(self).vcpus@.len() ==> #[trigger] self.vcpus@[j] == (
                    if exists|k2: int| 0 <= k2 < k && ids@[k2] == j as u64 {
                        VcpuSlot { exit_requested: true, ..old(self).vcpus@[j] }
                    } else {
                        old(self).vcpus@[j]
                    }),
                self.live_vms == old(self).live_vms,
                self.vm_refs == old(self).vm_refs,
                self.regions == old(self).regions,
                self.gic == old(self).gic,
            decreases ids@.len() - k,
        {
            proof {
                assert(old(self).vcpu_live(ids@[k as int] as int));
            }
            let id64 = ids[k];
            if id64 >= self.vcpus.len() as u64 {
                // Ruled out by the validation pass above; keeps the index
                // in bounds.
                return HV_BAD_ARGUMENT;
            }
            let id = id64 as usize;
            let ghost pre_vcpus = self.vcpus@;
            let mut slot = self.vcpus[id];
            slot.exit_requested = true;
            self.vcpus.set(id, slot);
            proof {
                assert(ids@[k as int] == id as u64);
                assert forall|j: int| 0 <= j < old(self).vcpus@.len() implies #[trigger] self
                    .vcpus@[j] == (if exists|k2: int| 0 <= k2 < k + 1 && ids@[k2] == j as u64 {
                    VcpuSlot { exit_requested: true, ..old(self).vcpus@[j] }
                } else {
                    old(self).vcpus@[j]
                }) by {
                    if j == id as int {
                        assert(ids@[k as int] == j as u64);
                        assert(self.vcpus@[j] == VcpuSlot {
                            exit_requested: true,
                            ..pre_vcpus[j]
                        });
                    } else {
                        assert(self.vcpus@[j] == pre_vcpus[j]);
                        if exists|k2: int| 0 <= k2 < k + 1 && ids@[k2] == j as u64 {
                            let k2 = choose|k2: int| 0 <= k2 < k + 1 && ids@[k2] == j as u64;
                            assert(k2 < k);
                            assert(exists|k3: int| 0 <= k3 < k && ids@[k3] == j as u64);
                        }
                    }
                }
            }
            k = k + 1;
        }
        HV_SUCCESS
    }

    /// Reads one virtual CPU slot. Fails when no live virtual CPU has the
    /// given id; the slot of a fresh id is then meaningless.
    pub fn vcpu_get(&self, id: u64) -> (r: (i32, VcpuSlot))
        requires
            self.wf(),
        ensures
            self.vcpu_live(id as int) ==> r.0 == HV_SUCCESS && r.1 == self.vcpus@[id as int],
            !self.vcpu_live(id as int) ==> r.0 == HV_BAD_ARGUMENT,
    {
        if id >= self.vcpus.len() as u64 {
            return (
                HV_BAD_ARGUMENT,
                VcpuSlot {
                    live: false,
                    exit_requested: false,
                    exit_reason: ExitReason::UNKNOWN,
                    exit_exception: VcpuExitException {
                        syndrome: 0,
                        virtual_address: 0,
                        physical_address: 0,
                    },
                    pending_irq: false,
                    pending_fiq: false,
                    trap_debug_exceptions: false,
                    trap_debug_reg_accesses: false,
                    vtimer_mask: false,
                    vtimer_offset: 0,
                    exec_time: 0,
                },
            );
        }
        let slot = self.vcpus[id as usize];
        if !slot.live {
            return (HV_BAD_ARGUMENT, slot);
        }
        (HV_SUCCESS, slot)
    }

    /// Replaces one virtual CPU slot; the update must keep the virtual CPU
    /// live. Fails when no live virtual CPU has the given id.
    pub fn vcpu_set(&mut self, id: u64, slot: VcpuSlot) -> (r: i32)
        requires
            old(self).wf(),
            slot.live,
        ensures
            final(self).wf(),
            !old(self).vcpu_live(id as int) ==> r == HV_BAD_ARGUMENT && *final(self) == *old(self),
            old(self).vcpu_live(id as int) ==> {
                &&& r == HV_SUCCESS
                &&& final(self).vcpus@ == old(self).vcpus@.update(id as int, slot)
                &&& final(self).live_vms == old(self).live_vms
                &&& final(self).vm_refs == old(self).vm_refs
                &&& final(self).regions == old(self).regions
                &&& final(self).gic == old(self).gic
            },
    {
        if id >= self.vcpus.len() as u64 {
            return HV_BAD_ARGUMENT;
        }
        let idx = id as usize;
        if !self.vcpus[idx].live {
            return HV_BAD_ARGUMENT;
        }
        self.vcpus.set(idx, slot);
        HV_SUCCESS
    }

    /// Whether the given guest range overlaps none of the currently mapped
    /// regions.
    pub open spec fn range_free(&self, base: int, size: int) -> bool {
        forall|i: int|
            0 <= i < self.regions@.len() ==> (#[trigger] self.regions@[i]).base
                + self.regions@[i].size <= base || base + size <= self.regions@[i].base
    }

    /// Whether the arguments of a map call are acceptable: page-aligned base
    /// and size, a non-empty range, and no wrap-around of the address space.
    pub open spec fn map_args_ok(base: u64, size: u64) -> bool {
        &&& base % (PAGE_SIZE as u64) == 0
        &&& size % (PAGE_SIZE as u64) == 0
        &&& size > 0
        &&& base + size <= u64::MAX as int + 1
    }

    /// Maps a host range at the given guest address. Fails with an
    /// invalid-argument status on an unaligned, empty or wrapping range, and
    /// with a generic failure when the range overlaps an existing mapping or
    /// no virtual machine is live.
    pub fn vm_map(&mut self, guest_addr: u64, size: usize, flags: u64) -> (r: i32)
        requires
            old(self).wf(),
        ensures
            final(self).wf(),
            old(self).live_vms == 0 ==> r == HV_ERROR && *final(self) == *old(self),
            old(self).live_vms > 0 && !Self::map_args_ok(guest_addr, size as u64) ==> r
                == HV_BAD_ARGUMENT && *final(self) == *old(self),
            old(self).live_vms > 0 && Self::map_args_ok(guest_addr, size as u64) && !old(self).range_free(guest_addr as int, size as int) ==> r == HV_ERROR && *final(self) == *old(self),
            old(self).live_vms > 0 && Self::map_args_ok(guest_addr, size as u64) && old(self).range_free(guest_addr as int, size as int) ==> {
                &&& r == HV_SUCCESS
                &&& final(self).regions@ == old(self).regions@.push(
                    (Region { base: guest_addr, size: size as u64, flags }),
                )
                &&& final(self).live_vms == old(self).live_vms
                &&& final(self).vm_refs == old(self).vm_refs
                &&& final(self).vcpus == old(self).vcpus
                &&& final(self).gic == old(self).gic
            },
    {
        if self.live_vms == 0 {
            return HV_ERROR;
        }
        let size64 = size as u64;
        if guest_addr % (PAGE_SIZE as u64) != 0 || size64 % (PAGE_SIZE as u64) != 0 || size64 == 0
            || guest_addr > u64::MAX - (size64 - 1) {
            return HV_BAD_ARGUMENT;
        }
        let mut i: usize = 0;
        while i < self.regions.len()
            invariant
                0 <= i <= self.regions@.len(),
                forall|j: int|
                    0 <= j < i ==> (#[trigger] self.regions@[j]).base + self.regions@[j].size
                        <= guest_addr || guest_addr + size64 <= self.regions@[j].base,
                *self == *old(self),
                self.wf(),
                self.live_vms > 0,
                Self::map_args_ok(guest_addr, size64),
                size64 == size as u64,
            decreases self.regions@.len() - i,
        {
            let rg = self.regions[i];
            let region_before = rg.size <= guest_addr && rg.base <= guest_addr - rg.size;
            let range_before = size64 <= rg.base && guest_addr <= rg.base - size64;
            if region_before || range_before {
                i = i + 1;
            } else {
                return HV_ERROR;
            }
        }
        self.regions.push(Region { base: guest_addr, size: size64, flags });
        HV_SUCCESS
    }

    /// Unmaps the guest range previously mapped at the given address with the
    /// given size. Fails when no such mapping exists.
    pub fn vm_unmap(&mut self, guest_addr: u64, size: usize) -> (r: i32)
        requires
            old(self).wf(),
        ensures
            final(self).wf(),
            (exists|i: int|
                0 <= i < old(self).regions@.len() && (#[trigger] old(self).regions@[i]).base
                    == guest_addr && old(self).regions@[i].size == size as u64) <==> r
                == HV_SUCCESS,
            r != HV_SUCCESS ==> r == HV_BAD_ARGUMENT && *final(self) == *old(self),
            r == HV_SUCCESS ==> {
                &&& final(self).regions@.len() == old(self).regions@.len() - 1
                &&& forall|rg: Region|
                    #[trigger] final(self).regions@.contains(rg) ==> old(self).regions@.contains(
                        rg,
                    ) && rg.base != guest_addr
                &&& forall|rg: Region|
                    #[trigger] old(self).regions@.contains(rg) && rg.base != guest_addr ==> final(self).regions@.contains(rg)
                &&& final(self).live_vms == old(self).live_vms
                &&& final(self).vm_refs == old(self).vm_refs
                &&& final(self).vcpus == old(self).vcpus
                &&& final(self).gic == old(self).gic
            },
    {
        let mut i: usize = 0;
        while i < self.regions.len()
            invariant
                0 <= i <= self.regions@.len(),
                forall|j: int|
                    0 <= j < i ==> !((#[trigger] self.regions@[j]).base == guest_addr
                        && self.regions@[j].size == size as u64),
                *self == *old(self),
                self.wf(),
            decreases self.regions@.len() - i,
        {
            let rg = self.regions[i];
            if rg.base == guest_addr && rg.size == size as u64 {
                self.regions.remove(i);
                proof {
                    let removed = old(self).regions@[i as int];
                    assert forall|rg2: Region| #[trigger]
                        self.regions@.contains(rg2) implies old(self).regions@.contains(rg2)
                        && rg2.base != guest_addr by {
                        let k = choose|k: int|
                            0 <= k < self.regions@.len() && self.regions@[k] == rg2;
                        if k < i {
                            assert(old(self).regions@[k] == rg2);
                        } else {
                            assert(old(self).regions@[k + 1] == rg2);
                        }
                        let k0 = choose|k0: int|
                            0 <= k0 < old(self).regions@.len() && old(self).regions@[k0] == rg2;
                        if rg2.base == guest_addr {
                            // Disjoint non-empty regions have distinct bases,
                            // so only the removed region carries this base.
                            assert(regions_disjoint(
                                old(self).regions@[k0],
                                old(self).regions@[i as int],
                            ) || k0 == i);
                            assert(false);
                        }
                    }
                    assert forall|rg2: Region| #[trigger]
                        old(self).regions@.contains(rg2) && rg2.base
                        != guest_addr implies self.regions@.contains(rg2) by {
                        let k = choose|k: int|
                            0 <= k < old(self).regions@.len() && old(self).regions@[k] == rg2;
                        if k < i {
                            assert(self.regions@[k] == rg2);
                        } else {
                            assert(k != i);
                            assert(self.regions@[k - 1] == rg2);
                        }
                    }
                }
                return HV_SUCCESS;
            }
            i = i + 1;
        }
        HV_BAD_ARGUMENT
    }

    /// Changes the permission bits of the mapping at the given guest address
    /// with the given size. Fails when no such mapping exists.
    pub fn vm_protect(&mut self, guest_addr: u64, size: usize, flags: u64) -> (r: i32)
        requires
            old(self).wf(),
        ensures
            final(self).wf(),
            (exists|i: int|
                0 <= i < old(self).regions@.len() && (#[trigger] old(self).regions@[i]).base
                    == guest_addr && old(self).regions@[i].size == size as u64) <==> r
                == HV_SUCCESS,
            r != HV_SUCCESS ==> r == HV_BAD_ARGUMENT && *final(self) == *old(self),
            r == HV_SUCCESS ==> {
                &&& final(self).regions@.len() == old(self).regions@.len()
                &&& final(self).regions@.contains(
                    (Region { base: guest_addr, size: size as u64, flags }),
                )
                &&& forall|rg: Region|
                    #[trigger] final(self).regions@.contains(rg) && rg.base != guest_addr ==> old(self).regions@.contains(rg)
                &&& forall|rg: Region|
                    #[trigger] old(self).regions@.contains(rg) && rg.base != guest_addr ==> final(self).regions@.contains(rg)
                &&& forall|rg: Region|
                    #[trigger] final(self).regions@.contains(rg) && rg.base == guest_addr ==> rg
                        == (Region { base: guest_addr, size: size as u64, flags })
                &&& final(self).live_vms == old(self).live_vms
                &&& final(self).vm_refs == old(self).vm_refs
                &&& final(self).vcpus == old(self).vcpus
                &&& final(self).gic == old(self).gic
            },
    {
        let mut i: usize = 0;
        while i < self.regions.len()
            invariant
                0 <= i <= self.regions@.len(),
                forall|j: int|
                    0 <= j < i ==> !((#[trigger] self.regions@[j]).base == guest_addr
                        && self.regions@[j].size == size as u64),
                *self == *old(self),
                self.wf(),
            decreases self.regions@.len() - i,
        {
            let rg = self.regions[i];
            if rg.base == guest_addr && rg.size == size as u64 {
                self.regions.set(i, Region { base: guest_addr, size: rg.size, flags });
                proof {
                    let pre = old(self).regions@;
                    let post = self.regions@;
                    let upd = Region { base: guest_addr, size: size as u64, flags };
                    assert(post == pre.update(i as int, upd));
                    assert(post[i as int] == upd);
                    assert(post.contains(upd));
                    assert forall|rg2: Region| #[trigger]
                        post.contains(rg2) && rg2.base != guest_addr implies pre.contains(
                        rg2,
                    ) by {
                        let k = choose|k: int| 0 <= k < post.len() && post[k] == rg2;
                        assert(k != i);
                        assert(pre[k] == rg2);
                    }
                    assert forall|rg2: Region| #[trigger]
                        pre.contains(rg2) && rg2.base != guest_addr implies post.contains(
                        rg2,
                    ) by {
                        let k = choose|k: int| 0 <= k < pre.len() && pre[k] == rg2;
                        assert(k != i);
                        assert(post[k] == rg2);
                    }
                    assert forall|rg2: Region| #[trigger]
                        post.contains(rg2) && rg2.base == guest_addr implies rg2 == upd by {
                        let k = choose|k: int| 0 <= k < post.len() && post[k] == rg2;
                        if k != i {
                            assert(pre[k] == rg2);
                            assert(region_wf(pre[k]));
                            assert(region_wf(pre[i as int]));
                            assert(regions_disjoint(pre[k], pre[i as int]));
                            assert(false);
                        }
                    }
                }
                return HV_SUCCESS;
            }
            i = i + 1;
        }
        HV_BAD_ARGUMENT
    }

    /// Creates the single interrupt controller instance of the live virtual
    /// machine from a configuration. Requires a live machine, at most one
    /// controller, and a configured redistributor base.
    pub fn gic_create(
        &mut self,
        dist_base: Option<u64>,
        redist_base: Option<u64>,
        msi_base: Option<u64>,
        msi_intid_base: u32,
        msi_intid_count: u32,
    ) -> (r: i32)
        requires
            old(self).wf(),
            msi_intid_count > 0 ==> GIC_SPI_INTID_BASE <= msi_intid_base && msi_intid_base
                + msi_intid_count <= GIC_SPI_INTID_BASE + GIC_SPI_INTID_COUNT,
        ensures
            final(self).wf(),
            old(self).live_vms == 0 ==> r == HV_ERROR && *final(self) == *old(self),
            old(self).live_vms > 0 && old(self).gic is Some ==> r == HV_BUSY && *final(self)
                == *old(self),
            old(self).live_vms > 0 && old(self).gic is None && redist_base is None ==> r
                == HV_BAD_ARGUMENT && *final(self) == *old(self),
            old(self).live_vms > 0 && old(self).gic is None && redist_base is Some ==> {
                &&& r == HV_SUCCESS
                &&& final(self).gic matches Some(g) && {
                    &&& g.dist_regs@ == Seq::<u64>::new(GIC_DIST_REG_COUNT as nat, |i: int| 0u64)
                    &&& g.msi_regs@ == Seq::<u64>::new(GIC_MSI_REG_COUNT as nat, |i: int| 0u64)
                    &&& g.msi_region_base == msi_base
                    &&& g.msi_intid_base == msi_intid_base
                    &&& g.msi_intid_count == msi_intid_count
                }
                &&& final(self).live_vms == old(self).live_vms
                &&& final(self).vm_refs == old(self).vm_refs
                &&& final(self).vcpus == old(self).vcpus
                &&& final(self).regions == old(self).regions
            },
    {
        if self.live_vms == 0 {
            return HV_ERROR;
        }
        if self.gic.is_some() {
            return HV_BUSY;
        }
        if redist_base.is_none() {
            return HV_BAD_ARGUMENT;
        }
        let mut dist_regs: Vec<u64> = Vec::new();
        while dist_regs.len() < GIC_DIST_REG_COUNT
            invariant
                dist_regs@.len() <= GIC_DIST_REG_COUNT,
                forall|i: int| 0 <= i < dist_regs@.len() ==> dist_regs@[i] == 0,
            decreases GIC_DIST_REG_COUNT - dist_regs@.len(),
        {
            dist_regs.push(0);
        }
        let mut msi_regs: Vec<u64> = Vec::new();
        while msi_regs.len() < GIC_MSI_REG_COUNT
            invariant
                msi_regs@.len() <= GIC_MSI_REG_COUNT,
                forall|i: int| 0 <= i < msi_regs@.len() ==> msi_regs@[i] == 0,
            decreases GIC_MSI_REG_COUNT - msi_regs@.len(),
        {
            msi_regs.push(0);
        }
        proof {
            assert(dist_regs@ =~= Seq::<u64>::new(GIC_DIST_REG_COUNT as nat, |i: int| 0u64));
            assert(msi_regs@ =~= Seq::<u64>::new(GIC_MSI_REG_COUNT as nat, |i: int| 0u64));
        }
        self.gic = Some(
            GicUnit { dist_regs, msi_regs, msi_region_base: msi_base, msi_intid_base, msi_intid_count },
        );
        HV_SUCCESS
    }

    /// Resets the interrupt controller: all its registers return to zero.
    pub fn gic_reset(&mut self) -> (r: i32)
        requires
            old(self).wf(),
        ensures
            final(self).wf(),
            old(self).gic is None ==> r == HV_ERROR && *final(self) == *old(self),
            old(self).gic matches Some(g) ==> {
                &&& r == HV_SUCCESS
                &&& final(self).gic matches Some(g2) && {
                    &&& g2.dist_regs@ == Seq::<u64>::new(GIC_DIST_REG_COUNT as nat, |i: int| 0u64)
                    &&& g2.msi_regs@ == Seq::<u64>::new(GIC_MSI_REG_COUNT as nat, |i: int| 0u64)
                    &&& g2.msi_region_base == g.msi_region_base
                    &&& g2.msi_intid_base == g.msi_intid_base
                    &&& g2.msi_intid_count == g.msi_intid_count
                }
                &&& final(self).live_vms == old(self).live_vms
                &&& final(self).vm_refs == old(self).vm_refs
                &&& final(self).vcpus == old(self).vcpus
                &&& final(self).regions == old(self).regions
            },
    {
        let (msi_region_base, msi_intid_base, msi_intid_count) = match &self.gic {
            Some(g) => (g.msi_region_base, g.msi_intid_base, g.msi_intid_count),
            None => { return HV_ERROR },
        };
        let mut dist_regs: Vec<u64> = Vec::new();
        while dist_regs.len() < GIC_DIST_REG_COUNT
            invariant
                dist_regs@.len() <= GIC_DIST_REG_COUNT,
                forall|i: int| 0 <= i < dist_regs@.len() ==> dist_regs@[i] == 0,
            decreases GIC_DIST_REG_COUNT - dist_regs@.len(),
        {
            dist_regs.push(0);
        }
        let mut msi_regs: Vec<u64> = Vec::new();
        while msi_regs.len() < GIC_MSI_REG_COUNT
            invariant
                msi_regs@.len() <= GIC_MSI_REG_COUNT,
                forall|i: int| 0 <= i < msi_regs@.len() ==> msi_regs@[i] == 0,
            decreases GIC_MSI_REG_COUNT - msi_regs@.len(),
        {
            msi_regs.push(0);
        }
        proof {
            assert(dist_regs@ =~= Seq::<u64>::new(GIC_DIST_REG_COUNT as nat, |i: int| 0u64));
            assert(msi_regs@ =~= Seq::<u64>::new(GIC_MSI_REG_COUNT as nat, |i: int| 0u64));
        }
        self.gic = Some(
            GicUnit { dist_regs, msi_regs, msi_region_base, msi_intid_base, msi_intid_count },
        );
        HV_SUCCESS
    }

    /// Triggers a shared peripheral interrupt. The id must lie in the
    /// shared-peripheral range and outside the configured message-signaled
    /// range.
    pub fn gic_set_spi(&mut self, intid: u32, level: bool) -> (r: i32)
        requires
            old(self).wf(),
        ensures
            final(self).wf(),
            *final(self) == *old(self),
            old(self).gic is None ==> r == HV_ERROR,
            old(self).gic matches Some(g) ==> (r == HV_SUCCESS <==> spi_ok(g, intid)),
            old(self).gic matches Some(g) ==> !spi_ok(g, intid) ==> r == HV_BAD_ARGUMENT,
    {
        let g = match &self.gic {
            Some(g) => g,
            None => { return HV_ERROR },
        };
        if intid < GIC_SPI_INTID_BASE || intid >= GIC_SPI_INTID_BASE + GIC_SPI_INTID_COUNT {
            return HV_BAD_ARGUMENT;
        }
        if g.msi_intid_base <= intid && (intid as u64) < g.msi_intid_base as u64
            + g.msi_intid_count as u64 {
            return HV_BAD_ARGUMENT;
        }
        HV_SUCCESS
    }

    /// Delivers a message-signaled interrupt. The address must lie in the
    /// configured message region and the id in the configured range.
    pub fn gic_send_msi(&mut self, addr: u64, intid: u32) -> (r: i32)
        requires
            old(self).wf(),
        ensures
            final(self).wf(),
            *final(self) == *old(self),
            old(self).gic is None ==> r == HV_ERROR,
            old(self).gic matches Some(g) ==> (r == HV_SUCCESS <==> msi_ok(g, addr, intid)),
            old(self).gic matches Some(g) ==> !msi_ok(g, addr, intid) ==> r == HV_BAD_ARGUMENT,
    {
        let g = match &self.gic {
            Some(g) => g,
            None => { return HV_ERROR },
        };
        let base = match g.msi_region_base {
            Some(base) => base,
            None => { return HV_BAD_ARGUMENT },
        };
        if addr < base || addr - base >= GIC_MSI_REGION_SIZE {
            return HV_BAD_ARGUMENT;
        }
        if intid < g.msi_intid_base || (intid as u64) >= g.msi_intid_base as u64
            + g.msi_intid_count as u64 {
            return HV_BAD_ARGUMENT;
        }
        HV_SUCCESS
    }

    /// Reads a distributor register of the interrupt controller.
    pub fn gic_get_distributor_reg(&self, idx: usize) -> (r: (i32, u64))
        requires
            self.wf(),
        ensures
            self.gic is None ==> r.0 == HV_ERROR,
            self.gic matches Some(g) ==> idx < GIC_DIST_REG_COUNT ==> r.0 == HV_SUCCESS && r.1
                == g.dist_regs@[idx as int],
            self.gic is Some && idx >= GIC_DIST_REG_COUNT ==> r.0 == HV_BAD_ARGUMENT,
    {
        let g = match &self.gic {
            Some(g) => g,
            None => { return (HV_ERROR, 0) },
        };
        if idx >= GIC_DIST_REG_COUNT {
            return (HV_BAD_ARGUMENT, 0);
        }
        (HV_SUCCESS, g.dist_regs[idx])
    }

    /// Writes a distributor register of the interrupt controller.
    pub fn gic_set_distributor_reg(&mut self, idx: usize, value: u64) -> (r: i32)
        requires
            old(self).wf(),
        ensures
            final(self).wf(),
            old(self).gic is None ==> r == HV_ERROR && *final(self) == *old(self),
            old(self).gic is Some && idx >= GIC_DIST_REG_COUNT ==> r == HV_BAD_ARGUMENT && *final(self) == *old(self),
            old(self).gic matches Some(g) ==> idx < GIC_DIST_REG_COUNT ==> {
                &&& r == HV_SUCCESS
                &&& final(self).gic matches Some(g2) && {
                    &&& g2.dist_regs@ == g.dist_regs@.update(idx as int, value)
                    &&& g2.msi_regs == g.msi_regs
                    &&& g2.msi_region_base == g.msi_region_base
                    &&& g2.msi_intid_base == g.msi_intid_base
                    &&& g2.msi_intid_count == g.msi_intid_count
                }
                &&& final(self).live_vms == old(self).live_vms
                &&& final(self).vm_refs == old(self).vm_refs
                &&& final(self).vcpus == old(self).vcpus
                &&& final(self).regions == old(self).regions
            },
    {
        let g = match &mut self.gic {
            Some(g) => g,
            None => { return HV_ERROR },
        };
        if idx >= GIC_DIST_REG_COUNT {
            return HV_BAD_ARGUMENT;
        }
        g.dist_regs.set(idx, value);
        HV_SUCCESS
    }

    /// Reads a message-signaled-interrupt register of the interrupt
    /// controller.
    pub fn gic_get_msi_reg(&self, idx: usize) -> (r: (i32, u64))
        requires
            self.wf(),
        ensures
            self.gic is None ==> r.0 == HV_ERROR,
            self.gic matches Some(g) ==> idx < GIC_MSI_REG_COUNT ==> r.0 == HV_SUCCESS && r.1
                == g.msi_regs@[idx as int],
            self.gic is Some && idx >= GIC_MSI_REG_COUNT ==> r.0 == HV_BAD_ARGUMENT,
    {
        let g = match &self.gic {
            Some(g) => g,
            None => { return (HV_ERROR, 0) },
        };
        if idx >= GIC_MSI_REG_COUNT {
            return (HV_BAD_ARGUMENT, 0);
        }
        (HV_SUCCESS, g.msi_regs[idx])
    }

    /// Writes a message-signaled-interrupt register of the interrupt
    /// controller.
    pub fn gic_set_msi_reg(&mut self, idx: usize, value: u64) -> (r: i32)
        requires
            old(self).wf(),
        ensures
            final(self).wf(),
            old(self).gic is None ==> r == HV_ERROR && *final(self) == *old(self),
            old(self).gic is Some && idx >= GIC_MSI_REG_COUNT ==> r == HV_BAD_ARGUMENT && *final(self) == *old(self),
            old(self).gic matches Some(g) ==> idx < GIC_MSI_REG_COUNT ==> {
                &&& r == HV_SUCCESS
                &&& final(self).gic matches Some(g2) && {
                    &&& g2.msi_regs@ == g.msi_regs@.update(idx as int, value)
                    &&& g2.dist_regs == g.dist_regs
                    &&& g2.msi_region_base == g.msi_region_base
                    &&& g2.msi_intid_base == g.msi_intid_base
                    &&& g2.msi_intid_count == g.msi_intid_count
                }
                &&& final(self).live_vms == old(self).live_vms
                &&& final(self).vm_refs == old(self).vm_refs
                &&& final(self).vcpus == old(self).vcpus
                &&& final(self).regions == old(self).regions
            },
    {
        let g = match &mut self.gic {
            Some(g) => g,
            None => { return HV_ERROR },
        };
        if idx >= GIC_MSI_REG_COUNT {
            return HV_BAD_ARGUMENT;
        }
        g.msi_regs.set(idx, value);
        HV_SUCCESS
    }

    /// Saves the interrupt controller's state into a blob: a format marker
    /// followed by every distributor and message-signaled register in
    /// little-endian order.
    pub fn gic_state_bytes(&self) -> (r: (i32, Vec<u8>))
        requires
            self.wf(),
        ensures
            self.gic is None ==> r.0 == HV_ERROR,
            self.gic matches Some(g) ==> {
                &&& r.0 == HV_SUCCESS
                &&& r.1@.len() == GIC_STATE_SIZE
                &&& r.1@[0] == 1
                &&& forall|i: int|
                    0 <= i < GIC_DIST_REG_COUNT ==> r.1@.subrange(1 + 8 * i, 9 + 8 * i)
                        == crate::memory::u64_le_bytes(#[trigger] g.dist_regs@[i])
                &&& forall|i: int|
                    0 <= i < GIC_MSI_REG_COUNT ==> r.1@.subrange(
                        1 + 8 * (GIC_DIST_REG_COUNT + i),
                        9 + 8 * (GIC_DIST_REG_COUNT + i),
                    ) == crate::memory::u64_le_bytes(#[trigger] g.msi_regs@[i])
            },
    {
        let g = match &self.gic {
            Some(g) => g,
            None => { return (HV_ERROR, Vec::new()) },
        };
        let mut data: Vec<u8> = Vec::new();
        data.push(1);
        let mut i: usize = 0;
        while i < GIC_DIST_REG_COUNT
            invariant
                0 <= i <= GIC_DIST_REG_COUNT,
                g == self.gic->0,
                g.dist_regs@.len() == GIC_DIST_REG_COUNT,
                data@.len() == 1 + 8 * i,
                data@[0] == 1,
                forall|j: int|
                    0 <= j < i ==> data@.subrange(1 + 8 * j, 9 + 8 * j)
                        == crate::memory::u64_le_bytes(#[trigger] g.dist_regs@[j]),
            decreases GIC_DIST_REG_COUNT - i,
        {
            let ghost pre = data@;
            push_le_u64(&mut data, g.dist_regs[i]);
            proof {
                assert forall|j: int| 0 <= j < i + 1 implies data@.subrange(1 + 8 * j, 9 + 8 * j)
                    == crate::memory::u64_le_bytes(#[trigger] g.dist_regs@[j]) by {
                    if j < i {
                        assert(data@.subrange(1 + 8 * j, 9 + 8 * j) =~= pre.subrange(
                            1 + 8 * j,
                            9 + 8 * j,
                        ));
                    } else {
                        assert(data@.subrange(1 + 8 * j, 9 + 8 * j)
                            =~= crate::memory::u64_le_bytes(g.dist_regs@[j]));
                    }
                }
            }
            i = i + 1;
        }
        let mut i: usize = 0;
        while i < GIC_MSI_REG_COUNT
            invariant
                0 <= i <= GIC_MSI_REG_COUNT,
                g == self.gic->0,
                g.dist_regs@.len() == GIC_DIST_REG_COUNT,
                g.msi_regs@.len() == GIC_MSI_REG_COUNT,
                data@.len() == 1 + 8 * (GIC_DIST_REG_COUNT + i),
                data@[0] == 1,
                forall|j: int|
                    0 <= j < GIC_DIST_REG_COUNT ==> data@.subrange(1 + 8 * j, 9 + 8 * j)
                        == crate::memory::u64_le_bytes(#[trigger] g.dist_regs@[j]),
                forall|j: int|
                    0 <= j < i ==> data@.subrange(
                        1 + 8 * (GIC_DIST_REG_COUNT + j),
                        9 + 8 * (GIC_DIST_REG_COUNT + j),
                    ) == crate::memory::u64_le_bytes(#[trigger] g.msi_regs@[j]),
            decreases GIC_MSI_REG_COUNT - i,
        {
            let ghost pre = data@;
            push_le_u64(&mut data, g.msi_regs[i]);
            proof {
                assert forall|j: int| 0 <= j < GIC_DIST_REG_COUNT implies data@.subrange(
                    1 + 8 * j,
                    9 + 8 * j,
                ) == crate::memory::u64_le_bytes(#[trigger] g.dist_regs@[j]) by {
                    assert(data@.subrange(1 + 8 * j, 9 + 8 * j) =~= pre.subrange(
                        1 + 8 * j,
                        9 + 8 * j,
                    ));
                }
                assert forall|j: int| 0 <= j < i + 1 implies data@.subrange(
                    1 + 8 * (GIC_DIST_REG_COUNT + j),
                    9 + 8 * (GIC_DIST_REG_COUNT + j),
                ) == crate::memory::u64_le_bytes(#[trigger] g.msi_regs@[j]) by {
                    if j < i {
                        assert(data@.subrange(
                            1 + 8 * (GIC_DIST_REG_COUNT + j),
                            9 + 8 * (GIC_DIST_REG_COUNT + j),
                        ) =~= pre.subrange(
                            1 + 8 * (GIC_DIST_REG_COUNT + j),
                            9 + 8 * (GIC_DIST_REG_COUNT + j),
                        ));
                    } else {
                        assert(data@.subrange(
                            1 + 8 * (GIC_DIST_REG_COUNT + j),
                            9 + 8 * (GIC_DIST_REG_COUNT + j),
                        ) =~= crate::memory::u64_le_bytes(g.msi_regs@[j]));
                    }
                }
            }
            i = i + 1;
        }
        (HV_SUCCESS, data)
    }

    /// Restores the interrupt controller from a saved state blob. The blob
    /// must have the exact saved size and carry the format marker; the
    /// register files are then read back from it, while the configured
    /// regions and ranges stay.
    pub fn gic_set_state(&mut self, data: &Vec<u8>) -> (r: i32)
        requires
            old(self).wf(),
        ensures
            final(self).wf(),
            old(self).gic is None ==> r == HV_ERROR && *final(self) == *old(self),
            old(self).gic is Some ==> (r == HV_SUCCESS <==> data@.len() == GIC_STATE_SIZE
                && data@[0] == 1),
            old(self).gic is Some && !(data@.len() == GIC_STATE_SIZE && data@[0] == 1) ==> r
                == HV_BAD_ARGUMENT && *final(self) == *old(self),
            old(self).gic matches Some(g) ==> r == HV_SUCCESS ==> {
                &&& final(self).gic matches Some(g2) && {
                    &&& g2.dist_regs@.len() == GIC_DIST_REG_COUNT
                    &&& g2.msi_regs@.len() == GIC_MSI_REG_COUNT
                    &&& forall|i: int|
                        0 <= i < GIC_DIST_REG_COUNT ==> #[trigger] g2.dist_regs@[i]
                            == crate::memory::u64_of_le_bytes(
                            data@.subrange(1 + 8 * i, 9 + 8 * i),
                        )
                    &&& forall|i: int|
                        0 <= i < GIC_MSI_REG_COUNT ==> #[trigger] g2.msi_regs@[i]
                            == crate::memory::u64_of_le_bytes(
                            data@.subrange(
                                1 + 8 * (GIC_DIST_REG_COUNT + i),
                                9 + 8 * (GIC_DIST_REG_COUNT + i),
                            ),
                        )
                    &&& g2.msi_region_base == g.msi_region_base
                    &&& g2.msi_intid_base == g.msi_intid_base
                    &&& g2.msi_intid_count == g.msi_intid_count
                }
                &&& final(self).live_vms == old(self).live_vms
                &&& final(self).vm_refs == old(self).vm_refs
                &&& final(self).vcpus == old(self).vcpus
                &&& final(self).regions == old(self).regions
            },
    {
        let (msi_region_base, msi_intid_base, msi_intid_count) = match &self.gic {
            Some(g) => (g.msi_region_base, g.msi_intid_base, g.msi_intid_count),
            None => { return HV_ERROR },
        };
        if data.len() != GIC_STATE_SIZE {
            return HV_BAD_ARGUMENT;
        }
        if data[0] != 1 {
            return HV_BAD_ARGUMENT;
        }
        let mut dist_regs: Vec<u64> = Vec::new();
        let mut i: usize = 0;
        while i < GIC_DIST_REG_COUNT
            invariant
                0 <= i <= GIC_DIST_REG_COUNT,
                data@.len() == GIC_STATE_SIZE,
                dist_regs@.len() == i,
                forall|j: int|
                    0 <= j < i ==> #[trigger] dist_regs@[j] == crate::memory::u64_of_le_bytes(
                        data@.subrange(1 + 8 * j, 9 + 8 * j),
                    ),
            decreases GIC_DIST_REG_COUNT - i,
        {
            let v = read_le_u64(data, 1 + 8 * i);
            dist_regs.push(v);
            i = i + 1;
        }
        let mut msi_regs: Vec<u64> = Vec::new();
        let mut i: usize = 0;
        while i < GIC_MSI_REG_COUNT
            invariant
                0 <= i <= GIC_MSI_REG_COUNT,
                data@.len() == GIC_STATE_SIZE,
                msi_regs@.len() == i,
                forall|j: int|
                    0 <= j < i ==> #[trigger] msi_regs@[j] == crate::memory::u64_of_le_bytes(
                        data@.subrange(
                            1 + 8 * (GIC_DIST_REG_COUNT + j),
                            9 + 8 * (GIC_DIST_REG_COUNT + j),
                        ),
                    ),
            decreases GIC_MSI_REG_COUNT - i,
        {
            let v = read_le_u64(data, 1 + 8 * (GIC_DIST_REG_COUNT + i));
            msi_regs.push(v);
            i = i + 1;
        }
        self.gic = Some(
            GicUnit { dist_regs, msi_regs, msi_region_base, msi_intid_base, msi_intid_count },
        );
        HV_SUCCESS
    }
}

/// Appends a 64-bit value to a byte buffer in little-endian order.
fn push_le_u64(out: &mut Vec<u8>, v: u64)
    ensures
        final(out)@ == old(out)@ + crate::memory::u64_le_bytes(v),
{
    out.push((v & 0xff) as u8);
    out.push(((v >> 8) & 0xff) as u8);
    out.push(((v >> 16) & 0xff) as u8);
    out.push(((v >> 24) & 0xff) as u8);
    out.push(((v >> 32) & 0xff) as u8);
    out.push(((v >> 40) & 0xff) as u8);
    out.push(((v >> 48) & 0xff) as u8);
    out.push(((v >> 56) & 0xff) as u8);
    proof {
        assert(out@ =~= old(out)@ + crate::memory::u64_le_bytes(v));
    }
}

/// Reads a 64-bit value little-endian from a byte buffer at an offset.
fn read_le_u64(data: &Vec<u8>, off: usize) -> (r: u64)
    requires
        off + 8 <= data@.len(),
    ensures
        r == crate::memory::u64_of_le_bytes(data@.subrange(off as int, off as int + 8)),
{
    let n = data.len();
    let r = (data[off] as u64) | ((data[off + 1] as u64) << 8) | ((data[off + 2] as u64) << 16) | (
    (data[off + 3] as u64) << 24) | ((data[off + 4] as u64) << 32) | ((data[off + 5] as u64) << 40)
        | ((data[off + 6] as u64) << 48) | ((data[off + 7] as u64) << 56);
    proof {
        let sub = data@.subrange(off as int, off as int + 8);
        assert(sub[0] == data@[off as int]);
        assert(sub[1] == data@[off as int + 1]);
        assert(sub[2] == data@[off as int + 2]);
        assert(sub[3] == data@[off as int + 3]);
        assert(sub[4] == data@[off as int + 4]);
        assert(sub[5] == data@[off as int + 5]);
        assert(sub[6] == data@[off as int + 6]);
        assert(sub[7] == data@[off as int + 7]);
    }
    r
}

} // verus!

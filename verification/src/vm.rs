//! Creation and management of the unique per-process virtual machine.
//!
//! At most one virtual machine context exists per process. The library hands
//! out reference-counted [`VirtualMachineInstance`] tokens for it: the first
//! creation starts the count at one, every derived resource (virtual CPU,
//! memory object) holds one more reference, and the backend context is
//! destroyed exactly when the last reference is released.

use vstd::prelude::*;

use crate::backend::Backend;
use crate::backend::HV_SUCCESS;
use crate::error::HypervisorError;
use crate::memory::MemPerms;
use crate::memory::Memory;
use crate::vcpu::Vcpu;
use crate::vcpu::VcpuConfig;
use crate::vcpu::VcpuHandle;
use crate::backend::VcpuSlot;

verus! {

/// Marks a virtual machine instance configured with an interrupt controller.
#[derive(Clone, Copy, Debug)]
pub struct GicEnabled;

/// Marks a virtual machine instance configured without an interrupt
/// controller.
#[derive(Clone, Copy, Debug)]
pub struct GicDisabled;

/// The invariant the handle layer maintains over the shared state: the
/// facility state is well-formed and a virtual machine is live exactly while
/// the shared reference count is positive.
pub open spec fn vm_inv(b: Backend) -> bool {
    &&& b.wf()
    &&& b.vm_refs > 0 <==> b.live_vms == 1
}

/// A reference-counted handle to the unique virtual machine instance of the
/// current process. The machine stays live as long as any handle or derived
/// resource exists; the last one to be released destroys it. Handles are
/// duplicated only through [`VirtualMachineInstance::clone_ref`] and released
/// through [`VirtualMachineInstance::drop_ref`], which keep the shared count
/// in step with the outstanding handles.
#[derive(Debug)]
pub struct VirtualMachineInstance<Gic> {
    _phantom: core::marker::PhantomData<Gic>,
}

/// Releases one strong reference on the virtual machine. When the count
/// reaches zero the backend context is destroyed; a destroy blocked by a
/// remaining virtual CPU or mapping is reported as busy and leaves the
/// reference in place.
pub(crate) fn release_vm_ref(b: &mut Backend) -> (r: Result<(), HypervisorError>)
    requires
        vm_inv(*old(b)),
        old(b).vm_refs > 0,
    ensures
        vm_inv(*final(b)),
        final(b).vcpus == old(b).vcpus,
        final(b).regions == old(b).regions,
        old(b).vm_refs > 1 ==> r is Ok && *final(b) == (Backend {
            vm_refs: (old(b).vm_refs - 1) as u64,
            ..*old(b)
        }),
        old(b).vm_refs == 1 && old(b).no_live_vcpus() && old(b).regions@.len() == 0 ==> r is Ok
            && *final(b) == (Backend { live_vms: 0, vm_refs: 0, gic: None, ..*old(b) }),
        old(b).vm_refs == 1 && !(old(b).no_live_vcpus() && old(b).regions@.len() == 0) ==> r
            == Result::<(), HypervisorError>::Err(HypervisorError::Busy) && *final(b) == *old(b),
{
    if b.vm_refs > 1 {
        b.vm_refs = b.vm_refs - 1;
        Ok(())
    } else {
        let code = b.vm_destroy();
        if code == HV_SUCCESS {
            b.vm_refs = 0;
            Ok(())
        } else {
            Err(HypervisorError::from_code(code))
        }
    }
}

/// Namespace for methods instantiating virtual machines.
pub struct VirtualMachine;

impl VirtualMachine {
    /// Creates a new virtual machine instance for the current process.
    /// Succeeds exactly when no virtual machine is currently live, and then
    /// starts the shared reference count at one; otherwise reports busy.
    pub fn new(b: &mut Backend) -> (r: Result<
        VirtualMachineInstance<GicDisabled>,
        HypervisorError,
    >)
        requires
            vm_inv(*old(b)),
        ensures
            vm_inv(*final(b)),
            old(b).live_vms > 0 ==> (r matches Result::Err(e) && e == HypervisorError::Busy
                && *final(b) == *old(b)),
            old(b).live_vms == 0 ==> r is Ok && *final(b) == (Backend {
                live_vms: 1,
                vm_refs: 1,
                ..*old(b)
            }),
    {
        let code = b.vm_create();
        if code != HV_SUCCESS {
            return Err(HypervisorError::from_code(code));
        }
        b.vm_refs = 1;
        Ok(VirtualMachineInstance { _phantom: core::marker::PhantomData })
    }

    /// Creates a new virtual machine instance for the current process using
    /// a user-provided [`VirtualMachineConfig`].
    pub fn with_config(b: &mut Backend, config: VirtualMachineConfig) -> (r: Result<
        VirtualMachineInstance<GicDisabled>,
        HypervisorError,
    >)
        requires
            vm_inv(*old(b)),
        ensures
            vm_inv(*final(b)),
            old(b).live_vms > 0 ==> (r matches Result::Err(e) && e == HypervisorError::Busy
                && *final(b) == *old(b)),
            old(b).live_vms == 0 ==> r is Ok && *final(b) == (Backend {
                live_vms: 1,
                vm_refs: 1,
                ..*old(b)
            }),
    {
        VirtualMachine::new(b)
    }

    /// Creates a new virtual machine instance for the current process
    /// together with its single interrupt controller. A configuration
    /// without a redistributor base is rejected; the machine created first
    /// is then destroyed again, so a failed call leaves nothing behind.
    pub fn with_gic(
        b: &mut Backend,
        vm_config: VirtualMachineConfig,
        gic_config: crate::gic::GicConfig,
    ) -> (r: Result<VirtualMachineInstance<GicEnabled>, HypervisorError>)
        requires
            vm_inv(*old(b)),
            gic_config.wf(),
        ensures
            vm_inv(*final(b)),
            old(b).live_vms > 0 ==> (r matches Result::Err(e) && e == HypervisorError::Busy
                && *final(b) == *old(b)),
            old(b).live_vms == 0 && gic_config.redistributor_base is None ==> (r
                matches Result::Err(e) && e == HypervisorError::BadArgument && *final(b) == *old(
                b,
            )),
            old(b).live_vms == 0 && gic_config.redistributor_base is Some ==> r is Ok && {
                &&& final(b).live_vms == 1
                &&& final(b).vm_refs == 1
                &&& final(b).gic matches Some(g) && {
                    &&& g.dist_regs@ == Seq::<u64>::new(
                        crate::backend::GIC_DIST_REG_COUNT as nat,
                        |i: int| 0u64,
                    )
                    &&& g.msi_regs@ == Seq::<u64>::new(
                        crate::backend::GIC_MSI_REG_COUNT as nat,
                        |i: int| 0u64,
                    )
                    &&& g.msi_region_base == gic_config.msi_region_base
                    &&& g.msi_intid_base == gic_config.msi_intid_base
                    &&& g.msi_intid_count == gic_config.msi_intid_count
                }
                &&& final(b).vcpus == old(b).vcpus
                &&& final(b).regions == old(b).regions
            },
    {
        // Creating the machine through `with_config` first is deliberate:
        // when controller creation fails, dropping the fresh instance
        // destroys the machine again.
        let vm = match VirtualMachine::with_config(b, vm_config) {
            Ok(vm) => vm,
            Err(e) => { return Err(e) },
        };
        let code = b.gic_create(
            gic_config.distributor_base,
            gic_config.redistributor_base,
            gic_config.msi_region_base,
            gic_config.msi_intid_base,
            gic_config.msi_intid_count,
        );
        if code != HV_SUCCESS {
            let _dropped = vm.drop_ref(b);
            return Err(HypervisorError::from_code(code));
        }
        Ok(VirtualMachineInstance { _phantom: core::marker::PhantomData })
    }
}

impl<Gic> VirtualMachineInstance<Gic> {
    /// Duplicates this handle, incrementing the shared reference count. The
    /// machine therefore stays alive at least until the duplicate is
    /// released.
    pub fn clone_ref(&self, b: &mut Backend) -> (r: VirtualMachineInstance<Gic>)
        requires
            vm_inv(*old(b)),
            old(b).vm_refs > 0,
            old(b).vm_refs < u64::MAX,
        ensures
            vm_inv(*final(b)),
            *final(b) == (Backend { vm_refs: (old(b).vm_refs + 1) as u64, ..*old(b) }),
    {
        b.vm_refs = b.vm_refs + 1;
        VirtualMachineInstance { _phantom: core::marker::PhantomData }
    }

    /// Releases this handle, decrementing the shared reference count and
    /// destroying the backend virtual machine when it was the last one. A
    /// destroy blocked by a remaining derived resource is reported as busy.
    pub fn drop_ref(self, b: &mut Backend) -> (r: Result<(), HypervisorError>)
        requires
            vm_inv(*old(b)),
            old(b).vm_refs > 0,
        ensures
            vm_inv(*final(b)),
            final(b).vcpus == old(b).vcpus,
            final(b).regions == old(b).regions,
            old(b).vm_refs > 1 ==> r is Ok && *final(b) == (Backend {
                vm_refs: (old(b).vm_refs - 1) as u64,
                ..*old(b)
            }),
            old(b).vm_refs == 1 && old(b).no_live_vcpus() && old(b).regions@.len() == 0 ==> r is Ok
                && *final(b) == (Backend { live_vms: 0, vm_refs: 0, gic: None, ..*old(b) }),
            old(b).vm_refs == 1 && !(old(b).no_live_vcpus() && old(b).regions@.len() == 0) ==> r
                == Result::<(), HypervisorError>::Err(HypervisorError::Busy) && *final(b) == *old(b),
    {
        release_vm_ref(b)
    }

    /// Creates a new vCPU. The vCPU holds one strong reference on the
    /// machine for its entire lifetime.
    pub fn vcpu_create(&self, b: &mut Backend) -> (r: Result<Vcpu, HypervisorError>)
        requires
            vm_inv(*old(b)),
            old(b).vm_refs > 0,
            old(b).vm_refs < u64::MAX,
        ensures
            vm_inv(*final(b)),
            r matches Result::Ok(v) && {
                &&& v.id_spec() == old(b).vcpus@.len()
                &&& v.wf(*final(b))
                &&& v.regs_wf()
                &&& final(b).vcpus@ == old(b).vcpus@.push(crate::backend::fresh_vcpu_slot())
                &&& final(b).vm_refs == old(b).vm_refs + 1
                &&& final(b).live_vms == old(b).live_vms
                &&& final(b).regions == old(b).regions
            },
    {
        proof {
            assert(old(b).live_vms == 1);
        }
        let (_code, id) = b.vcpu_create();
        b.vm_refs = b.vm_refs + 1;
        Ok(Vcpu::from_id(id))
    }

    /// Creates a new vCPU with a user-provided config.
    pub fn vcpu_with_config(&self, b: &mut Backend, config: VcpuConfig) -> (r: Result<
        Vcpu,
        HypervisorError,
    >)
        requires
            vm_inv(*old(b)),
            old(b).vm_refs > 0,
            old(b).vm_refs < u64::MAX,
        ensures
            vm_inv(*final(b)),
            r matches Result::Ok(v) && {
                &&& v.id_spec() == old(b).vcpus@.len()
                &&& v.wf(*final(b))
                &&& v.regs_wf()
                &&& final(b).vcpus@ == old(b).vcpus@.push(crate::backend::fresh_vcpu_slot())
                &&& final(b).vm_refs == old(b).vm_refs + 1
                &&& final(b).live_vms == old(b).live_vms
                &&& final(b).regions == old(b).regions
            },
    {
        self.vcpu_create(b)
    }

    /// Requests an exit of every vCPU whose handle in the input still
    /// observes a live vCPU; handles of already-destroyed vCPUs are skipped,
    /// so the operation tolerates vCPUs terminating concurrently.
    pub fn vcpus_exit(&self, b: &mut Backend, vcpus: &Vec<VcpuHandle>) -> (r: Result<
        (),
        HypervisorError,
    >)
        requires
            vm_inv(*old(b)),
        ensures
            vm_inv(*final(b)),
            r is Ok,
            final(b).vcpus@.len() == old(b).vcpus@.len(),
            forall|j: int|
                0 <= j < old(b).vcpus@.len() ==> #[trigger] final(b).vcpus@[j] == (
                if old(b).vcpus@[j].live && (exists|k: int|
                    0 <= k < vcpus@.len() && (#[trigger] vcpus@[k]).vcpu == j as u64) {
                    VcpuSlot { exit_requested: true, ..old(b).vcpus@[j] }
                } else {
                    old(b).vcpus@[j]
                }),
            final(b).live_vms == old(b).live_vms,
            final(b).vm_refs == old(b).vm_refs,
            final(b).regions == old(b).regions,
    {
        let mut ids: Vec<u64> = Vec::new();
        let mut k: usize = 0;
        while k < vcpus.len()
            invariant
                vm_inv(*b),
                *b == *old(b),
                0 <= k <= vcpus@.len(),
                forall|j: u64| #[trigger]
                    ids@.contains(j) <==> ((exists|k3: int|
                        0 <= k3 < k && (#[trigger] vcpus@[k3]).vcpu == j) && old(b).vcpu_live(
                        j as int,
                    )),
            decreases vcpus@.len() - k,
        {
            // Only handles whose vCPU is still live take part in the batch;
            // the rest are omitted rather than reported as an error.
            let valid = vcpus[k].is_valid(b);
            let ghost pre_ids = ids@;
            if valid {
                let id = vcpus[k].id();
                ids.push(id);
            }
            proof {
                broadcast use vstd::seq_lib::lemma_seq_contains_after_push;

                let id0 = vcpus@[k as int].vcpu;
                assert forall|j: u64| #[trigger] ids@.contains(j) implies ((exists|k3: int|
                    0 <= k3 < k + 1 && (#[trigger] vcpus@[k3]).vcpu == j) && old(b).vcpu_live(
                    j as int,
                )) by {
                    if valid && j == id0 {
                        assert(vcpus@[k as int].vcpu == j);
                    } else {
                        assert(pre_ids.contains(j));
                    }
                }
                assert forall|j: u64| ((exists|k3: int|
                    0 <= k3 < k + 1 && (#[trigger] vcpus@[k3]).vcpu == j) && old(b).vcpu_live(
                    j as int,
                )) implies #[trigger] ids@.contains(j) by {
                    let k3 = choose|k3: int| 0 <= k3 < k + 1 && (#[trigger] vcpus@[k3]).vcpu == j;
                    if k3 == k {
                        assert(valid);
                        assert(ids@ == pre_ids.push(id0));
                    } else {
                        assert(pre_ids.contains(j));
                    }
                }
            }
            k = k + 1;
        }
        proof {
            assert forall|k2: int| 0 <= k2 < ids@.len() implies old(b).vcpu_live(
                #[trigger] ids@[k2] as int,
            ) by {
                assert(ids@.contains(ids@[k2]));
            }
        }
        proof {
            assert(forall|j: u64| #[trigger]
                ids@.contains(j) <==> ((exists|k3: int|
                    0 <= k3 < vcpus@.len() && (#[trigger] vcpus@[k3]).vcpu == j) && old(
                b,
            ).vcpu_live(j as int)));
        }
        // Reading the slot count binds it to a machine word, which bounds
        // the slot indices in the proof below.
        let _vcpu_count = b.vcpus.len();
        proof {
            assert(old(b).vcpus@.len() <= usize::MAX);
        }
        let _code = b.vcpus_exit(&ids);
        proof {
            assert forall|j: int| 0 <= j < old(b).vcpus@.len() implies #[trigger] b.vcpus@[j] == (
            if old(b).vcpus@[j].live && (exists|k2: int|
                0 <= k2 < vcpus@.len() && (#[trigger] vcpus@[k2]).vcpu == j as u64) {
                VcpuSlot { exit_requested: true, ..old(b).vcpus@[j] }
            } else {
                old(b).vcpus@[j]
            }) by {
                let jj = j as u64;
                if ids@.contains(jj) {
                    let k3 = choose|k3: int|
                        0 <= k3 < k && (#[trigger] vcpus@[k3]).vcpu == jj;
                    assert(0 <= k3 < vcpus@.len() && vcpus@[k3].vcpu == j as u64);
                    assert(old(b).vcpu_live(jj as int));
                } else {
                    if old(b).vcpus@[j].live && (exists|k2: int|
                        0 <= k2 < vcpus@.len() && (#[trigger] vcpus@[k2]).vcpu == jj) {
                        let k2 = choose|k2: int|
                            0 <= k2 < vcpus@.len() && (#[trigger] vcpus@[k2]).vcpu == jj;
                        assert(0 <= k2 < k && vcpus@[k2].vcpu == jj);
                        assert(old(b).vcpu_live(jj as int));
                        assert(ids@.contains(jj));
                        assert(false);
                    }
                }
            }
        }
        Ok(())
    }

    /// Creates a memory object backed by a fresh zero-initialized host
    /// allocation whose size is the given size rounded up to the page size.
    /// Fails with an invalid-argument error when the rounding overflows. The
    /// object holds one strong reference on the machine.
    pub fn memory_create(&self, b: &mut Backend, size: usize) -> (r: Result<
        Memory,
        HypervisorError,
    >)
        requires
            vm_inv(*old(b)),
            old(b).vm_refs > 0,
            old(b).vm_refs < u64::MAX,
        ensures
            vm_inv(*final(b)),
            size as int + crate::memory::round_up_pad(size as int) > usize::MAX ==> (r
                matches Result::Err(e) && e == HypervisorError::BadArgument && *final(b) == *old(b)),
            size as int + crate::memory::round_up_pad(size as int) <= usize::MAX ==> (r
                matches Result::Ok(m) && {
                &&& m.bytes@.len() == size as int + crate::memory::round_up_pad(size as int)
                &&& forall|i: int| 0 <= i < m.bytes@.len() ==> m.bytes@[i] == 0
                &&& m.guest_addr is None
                &&& m.perms == MemPerms::NoAccess
                &&& *final(b) == (Backend { vm_refs: (old(b).vm_refs + 1) as u64, ..*old(b) })
            }),
    {
        let m = Memory::allocate(size)?;
        b.vm_refs = b.vm_refs + 1;
        Ok(m)
    }
}

/// Transforms a handle of a controller-equipped machine into one without
/// controller access. The underlying machine keeps its controller; only the
/// controller-related calls become unavailable through the result.
impl From<VirtualMachineInstance<GicEnabled>> for VirtualMachineInstance<GicDisabled> {
    fn from(value: VirtualMachineInstance<GicEnabled>) -> (r: VirtualMachineInstance<
        GicDisabled,
    >) {
        VirtualMachineInstance { _phantom: core::marker::PhantomData }
    }
}

impl vstd::std_specs::convert::FromSpecImpl<VirtualMachineInstance<GicEnabled>> for VirtualMachineInstance<GicDisabled> {
    open spec fn obeys_from_spec() -> bool {
        true
    }

    closed spec fn from_spec(value: VirtualMachineInstance<GicEnabled>) -> Self {
        VirtualMachineInstance { _phantom: core::marker::PhantomData }
    }
}

/// The configuration of a virtual machine: the intermediate physical address
/// bit length and whether EL2 is enabled.
#[derive(Clone, Copy, Debug, PartialEq, Eq, Structural)]
pub struct VirtualMachineConfig {
    /// The configured intermediate physical address bit length.
    pub ipa_size: u32,
    /// Whether EL2 is enabled for the machine.
    pub el2_enabled: bool,
}

/// The maximum intermediate physical address bit length the platform
/// supports.
pub const MAX_IPA_SIZE: u32 = 40;

/// The intermediate physical address bit length used when none is set
/// explicitly.
pub const DEFAULT_IPA_SIZE: u32 = 36;

impl VirtualMachineConfig {
    /// Creates a virtual machine configuration object with the default
    /// intermediate physical address bit length and EL2 disabled.
    pub fn new() -> (r: VirtualMachineConfig)
        ensures
            r.ipa_size == DEFAULT_IPA_SIZE,
            !r.el2_enabled,
    {
        VirtualMachineConfig { ipa_size: DEFAULT_IPA_SIZE, el2_enabled: false }
    }

    /// Returns the maximum intermediate physical address bit length.
    pub fn get_max_ipa_size() -> (r: Result<u32, HypervisorError>)
        ensures
            r == Result::<u32, HypervisorError>::Ok(MAX_IPA_SIZE),
    {
        Ok(MAX_IPA_SIZE)
    }

    /// Returns the default intermediate physical address bit length.
    pub fn get_default_ipa_size() -> (r: Result<u32, HypervisorError>)
        ensures
            r == Result::<u32, HypervisorError>::Ok(DEFAULT_IPA_SIZE),
    {
        Ok(DEFAULT_IPA_SIZE)
    }

    /// Returns the intermediate physical address bit length in this
    /// configuration.
    pub fn get_ipa_size(&self) -> (r: Result<u32, HypervisorError>)
        ensures
            r == Result::<u32, HypervisorError>::Ok(self.ipa_size),
    {
        Ok(self.ipa_size)
    }

    /// Sets the intermediate physical address bit length. Lengths above the
    /// platform maximum are unsupported and leave the configuration
    /// unchanged.
    pub fn set_ipa_size(&mut self, ipa_bit_length: u32) -> (r: Result<(), HypervisorError>)
        ensures
            ipa_bit_length <= MAX_IPA_SIZE ==> r is Ok && *final(self) == (VirtualMachineConfig {
                ipa_size: ipa_bit_length,
                ..*old(self)
            }),
            ipa_bit_length > MAX_IPA_SIZE ==> r == Result::<(), HypervisorError>::Err(
                HypervisorError::Unsupported,
            ) && *final(self) == *old(self),
    {
        if ipa_bit_length > MAX_IPA_SIZE {
            return Err(HypervisorError::Unsupported);
        }
        self.ipa_size = ipa_bit_length;
        Ok(())
    }

    /// Returns whether EL2 is supported on the current platform.
    pub fn get_el2_supported() -> (r: Result<bool, HypervisorError>)
        ensures
            r == Result::<bool, HypervisorError>::Ok(true),
    {
        Ok(true)
    }

    /// Returns whether EL2 is enabled in this configuration.
    pub fn get_el2_enabled(&self) -> (r: Result<bool, HypervisorError>)
        ensures
            r == Result::<bool, HypervisorError>::Ok(self.el2_enabled),
    {
        Ok(self.el2_enabled)
    }

    /// Sets whether EL2 is enabled in this configuration.
    pub fn set_el2_enabled(&mut self, el2_enabled: bool) -> (r: Result<(), HypervisorError>)
        ensures
            r is Ok,
            *final(self) == (VirtualMachineConfig { el2_enabled: el2_enabled, ..*old(self) }),
    {
        self.el2_enabled = el2_enabled;
        Ok(())
    }
}

impl Default for VirtualMachineConfig {
    /// The default configuration: default address bit length, EL2 disabled.
    fn default() -> (r: VirtualMachineConfig)
        ensures
            r.ipa_size == DEFAULT_IPA_SIZE,
            !r.el2_enabled,
    {
        VirtualMachineConfig::new()
    }
}

/// Law: at most one live backend virtual machine exists in any well-formed
/// shared state; every operation of this library preserves well-formedness,
/// so this holds at every point of any sequence of create and drop calls.
pub proof fn lemma_singleton_uniqueness(b: Backend)
    requires
        b.wf(),
    ensures
        b.live_vms <= 1,
{
}

/// Law: while any strong reference is outstanding, the backend virtual
/// machine stays live; only the release of the last reference destroys it.
pub proof fn lemma_refs_keep_vm_alive(b: Backend)
    requires
        vm_inv(b),
        b.vm_refs > 0,
    ensures
        b.live_vms == 1,
{
}

} // verus!

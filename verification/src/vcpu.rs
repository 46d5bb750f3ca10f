//! Virtual CPUs: the thread-owning object and its cross-thread handles.
//!
//! A [`Vcpu`] is the single owning object of one backend virtual CPU; it
//! holds a strong reference to the virtual machine, so the machine outlives
//! every virtual CPU. A [`VcpuHandle`] is a weak, freely shareable companion
//! that can observe whether the owner still exists without keeping the
//! virtual CPU alive.

use vstd::prelude::*;

use crate::backend::Backend;
use crate::backend::VcpuSlot;
use crate::backend::HV_MAX_VCPU_COUNT;
use crate::backend::HV_SUCCESS;
use crate::error::error_of_code;
use crate::error::HypervisorError;
use crate::vm::vm_inv;

verus! {

/// The event that triggered a guest exit to the host.
#[derive(Clone, Copy, Debug, PartialEq, Eq, Structural)]
pub enum ExitReason {
    /// Asynchronous exit requested explicitly.
    CANCELED,
    /// The guest raised an exception.
    EXCEPTION,
    /// The virtual timer became active.
    VTIMER_ACTIVATED,
    /// Exit reason unknown.
    UNKNOWN,
}

/// Information about an exception-caused exit from a virtual CPU.
#[derive(Clone, Copy, Debug, PartialEq, Eq, Structural)]
pub struct VcpuExitException {
    /// The exception syndrome.
    pub syndrome: u64,
    /// The faulting virtual address.
    pub virtual_address: u64,
    /// The faulting physical address.
    pub physical_address: u64,
}

/// Information about an exit from a virtual CPU to the host.
#[derive(Clone, Copy, Debug, PartialEq, Eq, Structural)]
pub struct VcpuExit {
    /// The reason of the exit.
    pub reason: ExitReason,
    /// Exception details, meaningful when the reason is an exception.
    pub exception: VcpuExitException,
}

/// A virtual CPU's interrupt lines.
#[derive(Clone, Copy, Debug, PartialEq, Eq, Structural)]
pub enum InterruptType {
    /// An ordinary interrupt request.
    IRQ,
    /// A fast interrupt request.
    FIQ,
}


/// The number of general registers a virtual CPU carries.
pub const REG_COUNT: usize = 35;

/// A general register of a virtual CPU.
#[derive(Clone, Copy, Debug, PartialEq, Eq, Structural)]
pub enum Reg {
    /// General purpose register X0.
    X0,
    /// General purpose register X1.
    X1,
    /// General purpose register X2.
    X2,
    /// General purpose register X3.
    X3,
    /// General purpose register X4.
    X4,
    /// General purpose register X5.
    X5,
    /// General purpose register X6.
    X6,
    /// General purpose register X7.
    X7,
    /// General purpose register X8.
    X8,
    /// General purpose register X9.
    X9,
    /// General purpose register X10.
    X10,
    /// General purpose register X11.
    X11,
    /// General purpose register X12.
    X12,
    /// General purpose register X13.
    X13,
    /// General purpose register X14.
    X14,
    /// General purpose register X15.
    X15,
    /// General purpose register X16.
    X16,
    /// General purpose register X17.
    X17,
    /// General purpose register X18.
    X18,
    /// General purpose register X19.
    X19,
    /// General purpose register X20.
    X20,
    /// General purpose register X21.
    X21,
    /// General purpose register X22.
    X22,
    /// General purpose register X23.
    X23,
    /// General purpose register X24.
    X24,
    /// General purpose register X25.
    X25,
    /// General purpose register X26.
    X26,
    /// General purpose register X27.
    X27,
    /// General purpose register X28.
    X28,
    /// General purpose register X29.
    X29,
    /// General purpose register X30.
    X30,
    /// The program counter.
    PC,
    /// The floating-point control register.
    FPCR,
    /// The floating-point status register.
    FPSR,
    /// The current program status register.
    CPSR,
}

/// The register-file index of a general register.
pub open spec fn reg_index(reg: Reg) -> int {
    match reg {
        Reg::X0 => 0,
        Reg::X1 => 1,
        Reg::X2 => 2,
        Reg::X3 => 3,
        Reg::X4 => 4,
        Reg::X5 => 5,
        Reg::X6 => 6,
        Reg::X7 => 7,
        Reg::X8 => 8,
        Reg::X9 => 9,
        Reg::X10 => 10,
        Reg::X11 => 11,
        Reg::X12 => 12,
        Reg::X13 => 13,
        Reg::X14 => 14,
        Reg::X15 => 15,
        Reg::X16 => 16,
        Reg::X17 => 17,
        Reg::X18 => 18,
        Reg::X19 => 19,
        Reg::X20 => 20,
        Reg::X21 => 21,
        Reg::X22 => 22,
        Reg::X23 => 23,
        Reg::X24 => 24,
        Reg::X25 => 25,
        Reg::X26 => 26,
        Reg::X27 => 27,
        Reg::X28 => 28,
        Reg::X29 => 29,
        Reg::X30 => 30,
        Reg::PC => 31,
        Reg::FPCR => 32,
        Reg::FPSR => 33,
        Reg::CPSR => 34,
    }
}

impl Reg {
    /// Returns the register-file index of this register.
    pub fn index(self) -> (r: usize)
        ensures
            r == reg_index(self),
            r < REG_COUNT,
    {
        match self {
            Reg::X0 => 0,
            Reg::X1 => 1,
            Reg::X2 => 2,
            Reg::X3 => 3,
            Reg::X4 => 4,
            Reg::X5 => 5,
            Reg::X6 => 6,
            Reg::X7 => 7,
            Reg::X8 => 8,
            Reg::X9 => 9,
            Reg::X10 => 10,
            Reg::X11 => 11,
            Reg::X12 => 12,
            Reg::X13 => 13,
            Reg::X14 => 14,
            Reg::X15 => 15,
            Reg::X16 => 16,
            Reg::X17 => 17,
            Reg::X18 => 18,
            Reg::X19 => 19,
            Reg::X20 => 20,
            Reg::X21 => 21,
            Reg::X22 => 22,
            Reg::X23 => 23,
            Reg::X24 => 24,
            Reg::X25 => 25,
            Reg::X26 => 26,
            Reg::X27 => 27,
            Reg::X28 => 28,
            Reg::X29 => 29,
            Reg::X30 => 30,
            Reg::PC => 31,
            Reg::FPCR => 32,
            Reg::FPSR => 33,
            Reg::CPSR => 34,
        }
    }
}

/// A virtual CPU configuration. The model keeps no configurable state, so
/// the configuration is an empty token.
#[derive(Clone, Copy, Debug, Default)]
pub struct VcpuConfig {
}

impl VcpuConfig {
    /// Instantiates a new configuration.
    pub fn new() -> VcpuConfig {
        VcpuConfig {  }
    }
}

/// A handle to a virtual CPU.
///
/// The handle can be shared among threads freely, but becomes invalid when
/// the virtual CPU it corresponds to is destroyed; it observes that without
/// keeping the virtual CPU alive.
#[derive(Clone, Debug)]
pub struct VcpuHandle {
    /// The backend id of the virtual CPU this handle observes.
    pub vcpu: u64,
}

impl VcpuHandle {
    /// The id of the virtual CPU this handle observes.
    pub open spec fn id_spec(&self) -> u64 {
        self.vcpu
    }

    /// Whether the virtual CPU this handle observes is still live.
    pub open spec fn valid_spec(&self, b: Backend) -> bool {
        b.vcpu_live(self.vcpu as int)
    }

    /// Returns the id of the vCPU associated to this handle.
    pub fn id(&self) -> (r: u64)
        ensures
            r == self.id_spec(),
    {
        self.vcpu
    }

    /// Returns `true` if the vCPU associated to this handle is still alive.
    /// The answer is a point-in-time observation of the shared state.
    pub fn is_valid(&self, b: &Backend) -> (r: bool)
        requires
            b.wf(),
        ensures
            r == self.valid_spec(*b),
    {
        let (code, _slot) = b.vcpu_get(self.vcpu);
        code == HV_SUCCESS
    }
}

/// The single owning object of one backend virtual CPU. Dropping it is
/// modeled by the explicit [`Vcpu::destroy`] call, which destroys the backend
/// virtual CPU and releases the strong reference it holds on the virtual
/// machine.
#[derive(Debug)]
pub struct Vcpu {
    /// The opaque backend id of this virtual CPU.
    pub vcpu: u64,
    /// The general register file. The virtual CPU is thread-affine, so only
    /// the owning thread ever reads or writes it, and the registers live
    /// with the owning object.
    pub regs: Vec<u64>,
}

impl Vcpu {
    /// The backend id of this virtual CPU.
    pub open spec fn id_spec(&self) -> u64 {
        self.vcpu
    }

    /// Whether this object owns a live virtual CPU of the given shared
    /// state; every method of a [`Vcpu`] keeps this true.
    pub open spec fn wf(&self, b: Backend) -> bool {
        b.vcpu_live(self.vcpu as int)
    }

    /// The slot of this virtual CPU in the given shared state.
    pub open spec fn slot(&self, b: Backend) -> VcpuSlot {
        b.vcpus@[self.vcpu as int]
    }

    /// Well-formedness of the register file: it holds every general
    /// register.
    pub open spec fn regs_wf(&self) -> bool {
        self.regs@.len() == REG_COUNT
    }

    /// Creates a virtual CPU object for a backend id the library just
    /// created, with every general register at zero.
    pub(crate) fn from_id(id: u64) -> (r: Vcpu)
        ensures
            r.vcpu == id,
            r.regs_wf(),
            forall|i: int| 0 <= i < r.regs@.len() ==> r.regs@[i] == 0,
    {
        let mut regs: Vec<u64> = Vec::new();
        while regs.len() < REG_COUNT
            invariant
                regs@.len() <= REG_COUNT,
                forall|i: int| 0 <= i < regs@.len() ==> regs@[i] == 0,
            decreases REG_COUNT - regs@.len(),
        {
            regs.push(0);
        }
        Vcpu { vcpu: id, regs }
    }

    /// Gets the value of a vCPU general purpose register.
    pub fn get_reg(&self, reg: Reg) -> (r: Result<u64, HypervisorError>)
        requires
            self.regs_wf(),
        ensures
            r == Result::<u64, HypervisorError>::Ok(self.regs@[reg_index(reg)]),
    {
        Ok(self.regs[reg.index()])
    }

    /// Sets the value of a vCPU general purpose register.
    pub fn set_reg(&mut self, reg: Reg, value: u64) -> (r: Result<(), HypervisorError>)
        requires
            old(self).regs_wf(),
        ensures
            r is Ok,
            final(self).vcpu == old(self).vcpu,
            final(self).regs@ == old(self).regs@.update(reg_index(reg), value),
    {
        let idx = reg.index();
        self.regs.set(idx, value);
        Ok(())
    }

    /// Returns the vCPU id.
    pub fn id(&self) -> (r: u64)
        ensures
            r == self.id_spec(),
    {
        self.vcpu
    }

    /// Returns a handle to the vCPU allowing other threads to observe its
    /// liveness and request a forced exit.
    pub fn get_handle(&self) -> (r: VcpuHandle)
        ensures
            r.vcpu == self.vcpu,
    {
        VcpuHandle { vcpu: self.vcpu }
    }

    /// Returns the maximum number of vCPUs that can be created.
    pub fn get_max_count(b: &Backend) -> (r: Result<u32, HypervisorError>)
        ensures
            r == Result::<u32, HypervisorError>::Ok(HV_MAX_VCPU_COUNT),
    {
        let (_code, count) = b.vm_get_max_vcpu_count();
        Ok(count)
    }

    /// Runs the vCPU until the backend reports an exit, leaving the exit
    /// information in the shared state. The modeled backend executes no
    /// guest instructions: the run observes a pending forced exit as a
    /// cancellation and reports an unknown exit otherwise.
    pub fn run(&self, b: &mut Backend) -> (r: Result<(), HypervisorError>)
        requires
            old(b).wf(),
            self.wf(*old(b)),
        ensures
            final(b).wf(),
            self.wf(*final(b)),
            r is Ok,
            final(b).vcpus@ == old(b).vcpus@.update(
                self.vcpu as int,
                (VcpuSlot {
                    exit_requested: false,
                    exit_reason: if self.slot(*old(b)).exit_requested {
                        ExitReason::CANCELED
                    } else {
                        ExitReason::UNKNOWN
                    },
                    ..self.slot(*old(b))
                }),
            ),
            final(b).live_vms == old(b).live_vms,
            final(b).vm_refs == old(b).vm_refs,
            final(b).regions == old(b).regions,
    {
        let code = b.vcpu_run(self.vcpu);
        crate::error::call_result(code)
    }

    /// Returns the exit information the backend left after the last run.
    pub fn get_exit_info(&self, b: &Backend) -> (r: VcpuExit)
        requires
            b.wf(),
            self.wf(*b),
        ensures
            r.reason == self.slot(*b).exit_reason,
            r.exception == self.slot(*b).exit_exception,
    {
        let (_code, slot) = b.vcpu_get(self.vcpu);
        VcpuExit { reason: slot.exit_reason, exception: slot.exit_exception }
    }

    /// Gets pending interrupts for a vCPU.
    pub fn get_pending_interrupt(&self, b: &Backend, intr: InterruptType) -> (r: Result<
        bool,
        HypervisorError,
    >)
        requires
            b.wf(),
            self.wf(*b),
        ensures
            r == Result::<bool, HypervisorError>::Ok(
                match intr {
                    InterruptType::IRQ => self.slot(*b).pending_irq,
                    InterruptType::FIQ => self.slot(*b).pending_fiq,
                },
            ),
    {
        let (_code, slot) = b.vcpu_get(self.vcpu);
        match intr {
            InterruptType::IRQ => Ok(slot.pending_irq),
            InterruptType::FIQ => Ok(slot.pending_fiq),
        }
    }

    /// Sets pending interrupts for a vCPU.
    pub fn set_pending_interrupt(&self, b: &mut Backend, intr: InterruptType, pending: bool) -> (r:
        Result<(), HypervisorError>)
        requires
            old(b).wf(),
            self.wf(*old(b)),
        ensures
            final(b).wf(),
            self.wf(*final(b)),
            r is Ok,
            final(b).vcpus@ == old(b).vcpus@.update(
                self.vcpu as int,
                (match intr {
                    InterruptType::IRQ => VcpuSlot { pending_irq: pending, ..self.slot(*old(b)) },
                    InterruptType::FIQ => VcpuSlot { pending_fiq: pending, ..self.slot(*old(b)) },
                }),
            ),
            final(b).live_vms == old(b).live_vms,
            final(b).vm_refs == old(b).vm_refs,
            final(b).regions == old(b).regions,
    {
        let (_code, slot) = b.vcpu_get(self.vcpu);
        let updated = match intr {
            InterruptType::IRQ => VcpuSlot { pending_irq: pending, ..slot },
            InterruptType::FIQ => VcpuSlot { pending_fiq: pending, ..slot },
        };
        let _set_code = b.vcpu_set(self.vcpu, updated);
        Ok(())
    }

    /// Gets whether debug exceptions exit the guest.
    pub fn get_trap_debug_exceptions(&self, b: &Backend) -> (r: Result<bool, HypervisorError>)
        requires
            b.wf(),
            self.wf(*b),
        ensures
            r == Result::<bool, HypervisorError>::Ok(self.slot(*b).trap_debug_exceptions),
    {
        let (_code, slot) = b.vcpu_get(self.vcpu);
        Ok(slot.trap_debug_exceptions)
    }

    /// Sets whether debug exceptions exit the guest.
    pub fn set_trap_debug_exceptions(&self, b: &mut Backend, value: bool) -> (r: Result<
        (),
        HypervisorError,
    >)
        requires
            old(b).wf(),
            self.wf(*old(b)),
        ensures
            final(b).wf(),
            self.wf(*final(b)),
            r is Ok,
            final(b).vcpus@ == old(b).vcpus@.update(
                self.vcpu as int,
                (VcpuSlot { trap_debug_exceptions: value, ..self.slot(*old(b)) }),
            ),
            final(b).live_vms == old(b).live_vms,
            final(b).vm_refs == old(b).vm_refs,
            final(b).regions == old(b).regions,
    {
        let (_code, slot) = b.vcpu_get(self.vcpu);
        let _set_code = b.vcpu_set(self.vcpu, VcpuSlot { trap_debug_exceptions: value, ..slot });
        Ok(())
    }

    /// Gets whether debug-register accesses exit the guest.
    pub fn get_trap_debug_reg_accesses(&self, b: &Backend) -> (r: Result<bool, HypervisorError>)
        requires
            b.wf(),
            self.wf(*b),
        ensures
            r == Result::<bool, HypervisorError>::Ok(self.slot(*b).trap_debug_reg_accesses),
    {
        let (_code, slot) = b.vcpu_get(self.vcpu);
        Ok(slot.trap_debug_reg_accesses)
    }

    /// Sets whether debug-register accesses exit the guest.
    pub fn set_trap_debug_reg_accesses(&self, b: &mut Backend, value: bool) -> (r: Result<
        (),
        HypervisorError,
    >)
        requires
            old(b).wf(),
            self.wf(*old(b)),
        ensures
            final(b).wf(),
            self.wf(*final(b)),
            r is Ok,
            final(b).vcpus@ == old(b).vcpus@.update(
                self.vcpu as int,
                (VcpuSlot { trap_debug_reg_accesses: value, ..self.slot(*old(b)) }),
            ),
            final(b).live_vms == old(b).live_vms,
            final(b).vm_refs == old(b).vm_refs,
            final(b).regions == old(b).regions,
    {
        let (_code, slot) = b.vcpu_get(self.vcpu);
        let _set_code = b.vcpu_set(self.vcpu, VcpuSlot { trap_debug_reg_accesses: value, ..slot });
        Ok(())
    }

    /// Returns the cumulative execution time of a vCPU, in nanoseconds.
    pub fn get_exec_time(&self, b: &Backend) -> (r: Result<u64, HypervisorError>)
        requires
            b.wf(),
            self.wf(*b),
        ensures
            r == Result::<u64, HypervisorError>::Ok(self.slot(*b).exec_time),
    {
        let (_code, slot) = b.vcpu_get(self.vcpu);
        Ok(slot.exec_time)
    }

    /// Gets the virtual timer mask.
    pub fn get_vtimer_mask(&self, b: &Backend) -> (r: Result<bool, HypervisorError>)
        requires
            b.wf(),
            self.wf(*b),
        ensures
            r == Result::<bool, HypervisorError>::Ok(self.slot(*b).vtimer_mask),
    {
        let (_code, slot) = b.vcpu_get(self.vcpu);
        Ok(slot.vtimer_mask)
    }

    /// Sets or clears the virtual timer mask.
    pub fn set_vtimer_mask(&self, b: &mut Backend, vtimer_is_masked: bool) -> (r: Result<
        (),
        HypervisorError,
    >)
        requires
            old(b).wf(),
            self.wf(*old(b)),
        ensures
            final(b).wf(),
            self.wf(*final(b)),
            r is Ok,
            final(b).vcpus@ == old(b).vcpus@.update(
                self.vcpu as int,
                (VcpuSlot { vtimer_mask: vtimer_is_masked, ..self.slot(*old(b)) }),
            ),
            final(b).live_vms == old(b).live_vms,
            final(b).vm_refs == old(b).vm_refs,
            final(b).regions == old(b).regions,
    {
        let (_code, slot) = b.vcpu_get(self.vcpu);
        let _set_code = b.vcpu_set(self.vcpu, VcpuSlot { vtimer_mask: vtimer_is_masked, ..slot });
        Ok(())
    }

    /// Returns the vTimer offset of the vCPU.
    pub fn get_vtimer_offset(&self, b: &Backend) -> (r: Result<u64, HypervisorError>)
        requires
            b.wf(),
            self.wf(*b),
        ensures
            r == Result::<u64, HypervisorError>::Ok(self.slot(*b).vtimer_offset),
    {
        let (_code, slot) = b.vcpu_get(self.vcpu);
        Ok(slot.vtimer_offset)
    }

    /// Sets the vTimer offset to a value that you provide.
    pub fn set_vtimer_offset(&self, b: &mut Backend, vtimer_offset: u64) -> (r: Result<
        (),
        HypervisorError,
    >)
        requires
            old(b).wf(),
            self.wf(*old(b)),
        ensures
            final(b).wf(),
            self.wf(*final(b)),
            r is Ok,
            final(b).vcpus@ == old(b).vcpus@.update(
                self.vcpu as int,
                (VcpuSlot { vtimer_offset: vtimer_offset, ..self.slot(*old(b)) }),
            ),
            final(b).live_vms == old(b).live_vms,
            final(b).vm_refs == old(b).vm_refs,
            final(b).regions == old(b).regions,
    {
        let (_code, slot) = b.vcpu_get(self.vcpu);
        let _set_code = b.vcpu_set(self.vcpu, VcpuSlot { vtimer_offset: vtimer_offset, ..slot });
        Ok(())
    }

    /// Destroys the backend virtual CPU and releases the strong reference it
    /// holds on the virtual machine. When that was the last reference and no
    /// other derived resource remains, the virtual machine is destroyed too;
    /// a destroy blocked by remaining resources is reported as busy.
    pub fn destroy(self, b: &mut Backend) -> (r: Result<(), HypervisorError>)
        requires
            vm_inv(*old(b)),
            self.wf(*old(b)),
        ensures
            vm_inv(*final(b)),
            !final(b).vcpu_live(self.vcpu as int),
            final(b).vcpus@ == old(b).vcpus@.update(
                self.vcpu as int,
                (VcpuSlot { live: false, ..self.slot(*old(b)) }),
            ),
            final(b).regions == old(b).regions,
            old(b).vm_refs > 1 ==> r is Ok && final(b).vm_refs == old(b).vm_refs - 1 && final(b).live_vms == old(b).live_vms,
            old(b).vm_refs == 1 && (Backend {
                vcpus: final(b).vcpus,
                ..*old(b)
            }).no_live_vcpus() && old(b).regions@.len() == 0 ==> r is Ok && final(b).vm_refs == 0
                && final(b).live_vms == 0,
            old(b).vm_refs == 1 && !((Backend {
                vcpus: final(b).vcpus,
                ..*old(b)
            }).no_live_vcpus() && old(b).regions@.len() == 0) ==> r
                == Result::<(), HypervisorError>::Err(HypervisorError::Busy) && final(b).vm_refs
                == 1 && final(b).live_vms == 1,
    {
        proof {
            // A live virtual CPU witnesses a live machine, hence a positive
            // reference count.
            assert(old(b).live_vms == 1);
        }
        let _code = b.vcpu_destroy(self.vcpu);
        crate::vm::release_vm_ref(b)
    }
}

/// Law: a handle observes its owner's liveness exactly: it is valid in every
/// shared state where the owning virtual CPU is live, and invalid in every
/// state where it is not.
pub proof fn lemma_handle_liveness(b: Backend, v: Vcpu, h: VcpuHandle)
    requires
        h.id_spec() == v.id_spec(),
    ensures
        h.valid_spec(b) <==> b.vcpu_live(v.id_spec() as int),
        v.wf(b) ==> h.valid_spec(b),
        !v.wf(b) ==> !h.valid_spec(b),
{
}

} // verus!

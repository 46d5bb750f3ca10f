//! Resource-ownership and lifetime-safety layer for a hardware virtualization
//! facility.
//!
//! The crate manages the lifetime and safe access surface of the resources a
//! host virtualization backend hands out: the unique per-process virtual
//! machine context, thread-affine virtual CPUs whose liveness other threads
//! can observe through handles, and guest-physical memory mappings backed by
//! host allocations, with strict bounds and alignment validation.
//!
//! The backend itself is out of scope: it is represented by the [`backend`]
//! module as an explicit state value with a call interface whose contracts
//! state the documented success and failure codes. Every other module is
//! verified against that interface.

pub mod backend;
pub mod error;
pub mod gic;
pub mod memory;
pub mod vcpu;
pub mod vm;

pub use crate::backend::Backend;
pub use crate::error::HypervisorError;
pub use crate::gic::GicConfig;
pub use crate::gic::GicDistributorReg;
pub use crate::gic::GicIntId;
pub use crate::gic::GicMsiReg;
pub use crate::gic::GicState;
pub use crate::memory::MemPerms;
pub use crate::memory::Memory;
pub use crate::memory::PAGE_SIZE;
pub use crate::vcpu::ExitReason;
pub use crate::vcpu::InterruptType;
pub use crate::vcpu::Reg;
pub use crate::vcpu::Vcpu;
pub use crate::vcpu::VcpuConfig;
pub use crate::vcpu::VcpuExit;
pub use crate::vcpu::VcpuHandle;
pub use crate::vm::GicDisabled;
pub use crate::vm::GicEnabled;
pub use crate::vm::VirtualMachine;
pub use crate::vm::VirtualMachineConfig;
pub use crate::vm::VirtualMachineInstance;

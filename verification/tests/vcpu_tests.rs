//! Tests of virtual CPU creation, accessors, handles and forced exits.

use applevisor::backend::Backend;
use applevisor::ExitReason;
use applevisor::InterruptType;
use applevisor::Reg;
use applevisor::Vcpu;
use applevisor::VcpuConfig;
use applevisor::VirtualMachine;

#[test]
fn create_a_vcpu_instance() {
    let mut b = Backend::new();
    let vm = VirtualMachine::new(&mut b).unwrap();

    let vcpu_config = VcpuConfig::default();

    // The vCPU should be created without issue.
    let vcpu = vm.vcpu_with_config(&mut b, vcpu_config);
    assert!(vcpu.is_ok());
}

#[test]
fn vcpu_get_count() {
    let mut b = Backend::new();
    let _vm = VirtualMachine::new(&mut b).unwrap();
    assert!(Vcpu::get_max_count(&b).is_ok());
}

#[test]
fn get_and_set_pending_interrupt() {
    let mut b = Backend::new();
    let vm = VirtualMachine::new(&mut b).unwrap();

    let vcpu = vm.vcpu_create(&mut b).unwrap();
    assert_eq!(vcpu.get_pending_interrupt(&b, InterruptType::IRQ), Ok(false));
    assert_eq!(
        vcpu.set_pending_interrupt(&mut b, InterruptType::IRQ, true),
        Ok(())
    );
    assert_eq!(vcpu.get_pending_interrupt(&b, InterruptType::IRQ), Ok(true));
}

#[test]
fn get_and_set_trap_debug() {
    let mut b = Backend::new();
    let vm = VirtualMachine::new(&mut b).unwrap();

    let vcpu = vm.vcpu_create(&mut b).unwrap();

    assert_eq!(vcpu.set_trap_debug_exceptions(&mut b, true), Ok(()));
    assert_eq!(vcpu.get_trap_debug_exceptions(&b), Ok(true));
    assert_eq!(vcpu.set_trap_debug_reg_accesses(&mut b, true), Ok(()));
    assert_eq!(vcpu.get_trap_debug_reg_accesses(&b), Ok(true));
}

#[test]
fn get_and_set_vtimer_info() {
    let mut b = Backend::new();
    let vm = VirtualMachine::new(&mut b).unwrap();

    let vcpu = vm.vcpu_create(&mut b).unwrap();
    assert_eq!(vcpu.set_vtimer_offset(&mut b, 0xdeadbeefdeadbeef), Ok(()));
    assert_eq!(vcpu.get_vtimer_offset(&b), Ok(0xdeadbeefdeadbeef));
    assert_eq!(vcpu.set_vtimer_mask(&mut b, true), Ok(()));
    assert_eq!(vcpu.get_vtimer_mask(&b), Ok(true));
}

#[test]
fn check_vcpu_handle_validity() {
    let mut b = Backend::new();
    let vm = VirtualMachine::new(&mut b).unwrap();

    // Create a few vCPUs and collect their handles.
    let mut vcpus = vec![];
    let mut handles = vec![];
    for _ in 0..4 {
        let vcpu = vm.vcpu_create(&mut b).unwrap();
        handles.push(vcpu.get_handle());
        vcpus.push(vcpu);
    }
    // While the owners exist, all handles should be valid.
    assert!(handles.iter().all(|h| h.is_valid(&b)));
    // Destroying the owners invalidates every handle.
    for vcpu in vcpus {
        vcpu.destroy(&mut b).unwrap();
    }
    assert!(handles.iter().all(|h| !h.is_valid(&b)));
}

#[test]
fn exit_running_vcpus() {
    let mut b = Backend::new();
    let vm = VirtualMachine::new(&mut b).unwrap();

    // Create vCPUs and collect their handles.
    let mut vcpus = vec![];
    let mut handles = vec![];
    for _ in 0..4 {
        let vcpu = vm.vcpu_create(&mut b).unwrap();
        handles.push(vcpu.get_handle());
        vcpus.push(vcpu);
    }
    // Request an exit of every vCPU in the batch.
    vm.vcpus_exit(&mut b, &handles).unwrap();
    // Each vCPU observes the pending forced exit as a cancellation.
    for vcpu in &vcpus {
        vcpu.run(&mut b).unwrap();
        assert_eq!(vcpu.get_exit_info(&b).reason, ExitReason::CANCELED);
    }
    // Without a pending request, a run reports an unknown exit.
    for vcpu in &vcpus {
        vcpu.run(&mut b).unwrap();
        assert_eq!(vcpu.get_exit_info(&b).reason, ExitReason::UNKNOWN);
    }
}

#[test]
fn vcpus_exit_skips_destroyed_vcpus() {
    let mut b = Backend::new();
    let vm = VirtualMachine::new(&mut b).unwrap();

    let kept = vm.vcpu_create(&mut b).unwrap();
    let dropped = vm.vcpu_create(&mut b).unwrap();
    let kept_handle = kept.get_handle();
    let dropped_handle = dropped.get_handle();
    dropped.destroy(&mut b).unwrap();

    // The batch tolerates handles of vCPUs that no longer exist.
    let handles = vec![kept_handle, dropped_handle];
    assert_eq!(vm.vcpus_exit(&mut b, &handles), Ok(()));
    kept.run(&mut b).unwrap();
    assert_eq!(kept.get_exit_info(&b).reason, ExitReason::CANCELED);
}

#[test]
fn vcpu_ids_are_handed_out_in_order() {
    let mut b = Backend::new();
    let vm = VirtualMachine::new(&mut b).unwrap();
    let v0 = vm.vcpu_create(&mut b).unwrap();
    let v1 = vm.vcpu_create(&mut b).unwrap();
    assert_eq!(v0.id(), 0);
    assert_eq!(v1.id(), 1);
    assert_eq!(v0.get_handle().id(), 0);
    assert_eq!(v1.get_handle().id(), 1);
}

#[test]
fn get_and_set_register_x0() {
    let mut b = Backend::new();
    let vm = VirtualMachine::new(&mut b).unwrap();

    // Set the register to an arbitrary value and check that the same one is
    // read from it.
    let value = 0xdeadbeefdeadbeef;
    let mut vcpu = vm.vcpu_create(&mut b).unwrap();
    assert_eq!(vcpu.set_reg(Reg::X0, value), Ok(()));
    assert_eq!(vcpu.get_reg(Reg::X0), Ok(value));
}

#[test]
fn get_and_set_register_pc() {
    let mut b = Backend::new();
    let vm = VirtualMachine::new(&mut b).unwrap();

    let value = 0x10000;
    let mut vcpu = vm.vcpu_create(&mut b).unwrap();
    // Registers start at zero; a write to one register leaves the others.
    assert_eq!(vcpu.get_reg(Reg::PC), Ok(0));
    assert_eq!(vcpu.set_reg(Reg::PC, value), Ok(()));
    assert_eq!(vcpu.get_reg(Reg::PC), Ok(value));
    assert_eq!(vcpu.get_reg(Reg::X30), Ok(0));
}

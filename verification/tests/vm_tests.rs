//! Tests of virtual machine creation, configuration and reference counting.

use applevisor::backend::Backend;
use applevisor::GicConfig;
use applevisor::GicDisabled;
use applevisor::HypervisorError;
use applevisor::VcpuConfig;
use applevisor::VirtualMachine;
use applevisor::VirtualMachineConfig;
use applevisor::VirtualMachineInstance;

#[test]
fn config_ipa_size() {
    let mut config = VirtualMachineConfig::default();

    let max_ipa_size = VirtualMachineConfig::get_max_ipa_size();
    assert!(max_ipa_size.is_ok());
    let max_ipa_size = max_ipa_size.unwrap();

    let default_ipa_size = VirtualMachineConfig::get_default_ipa_size();
    assert!(default_ipa_size.is_ok());
    let default_ipa_size = default_ipa_size.unwrap();

    assert_eq!(config.set_ipa_size(0), Ok(()));
    assert_eq!(config.get_ipa_size(), Ok(0));
    assert_eq!(config.set_ipa_size(default_ipa_size - 1), Ok(()));
    assert_eq!(config.get_ipa_size(), Ok(default_ipa_size - 1));
    assert_eq!(config.set_ipa_size(default_ipa_size), Ok(()));
    assert_eq!(config.get_ipa_size(), Ok(default_ipa_size));
    assert_eq!(config.set_ipa_size(max_ipa_size - 1), Ok(()));
    assert_eq!(config.get_ipa_size(), Ok(max_ipa_size - 1));
    assert_eq!(config.set_ipa_size(max_ipa_size), Ok(()));
    assert_eq!(config.get_ipa_size(), Ok(max_ipa_size));
    assert_eq!(
        config.set_ipa_size(max_ipa_size + 1),
        Err(HypervisorError::Unsupported)
    );
    assert_eq!(
        config.set_ipa_size(u32::MAX),
        Err(HypervisorError::Unsupported)
    );
}

#[test]
fn config_el2() {
    let mut config = VirtualMachineConfig::default();

    let el2_supported = VirtualMachineConfig::get_el2_supported();
    assert!(el2_supported.is_ok());

    assert_eq!(config.set_el2_enabled(false), Ok(()));
    assert_eq!(config.get_el2_enabled(), Ok(false));
    assert_eq!(config.set_el2_enabled(true), Ok(()));
    assert_eq!(config.get_el2_enabled(), Ok(true));
}

#[test]
fn create_a_default_vm() {
    let mut b = Backend::new();
    let vm = VirtualMachine::new(&mut b);
    assert!(vm.is_ok());
}

#[test]
fn lib_vm_create_destroy() {
    let mut b = Backend::new();
    // Creating a first VM instance should work!
    let vm1 = VirtualMachine::new(&mut b);
    assert!(vm1.is_ok());
    // Creating a second instance should fail.
    let vm2 = VirtualMachine::new(&mut b);
    assert!(matches!(vm2, Err(HypervisorError::Busy)));
    // Dropping the process vm instance...
    assert_eq!(vm1.unwrap().drop_ref(&mut b), Ok(()));
    // ... now creating a new instance should work.
    let vm3 = VirtualMachine::new(&mut b);
    assert!(vm3.is_ok());
}

#[test]
fn create_a_vm_with_a_custom_config() {
    let mut b = Backend::new();
    let mut config = VirtualMachineConfig::default();

    if VirtualMachineConfig::get_el2_supported().unwrap() {
        config.set_el2_enabled(true).unwrap();
    }

    let max_ipa_size = VirtualMachineConfig::get_max_ipa_size().unwrap();
    config.set_ipa_size(max_ipa_size).unwrap();

    let vm = VirtualMachine::with_config(&mut b, config);
    assert!(vm.is_ok());
}

#[test]
fn create_a_vm_with_a_gic() {
    // A default GIC config will fail.
    {
        let mut b = Backend::new();
        let vm_config = VirtualMachineConfig::default();
        let gic_config = GicConfig::new();
        let vm = VirtualMachine::with_gic(&mut b, vm_config, gic_config);
        assert!(matches!(vm, Err(HypervisorError::BadArgument)));
    }

    // We need to at least provide the redistributor for the GIC to work.
    {
        let mut b = Backend::new();
        let vm_config = VirtualMachineConfig::default();
        let mut gic_config = GicConfig::new();
        assert!(gic_config.set_redistributor_base(0x20000).is_ok());
        let vm = VirtualMachine::with_gic(&mut b, vm_config, gic_config);
        assert!(vm.is_ok());
    }
}

#[test]
fn create_multiple_vm_instances_from_a_single_thread() {
    let mut b = Backend::new();
    // Creating a first VM instance should work!
    let vm1 = VirtualMachine::new(&mut b);
    assert!(vm1.is_ok());
    // Creating a second instance should fail.
    let vm2 = VirtualMachine::new(&mut b);
    assert!(matches!(vm2, Err(HypervisorError::Busy)));
    // But cloning the first instance should work.
    let vm1 = vm1.unwrap();
    let vm3 = vm1.clone_ref(&mut b);
    assert_eq!(vm1.drop_ref(&mut b), Ok(()));
    // And creating a new instance should still fail.
    let vm4 = VirtualMachine::new(&mut b);
    assert!(matches!(vm4, Err(HypervisorError::Busy)));
    // Then, if we drop all VM instances created until now...
    assert_eq!(vm3.drop_ref(&mut b), Ok(()));
    // ... creating a brand new instance should work.
    let vm5 = VirtualMachine::new(&mut b);
    assert!(vm5.is_ok());
}

#[test]
fn create_a_vcpu_from_a_vm_instance() {
    let mut b = Backend::new();
    let vm = VirtualMachine::new(&mut b).unwrap();

    let vcpu = vm.vcpu_create(&mut b);
    assert!(vcpu.is_ok());
}

#[test]
fn create_a_vcpu_with_a_custom_config_from_a_vm_instance() {
    let mut b = Backend::new();
    let vm = VirtualMachine::new(&mut b).unwrap();

    let vcpu_config = VcpuConfig::default();
    let vcpu = vm.vcpu_with_config(&mut b, vcpu_config);
    assert!(vcpu.is_ok());
}

#[test]
fn downgrade_a_gicenabled_vm_instance_to_a_gicdisabled_vm_instance() {
    let mut b = Backend::new();
    let vm_config = VirtualMachineConfig::default();
    let mut gic_config = GicConfig::new();
    assert!(gic_config.set_redistributor_base(0x20000).is_ok());

    let vm = VirtualMachine::with_gic(&mut b, vm_config, gic_config);
    assert!(vm.is_ok());
    let vm = vm.unwrap();
    let vm_no_gic: VirtualMachineInstance<GicDisabled> = vm.into();
    let vcpu = vm_no_gic.vcpu_create(&mut b);
    assert!(vcpu.is_ok());
}

#[test]
fn dropping_every_clone_but_one_keeps_the_vm_alive() {
    let mut b = Backend::new();
    // Create the machine and a clone of its handle.
    let vm = VirtualMachine::new(&mut b).unwrap();
    let clone = vm.clone_ref(&mut b);
    // Dropping the original keeps the machine alive through the clone.
    assert_eq!(vm.drop_ref(&mut b), Ok(()));
    let second = VirtualMachine::new(&mut b);
    assert!(matches!(second, Err(HypervisorError::Busy)));
    // Dropping the last clone destroys the machine.
    assert_eq!(clone.drop_ref(&mut b), Ok(()));
    let third = VirtualMachine::new(&mut b);
    assert!(third.is_ok());
}

#[test]
fn derived_resources_keep_the_vm_alive() {
    let mut b = Backend::new();
    let vm = VirtualMachine::new(&mut b).unwrap();
    let vcpu = vm.vcpu_create(&mut b).unwrap();
    // The vCPU still holds a strong reference after the handle is dropped,
    // so the machine stays live.
    assert_eq!(vm.drop_ref(&mut b), Ok(()));
    let second = VirtualMachine::new(&mut b);
    assert!(matches!(second, Err(HypervisorError::Busy)));
    // Destroying the vCPU releases the last reference and the machine.
    assert_eq!(vcpu.destroy(&mut b), Ok(()));
    let third = VirtualMachine::new(&mut b);
    assert!(third.is_ok());
}

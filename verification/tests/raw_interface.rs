//! Exercises the backend call interface directly through its status codes.

use applevisor::backend::Backend;
use applevisor::backend::HV_BUSY;
use applevisor::backend::HV_SUCCESS;

#[test]
fn vm_create_destroy() {
    let mut b = Backend::new();
    // Creates a VM instance for the current process.
    let ret = b.vm_create();
    assert_eq!(ret, HV_SUCCESS);
    // Trying to create a second instance leads to a busy error.
    let ret = b.vm_create();
    assert_eq!(ret, HV_BUSY);
    // Destroys the process instance.
    let ret = b.vm_destroy();
    assert_eq!(ret, HV_SUCCESS);
}

#[test]
fn vcpu_create_destroy() {
    let mut b = Backend::new();
    // Creates a VM instance for the current process.
    let ret = b.vm_create();
    assert_eq!(ret, HV_SUCCESS);
    // Retrieves the maximum number of vCPU.
    let (ret, _max_vcpu_count) = b.vm_get_max_vcpu_count();
    assert_eq!(ret, HV_SUCCESS);
    // Creates a vCPU.
    let (ret, vcpu) = b.vcpu_create();
    assert_eq!(ret, HV_SUCCESS);
    // Destroys a vCPU.
    let ret = b.vcpu_destroy(vcpu);
    assert_eq!(ret, HV_SUCCESS);
    // Destroys the process instance.
    let ret = b.vm_destroy();
    assert_eq!(ret, HV_SUCCESS);
}

//! Tests of interrupt controller configuration, registers and saved state.

use applevisor::backend::Backend;
use applevisor::GicConfig;
use applevisor::GicDistributorReg;
use applevisor::GicIntId;
use applevisor::GicMsiReg;
use applevisor::HypervisorError;
use applevisor::VirtualMachine;
use applevisor::VirtualMachineConfig;

#[test]
fn create_and_use_a_gic_configuration() {
    let mut config = GicConfig::default();

    // Set the distributor, redistributor, and msi region base addresses.
    assert_eq!(config.set_distributor_base(0x1000_0000), Ok(()));
    assert_eq!(config.set_redistributor_base(0x2000_0000), Ok(()));
    assert_eq!(config.set_msi_region_base(0x3000_0000), Ok(()));

    // Range of SPI interrupt number.
    let range = GicConfig::get_spi_interrupt_range();
    assert!(range.is_ok());
    let (base, count) = range.unwrap();

    // MSI interrupts should be within the SPI range.
    assert_eq!(config.set_msi_interrupt_range(base, count), Ok(()));

    // Get various configuration values.
    assert!(GicConfig::get_distributor_size().is_ok());
    assert!(GicConfig::get_distributor_base_alignment().is_ok());
    assert!(GicConfig::get_redistributor_region_size().is_ok());
    assert!(GicConfig::get_redistributor_size().is_ok());
    assert!(GicConfig::get_redistributor_base_alignment().is_ok());
    assert!(GicConfig::get_msi_region_size().is_ok());
    assert!(GicConfig::get_msi_region_base_alignment().is_ok());

    // Check the reserved interrupts.
    assert!(GicConfig::get_intid(GicIntId::MAINTENANCE).is_ok());
    assert!(GicConfig::get_intid(GicIntId::PERFORMANCE_MONITOR).is_ok());
    assert!(GicConfig::get_intid(GicIntId::EL1_VIRTUAL_TIMER).is_ok());
    assert!(GicConfig::get_intid(GicIntId::EL1_PHYSICAL_TIMER).is_ok());
    assert!(GicConfig::get_intid(GicIntId::EL2_PHYSICAL_TIMER).is_ok());
}

#[test]
fn try_to_create_a_gic_configuration_with_out_of_bounds_values() {
    let mut config = GicConfig::default();

    let distributor_size = GicConfig::get_distributor_size().unwrap() as u64;
    let distributor_base_alignment = GicConfig::get_distributor_base_alignment().unwrap() as u64;
    // Base address that would make the region end address overflow.
    assert_eq!(
        config.set_distributor_base(u64::MAX - distributor_size + 1),
        Err(HypervisorError::BadArgument)
    );
    assert_eq!(
        config.set_distributor_base(u64::MAX - distributor_size - distributor_base_alignment + 1),
        Ok(())
    );

    let redistributor_size = GicConfig::get_redistributor_region_size().unwrap() as u64;
    let redistributor_base_alignment =
        GicConfig::get_redistributor_base_alignment().unwrap() as u64;
    // Base address that would make the region end address overflow.
    assert_eq!(
        config.set_redistributor_base(u64::MAX - redistributor_size + 1),
        Err(HypervisorError::BadArgument)
    );
    assert_eq!(
        config
            .set_redistributor_base(u64::MAX - redistributor_size - redistributor_base_alignment + 1),
        Ok(())
    );

    let msi_region_size = GicConfig::get_msi_region_size().unwrap() as u64;
    let msi_region_base_alignment = GicConfig::get_msi_region_base_alignment().unwrap() as u64;
    // Base address that would make the region end address overflow.
    assert_eq!(
        config.set_msi_region_base(u64::MAX - msi_region_size + 1),
        Err(HypervisorError::BadArgument)
    );
    assert_eq!(
        config.set_msi_region_base(u64::MAX - msi_region_size - msi_region_base_alignment + 1),
        Ok(())
    );

    // MSI interrupt IDs outside of the SPI interrupts range.
    assert_eq!(
        config.set_msi_interrupt_range(0, u32::MAX),
        Err(HypervisorError::BadArgument)
    );
}

#[test]
fn create_and_change_gic_state() {
    let mut b = Backend::new();

    // Configure a VM with a GIC.
    let vm_config = VirtualMachineConfig::default();
    let mut gic_config = GicConfig::default();
    gic_config.set_redistributor_base(0x2000_0000).unwrap();
    let vm = VirtualMachine::with_gic(&mut b, vm_config, gic_config).unwrap();

    let state = vm.gic_state_create(&b);
    assert!(state.is_ok());
    let mut state = state.unwrap();

    let state_size = state.size();
    assert!(state_size.is_ok());
    let state_size = state_size.unwrap();

    let mut data = vec![0u8; state_size];
    assert_eq!(state.get(&mut data), Ok(()));
    assert_eq!(state.set(&mut b, &data), Ok(()));

    // Trying to set an invalid state.
    data[0] = 0;
    assert_eq!(state.set(&mut b, &data), Err(HypervisorError::BadArgument));

    // Trying to get and set a state with a buffer too small.
    let mut data = vec![0u8; state_size - 0x10];
    assert_eq!(state.get(&mut data), Err(HypervisorError::BadArgument));
    assert_eq!(state.set(&mut b, &data), Err(HypervisorError::BadArgument));
}

#[test]
fn gic_operations() {
    let mut b = Backend::new();

    let vm_config = VirtualMachineConfig::default();
    let mut gic_config = GicConfig::default();
    gic_config.set_distributor_base(0x1000_0000).unwrap();
    gic_config.set_redistributor_base(0x2000_0000).unwrap();
    gic_config.set_msi_region_base(0x3000_0000).unwrap();

    // The first half of the SPI range is set as MSIs.
    let (base, count) = GicConfig::get_spi_interrupt_range().unwrap();
    gic_config.set_msi_interrupt_range(base, count / 2).unwrap();

    let vm = VirtualMachine::with_gic(&mut b, vm_config, gic_config).unwrap();

    assert_eq!(vm.gic_reset(&mut b), Ok(()));
    let addr = 0x3000_0000 + 0x40;

    // Sending MSIs.
    let msi_start = base;
    let msi_end = base + count / 2;
    assert_eq!(
        vm.gic_send_msi(&mut b, addr, msi_start - 1),
        Err(HypervisorError::BadArgument)
    );
    for id in msi_start..msi_end {
        assert_eq!(vm.gic_send_msi(&mut b, addr, id), Ok(()));
    }

    // Triggering SPIs.
    let spi_start = base + count / 2;
    let spi_end = base + count;
    assert_eq!(
        vm.gic_set_spi(&mut b, spi_start - 1, false),
        Err(HypervisorError::BadArgument)
    );
    for id in spi_start..spi_end {
        assert_eq!(vm.gic_set_spi(&mut b, id, false), Ok(()));
    }
}

#[test]
fn get_and_set_distributor_and_msi_registers() {
    let mut b = Backend::new();

    let vm_config = VirtualMachineConfig::default();
    let mut gic_config = GicConfig::default();
    gic_config.set_redistributor_base(0x2000_0000).unwrap();
    let vm = VirtualMachine::with_gic(&mut b, vm_config, gic_config).unwrap();

    // All registers start at zero.
    assert_eq!(
        vm.gic_get_distributor_reg(&b, GicDistributorReg::IPRIORITYR3),
        Ok(0)
    );
    // A written value is read back from the same register and no other.
    assert_eq!(
        vm.gic_set_distributor_reg(&mut b, GicDistributorReg::IPRIORITYR3, 0x55),
        Ok(())
    );
    assert_eq!(
        vm.gic_get_distributor_reg(&b, GicDistributorReg::IPRIORITYR3),
        Ok(0x55)
    );
    assert_eq!(
        vm.gic_get_distributor_reg(&b, GicDistributorReg::IPRIORITYR4),
        Ok(0)
    );

    assert_eq!(vm.gic_set_msi_reg(&mut b, GicMsiReg::TYPER, 0x77), Ok(()));
    assert_eq!(vm.gic_get_msi_reg(&b, GicMsiReg::TYPER), Ok(0x77));

    // A reset returns every register to zero.
    assert_eq!(vm.gic_reset(&mut b), Ok(()));
    assert_eq!(
        vm.gic_get_distributor_reg(&b, GicDistributorReg::IPRIORITYR3),
        Ok(0)
    );
    assert_eq!(vm.gic_get_msi_reg(&b, GicMsiReg::TYPER), Ok(0));
}

#[test]
fn gic_state_save_and_restore_registers() {
    let mut b = Backend::new();

    let vm_config = VirtualMachineConfig::default();
    let mut gic_config = GicConfig::default();
    gic_config.set_redistributor_base(0x2000_0000).unwrap();
    let vm = VirtualMachine::with_gic(&mut b, vm_config, gic_config).unwrap();

    // Give a couple of registers distinctive values and save the state.
    vm.gic_set_distributor_reg(&mut b, GicDistributorReg::IPRIORITYR3, 0x55)
        .unwrap();
    vm.gic_set_msi_reg(&mut b, GicMsiReg::TYPER, 0x77).unwrap();
    let mut state = vm.gic_state_create(&b).unwrap();
    let size = state.size().unwrap();
    let mut blob = vec![0u8; size];
    state.get(&mut blob).unwrap();

    // Reset wipes the registers; restoring the blob brings them back.
    vm.gic_reset(&mut b).unwrap();
    assert_eq!(
        vm.gic_get_distributor_reg(&b, GicDistributorReg::IPRIORITYR3),
        Ok(0)
    );
    assert_eq!(state.set(&mut b, &blob), Ok(()));
    assert_eq!(
        vm.gic_get_distributor_reg(&b, GicDistributorReg::IPRIORITYR3),
        Ok(0x55)
    );
    assert_eq!(vm.gic_get_msi_reg(&b, GicMsiReg::TYPER), Ok(0x77));
}

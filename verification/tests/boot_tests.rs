use axcli::bootparams::{
    add_e820_entry, configure_64bit_boot, BootHeader, ConfigurationError, E820Entry, LinuxBootParams,
    E820_MAX_ENTRIES, E820_RAM, E820_RESERVED,
};
use axcli::initrd::initrd_load_addr;
use axcli::memory::{arch_memory_regions, get_kernel_start, HIMEM_START, MMIO32_MEM_START};
use axcli::regs::{
    boot_gdt, gdt_entry, segment_from_gdt, setup_sregs, BootProtocol, RegsError,
    SetupSpecialRegistersError, PDE_START, PML4_START,
};

#[test]
fn memory_regions_skip_mmio_window() {
    let small = arch_memory_regions(0x1000_0000);
    assert_eq!(small, vec![(0, 0x1000_0000)]);
    let big = arch_memory_regions(0xd000_0000);
    assert_eq!(big[0], (0, MMIO32_MEM_START));
    assert_eq!(big[1].1, 0xd000_0000 - MMIO32_MEM_START);
    assert_eq!(big.iter().map(|r| r.1).sum::<u64>(), 0xd000_0000);
    assert_eq!(get_kernel_start(), HIMEM_START);
}

#[test]
fn initrd_goes_to_top_of_low_memory() {
    let regions = vec![(0u64, 0x1000_0000u64)];
    assert_eq!(initrd_load_addr(&regions, 0x1800), Some(0x1000_0000 - 0x2000));
    assert_eq!(initrd_load_addr(&regions, 0x1000), Some(0x1000_0000 - 0x1000));
    assert_eq!(initrd_load_addr(&regions, 0x2000_0000), None);
    assert_eq!(initrd_load_addr(&vec![(0x10_0000u64, 0x1000u64)], 16), None);
    assert_eq!(initrd_load_addr(&vec![], 16), None);
}

#[test]
fn gdt_entries_and_segments() {
    assert_eq!(gdt_entry(0, 0, 0), 0);
    assert_eq!(gdt_entry(0xa09b, 0, 0xfffff), 0x00af_9b00_0000_ffff);
    assert_eq!(gdt_entry(0xc093, 0, 0xfffff), 0x00cf_9300_0000_ffff);
    let code = segment_from_gdt(gdt_entry(0xa09b, 0, 0xfffff), 1);
    assert_eq!(code.base, 0);
    assert_eq!(code.limit, 0xffff_ffff);
    assert_eq!(code.selector, 8);
    assert_eq!(code.type_, 0xb);
    assert_eq!(code.present, 1);
    assert_eq!(code.l, 1);
    assert_eq!(code.g, 1);
    assert_eq!(code.unusable, 0);
    let tss = segment_from_gdt(gdt_entry(0x008b, 0x1234_5678, 0x67), 3);
    assert_eq!(tss.base, 0x1234_5678);
    assert_eq!(tss.limit, 0x67);
    assert_eq!(tss.g, 0);
    assert_eq!(boot_gdt(BootProtocol::LinuxBoot).len(), 4);
}

#[test]
fn special_registers_for_linux_boot() {
    let (sregs, writes) = setup_sregs(BootProtocol::LinuxBoot);
    assert_eq!(sregs.cr3, PML4_START);
    assert_eq!(sregs.cr0, 0x8000_0001);
    assert_eq!(sregs.cr4, 0x20);
    assert_eq!(sregs.efer, 0x500);
    assert_eq!(sregs.gdt_base, 0x500);
    assert_eq!(sregs.gdt_limit, 31);
    assert_eq!(sregs.idt_limit, 7);
    assert_eq!(sregs.cs.selector, 8);
    assert_eq!(sregs.tr.selector, 24);
    assert_eq!(writes.len(), 5 + 2 + 512);
    assert_eq!(writes[4].addr, 0x520);
    assert_eq!(writes[4].on_error, SetupSpecialRegistersError::ConfigureSegmentsAndSpecialRegisters(RegsError::WriteIDT));
    assert_eq!(writes[7 + 3].addr, PDE_START + 24);
    assert_eq!(writes[7 + 3].value, 3 * 0x20_0000 + 0x83);
    assert_eq!(writes[5].value, 0xa003);
    assert_eq!(writes[6].on_error, SetupSpecialRegistersError::SetupPageTables(RegsError::WritePDPTEAddress));
}

#[test]
fn special_registers_for_pvh_boot() {
    let (sregs, writes) = setup_sregs(BootProtocol::PvhBoot);
    assert_eq!(sregs.cr0, 0x11);
    assert_eq!(sregs.cr3, 0);
    assert_eq!(sregs.efer, 0);
    assert_eq!(writes.len(), 5);
    assert_eq!(BootProtocol::PvhBoot.description(), "PVH boot protocol");
    assert_eq!(BootProtocol::LinuxBoot.description(), "Linux 64-bit boot protocol");
    assert_eq!(
        SetupSpecialRegistersError::SetupPageTables(RegsError::WritePML4Address).message(),
        "Failed to setup page tables: WritePML4Address"
    );
}

#[test]
fn boot_params_header_and_e820() {
    let dram = vec![(0u64, 0x4000_0000u64)];
    let p = configure_64bit_boot(&dram, 0x20000, 100, Some((0x3000_0000, 0x1000))).unwrap();
    assert_eq!(
        p.hdr,
        BootHeader {
            type_of_loader: 0xff,
            boot_flag: 0xaa55,
            header: 0x5372_6448,
            cmd_line_ptr: 0x20000,
            cmdline_size: 100,
            kernel_alignment: 0x0100_0000,
            ramdisk_image: 0x3000_0000,
            ramdisk_size: 0x1000,
        }
    );
    assert_eq!(p.e820.len(), 4);
    assert_eq!(p.e820[0], E820Entry { addr: 0, size: 0x9fc00, type_: E820_RAM });
    assert_eq!(p.e820[1].type_, E820_RESERVED);
    assert_eq!(p.e820[3], E820Entry { addr: HIMEM_START, size: 0x4000_0000 - HIMEM_START, type_: E820_RAM });
    assert_eq!(
        configure_64bit_boot(&dram, 0x1_0000_0000, 100, None).err(),
        Some(ConfigurationError::BootParamValue("cmd_line_ptr"))
    );
    assert_eq!(
        configure_64bit_boot(&dram, 0x20000, 100, Some((0x1_0000_0000, 1))).err(),
        Some(ConfigurationError::BootParamValue("ramdisk_image"))
    );
    let many = vec![(0x10_0000u64, 0x1000u64); 126];
    assert_eq!(configure_64bit_boot(&many, 0x20000, 1, None).err(), Some(ConfigurationError::E820Configuration));
    let fits = vec![(0x10_0000u64, 0x1000u64); 125];
    assert_eq!(configure_64bit_boot(&fits, 0x20000, 1, None).map(|p| p.e820.len()), Ok(E820_MAX_ENTRIES));
}

#[test]
fn e820_map_refuses_when_full() {
    let mut p = LinuxBootParams { acpi_rsdp_addr: 0, hdr: configure_64bit_boot(&vec![], 0, 0, None).unwrap().hdr, e820: Vec::new() };
    for i in 0..E820_MAX_ENTRIES {
        assert_eq!(add_e820_entry(&mut p, i as u64, 1, E820_RAM), Ok(()));
    }
    assert_eq!(add_e820_entry(&mut p, 0, 1, E820_RAM), Err(ConfigurationError::E820Configuration));
    assert_eq!(p.e820.len(), E820_MAX_ENTRIES);
}

//! The Linux 64-bit boot parameters of a microVM: the setup header fields
//! the loader fills in and the e820 memory map.
use vstd::prelude::*;
use crate::memory::{
    apart, lemma_memory_regions_layout, memory_regions, HIMEM_START, MMIO32_MEM_SIZE, MMIO32_MEM_START,
    MMIO64_MEM_SIZE, MMIO64_MEM_START,
};

verus! {

/// Usable RAM in the e820 map.
pub const E820_RAM: u32 = 1;
/// Reserved memory in the e820 map.
pub const E820_RESERVED: u32 = 2;
/// Room for e820 entries in the zero page.
pub const E820_MAX_ENTRIES: usize = 128;

/// The start of the system-data area below 640 KiB.
pub const SYSTEM_MEM_START: u64 = 0x9fc00;
/// The size of the system-data area.
pub const SYSTEM_MEM_SIZE: u64 = 0x400;
/// The PCI MMCONFIG window.
pub const PCI_MMCONFIG_START: u64 = 0xeec0_0000;
pub const PCI_MMCONFIG_SIZE: u64 = 0x1000_0000;
/// Where the ACPI RSDP is placed.
pub const RSDP_ADDR: u64 = 0x000e_0000;
/// Where the kernel command line is placed.
pub const CMDLINE_START: u64 = 0x20000;
/// Where the zero page (the boot parameters) is placed.
pub const ZERO_PAGE_START: u64 = 0x7000;

pub const KERNEL_BOOT_FLAG_MAGIC: u16 = 0xaa55;
pub const KERNEL_HDR_MAGIC: u32 = 0x5372_6448;
pub const KERNEL_LOADER_OTHER: u8 = 0xff;
pub const KERNEL_MIN_ALIGNMENT_BYTES: u32 = 0x0100_0000;

/// Errors while configuring the system for boot.
#[derive(Debug, Clone, PartialEq, Eq)]
pub enum ConfigurationError {
    /// Invalid e820 setup params.
    E820Configuration,
    /// Error writing the zero page of guest memory.
    ZeroPageSetup,
    /// Cannot load the kernel: the loader's message.
    KernelLoader(String),
    /// Cannot load the command line: the loader's message.
    LoadCommandline(String),
    /// Cannot create the kernel command line C string.
    CommandLineCString(String),
    /// A boot parameter value does not fit its field: the field's name.
    BootParamValue(&'static str),
    /// Error configuring the vcpu for boot.
    VcpuConfigure,
}

/// One e820 map entry.
#[derive(Debug, Copy, Clone, PartialEq, Eq, Structural)]
pub struct E820Entry {
    pub addr: u64,
    pub size: u64,
    pub type_: u32,
}

/// The setup-header fields a loader fills in.
#[derive(Debug, Copy, Clone, PartialEq, Eq, Structural)]
pub struct BootHeader {
    pub type_of_loader: u8,
    pub boot_flag: u16,
    pub header: u32,
    pub cmd_line_ptr: u32,
    pub cmdline_size: u32,
    pub kernel_alignment: u32,
    pub ramdisk_image: u32,
    pub ramdisk_size: u32,
}

/// The boot parameters written to the zero page.
#[derive(Debug, Clone)]
pub struct LinuxBootParams {
    pub acpi_rsdp_addr: u64,
    pub hdr: BootHeader,
    pub e820: Vec<E820Entry>,
}

/// Adds an e820 entry; fails, changing nothing, when the map is full.
pub fn add_e820_entry(params: &mut LinuxBootParams, addr: u64, size: u64, mem_type: u32) -> (r: Result<
    (),
    ConfigurationError,
>)
    ensures
        final(params).acpi_rsdp_addr == old(params).acpi_rsdp_addr,
        final(params).hdr == old(params).hdr,
        old(params).e820@.len() >= E820_MAX_ENTRIES ==> r == Err::<(), ConfigurationError>(ConfigurationError::E820Configuration)
            && final(params).e820@ == old(params).e820@,
        old(params).e820@.len() < E820_MAX_ENTRIES ==> r is Ok && final(params).e820@ == old(params).e820@.push(
            E820Entry { addr, size, type_: mem_type },
        ),
{
    if params.e820.len() >= E820_MAX_ENTRIES {
        return Err(ConfigurationError::E820Configuration);
    }
    params.e820.push(E820Entry { addr, size, type_: mem_type });
    Ok(())
}

/// The e820 entry of DRAM region `(start, len)`: RAM from the later of its
/// start and `HIMEM_START` to its end.
pub open spec fn dram_entry(region: (u64, u64)) -> E820Entry {
    let addr = if region.0 > HIMEM_START { region.0 } else { HIMEM_START };
    E820Entry { addr, size: (region.0 + region.1 - addr) as u64, type_: E820_RAM }
}

/// The full e820 map for the given DRAM regions.
pub open spec fn e820_map(dram: Seq<(u64, u64)>) -> Seq<E820Entry> {
    seq![
        E820Entry { addr: 0, size: SYSTEM_MEM_START, type_: E820_RAM },
        E820Entry { addr: SYSTEM_MEM_START, size: SYSTEM_MEM_SIZE, type_: E820_RESERVED },
        E820Entry { addr: PCI_MMCONFIG_START, size: PCI_MMCONFIG_SIZE, type_: E820_RESERVED },
    ] + Seq::new(dram.len(), |i: int| dram_entry(dram[i]))
}

/// Whether a DRAM region is well placed: non-empty, ending within the
/// address space and at or above `HIMEM_START`.
pub open spec fn dram_region_ok(region: (u64, u64)) -> bool {
    &&& region.1 > 0
    &&& region.0 + region.1 <= u64::MAX
    &&& region.0 + region.1 > HIMEM_START
}

/// Each DRAM region becomes one RAM entry of the e820 map, after the three
/// fixed entries: it starts at the later of the region's start and
/// `HIMEM_START` and ends where the region ends, so it lies within its
/// region and claims no address outside it (an MMIO hole between regions
/// stays out of the RAM map).
pub proof fn lemma_dram_entries_within_regions(dram: Seq<(u64, u64)>, i: int)
    requires
        0 <= i < dram.len(),
        dram_region_ok(dram[i]),
    ensures
        e820_map(dram).len() == 3 + dram.len(),
        ({
            let e = e820_map(dram)[3 + i];
            let (start, len) = dram[i];
            &&& e.type_ == E820_RAM
            &&& e.addr >= start && e.addr >= HIMEM_START
            &&& (e.addr == start || e.addr == HIMEM_START)
            &&& e.addr + e.size == start + len
        }),
{
}

/// For the RAM layout of a guest of `size` bytes, no RAM entry of the e820
/// map made from its regions meets the 32-bit or the 64-bit MMIO window.
pub proof fn lemma_e820_ram_avoids_mmio(size: u64, i: int)
    requires
        size > 0,
        0 <= i < memory_regions(size).len(),
        dram_region_ok(memory_regions(size)[i]),
    ensures
        ({
            let e = e820_map(memory_regions(size))[3 + i];
            &&& e.type_ == E820_RAM
            &&& apart(e.addr as int, e.size as int, MMIO32_MEM_START as int, MMIO32_MEM_SIZE as int)
            &&& apart(e.addr as int, e.size as int, MMIO64_MEM_START as int, MMIO64_MEM_SIZE as int)
        }),
{
    lemma_memory_regions_layout(size);
    lemma_dram_entries_within_regions(memory_regions(size), i);
}

/// The boot parameters for a kernel booted with the Linux 64-bit
/// protocol, for a command line of `cmdline_size` bytes at `cmdline_addr`,
/// an optional initrd `(address, size)` and the guest's DRAM regions.
/// Fails when a value does not fit its header field (naming the field) or
/// the e820 map has no room for all regions.
pub fn configure_64bit_boot(
    dram: &Vec<(u64, u64)>,
    cmdline_addr: u64,
    cmdline_size: usize,
    initrd: Option<(u64, usize)>,
) -> (r: Result<LinuxBootParams, ConfigurationError>)
    requires
        forall|i: int| 0 <= i < dram@.len() ==> dram_region_ok(#[trigger] dram@[i]),
    ensures
        cmdline_addr > u32::MAX ==> r == Err::<LinuxBootParams, ConfigurationError>(ConfigurationError::BootParamValue("cmd_line_ptr")),
        cmdline_addr <= u32::MAX && cmdline_size > u32::MAX ==> r == Err::<LinuxBootParams, ConfigurationError>(ConfigurationError::BootParamValue("cmdline_size")),
        cmdline_addr <= u32::MAX && cmdline_size <= u32::MAX ==> match initrd {
            Some((a, s)) => if a > u32::MAX {
                r == Err::<LinuxBootParams, ConfigurationError>(ConfigurationError::BootParamValue("ramdisk_image"))
            } else if s > u32::MAX {
                r == Err::<LinuxBootParams, ConfigurationError>(ConfigurationError::BootParamValue("ramdisk_size"))
            } else {
                true
            },
            None => true,
        },
        r is Ok <==> cmdline_addr <= u32::MAX && cmdline_size <= u32::MAX && (initrd matches Some((a, s)) ==> a
            <= u32::MAX && s <= u32::MAX) && 3 + dram@.len() <= E820_MAX_ENTRIES,
        r matches Err(e) ==> (cmdline_addr <= u32::MAX && cmdline_size <= u32::MAX && (initrd matches Some((a, s)) ==> a
            <= u32::MAX && s <= u32::MAX)) ==> e == ConfigurationError::E820Configuration,
        r matches Ok(p) ==> {
            &&& p.acpi_rsdp_addr == RSDP_ADDR
            &&& p.hdr == BootHeader {
                type_of_loader: KERNEL_LOADER_OTHER,
                boot_flag: KERNEL_BOOT_FLAG_MAGIC,
                header: KERNEL_HDR_MAGIC,
                cmd_line_ptr: cmdline_addr as u32,
                cmdline_size: cmdline_size as u32,
                kernel_alignment: KERNEL_MIN_ALIGNMENT_BYTES,
                ramdisk_image: match initrd { Some((a, _)) => a as u32, None => 0 },
                ramdisk_size: match initrd { Some((_, s)) => s as u32, None => 0 },
            }
            &&& p.e820@ == e820_map(dram@)
        },
{
    if cmdline_addr > u32::MAX as u64 {
        return Err(ConfigurationError::BootParamValue("cmd_line_ptr"));
    }
    if cmdline_size > u32::MAX as usize {
        return Err(ConfigurationError::BootParamValue("cmdline_size"));
    }
    let mut hdr = BootHeader {
        type_of_loader: KERNEL_LOADER_OTHER,
        boot_flag: KERNEL_BOOT_FLAG_MAGIC,
        header: KERNEL_HDR_MAGIC,
        cmd_line_ptr: cmdline_addr as u32,
        cmdline_size: cmdline_size as u32,
        kernel_alignment: KERNEL_MIN_ALIGNMENT_BYTES,
        ramdisk_image: 0,
        ramdisk_size: 0,
    };
    if let Some((a, s)) = initrd {
        if a > u32::MAX as u64 {
            return Err(ConfigurationError::BootParamValue("ramdisk_image"));
        }
        if s > u32::MAX as usize {
            return Err(ConfigurationError::BootParamValue("ramdisk_size"));
        }
        hdr.ramdisk_image = a as u32;
        hdr.ramdisk_size = s as u32;
    }
    let mut params = LinuxBootParams { acpi_rsdp_addr: RSDP_ADDR, hdr, e820: Vec::new() };
    add_e820_entry(&mut params, 0, SYSTEM_MEM_START, E820_RAM)?;
    add_e820_entry(&mut params, SYSTEM_MEM_START, SYSTEM_MEM_SIZE, E820_RESERVED)?;
    add_e820_entry(&mut params, PCI_MMCONFIG_START, PCI_MMCONFIG_SIZE, E820_RESERVED)?;
    let ghost fixed = params.e820@;
    let mut i: usize = 0;
    while i < dram.len()
        invariant
            i <= dram@.len(),
            forall|k: int| 0 <= k < dram@.len() ==> dram_region_ok(#[trigger] dram@[k]),
            fixed.len() == 3,
            fixed == e820_map(dram@).subrange(0, 3),
            params.acpi_rsdp_addr == RSDP_ADDR,
            params.hdr == hdr,
            cmdline_addr <= u32::MAX,
            cmdline_size <= u32::MAX,
            initrd matches Some((a, s)) ==> a <= u32::MAX && s <= u32::MAX,
            params.e820@.len() <= E820_MAX_ENTRIES,
            params.e820@ == fixed + Seq::new(i as nat, |k: int| dram_entry(dram@[k])),
        decreases dram@.len() - i,
    {
        let (start, len) = dram[i];
        let addr = if start > HIMEM_START { start } else { HIMEM_START };
        let last = start + (len - 1);
        if add_e820_entry(&mut params, addr, last - addr + 1, E820_RAM).is_err() {
            proof {
                assert(3 + dram@.len() > E820_MAX_ENTRIES);
            }
            return Err(ConfigurationError::E820Configuration);
        }
        i = i + 1;
        proof {
            assert(params.e820@ =~= fixed + Seq::new(i as nat, |k: int| dram_entry(dram@[k])));
        }
    }
    proof {
        assert(params.e820@ =~= e820_map(dram@));
    }
    Ok(params)
}

} // verus!

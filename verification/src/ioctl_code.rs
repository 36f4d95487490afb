//! Encoding of ioctl request numbers, and the argument of the request that
//! creates a microVM instance.
use vstd::prelude::*;
use crate::command::{same_result, str_string};
use crate::config::PciBdf;
use crate::resource::VfioBarInfo;
use crate::text::{dec, push_dec, push_str};

verus! {

pub const IOC_NONE: u32 = 0;
pub const IOC_WRITE: u32 = 1;
pub const IOC_READ: u32 = 2;
pub const IOC_NRSHIFT: u64 = 0;
pub const IOC_TYPESHIFT: u64 = 8;
pub const IOC_SIZESHIFT: u64 = 16;
pub const IOC_DIRSHIFT: u64 = 30;

/// The request number of direction `dir`, type `ty`, number `nr` and
/// argument size `size` (the `_IOC` macro).
pub open spec fn spec_ioc(dir: u32, ty: u32, nr: u32, size: u64) -> u64 {
    ((dir as u64) << 30u64) | ((ty as u64) << 8u64) | ((nr as u64) << 0u64) | (size << 16u64)
}

pub fn ioc(dir: u32, ty: u32, nr: u32, size: usize) -> (r: u64)
    ensures
        r == spec_ioc(dir, ty, nr, size as u64),
{
    ((dir as u64) << 30u64) | ((ty as u64) << 8u64) | ((nr as u64) << 0u64) | ((size as u64) << 16u64)
}

/// A request without an argument (`_IO`).
pub fn io(ty: u32, nr: u32) -> (r: u64)
    ensures
        r == spec_ioc(IOC_NONE, ty, nr, 0),
{
    ioc(IOC_NONE, ty, nr, 0)
}

/// A request that hands the kernel an argument of `size` bytes (`_IOW`).
pub fn iow(ty: u32, nr: u32, size: usize) -> (r: u64)
    ensures
        r == spec_ioc(IOC_WRITE, ty, nr, size as u64),
{
    ioc(IOC_WRITE, ty, nr, size)
}

/// Each field of a request number can be read back from it, as long as it
/// fits its width: two bits of direction, eight of type, eight of number and
/// fourteen of size.
pub proof fn lemma_ioc_fields(dir: u32, ty: u32, nr: u32, size: u64)
    requires
        dir < 4,
        ty < 0x100,
        nr < 0x100,
        size < 0x4000,
    ensures
        (spec_ioc(dir, ty, nr, size) >> 30u64) & 3 == dir,
        (spec_ioc(dir, ty, nr, size) >> 8u64) & 0xff == ty,
        spec_ioc(dir, ty, nr, size) & 0xff == nr,
        (spec_ioc(dir, ty, nr, size) >> 16u64) & 0x3fff == size,
{
    let d = dir as u64;
    let t = ty as u64;
    let n = nr as u64;
    assert(((((d << 30u64) | (t << 8u64) | (n << 0u64) | (size << 16u64)) >> 30u64) & 3 == d)
        && ((((d << 30u64) | (t << 8u64) | (n << 0u64) | (size << 16u64)) >> 8u64) & 0xff == t)
        && ((((d << 30u64) | (t << 8u64) | (n << 0u64) | (size << 16u64))) & 0xff == n)
        && ((((d << 30u64) | (t << 8u64) | (n << 0u64) | (size << 16u64)) >> 16u64) & 0x3fff == size)) by (bit_vector)
        requires
            d < 4,
            t < 0x100,
            n < 0x100,
            size < 0x4000,
    ;
}

/// A PCI address as the hypervisor takes it: domain, bus, device and
/// function packed from high to low.
pub open spec fn bdf_code(b: PciBdf) -> u64 {
    (b.domain * 0x1_0000 + b.bus * 0x100 + b.device * 8 + b.function) as u64
}

pub fn encode_bdf(b: &PciBdf) -> (r: u64)
    ensures
        r == bdf_code(*b),
{
    b.domain as u64 * 0x1_0000 + b.bus as u64 * 0x100 + b.device as u64 * 8 + b.function as u64
}

/// The most passthrough devices an instance takes.
pub const MAX_PASSTHROUGH_DEVICES: usize = 8;
pub const MICROVM_HYPERALLOC_FLAG_RETAIN_HPA: u64 = 1;
pub const VFIO_FLAG_ENABLED: u64 = 1;
pub const VFIO_FLAG_IOVA_GPA_IDENTITY: u64 = 2;
pub const VFIO_FLAG_PHYSICAL_RELEASE: u64 = 4;
/// The instance id the request carries; the kernel replaces it.
pub const UNASSIGNED_INSTANCE_ID: u64 = 0xdead_beef;

/// The VFIO part of a create request.
#[derive(Clone, Debug)]
pub struct CreateVfio {
    pub iommu_group: u32,
    pub guest_visible_bdf: PciBdf,
    pub gpa_identity: bool,
    pub physical_release: bool,
    pub bars: Vec<VfioBarInfo>,
    pub pci_cfg_space_len: usize,
    pub pci_cfg_space: Vec<u8>,
}

/// The argument of the create-instance request for a microVM.
#[derive(Clone, Debug)]
pub struct CreateMicroVmArg {
    pub instance_id: u64,
    pub instance_type: u64,
    pub mapping_type: u64,
    pub init_vcpu_num: u64,
    pub max_vcpu_num: u64,
    pub init_mem_size_mib: u64,
    pub max_mem_size_mib: u64,
    pub microvm_hyperalloc_flags: u64,
    pub passthrough_bdf: Vec<u64>,
    pub vfio_flags: u64,
    pub vfio_iommu_group: u64,
    pub vfio_guest_visible_bdf: u64,
    pub vfio_bars: Vec<VfioBarInfo>,
    pub vfio_pci_cfg_space: Vec<u8>,
    pub microvm_block_flags: u64,
    pub microvm_block_device_count: u64,
    pub microvm_block_capacity_sectors: u64,
}

/// The encoded passthrough addresses.
pub open spec fn bdf_codes(ds: Seq<PciBdf>) -> Seq<u64> {
    ds.map_values(|b: PciBdf| bdf_code(b))
}

/// The config bytes handed over: as many as were read, up to 256.
pub open spec fn cfg_prefix(len: usize, cfg: Seq<u8>) -> Seq<u8> {
    let n = if len < 256 { len as int } else { 256 };
    let m = if n < cfg.len() { n } else { cfg.len() as int };
    cfg.subrange(0, m)
}

/// The create request for a microVM: type 2 with flat mapping, the vCPU and
/// memory sizes, at most eight passthrough devices, the VFIO settings when
/// there are any, and the block drive when there is one.
pub open spec fn create_arg_ok(
    a: CreateMicroVmArg,
    init_vcpu_num: u8,
    max_vcpu_num: u8,
    init_mem_size_mib: usize,
    max_mem_size_mib: usize,
    retain_hpa: bool,
    passthrough: Seq<PciBdf>,
    vfio: Option<CreateVfio>,
    block_device_count: usize,
    block_flags: u64,
    block_capacity_sectors: u64,
) -> bool {
    &&& a.instance_id == UNASSIGNED_INSTANCE_ID
    &&& a.instance_type == 2
    &&& a.mapping_type == 0
    &&& a.init_vcpu_num == init_vcpu_num
    &&& a.max_vcpu_num == max_vcpu_num
    &&& a.init_mem_size_mib == init_mem_size_mib
    &&& a.max_mem_size_mib == max_mem_size_mib
    &&& a.microvm_hyperalloc_flags == (if retain_hpa { MICROVM_HYPERALLOC_FLAG_RETAIN_HPA } else { 0 })
    &&& a.passthrough_bdf@ == bdf_codes(passthrough)
    &&& match vfio {
        None => a.vfio_flags == 0 && a.vfio_iommu_group == 0 && a.vfio_guest_visible_bdf == 0
            && a.vfio_bars@.len() == 0 && a.vfio_pci_cfg_space@.len() == 0,
        Some(v) => a.vfio_flags == VFIO_FLAG_ENABLED | (if v.gpa_identity { VFIO_FLAG_IOVA_GPA_IDENTITY } else { 0 })
            | (if v.physical_release { VFIO_FLAG_PHYSICAL_RELEASE } else { 0 })
            && a.vfio_iommu_group == v.iommu_group
            && a.vfio_guest_visible_bdf == bdf_code(v.guest_visible_bdf)
            && a.vfio_bars@ == v.bars@
            && a.vfio_pci_cfg_space@ == cfg_prefix(v.pci_cfg_space_len, v.pci_cfg_space@),
    }
    &&& if block_device_count > 0 {
        a.microvm_block_flags == block_flags && a.microvm_block_device_count == block_device_count
            && a.microvm_block_capacity_sectors == block_capacity_sectors
    } else {
        a.microvm_block_flags == 0 && a.microvm_block_device_count == 0 && a.microvm_block_capacity_sectors == 0
    }
}

/// Builds the create request (see [`create_arg_ok`]); more than eight
/// passthrough devices are refused.
pub fn create_microvm_arg(
    init_vcpu_num: u8,
    max_vcpu_num: u8,
    init_mem_size_mib: usize,
    max_mem_size_mib: usize,
    retain_hpa: bool,
    passthrough: &Vec<PciBdf>,
    vfio: Option<CreateVfio>,
    block_device_count: usize,
    block_flags: u64,
    block_capacity_sectors: u64,
) -> (r: Result<CreateMicroVmArg, String>)
    ensures
        passthrough@.len() > MAX_PASSTHROUGH_DEVICES <==> r is Err,
        r matches Err(m) ==> m@ == "Too many passthrough devices: "@ + dec(passthrough@.len()) + ", max 8"@,
        r matches Ok(a) ==> create_arg_ok(a, init_vcpu_num, max_vcpu_num, init_mem_size_mib, max_mem_size_mib,
            retain_hpa, passthrough@, vfio, block_device_count, block_flags, block_capacity_sectors),
{
    if passthrough.len() > MAX_PASSTHROUGH_DEVICES {
        let mut m = String::new();
        push_str(&mut m, "Too many passthrough devices: ");
        push_dec(&mut m, passthrough.len() as u64);
        push_str(&mut m, ", max ");
        push_dec(&mut m, MAX_PASSTHROUGH_DEVICES as u64);
        proof {
            reveal_strlit(", max ");
            assert(dec(8) =~= seq!['8']) by {
                reveal_with_fuel(crate::text::digits, 3);
            }
            assert(", max "@ + dec(8) =~= ", max 8"@) by {
                reveal_strlit(", max 8");
            }
        }
        return Err(m);
    }
    let mut codes: Vec<u64> = Vec::new();
    let mut i: usize = 0;
    while i < passthrough.len()
        invariant
            i <= passthrough@.len(),
            codes@ == bdf_codes(passthrough@).subrange(0, i as int),
        decreases passthrough.len() - i,
    {
        codes.push(encode_bdf(&passthrough[i]));
        i = i + 1;
        assert(codes@ =~= bdf_codes(passthrough@).subrange(0, i as int));
    }
    assert(codes@ =~= bdf_codes(passthrough@));
    let (vfio_flags, group, gbdf, bars, cfg) = match vfio {
        None => (0u64, 0u64, 0u64, Vec::new(), Vec::new()),
        Some(v) => {
            let flags = VFIO_FLAG_ENABLED | (if v.gpa_identity { VFIO_FLAG_IOVA_GPA_IDENTITY } else { 0 })
                | (if v.physical_release { VFIO_FLAG_PHYSICAL_RELEASE } else { 0 });
            let n: usize = if v.pci_cfg_space_len < 256 { v.pci_cfg_space_len } else { 256 };
            let m: usize = if n < v.pci_cfg_space.len() { n } else { v.pci_cfg_space.len() };
            let mut cfg: Vec<u8> = Vec::new();
            let mut j: usize = 0;
            while j < m
                invariant
                    j <= m <= v.pci_cfg_space@.len(),
                    cfg@ == v.pci_cfg_space@.subrange(0, j as int),
                decreases m - j,
            {
                cfg.push(v.pci_cfg_space[j]);
                j = j + 1;
                assert(cfg@ =~= v.pci_cfg_space@.subrange(0, j as int));
            }
            (flags, v.iommu_group as u64, encode_bdf(&v.guest_visible_bdf), v.bars, cfg)
        },
    };
    let (bf, bc, bs) = if block_device_count > 0 {
        (block_flags, block_device_count as u64, block_capacity_sectors)
    } else {
        (0u64, 0u64, 0u64)
    };
    Ok(CreateMicroVmArg {
        instance_id: UNASSIGNED_INSTANCE_ID,
        instance_type: 2,
        mapping_type: 0,
        init_vcpu_num: init_vcpu_num as u64,
        max_vcpu_num: max_vcpu_num as u64,
        init_mem_size_mib: init_mem_size_mib as u64,
        max_mem_size_mib: max_mem_size_mib as u64,
        microvm_hyperalloc_flags: if retain_hpa { MICROVM_HYPERALLOC_FLAG_RETAIN_HPA } else { 0 },
        passthrough_bdf: codes,
        vfio_flags,
        vfio_iommu_group: group,
        vfio_guest_visible_bdf: gbdf,
        vfio_bars: bars,
        vfio_pci_cfg_space: cfg,
        microvm_block_flags: bf,
        microvm_block_device_count: bc,
        microvm_block_capacity_sectors: bs,
    })
}

/// The kernel must have assigned an id: neither the placeholder nor zero.
pub fn check_created_instance_id(instance_id: u64) -> (r: Result<u64, String>)
    ensures
        instance_id != UNASSIGNED_INSTANCE_ID && instance_id != 0 <==> r == Ok::<u64, String>(instance_id),
        r matches Err(m) ==> m@ == "Instance ID was not assigned by the kernel"@,
{
    if instance_id == UNASSIGNED_INSTANCE_ID || instance_id == 0 {
        Err(str_string("Instance ID was not assigned by the kernel"))
    } else {
        Ok(instance_id)
    }
}

/// What creating a microVM gives back: the instance id and where the
/// console and block-notify rings sit in guest memory.
#[derive(Debug, Clone, Copy, PartialEq, Eq)]
pub struct MicroVmCreateResult {
    pub instance_id: usize,
    pub console_ring_gpa: usize,
    pub block_notify_ring_gpa: usize,
}

/// The kernel's count of host mappings of a microVM's guest RAM.
#[derive(Debug, Clone, Copy, PartialEq, Eq)]
pub struct MicroVmGuestRamMmapState {
    pub generation: u64,
    pub active_mmaps: u64,
    pub current_mmaps: u64,
    pub stale_mmaps: u64,
}

/// The outcome of a microVM creation request, from the fields the kernel
/// filled in: an error when no instance id was assigned.
pub fn created_microvm(instance_id: u64, console_ring_gpa: u64, block_notify_ring_gpa: u64) -> (r: Result<MicroVmCreateResult, String>)
    ensures
        (instance_id != UNASSIGNED_INSTANCE_ID && instance_id != 0) <==> r is Ok,
        r matches Ok(c) ==> c.instance_id == instance_id as usize
            && c.console_ring_gpa == console_ring_gpa as usize
            && c.block_notify_ring_gpa == block_notify_ring_gpa as usize,
        r matches Err(m) ==> m@ == "Instance ID was not assigned by the kernel"@,
{
    if instance_id == UNASSIGNED_INSTANCE_ID || instance_id == 0 {
        return Err(str_string("Instance ID was not assigned by the kernel"));
    }
    Ok(MicroVmCreateResult {
        instance_id: instance_id as usize,
        console_ring_gpa: console_ring_gpa as usize,
        block_notify_ring_gpa: block_notify_ring_gpa as usize,
    })
}

} // verus!

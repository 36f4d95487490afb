//! The microVM configuration as the user writes it: machine size, boot
//! source, block drives, passthrough devices and VFIO settings.
use vstd::prelude::*;
use crate::text::{spec_parse_uint, parse_uint, str_chars};

verus! {

/// The kernel command line used when the configuration gives none.
pub const DEFAULT_KERNEL_CMDLINE: &'static str = "reboot=k panic=1 nomodule 8250.nr_uarts=0 i8042.noaux i8042.nomux i8042.dumbkbd swiotlb=noforce";

/// The longest kernel command line accepted.
pub const CMDLINE_MAX_SIZE: usize = 2048;

/// The vCPU and memory configuration of a microVM.
#[derive(Clone, Copy, Debug, PartialEq, Eq, Default)]
pub struct MachineConfig {
    /// Number of vCPUs to start.
    pub vcpu_count: u8,
    /// Number of vCPUs to start, when given in preference to `vcpu_count`.
    pub default_vcpu_num: Option<u8>,
    /// Maximum number of vCPUs, if hotplug is supported.
    pub max_vcpu_count: Option<u8>,
    /// Maximum number of vCPUs, when `max_vcpu_count` is not given.
    pub max_vcpu_num: Option<u8>,
    /// The size of the memory to allocate at startup, in MiB.
    pub init_mem_size_mib: usize,
    /// Maximum memory size in MiB, if memory hotplug is supported.
    pub max_mem_size_mib: Option<usize>,
}

impl MachineConfig {
    pub open spec fn spec_default_vcpu_count(self) -> u8 {
        match self.default_vcpu_num {
            Some(n) => n,
            None => self.vcpu_count,
        }
    }

    pub open spec fn spec_max_vcpu_count(self) -> u8 {
        match self.max_vcpu_count {
            Some(n) => n,
            None => match self.max_vcpu_num {
                Some(n) => n,
                None => self.vcpu_count,
            },
        }
    }

    pub open spec fn spec_max_mem_size_mib(self) -> usize {
        match self.max_mem_size_mib {
            Some(n) => n,
            None => self.init_mem_size_mib,
        }
    }

    /// The number of vCPUs to start with.
    pub fn default_vcpu_count(&self) -> (r: u8)
        ensures
            r == self.spec_default_vcpu_count(),
    {
        match self.default_vcpu_num {
            Some(n) => n,
            None => self.vcpu_count,
        }
    }

    /// The maximum vCPU count, defaulting to `vcpu_count` when neither
    /// maximum is set.
    pub fn max_vcpu_count(&self) -> (r: u8)
        ensures
            r == self.spec_max_vcpu_count(),
    {
        match self.max_vcpu_count {
            Some(n) => n,
            None => match self.max_vcpu_num {
                Some(n) => n,
                None => self.vcpu_count,
            },
        }
    }

    /// The maximum memory size in MiB, defaulting to `init_mem_size_mib`.
    pub fn max_mem_size_mib(&self) -> (r: usize)
        ensures
            r == self.spec_max_mem_size_mib(),
    {
        match self.max_mem_size_mib {
            Some(n) => n,
            None => self.init_mem_size_mib,
        }
    }
}

/// The machine configuration used when the configuration file gives none:
/// one vCPU and 512 MiB.
pub open spec fn default_machine_config() -> MachineConfig {
    MachineConfig {
        vcpu_count: 1,
        default_vcpu_num: None,
        max_vcpu_count: None,
        max_vcpu_num: None,
        init_mem_size_mib: 512,
        max_mem_size_mib: None,
    }
}

pub fn machine_config_or_default(c: Option<MachineConfig>) -> (r: MachineConfig)
    ensures
        r == match c {
            Some(m) => m,
            None => default_machine_config(),
        },
{
    match c {
        Some(m) => m,
        None => MachineConfig {
            vcpu_count: 1,
            default_vcpu_num: None,
            max_vcpu_count: None,
            max_vcpu_num: None,
            init_mem_size_mib: 512,
            max_mem_size_mib: None,
        },
    }
}

/// The boot source of a microVM.
#[derive(Clone, Debug, Default)]
pub struct BootSourceConfig {
    /// Path of the kernel image.
    pub kernel_image_path: String,
    /// Path of the initrd, if there is one.
    pub initrd_path: Option<String>,
    /// The boot arguments to pass to the kernel; when absent the default
    /// command line is used.
    pub boot_args: Option<String>,
}

/// A split virtio-blk drive backed by a host file.
#[derive(Clone, Debug)]
pub struct BlockDeviceConfig {
    pub drive_id: String,
    pub path_on_host: String,
    pub is_root_device: bool,
    pub is_read_only: bool,
    pub cache_type: Option<String>,
    pub io_engine: Option<String>,
}

/// The optional VFIO section of a configuration.
#[derive(Clone, Debug, Default)]
pub struct VfioConfig {
    pub iommu_group: Option<u32>,
    pub guest_visible_bdf: Option<String>,
    pub iova_mode: Option<String>,
}

/// A whole microVM configuration file.
#[derive(Clone, Debug, Default)]
pub struct GuestConfig {
    pub boot_source: BootSourceConfig,
    pub machine_config: Option<MachineConfig>,
    pub drives: Option<Vec<BlockDeviceConfig>>,
    pub passthrough_devices: Option<Vec<String>>,
    pub vfio: Option<VfioConfig>,
}

/// How device addresses map to guest memory.
#[derive(Clone, Copy, Debug, PartialEq, Eq, Structural)]
pub enum IovaMode {
    /// The IOVA of a page is its guest-physical address.
    GpaIdentity,
}

/// `gpa-identity` is the one mode there is.
pub open spec fn iova_mode_of(s: Seq<char>) -> Option<IovaMode> {
    if s == "gpa-identity"@ {
        Some(IovaMode::GpaIdentity)
    } else {
        None
    }
}

pub fn parse_iova_mode(s: &str) -> (r: Option<IovaMode>)
    ensures
        r == iova_mode_of(s@),
{
    let v = str_chars(s);
    if crate::text::chars_eq_str(&v, "gpa-identity") {
        Some(IovaMode::GpaIdentity)
    } else {
        None
    }
}

/// A PCI function address.
#[derive(Clone, Copy, Debug, PartialEq, Eq, Structural)]
pub struct PciBdf {
    pub domain: u16,
    pub bus: u8,
    pub device: u8,
    pub function: u8,
}

/// `s` cut at each `sep`: one piece more than there are separators.
pub open spec fn split_on(s: Seq<char>, sep: char) -> Seq<Seq<char>>
    decreases s.len(),
{
    if s.len() == 0 {
        seq![Seq::empty()]
    } else {
        let p = split_on(s.drop_last(), sep);
        if s.last() == sep {
            p.push(Seq::empty())
        } else {
            p.update(p.len() - 1, p.last().push(s.last()))
        }
    }
}

/// Splitting always yields at least one piece.
pub proof fn lemma_split_on_nonempty_pub(s: Seq<char>, sep: char)
    ensures
        split_on(s, sep).len() >= 1,
{
    lemma_split_on_nonempty(s, sep);
}

proof fn lemma_split_on_nonempty(s: Seq<char>, sep: char)
    ensures
        split_on(s, sep).len() >= 1,
    decreases s.len(),
{
    if s.len() > 0 {
        lemma_split_on_nonempty(s.drop_last(), sep);
    }
}

pub fn split_chars(s: &Vec<char>, sep: char) -> (r: Vec<Vec<char>>)
    ensures
        r@.len() == split_on(s@, sep).len(),
        forall|i: int| 0 <= i < r@.len() ==> #[trigger] r@[i]@ == split_on(s@, sep)[i],
{
    let mut parts: Vec<Vec<char>> = Vec::new();
    parts.push(Vec::new());
    let mut i: usize = 0;
    assert(s@.subrange(0, 0) =~= Seq::<char>::empty());
    while i < s.len()
        invariant
            i <= s.len(),
            parts@.len() == split_on(s@.subrange(0, i as int), sep).len(),
            parts@.len() >= 1,
            forall|k: int| 0 <= k < parts@.len() ==> #[trigger] parts@[k]@ == split_on(s@.subrange(0, i as int), sep)[k],
        decreases s.len() - i,
    {
        proof {
            assert(s@.subrange(0, i as int + 1).drop_last() =~= s@.subrange(0, i as int));
            lemma_split_on_nonempty(s@.subrange(0, i as int), sep);
        }
        let c = s[i];
        if c == sep {
            parts.push(Vec::new());
        } else {
            let last = parts.len() - 1;
            let mut cur = parts.remove(last);
            cur.push(c);
            parts.push(cur);
            proof {
                let p = split_on(s@.subrange(0, i as int), sep);
                assert forall|k: int| 0 <= k < parts@.len() implies #[trigger] parts@[k]@ == split_on(s@.subrange(0, i as int + 1), sep)[k] by {
                    if k == last as int {
                        assert(parts@[k]@ =~= p.last().push(c));
                    }
                }
            }
        }
        i = i + 1;
    }
    assert(s@.subrange(0, s@.len() as int) =~= s@);
    parts
}

/// A hexadecimal field no larger than `max`.
pub open spec fn hex_field(w: Seq<char>, max: nat) -> Option<nat> {
    match spec_parse_uint(w, 16, max) {
        Ok(v) => Some(v),
        Err(_) => None,
    }
}

/// `dd.f`: a device number up to `1f` and a function up to `7`.
pub open spec fn device_function(w: Seq<char>) -> Option<(u8, u8)> {
    let p = split_on(w, '.');
    if p.len() != 2 {
        None
    } else {
        match (hex_field(p[0], 0x1f), hex_field(p[1], 7)) {
            (Some(d), Some(f)) => Some((d as u8, f as u8)),
            _ => None,
        }
    }
}

/// `bb:dd.f` (domain 0) or `dddd:bb:dd.f`, in hexadecimal.
pub open spec fn pci_bdf_of(s: Seq<char>) -> Option<PciBdf> {
    let p = split_on(s, ':');
    if p.len() == 2 {
        match (hex_field(p[0], 0xff), device_function(p[1])) {
            (Some(b), Some((d, f))) => Some(PciBdf { domain: 0, bus: b as u8, device: d, function: f }),
            _ => None,
        }
    } else if p.len() == 3 {
        match (hex_field(p[0], 0xffff), hex_field(p[1], 0xff), device_function(p[2])) {
            (Some(dom), Some(b), Some((d, f))) => Some(PciBdf { domain: dom as u16, bus: b as u8, device: d, function: f }),
            _ => None,
        }
    } else {
        None
    }
}

fn hex_field_exec(w: &Vec<char>, max: u64) -> (r: Option<u64>)
    ensures
        match hex_field(w@, max as nat) {
            Some(v) => r == Some(v as u64) && v <= max,
            None => r is None,
        },
{
    proof {
        crate::text::lemma_parse_uint_bounded(w@, 16, max as nat);
    }
    match parse_uint(w, 16, max) {
        Ok(v) => Some(v),
        Err(_) => None,
    }
}

fn device_function_exec(w: &Vec<char>) -> (r: Option<(u8, u8)>)
    ensures
        r == device_function(w@),
{
    let p = split_chars(w, '.');
    if p.len() != 2 {
        return None;
    }
    match (hex_field_exec(&p[0], 0x1f), hex_field_exec(&p[1], 7)) {
        (Some(d), Some(f)) => Some((d as u8, f as u8)),
        _ => None,
    }
}

/// Parses a PCI address (see [`pci_bdf_of`]).
pub fn parse_pci_bdf(s: &str) -> (r: Option<PciBdf>)
    ensures
        r == pci_bdf_of(s@),
{
    let v = str_chars(s);
    let p = split_chars(&v, ':');
    if p.len() == 2 {
        match (hex_field_exec(&p[0], 0xff), device_function_exec(&p[1])) {
            (Some(b), Some((d, f))) => Some(PciBdf { domain: 0, bus: b as u8, device: d, function: f }),
            _ => None,
        }
    } else if p.len() == 3 {
        match (hex_field_exec(&p[0], 0xffff), hex_field_exec(&p[1], 0xff), device_function_exec(&p[2])) {
            (Some(dom), Some(b), Some((d, f))) => Some(PciBdf { domain: dom as u16, bus: b as u8, device: d, function: f }),
            _ => None,
        }
    } else {
        None
    }
}

} // verus!

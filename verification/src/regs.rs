//! x86_64 boot state of a microVM: the boot protocol, the boot GDT and the
//! segments it describes, the special registers and the identity page
//! tables, with the guest-memory writes that install them.
use vstd::prelude::*;
use crate::text::push_str;

verus! {

/// Supported boot protocols.
#[derive(Debug, Copy, Clone, PartialEq, Eq, Structural)]
pub enum BootProtocol {
    /// Linux 64-bit boot protocol.
    LinuxBoot,
    /// PVH boot protocol (x86/HVM direct boot ABI).
    PvhBoot,
}

pub open spec fn boot_protocol_text(p: BootProtocol) -> Seq<char> {
    match p {
        BootProtocol::LinuxBoot => "Linux 64-bit boot protocol"@,
        BootProtocol::PvhBoot => "PVH boot protocol"@,
    }
}

impl BootProtocol {
    /// The protocol's name as shown to users.
    pub fn description(&self) -> (r: &'static str)
        ensures
            r@ == boot_protocol_text(*self),
    {
        match self {
            BootProtocol::LinuxBoot => "Linux 64-bit boot protocol",
            BootProtocol::PvhBoot => "PVH boot protocol",
        }
    }
}

/// Errors while setting up x86_64 registers: which guest-memory write failed.
#[derive(Debug, Copy, Clone, PartialEq, Eq, Structural)]
pub enum RegsError {
    /// Writing the GDT to RAM failed.
    WriteGDT,
    /// Writing the IDT to RAM failed.
    WriteIDT,
    /// Writing the PDPTE address failed.
    WritePDPTEAddress,
    /// Writing a PDE failed.
    WritePDEAddress,
    /// Writing the PML4 address failed.
    WritePML4Address,
}

pub open spec fn regs_error_text(e: RegsError) -> Seq<char> {
    match e {
        RegsError::WriteGDT => "Writing the GDT to RAM failed."@,
        RegsError::WriteIDT => "Writing the IDT to RAM failed"@,
        RegsError::WritePDPTEAddress => "WritePDPTEAddress"@,
        RegsError::WritePDEAddress => "WritePDEAddress"@,
        RegsError::WritePML4Address => "WritePML4Address"@,
    }
}

impl RegsError {
    /// The error's message.
    pub fn message(&self) -> (r: &'static str)
        ensures
            r@ == regs_error_text(*self),
    {
        match self {
            RegsError::WriteGDT => "Writing the GDT to RAM failed.",
            RegsError::WriteIDT => "Writing the IDT to RAM failed",
            RegsError::WritePDPTEAddress => "WritePDPTEAddress",
            RegsError::WritePDEAddress => "WritePDEAddress",
            RegsError::WritePML4Address => "WritePML4Address",
        }
    }
}

/// Error of setting up the special registers: the step that failed and why.
#[derive(Debug, Copy, Clone, PartialEq, Eq, Structural)]
pub enum SetupSpecialRegistersError {
    /// Failed to configure segments and special registers.
    ConfigureSegmentsAndSpecialRegisters(RegsError),
    /// Failed to setup page tables.
    SetupPageTables(RegsError),
}

pub open spec fn setup_sregs_error_text(e: SetupSpecialRegistersError) -> Seq<char> {
    match e {
        SetupSpecialRegistersError::ConfigureSegmentsAndSpecialRegisters(r) =>
            "Failed to configure segments and special registers: "@ + regs_error_text(r),
        SetupSpecialRegistersError::SetupPageTables(r) => "Failed to setup page tables: "@ + regs_error_text(r),
    }
}

impl SetupSpecialRegistersError {
    /// The error's message.
    pub fn message(&self) -> (r: String)
        ensures
            r@ == setup_sregs_error_text(*self),
    {
        let (head, inner) = match self {
            SetupSpecialRegistersError::ConfigureSegmentsAndSpecialRegisters(r) =>
                ("Failed to configure segments and special registers: ", r),
            SetupSpecialRegistersError::SetupPageTables(r) => ("Failed to setup page tables: ", r),
        };
        let mut s = String::new();
        push_str(&mut s, head);
        push_str(&mut s, inner.message());
        s
    }
}

/// A GDT descriptor with the given access/flags bits, base and limit.
pub open spec fn spec_gdt_entry(flags: u16, base: u32, limit: u32) -> u64 {
    (((base as u64) & 0xff00_0000u64) << 32u64) | (((flags as u64) & 0x0000_f0ffu64) << 40u64) | (((limit as u64)
        & 0x000f_0000u64) << 32u64) | (((base as u64) & 0x00ff_ffffu64) << 16u64) | ((limit as u64) & 0x0000_ffffu64)
}

/// Builds a GDT descriptor from its access/flags bits, base and limit.
pub fn gdt_entry(flags: u16, base: u32, limit: u32) -> (r: u64)
    ensures
        r == spec_gdt_entry(flags, base, limit),
{
    (((base as u64) & 0xff00_0000u64) << 32u64) | (((flags as u64) & 0x0000_f0ffu64) << 40u64) | (((limit as u64)
        & 0x000f_0000u64) << 32u64) | (((base as u64) & 0x00ff_ffffu64) << 16u64) | ((limit as u64) & 0x0000_ffffu64)
}

/// A segment register as the hypervisor takes it.
#[derive(Debug, Copy, Clone, PartialEq, Eq, Structural, Default)]
pub struct Segment {
    pub base: u64,
    pub limit: u32,
    pub selector: u16,
    pub type_: u8,
    pub present: u8,
    pub dpl: u8,
    pub db: u8,
    pub s: u8,
    pub l: u8,
    pub g: u8,
    pub avl: u8,
    pub unusable: u8,
}

pub open spec fn desc_bit(entry: u64, at: u64) -> u8 {
    ((entry >> at) & 1) as u8
}

pub open spec fn desc_base(entry: u64) -> u64 {
    ((entry & 0xff00_0000_0000_0000u64) >> 32u64) | ((entry & 0x0000_00ff_0000_0000u64) >> 16u64) | ((entry
        & 0x0000_0000_ffff_0000u64) >> 16u64)
}

/// The limit field, scaled to bytes when the granularity bit is set.
pub open spec fn desc_limit(entry: u64) -> u32 {
    let raw = (((entry & 0x000f_0000_0000_0000u64) >> 32u64) | (entry & 0x0000_0000_0000_ffffu64)) as u32;
    if desc_bit(entry, 55) == 0 {
        raw
    } else {
        (raw << 12u32) | 0xfffu32
    }
}

/// The segment described by GDT entry `entry` at index `index`.
pub open spec fn spec_segment_from_gdt(entry: u64, index: u8) -> Segment {
    Segment {
        base: desc_base(entry),
        limit: desc_limit(entry),
        selector: (index as u16 * 8) as u16,
        type_: ((entry >> 40u64) & 0xf) as u8,
        present: desc_bit(entry, 47),
        dpl: ((entry >> 45u64) & 0x3) as u8,
        db: desc_bit(entry, 54),
        s: desc_bit(entry, 44),
        l: desc_bit(entry, 53),
        g: desc_bit(entry, 55),
        avl: desc_bit(entry, 52),
        unusable: if desc_bit(entry, 47) == 0 { 1 } else { 0 },
    }
}

/// The segment described by GDT entry `entry` at table index `index`.
pub fn segment_from_gdt(entry: u64, index: u8) -> (r: Segment)
    requires
        index < 32,
    ensures
        r == spec_segment_from_gdt(entry, index),
{
    let raw = (((entry & 0x000f_0000_0000_0000u64) >> 32u64) | (entry & 0x0000_0000_0000_ffffu64)) as u32;
    let g = ((entry >> 55u64) & 1) as u8;
    let limit = if g == 0 { raw } else { (raw << 12u32) | 0xfffu32 };
    let present = ((entry >> 47u64) & 1) as u8;
    Segment {
        base: ((entry & 0xff00_0000_0000_0000u64) >> 32u64) | ((entry & 0x0000_00ff_0000_0000u64) >> 16u64) | ((entry
            & 0x0000_0000_ffff_0000u64) >> 16u64),
        limit,
        selector: index as u16 * 8,
        type_: ((entry >> 40u64) & 0xf) as u8,
        present,
        dpl: ((entry >> 45u64) & 0x3) as u8,
        db: ((entry >> 54u64) & 1) as u8,
        s: ((entry >> 44u64) & 1) as u8,
        l: ((entry >> 53u64) & 1) as u8,
        g,
        avl: ((entry >> 52u64) & 1) as u8,
        unusable: if present == 0 { 1 } else { 0 },
    }
}

/// Decoding a descriptor built by [`gdt_entry`] gives back its base, the
/// low 20 bits of its limit (scaled by the granularity bit), and each
/// access/flags field.
pub proof fn lemma_gdt_entry_round_trip(flags: u16, base: u32, limit: u32)
    ensures
        ({
            let e = spec_gdt_entry(flags, base, limit);
            &&& desc_base(e) == base as u64
            &&& ((e >> 40u64) & 0xf) == (flags as u64) & 0xf
            &&& desc_bit(e, 44) as u64 == ((flags as u64) >> 4u64) & 1
            &&& ((e >> 45u64) & 0x3) == ((flags as u64) >> 5u64) & 0x3
            &&& desc_bit(e, 47) as u64 == ((flags as u64) >> 7u64) & 1
            &&& desc_bit(e, 52) as u64 == ((flags as u64) >> 12u64) & 1
            &&& desc_bit(e, 53) as u64 == ((flags as u64) >> 13u64) & 1
            &&& desc_bit(e, 54) as u64 == ((flags as u64) >> 14u64) & 1
            &&& desc_bit(e, 55) as u64 == ((flags as u64) >> 15u64) & 1
            &&& (((e & 0x000f_0000_0000_0000u64) >> 32u64) | (e & 0x0000_0000_0000_ffffu64)) == (limit as u64) & 0xfffff
        }),
{
    let e = spec_gdt_entry(flags, base, limit);
    assert(desc_base(e) == base as u64
        && ((e >> 40u64) & 0xf) == (flags as u64) & 0xf
        && ((e >> 44u64) & 1) == ((flags as u64) >> 4u64) & 1
        && ((e >> 45u64) & 0x3) == ((flags as u64) >> 5u64) & 0x3
        && ((e >> 47u64) & 1) == ((flags as u64) >> 7u64) & 1
        && ((e >> 52u64) & 1) == ((flags as u64) >> 12u64) & 1
        && ((e >> 53u64) & 1) == ((flags as u64) >> 13u64) & 1
        && ((e >> 54u64) & 1) == ((flags as u64) >> 14u64) & 1
        && ((e >> 55u64) & 1) == ((flags as u64) >> 15u64) & 1
        && (((e & 0x000f_0000_0000_0000u64) >> 32u64) | (e & 0x0000_0000_0000_ffffu64)) == (limit as u64) & 0xfffff)
        by (bit_vector)
        requires
            e == spec_gdt_entry(flags, base, limit),
    ;
    assert(((e >> 44u64) & 1) < 2 && ((e >> 47u64) & 1) < 2 && ((e >> 52u64) & 1) < 2 && ((e >> 53u64) & 1) < 2
        && ((e >> 54u64) & 1) < 2 && ((e >> 55u64) & 1) < 2) by (bit_vector);
}

/// Where the boot GDT is written in guest memory.
pub const BOOT_GDT_OFFSET: u64 = 0x500;
/// Where the boot IDT is written in guest memory.
pub const BOOT_IDT_OFFSET: u64 = 0x520;
/// The boot page-map level-4 table.
pub const PML4_START: u64 = 0x9000;
/// The boot page-directory-pointer table.
pub const PDPTE_START: u64 = 0xa000;
/// The boot page directory.
pub const PDE_START: u64 = 0xb000;

pub const EFER_LMA: u64 = 0x400;
pub const EFER_LME: u64 = 0x100;
pub const X86_CR0_PE: u64 = 0x1;
pub const X86_CR0_ET: u64 = 0x10;
pub const X86_CR0_PG: u64 = 0x8000_0000;
pub const X86_CR4_PAE: u64 = 0x20;

/// The special registers a vCPU boots with.
#[derive(Debug, Copy, Clone, PartialEq, Eq, Structural, Default)]
pub struct SpecialRegisters {
    pub cs: Segment,
    pub ds: Segment,
    pub es: Segment,
    pub fs: Segment,
    pub gs: Segment,
    pub ss: Segment,
    pub tr: Segment,
    pub gdt_base: u64,
    pub gdt_limit: u16,
    pub idt_base: u64,
    pub idt_limit: u16,
    pub cr0: u64,
    pub cr3: u64,
    pub cr4: u64,
    pub efer: u64,
}

/// A 64-bit value to write into guest memory, and the error to report if
/// the write fails.
#[derive(Debug, Copy, Clone, PartialEq, Eq, Structural)]
pub struct GuestWrite {
    pub addr: u64,
    pub value: u64,
    pub on_error: SetupSpecialRegistersError,
}

/// The boot GDT of a protocol: null, code, data and TSS descriptors.
pub open spec fn spec_boot_gdt(p: BootProtocol) -> Seq<u64> {
    match p {
        BootProtocol::PvhBoot => seq![
            spec_gdt_entry(0, 0, 0),
            spec_gdt_entry(0xc09b, 0, 0xffff_ffff),
            spec_gdt_entry(0xc093, 0, 0xffff_ffff),
            spec_gdt_entry(0x008b, 0, 0x67),
        ],
        BootProtocol::LinuxBoot => seq![
            spec_gdt_entry(0, 0, 0),
            spec_gdt_entry(0xa09b, 0, 0xfffff),
            spec_gdt_entry(0xc093, 0, 0xfffff),
            spec_gdt_entry(0x808b, 0, 0xfffff),
        ],
    }
}

/// The boot GDT of a protocol.
pub fn boot_gdt(p: BootProtocol) -> (r: Vec<u64>)
    ensures
        r@ == spec_boot_gdt(p),
{
    match p {
        BootProtocol::PvhBoot => vec![
            gdt_entry(0, 0, 0),
            gdt_entry(0xc09b, 0, 0xffff_ffff),
            gdt_entry(0xc093, 0, 0xffff_ffff),
            gdt_entry(0x008b, 0, 0x67),
        ],
        BootProtocol::LinuxBoot => vec![
            gdt_entry(0, 0, 0),
            gdt_entry(0xa09b, 0, 0xfffff),
            gdt_entry(0xc093, 0, 0xfffff),
            gdt_entry(0x808b, 0, 0xfffff),
        ],
    }
}

pub open spec fn segments_error(e: RegsError) -> SetupSpecialRegistersError {
    SetupSpecialRegistersError::ConfigureSegmentsAndSpecialRegisters(e)
}

pub open spec fn paging_error(e: RegsError) -> SetupSpecialRegistersError {
    SetupSpecialRegistersError::SetupPageTables(e)
}

/// The writes that install the GDT and the (empty) IDT.
pub open spec fn segment_writes(p: BootProtocol) -> Seq<GuestWrite> {
    Seq::new(
        4,
        |i: int| GuestWrite { addr: (BOOT_GDT_OFFSET + i * 8) as u64, value: spec_boot_gdt(p)[i], on_error: segments_error(RegsError::WriteGDT) },
    ).push(GuestWrite { addr: BOOT_IDT_OFFSET, value: 0, on_error: segments_error(RegsError::WriteIDT) })
}

/// The registers after the segment setup for protocol `p`, from `r`.
pub open spec fn segments_set(r: SpecialRegisters, p: BootProtocol) -> SpecialRegisters {
    let gdt = spec_boot_gdt(p);
    let data = spec_segment_from_gdt(gdt[2], 2);
    let base = SpecialRegisters {
        gdt_base: BOOT_GDT_OFFSET,
        gdt_limit: 31,
        idt_base: BOOT_IDT_OFFSET,
        idt_limit: 7,
        cs: spec_segment_from_gdt(gdt[1], 1),
        ds: data,
        es: data,
        fs: data,
        gs: data,
        ss: data,
        tr: spec_segment_from_gdt(gdt[3], 3),
        ..r
    };
    match p {
        BootProtocol::PvhBoot => SpecialRegisters { cr0: X86_CR0_PE | X86_CR0_ET, cr4: 0, ..base },
        BootProtocol::LinuxBoot => SpecialRegisters { cr0: r.cr0 | X86_CR0_PE, efer: r.efer | (EFER_LME | EFER_LMA), ..base },
    }
}

/// Sets up the segment registers and descriptor tables for protocol `p`,
/// and queues the writes that put the GDT and IDT in guest memory.
pub fn configure_segments_and_sregs(sregs: &mut SpecialRegisters, p: BootProtocol, writes: &mut Vec<GuestWrite>)
    ensures
        *final(sregs) == segments_set(*old(sregs), p),
        final(writes)@ == old(writes)@ + segment_writes(p),
{
    let gdt = boot_gdt(p);
    let code_seg = segment_from_gdt(gdt[1], 1);
    let data_seg = segment_from_gdt(gdt[2], 2);
    let tss_seg = segment_from_gdt(gdt[3], 3);
    let ghost start = writes@;
    let mut i: usize = 0;
    while i < 4
        invariant
            gdt@ == spec_boot_gdt(p),
            i <= 4,
            writes@ == start + Seq::new(
                i as nat,
                |k: int| GuestWrite { addr: (BOOT_GDT_OFFSET + k * 8) as u64, value: spec_boot_gdt(p)[k], on_error: segments_error(RegsError::WriteGDT) },
            ),
        decreases 4 - i,
    {
        writes.push(GuestWrite {
            addr: BOOT_GDT_OFFSET + (i as u64) * 8,
            value: gdt[i],
            on_error: SetupSpecialRegistersError::ConfigureSegmentsAndSpecialRegisters(RegsError::WriteGDT),
        });
        i = i + 1;
        proof {
            assert(writes@ =~= start + Seq::new(
                i as nat,
                |k: int| GuestWrite { addr: (BOOT_GDT_OFFSET + k * 8) as u64, value: spec_boot_gdt(p)[k], on_error: segments_error(RegsError::WriteGDT) },
            ));
        }
    }
    writes.push(GuestWrite {
        addr: BOOT_IDT_OFFSET,
        value: 0,
        on_error: SetupSpecialRegistersError::ConfigureSegmentsAndSpecialRegisters(RegsError::WriteIDT),
    });
    proof {
        assert(writes@ =~= start + segment_writes(p));
    }
    sregs.gdt_base = BOOT_GDT_OFFSET;
    sregs.gdt_limit = 31;
    sregs.idt_base = BOOT_IDT_OFFSET;
    sregs.idt_limit = 7;
    sregs.cs = code_seg;
    sregs.ds = data_seg;
    sregs.es = data_seg;
    sregs.fs = data_seg;
    sregs.gs = data_seg;
    sregs.ss = data_seg;
    sregs.tr = tss_seg;
    match p {
        BootProtocol::PvhBoot => {
            sregs.cr0 = X86_CR0_PE | X86_CR0_ET;
            sregs.cr4 = 0;
        },
        BootProtocol::LinuxBoot => {
            sregs.cr0 = sregs.cr0 | X86_CR0_PE;
            sregs.efer = sregs.efer | (EFER_LME | EFER_LMA);
        },
    }
}

/// The page-directory entry `i`: a present, writable 2 MiB page at
/// `i * 2 MiB`.
pub open spec fn pde_value(i: int) -> u64 {
    (i * 0x20_0000 + 0x83) as u64
}

/// The writes that install the identity page tables over the first GiB.
pub open spec fn page_table_writes() -> Seq<GuestWrite> {
    seq![
        GuestWrite { addr: PML4_START, value: PDPTE_START | 0x03, on_error: paging_error(RegsError::WritePML4Address) },
        GuestWrite { addr: PDPTE_START, value: PDE_START | 0x03, on_error: paging_error(RegsError::WritePDPTEAddress) },
    ] + Seq::new(512, |i: int| GuestWrite { addr: (PDE_START + i * 8) as u64, value: pde_value(i), on_error: paging_error(RegsError::WritePDEAddress) })
}

/// Sets up paging over identity page tables, and queues the writes that
/// put them in guest memory.
pub fn setup_page_tables(sregs: &mut SpecialRegisters, writes: &mut Vec<GuestWrite>)
    ensures
        *final(sregs) == (SpecialRegisters { cr3: PML4_START, cr4: old(sregs).cr4 | X86_CR4_PAE, cr0: old(sregs).cr0 | X86_CR0_PG, ..*old(sregs) }),
        final(writes)@ == old(writes)@ + page_table_writes(),
{
    let ghost start = writes@;
    writes.push(GuestWrite {
        addr: PML4_START,
        value: PDPTE_START | 0x03,
        on_error: SetupSpecialRegistersError::SetupPageTables(RegsError::WritePML4Address),
    });
    writes.push(GuestWrite {
        addr: PDPTE_START,
        value: PDE_START | 0x03,
        on_error: SetupSpecialRegistersError::SetupPageTables(RegsError::WritePDPTEAddress),
    });
    let ghost head = writes@;
    let mut i: u64 = 0;
    while i < 512
        invariant
            i <= 512,
            writes@ == head + Seq::new(i as nat, |k: int| GuestWrite { addr: (PDE_START + k * 8) as u64, value: pde_value(k), on_error: paging_error(RegsError::WritePDEAddress) }),
        decreases 512 - i,
    {
        assert((i << 21u64) == i * 0x20_0000) by (bit_vector)
            requires
                i < 512,
        ;
        writes.push(GuestWrite {
            addr: PDE_START + i * 8,
            value: (i << 21u64) + 0x83,
            on_error: SetupSpecialRegistersError::SetupPageTables(RegsError::WritePDEAddress),
        });
        i = i + 1;
        proof {
            assert(writes@ =~= head + Seq::new(i as nat, |k: int| GuestWrite { addr: (PDE_START + k * 8) as u64, value: pde_value(k), on_error: paging_error(RegsError::WritePDEAddress) }));
        }
    }
    proof {
        assert(writes@ =~= start + page_table_writes());
    }
    sregs.cr3 = PML4_START;
    sregs.cr4 = sregs.cr4 | X86_CR4_PAE;
    sregs.cr0 = sregs.cr0 | X86_CR0_PG;
}

/// The special registers a vCPU boots with under protocol `p`.
pub open spec fn boot_sregs(p: BootProtocol) -> SpecialRegisters {
    let s = segments_set(SpecialRegisters::default_spec(), p);
    match p {
        BootProtocol::LinuxBoot => SpecialRegisters { cr3: PML4_START, cr4: s.cr4 | X86_CR4_PAE, cr0: s.cr0 | X86_CR0_PG, ..s },
        BootProtocol::PvhBoot => s,
    }
}

/// The guest-memory writes for booting under protocol `p`, in order.
pub open spec fn boot_writes(p: BootProtocol) -> Seq<GuestWrite> {
    match p {
        BootProtocol::LinuxBoot => segment_writes(p) + page_table_writes(),
        BootProtocol::PvhBoot => segment_writes(p),
    }
}

impl SpecialRegisters {
    pub open spec fn default_spec() -> SpecialRegisters {
        SpecialRegisters {
            cs: Segment::zero(),
            ds: Segment::zero(),
            es: Segment::zero(),
            fs: Segment::zero(),
            gs: Segment::zero(),
            ss: Segment::zero(),
            tr: Segment::zero(),
            gdt_base: 0,
            gdt_limit: 0,
            idt_base: 0,
            idt_limit: 0,
            cr0: 0,
            cr3: 0,
            cr4: 0,
            efer: 0,
        }
    }

    /// All registers zero.
    pub fn zeroed() -> (r: SpecialRegisters)
        ensures
            r == SpecialRegisters::default_spec(),
    {
        SpecialRegisters {
            cs: Segment::zeroed(),
            ds: Segment::zeroed(),
            es: Segment::zeroed(),
            fs: Segment::zeroed(),
            gs: Segment::zeroed(),
            ss: Segment::zeroed(),
            tr: Segment::zeroed(),
            gdt_base: 0,
            gdt_limit: 0,
            idt_base: 0,
            idt_limit: 0,
            cr0: 0,
            cr3: 0,
            cr4: 0,
            efer: 0,
        }
    }
}

impl Segment {
    pub open spec fn zero() -> Segment {
        Segment { base: 0, limit: 0, selector: 0, type_: 0, present: 0, dpl: 0, db: 0, s: 0, l: 0, g: 0, avl: 0, unusable: 0 }
    }

    /// A segment with every field zero.
    pub fn zeroed() -> (r: Segment)
        ensures
            r == Segment::zero(),
    {
        Segment { base: 0, limit: 0, selector: 0, type_: 0, present: 0, dpl: 0, db: 0, s: 0, l: 0, g: 0, avl: 0, unusable: 0 }
    }
}

/// The special registers and guest-memory writes that prepare a vCPU to
/// boot under protocol `p`: segments and descriptor tables, and for the
/// Linux 64-bit protocol also identity paging. The caller performs the
/// writes in order and stops at the first that fails, with its error.
pub fn setup_sregs(p: BootProtocol) -> (r: (SpecialRegisters, Vec<GuestWrite>))
    ensures
        r.0 == boot_sregs(p),
        r.1@ == boot_writes(p),
{
    let mut sregs = SpecialRegisters::zeroed();
    let mut writes: Vec<GuestWrite> = Vec::new();
    configure_segments_and_sregs(&mut sregs, p, &mut writes);
    if p == BootProtocol::LinuxBoot {
        setup_page_tables(&mut sregs, &mut writes);
    }
    proof {
        assert(writes@ =~= boot_writes(p));
    }
    (sregs, writes)
}

/// The boot page tables map the first GiB one to one: page-directory entry
/// `i` sits at `PDE_START + 8 i` and maps the 2 MiB page at `i * 2 MiB`
/// (present, writable, huge), and the upper tables chain PML4 to PDPTE to
/// the page directory.
pub proof fn lemma_boot_paging_identity(i: int)
    requires
        0 <= i < 512,
    ensures
        boot_writes(BootProtocol::LinuxBoot)[5 + 2 + i].addr == PDE_START + 8 * i,
        boot_writes(BootProtocol::LinuxBoot)[5 + 2 + i].value == i * 0x20_0000 + 0x83,
        boot_writes(BootProtocol::LinuxBoot)[5].addr == PML4_START,
        boot_writes(BootProtocol::LinuxBoot)[6].addr == PDPTE_START,
        boot_sregs(BootProtocol::LinuxBoot).cr3 == PML4_START,
{
    assert(segment_writes(BootProtocol::LinuxBoot).len() == 5);
}

} // verus!

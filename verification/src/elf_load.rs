//! Loading the junction's ELF images into the daemon: which pages each
//! loadable segment occupies, with what protection, what is copied into
//! them, where the interpreter path lies, and the argument vector the
//! junction starts with. The ELF headers are read with `goblin`.
use vstd::prelude::*;

verus! {

/// A program header of an ELF image.
#[derive(Debug, Clone, Copy, PartialEq, Eq, Structural)]
pub struct ElfSegment {
    pub p_type: u32,
    pub p_flags: u32,
    pub p_offset: u64,
    pub p_vaddr: u64,
    pub p_filesz: u64,
    pub p_memsz: u64,
}

/// The parts of an ELF image that loading reads.
#[derive(Debug, Clone)]
pub struct ElfImage {
    pub e_type: u16,
    pub entry: u64,
    pub phoff: u64,
    pub phentsize: u16,
    pub phnum: u16,
    pub segments: Vec<ElfSegment>,
}

/// An [`ElfImage`] as a mathematical value.
pub struct ElfImageView {
    pub e_type: u16,
    pub entry: u64,
    pub phoff: u64,
    pub phentsize: u16,
    pub phnum: u16,
    pub segments: Seq<ElfSegment>,
}

impl View for ElfImage {
    type V = ElfImageView;

    open spec fn view(&self) -> ElfImageView {
        ElfImageView {
            e_type: self.e_type,
            entry: self.entry,
            phoff: self.phoff,
            phentsize: self.phentsize,
            phnum: self.phnum,
            segments: self.segments@,
        }
    }
}

/// What `goblin` reads from the bytes of an ELF file: the headers, or
/// nothing when the bytes are not an ELF image it can parse.
pub uninterp spec fn goblin_elf(bytes: Seq<u8>) -> Option<ElfImageView>;

/// `goblin::elf::Elf::parse`, keeping the file header fields and program
/// headers that loading reads; `None` when it reports an error.
#[verifier::external_body]
fn parse_elf(bytes: &[u8]) -> (r: Option<ElfImage>)
    ensures
        match r {
            Some(img) => goblin_elf(bytes@) == Some(img@),
            None => goblin_elf(bytes@) is None,
        },
{
    match goblin::elf::Elf::parse(bytes) {
        Ok(elf) => Some(ElfImage {
            e_type: elf.header.e_type,
            entry: elf.entry,
            phoff: elf.header.e_phoff,
            phentsize: elf.header.e_phentsize,
            phnum: elf.header.e_phnum,
            segments: elf.program_headers.iter().map(|ph| ElfSegment { p_type: ph.p_type, p_flags: ph.p_flags,
                p_offset: ph.p_offset, p_vaddr: ph.p_vaddr, p_filesz: ph.p_filesz, p_memsz: ph.p_memsz }).collect(),
        }),
        Err(_) => None,
    }
}

/// ELF file type of a position-independent image.
pub const ET_DYN: u16 = 3;
/// Program header type of a loadable segment.
pub const PT_LOAD: u32 = 1;
/// Program header type of the interpreter path.
pub const PT_INTERP: u32 = 3;
/// Segment flag bits.
pub const PF_X: u32 = 1;
pub const PF_W: u32 = 2;
pub const PF_R: u32 = 4;
/// Page protection bits.
pub const PROT_READ: i32 = 1;
pub const PROT_WRITE: i32 = 2;
pub const PROT_EXEC: i32 = 4;

/// The page protection for segment flags: read, write and execute as the
/// flags say.
pub open spec fn spec_segment_prot(flags: u32) -> i32 {
    ((if flags & PF_R != 0 { PROT_READ } else { 0 }) + (if flags & PF_W != 0 { PROT_WRITE } else { 0 }) + (if flags
        & PF_X != 0 { PROT_EXEC } else { 0 })) as i32
}

/// The page protection a segment is mapped with.
pub fn segment_prot(flags: u32) -> (r: i32)
    ensures
        r == spec_segment_prot(flags),
        0 <= r <= 7,
{
    let mut p: i32 = 0;
    if flags & PF_R != 0 {
        p = p + PROT_READ;
    }
    if flags & PF_W != 0 {
        p = p + PROT_WRITE;
    }
    if flags & PF_X != 0 {
        p = p + PROT_EXEC;
    }
    p
}

/// `x` rounded down to a 4 KiB boundary.
pub open spec fn page_floor(x: int) -> int {
    x - x % 0x1000
}

/// `x` rounded up to a 4 KiB boundary.
pub open spec fn page_ceil(x: int) -> int {
    if x % 0x1000 == 0 { x } else { x - x % 0x1000 + 0x1000 }
}

proof fn lemma_page_masks(x: u64)
    requires
        x <= u64::MAX - 0xfff,
    ensures
        x & !0xfffu64 == page_floor(x as int),
        (x + 0xfff) as u64 & !0xfffu64 == page_ceil(x as int),
{
    assert(x & !0xfffu64 == x - x % 0x1000) by (bit_vector);
    assert(((x + 0xfff) as u64 & !0xfffu64) == (if x % 0x1000 == 0 { x } else { (x - x % 0x1000 + 0x1000) as u64 }))
        by (bit_vector)
        requires
            x <= u64::MAX - 0xfff,
    ;
}

/// One loadable segment placed in memory: map `size` bytes of fresh
/// memory at page-aligned `addr` with protection `prot`, and copy `len`
/// bytes of the file from `file_offset` to `dest`.
#[derive(Debug, Clone, Copy, PartialEq, Eq, Structural)]
pub struct SegmentMap {
    pub addr: u64,
    pub size: u64,
    pub prot: i32,
    pub dest: u64,
    pub file_offset: u64,
    pub len: u64,
}

/// The placement of segment `ph` of an image loaded at `base`.
pub open spec fn segment_map(base: u64, ph: ElfSegment) -> SegmentMap {
    let vaddr = base + ph.p_vaddr;
    SegmentMap {
        addr: page_floor(vaddr) as u64,
        size: (page_ceil(vaddr + ph.p_memsz) - page_floor(vaddr)) as u64,
        prot: spec_segment_prot(ph.p_flags),
        dest: vaddr as u64,
        file_offset: ph.p_offset,
        len: ph.p_filesz,
    }
}

/// Whether segment `ph` of a file of `file_len` bytes can be placed at
/// `base`: its addresses stay below the top of the address space and its
/// file bytes lie within the file.
pub open spec fn segment_fits(base: u64, ph: ElfSegment, file_len: nat) -> bool {
    &&& base + ph.p_vaddr + ph.p_memsz + 0xfff <= u64::MAX
    &&& ph.p_filesz <= ph.p_memsz
    &&& ph.p_offset + ph.p_filesz <= file_len
}

/// Places one segment of an image loaded at `base` (see [`segment_map`]).
pub fn place_segment(base: u64, ph: &ElfSegment) -> (r: SegmentMap)
    requires
        base + ph.p_vaddr + ph.p_memsz + 0xfff <= u64::MAX,
    ensures
        r == segment_map(base, *ph),
{
    let vaddr = base + ph.p_vaddr;
    let end = vaddr + ph.p_memsz;
    proof {
        lemma_page_masks(vaddr);
        lemma_page_masks(end);
    }
    let aligned = vaddr & !0xfffu64;
    let end_aligned = (end + 0xfff) & !0xfffu64;
    SegmentMap {
        addr: aligned,
        size: end_aligned - aligned,
        prot: segment_prot(ph.p_flags),
        dest: vaddr,
        file_offset: ph.p_offset,
        len: ph.p_filesz,
    }
}

/// A page-aligned placement covers the whole segment: it starts at or
/// below the segment and ends at or above its end, within a page of each.
pub proof fn lemma_segment_map_covers(base: u64, ph: ElfSegment)
    requires
        base + ph.p_vaddr + ph.p_memsz + 0xfff <= u64::MAX,
    ensures
        ({
            let m = segment_map(base, ph);
            &&& m.addr % 0x1000 == 0
            &&& m.size % 0x1000 == 0
            &&& m.addr <= m.dest < m.addr + 0x1000
            &&& m.dest + ph.p_memsz <= m.addr + m.size < m.dest + ph.p_memsz + 0x1000
        }),
{
}

/// The base an image is loaded at: the given base for a
/// position-independent image, and zero otherwise.
pub open spec fn load_base(img: ElfImageView, base: u64) -> u64 {
    if img.e_type == ET_DYN { base } else { 0 }
}

/// The loadable segments of an image, in order.
pub open spec fn loadable(segs: Seq<ElfSegment>) -> Seq<ElfSegment> {
    segs.filter(is_loadable())
}

pub open spec fn is_loadable() -> spec_fn(ElfSegment) -> bool {
    |ph: ElfSegment| ph.p_type == PT_LOAD
}

/// How to load an image: its base, the placement of each loadable segment
/// in order, and where the interpreter path lies in the file (offset and
/// length, without its terminating NUL).
#[derive(Debug, Clone)]
pub struct LoadPlan {
    pub base: u64,
    pub maps: Vec<SegmentMap>,
    pub interp: Option<(u64, u64)>,
}

/// The first interpreter segment, if any.
pub open spec fn first_interp(segs: Seq<ElfSegment>) -> Option<ElfSegment> {
    if exists|i: int| 0 <= i < segs.len() && (#[trigger] segs[i]).p_type == PT_INTERP {
        let i = choose|i: int|
            0 <= i < segs.len() && segs[i].p_type == PT_INTERP && forall|j: int|
                0 <= j < i ==> (#[trigger] segs[j]).p_type != PT_INTERP;
        Some(segs[i])
    } else {
        None
    }
}

proof fn lemma_first_interp(segs: Seq<ElfSegment>, i: int)
    requires
        0 <= i < segs.len(),
        segs[i].p_type == PT_INTERP,
        forall|j: int| 0 <= j < i ==> (#[trigger] segs[j]).p_type != PT_INTERP,
    ensures
        first_interp(segs) == Some(segs[i]),
{
    let k = choose|k: int|
        0 <= k < segs.len() && segs[k].p_type == PT_INTERP && forall|j: int|
            0 <= j < k ==> (#[trigger] segs[j]).p_type != PT_INTERP;
    assert(0 <= k < segs.len() && segs[k].p_type == PT_INTERP);
    if k < i {
        assert(segs[k].p_type != PT_INTERP);
    }
    if i < k {
        assert(segs[i].p_type != PT_INTERP);
    }
}

proof fn lemma_loadable_prefix(segs: Seq<ElfSegment>, n: int)
    requires
        0 <= n <= segs.len(),
    ensures
        loadable(segs.subrange(0, n)).len() <= loadable(segs).len(),
        forall|k: int| 0 <= k < loadable(segs.subrange(0, n)).len() ==> #[trigger] loadable(segs.subrange(0, n))[k]
            == loadable(segs)[k],
    decreases segs.len() - n,
{
    if n < segs.len() {
        lemma_loadable_prefix(segs, n + 1);
        let before = segs.subrange(0, n);
        assert(segs.subrange(0, n + 1) =~= before.push(segs[n]));
        before.lemma_filter_push(segs[n], is_loadable());
        assert forall|k: int| 0 <= k < loadable(before).len() implies #[trigger] loadable(before)[k] == loadable(segs)[k] by {
            assert(loadable(before)[k] == loadable(segs.subrange(0, n + 1))[k]);
        }
    } else {
        assert(segs.subrange(0, n) =~= segs);
    }
}

/// Whether image `img`, read from a file of `file_len` bytes, can be
/// loaded at `base`: every loadable segment fits (see [`segment_fits`])
/// and the interpreter path, if any, lies within the file.
pub open spec fn plan_admissible(img: ElfImageView, file_len: nat, base: u64) -> bool {
    &&& forall|i: int| 0 <= i < loadable(img.segments).len() ==> segment_fits(
        load_base(img, base),
        #[trigger] loadable(img.segments)[i],
        file_len,
    )
    &&& first_interp(img.segments) matches Some(ph) ==> ph.p_filesz >= 1 && ph.p_offset + ph.p_filesz <= file_len
}

/// Whether `plan` loads `img` at `base`: the load base, the mapping of each
/// loadable segment in order, and where the interpreter path is (without
/// its terminating zero byte).
pub open spec fn plan_describes(plan: LoadPlan, img: ElfImageView, base: u64) -> bool {
    &&& plan.base == load_base(img, base)
    &&& plan.maps@ == loadable(img.segments).map_values(|ph: ElfSegment| segment_map(plan.base, ph))
    &&& plan.interp == match first_interp(img.segments) {
        Some(ph) => Some((ph.p_offset, (ph.p_filesz - 1) as u64)),
        None => None,
    }
}

/// Plans the loading of image `img`, read from a file of `file_len` bytes,
/// at `base`. Refused, naming the problem, when a loadable segment does
/// not fit (see [`segment_fits`]) or the interpreter path lies outside the
/// file.
pub fn plan_elf_load(img: &ElfImage, file_len: usize, base: u64) -> (r: Result<LoadPlan, String>)
    ensures
        r is Ok <==> plan_admissible(img@, file_len as nat, base),
        r matches Ok(plan) ==> plan_describes(plan, img@, base),
{
    let b = if img.e_type == ET_DYN { base } else { 0 };
    let ghost segs = img@.segments;
    let mut maps: Vec<SegmentMap> = Vec::new();
    let mut i: usize = 0;
    let mut interp: Option<(u64, u64)> = None;
    let mut seen_interp = false;
    proof {
        reveal(Seq::filter);
        assert(loadable(segs.subrange(0, 0)) =~= Seq::<ElfSegment>::empty());
    }
    while i < img.segments.len()
        invariant
            segs == img@.segments,
            b == load_base(img@, base),
            i <= segs.len(),
            maps@ == loadable(segs.subrange(0, i as int)).map_values(|ph: ElfSegment| segment_map(b, ph)),
            forall|k: int| 0 <= k < maps@.len() ==> segment_fits(b, #[trigger] loadable(segs.subrange(0, i as int))[k], file_len as nat),
            seen_interp <==> exists|j: int| 0 <= j < i && (#[trigger] segs[j]).p_type == PT_INTERP,
            !seen_interp ==> interp is None,
            seen_interp ==> first_interp(segs) is Some && interp == Some(
                (first_interp(segs)->Some_0.p_offset, (first_interp(segs)->Some_0.p_filesz - 1) as u64),
            ) && first_interp(segs)->Some_0.p_filesz >= 1 && first_interp(segs)->Some_0.p_offset
                + first_interp(segs)->Some_0.p_filesz <= file_len,
        decreases segs.len() - i,
    {
        let ph = img.segments[i];
        let ghost before = segs.subrange(0, i as int);
        proof {
            assert(segs.subrange(0, i as int + 1) =~= before.push(ph));
            before.lemma_filter_push(ph, is_loadable());
        }
        if ph.p_type == PT_LOAD {
            proof {
                lemma_loadable_prefix(segs, i as int + 1);
                assert(loadable(segs.subrange(0, i as int + 1))[maps@.len() as int] == ph);
            }
            if b > u64::MAX - 0xfff || ph.p_vaddr > u64::MAX - 0xfff - b || ph.p_memsz > u64::MAX - 0xfff - b - ph.p_vaddr {
                return Err(crate::command::str_string("ELF segment does not fit in the address space"));
            }
            if ph.p_filesz > ph.p_memsz || ph.p_offset > file_len as u64 || ph.p_filesz > file_len as u64 - ph.p_offset {
                return Err(crate::command::str_string("ELF segment lies outside the file"));
            }
            let m = place_segment(b, &ph);
            maps.push(m);
        }
        if ph.p_type == PT_INTERP && !seen_interp {
            proof {
                lemma_first_interp(segs, i as int);
            }
            if ph.p_filesz < 1 || ph.p_offset > file_len as u64 || ph.p_filesz > file_len as u64 - ph.p_offset {
                return Err(crate::command::str_string("ELF interpreter path lies outside the file"));
            }
            interp = Some((ph.p_offset, ph.p_filesz - 1));
            seen_interp = true;
        }
        i = i + 1;
        proof {
            assert(maps@ =~= loadable(segs.subrange(0, i as int)).map_values(|ph: ElfSegment| segment_map(b, ph)));
        }
    }
    proof {
        assert(segs.subrange(0, segs.len() as int) =~= segs);
        if !seen_interp {
            assert(first_interp(segs) is None);
        }
    }
    let plan = LoadPlan { base: b, maps, interp };
    assert(plan.base == load_base(img@, base));
    assert(plan.maps@ == loadable(img@.segments).map_values(|ph: ElfSegment| segment_map(plan.base, ph)));
    assert(plan.interp == match first_interp(img@.segments) {
        Some(ph) => Some((ph.p_offset, (ph.p_filesz - 1) as u64)),
        None => None,
    });
    Ok(plan)
}

/// Reads the headers of the ELF file `bytes` with `goblin` and plans its
/// loading at `base` (see [`plan_elf_load`]); the image is returned with
/// the plan. Refused when `goblin` cannot parse the bytes.
pub fn load_elf_file(bytes: &[u8], base: u64) -> (r: Result<(ElfImage, LoadPlan), String>)
    ensures
        goblin_elf(bytes@) is None ==> r is Err && r->Err_0@ == "Failed to parse ELF"@,
        goblin_elf(bytes@) matches Some(v) ==> match r {
            Ok((img, plan)) => img@ == v && plan_admissible(v, bytes@.len(), base) && plan_describes(plan, v, base),
            Err(_) => !plan_admissible(v, bytes@.len(), base),
        },
{
    match parse_elf(bytes) {
        None => Err(String::from_str("Failed to parse ELF")),
        Some(img) => match plan_elf_load(&img, bytes.len(), base) {
            Ok(plan) => Ok((img, plan)),
            Err(e) => Err(e),
        },
    }
}

/// Splits command-line arguments at the first `--`: the junction's
/// arguments before it and the application's after it (none when there
/// is no `--`).
pub open spec fn spec_split_args(args: Seq<Seq<char>>) -> (Seq<Seq<char>>, Seq<Seq<char>>) {
    if has_separator(args) {
        let p = first_separator(args);
        (args.subrange(0, p), args.subrange(p + 1, args.len() as int))
    } else {
        (args, Seq::empty())
    }
}

pub open spec fn has_separator(args: Seq<Seq<char>>) -> bool {
    exists|i: int| 0 <= i < args.len() && #[trigger] args[i] == "--"@
}

/// The position of the first `--`.
pub open spec fn first_separator(args: Seq<Seq<char>>) -> int {
    choose|i: int| 0 <= i < args.len() && args[i] == "--"@ && forall|j: int| 0 <= j < i ==> #[trigger] args[j] != "--"@
}

proof fn lemma_first_separator(args: Seq<Seq<char>>, i: int)
    requires
        0 <= i < args.len(),
        args[i] == "--"@,
        forall|j: int| 0 <= j < i ==> #[trigger] args[j] != "--"@,
    ensures
        has_separator(args),
        first_separator(args) == i,
{
    assert(args[i] == "--"@);
    let k = first_separator(args);
    assert(0 <= k < args.len() && args[k] == "--"@);
    if k < i {
        assert(args[k] != "--"@);
    }
    if i < k {
        assert(args[i] != "--"@);
    }
}

/// The views of a list of strings.
pub open spec fn string_views(v: Seq<String>) -> Seq<Seq<char>> {
    v.map_values(|s: String| s@)
}

fn is_separator(s: &String) -> (r: bool)
    ensures
        r == (s@ == "--"@),
{
    let sep = crate::command::str_string("--");
    proof {
        reveal_strlit("--");
    }
    let c = crate::text::str_chars(s.as_str());
    if c.len() != 2 {
        assert(s@.len() != 2);
        return false;
    }
    let r = c[0] == '-' && c[1] == '-';
    assert(r == (s@ =~= sep@));
    r
}

proof fn lemma_views_push(v: Seq<String>, x: String)
    ensures
        string_views(v.push(x)) == string_views(v).push(x@),
{
    assert(string_views(v.push(x)) =~= string_views(v).push(x@));
}

fn clone_string(s: &String) -> (r: String)
    ensures
        r@ == s@,
{
    s.clone()
}

/// Splits the junction command line (see [`spec_split_args`]).
pub fn split_args(junction_args: &Vec<String>) -> (r: (Vec<String>, Vec<String>))
    ensures
        (string_views(r.0@), string_views(r.1@)) == spec_split_args(string_views(junction_args@)),
{
    let ghost args = string_views(junction_args@);
    let mut i: usize = 0;
    while i < junction_args.len()
        invariant
            args == string_views(junction_args@),
            i <= junction_args@.len(),
            forall|j: int| 0 <= j < i ==> args[j] != "--"@,
        decreases junction_args@.len() - i,
    {
        if is_separator(&junction_args[i]) {
            let mut junc: Vec<String> = Vec::new();
            let mut app: Vec<String> = Vec::new();
            let mut k: usize = 0;
            while k < junction_args.len()
                invariant
                    args == string_views(junction_args@),
                    i < junction_args@.len(),
                    k <= junction_args@.len(),
                    string_views(junc@) == args.subrange(0, if k < i { k as int } else { i as int }),
                    string_views(app@) == args.subrange(i as int + 1, if k > i + 1 { k as int } else { i as int + 1 }),
                decreases junction_args@.len() - k,
            {
                if k < i {
                    let c = clone_string(&junction_args[k]);
                    proof {
                        lemma_views_push(junc@, c);
                    }
                    junc.push(c);
                } else if k > i {
                    let c = clone_string(&junction_args[k]);
                    proof {
                        lemma_views_push(app@, c);
                    }
                    app.push(c);
                }
                k = k + 1;
                proof {
                    assert(string_views(junc@) =~= args.subrange(0, if k < i { k as int } else { i as int }));
                    assert(string_views(app@) =~= args.subrange(i as int + 1, if k > i + 1 { k as int } else { i as int + 1 }));
                }
            }
            proof {
                lemma_first_separator(args, i as int);
            }
            return (junc, app);
        }
        i = i + 1;
    }
    let mut all: Vec<String> = Vec::new();
    let mut k: usize = 0;
    while k < junction_args.len()
        invariant
            args == string_views(junction_args@),
            k <= junction_args@.len(),
            string_views(all@) == args.subrange(0, k as int),
        decreases junction_args@.len() - k,
    {
        let c = clone_string(&junction_args[k]);
        proof {
            lemma_views_push(all@, c);
        }
        all.push(c);
        k = k + 1;
        proof {
            assert(string_views(all@) =~= args.subrange(0, k as int));
        }
    }
    proof {
        assert(args.subrange(0, args.len() as int) =~= args);
        assert(!has_separator(args));
    }
    (all, Vec::new())
}

/// The argument vector the junction starts with: its own arguments, then,
/// when there are application arguments, `--` and those.
pub open spec fn spec_junction_argv(junc: Seq<Seq<char>>, app: Seq<Seq<char>>) -> Seq<Seq<char>> {
    if app.len() == 0 { junc } else { junc + seq!["--"@] + app }
}

/// Builds the junction's argument vector (see [`spec_junction_argv`]).
pub fn junction_argv(junc_args: &Vec<String>, app_args: &Vec<String>) -> (r: Vec<String>)
    ensures
        string_views(r@) == spec_junction_argv(string_views(junc_args@), string_views(app_args@)),
{
    let mut v: Vec<String> = Vec::new();
    let mut k: usize = 0;
    while k < junc_args.len()
        invariant
            k <= junc_args@.len(),
            string_views(v@) == string_views(junc_args@).subrange(0, k as int),
        decreases junc_args@.len() - k,
    {
        let c = clone_string(&junc_args[k]);
        proof {
            lemma_views_push(v@, c);
        }
        v.push(c);
        k = k + 1;
        proof {
            assert(string_views(v@) =~= string_views(junc_args@).subrange(0, k as int));
        }
    }
    proof {
        assert(string_views(junc_args@).subrange(0, junc_args@.len() as int) =~= string_views(junc_args@));
    }
    if app_args.len() == 0 {
        return v;
    }
    let dd = crate::command::str_string("--");
    proof {
        lemma_views_push(v@, dd);
    }
    v.push(dd);
    let ghost head = string_views(v@);
    let mut k: usize = 0;
    while k < app_args.len()
        invariant
            k <= app_args@.len(),
            string_views(v@) == head + string_views(app_args@).subrange(0, k as int),
        decreases app_args@.len() - k,
    {
        let c = clone_string(&app_args[k]);
        proof {
            lemma_views_push(v@, c);
        }
        v.push(c);
        k = k + 1;
        proof {
            assert(string_views(v@) =~= head + string_views(app_args@).subrange(0, k as int));
        }
    }
    proof {
        assert(string_views(app_args@).subrange(0, app_args@.len() as int) =~= string_views(app_args@));
        assert(string_views(v@) =~= spec_junction_argv(string_views(junc_args@), string_views(app_args@)));
    }
    v
}

proof fn lemma_separator_has_first(args: Seq<Seq<char>>, w: int)
    requires
        0 <= w < args.len(),
        args[w] == "--"@,
    ensures
        exists|i: int| 0 <= i < args.len() && args[i] == "--"@ && forall|j: int| 0 <= j < i ==> #[trigger] args[j] != "--"@,
    decreases w,
{
    if exists|j: int| 0 <= j < w && #[trigger] args[j] == "--"@ {
        let j = choose|j: int| 0 <= j < w && #[trigger] args[j] == "--"@;
        lemma_separator_has_first(args, j);
    } else {
        assert(forall|j: int| 0 <= j < w ==> #[trigger] args[j] != "--"@);
    }
}

/// Splitting a command line and joining the parts back gives the command
/// line again, unless its first `--` is its last argument (the joined line
/// then leaves that `--` out).
pub proof fn lemma_split_join(args: Seq<Seq<char>>)
    requires
        has_separator(args) ==> first_separator(args) < args.len() - 1,
    ensures
        spec_junction_argv(spec_split_args(args).0, spec_split_args(args).1) == args,
{
    if has_separator(args) {
        let p = first_separator(args);
        let w = choose|i: int| 0 <= i < args.len() && #[trigger] args[i] == "--"@;
        assert(0 <= w < args.len() && args[w] == "--"@);
        lemma_separator_has_first(args, w);
        assert(0 <= p < args.len() && args[p] == "--"@);
        assert(args.subrange(0, p) + seq!["--"@] + args.subrange(p + 1, args.len() as int) =~= args);
    }
}

/// One entry of the auxiliary vector handed to the program.
#[derive(Debug, Clone, Copy, PartialEq, Eq)]
pub enum AuxEntry {
    PageSize(u64),
    Phdr(u64),
    PhEnt(u64),
    PhNum(u64),
    Entry(u64),
    /// Flags: argv[0] is not preserved.
    NotPreserveArgv0,
    /// The 16 bytes the program may use as a random seed.
    Random([u8; 16]),
    /// Where the interpreter is loaded.
    Base(u64),
}

/// The program's entry point and program headers in memory: relative to
/// its load base when it is position independent.
pub open spec fn entry_and_phdr(elf_base: Option<u64>, entry: u64, phoff: u64) -> (int, int) {
    match elf_base {
        Some(b) => (b + entry, b + phoff),
        None => (entry as int, phoff as int),
    }
}

/// The seed bytes handed to the program: each byte its own index.
pub open spec fn seed_bytes() -> Seq<u8> {
    Seq::new(16, |i: int| i as u8)
}

/// The leading entries of the auxiliary vector of a junction image loaded
/// at `elf_base` (when it is position independent): page size, program
/// headers, their entry size and count, entry point and flags. The seed
/// and the interpreter's base follow.
pub open spec fn junction_auxv_head(elf_base: Option<u64>, img: ElfImageView) -> Seq<AuxEntry> {
    let (entry, phdr) = entry_and_phdr(elf_base, img.entry, img.phoff);
    seq![
        AuxEntry::PageSize(4096),
        AuxEntry::Phdr(phdr as u64),
        AuxEntry::PhEnt(img.phentsize as u64),
        AuxEntry::PhNum(img.phnum as u64),
        AuxEntry::Entry(entry as u64),
        AuxEntry::NotPreserveArgv0,
    ]
}

/// Builds the auxiliary vector of a junction image whose interpreter is
/// loaded at `ldso_base` (see [`junction_auxv_head`], [`seed_bytes`]); the
/// addresses must fit in 64 bits.
pub fn build_junction_auxv(elf_base: Option<u64>, img: &ElfImage, ldso_base: u64) -> (r: Vec<AuxEntry>)
    requires
        elf_base matches Some(b) ==> b + img.entry <= u64::MAX && b + img.phoff <= u64::MAX,
    ensures
        r@.len() == 8,
        r@.subrange(0, 6) == junction_auxv_head(elf_base, img@),
        r@[7] == AuxEntry::Base(ldso_base),
        r@[6] matches AuxEntry::Random(bytes) && bytes@ == seed_bytes(),
{
    let (entry, phdr) = match elf_base {
        Some(b) => (b + img.entry, b + img.phoff),
        None => (img.entry, img.phoff),
    };
    let mut bytes = [0u8; 16];
    let mut i: usize = 0;
    while i < 16
        invariant
            i <= 16,
            bytes@.len() == 16,
            forall|k: int| 0 <= k < i ==> bytes@[k] == k as u8,
        decreases 16 - i,
    {
        bytes[i] = i as u8;
        i = i + 1;
    }
    assert(bytes@ =~= seed_bytes());
    let v = vec![
        AuxEntry::PageSize(4096),
        AuxEntry::Phdr(phdr),
        AuxEntry::PhEnt(img.phentsize as u64),
        AuxEntry::PhNum(img.phnum as u64),
        AuxEntry::Entry(entry),
        AuxEntry::NotPreserveArgv0,
        AuxEntry::Random(bytes),
        AuxEntry::Base(ldso_base),
    ];
    assert(v@.subrange(0, 6) =~= junction_auxv_head(elf_base, img@));
    v
}

} // verus!

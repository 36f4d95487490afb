use axcli::elf_load::{
    build_junction_auxv, AuxEntry, junction_argv, load_elf_file, place_segment, plan_elf_load, segment_prot, split_args, ElfImage,
    ElfSegment, SegmentMap, ET_DYN, PT_INTERP, PT_LOAD,
};
use axcli::pagecache::{pagecache_fill_plan, FillPlan, LinuxError, PAGE_CACHE_POOL_BASE_VA};
use axcli::shared_pages::shared_page_chunks;

fn strings(v: &[&str]) -> Vec<String> {
    v.iter().map(|s| s.to_string()).collect()
}

#[test]
fn split_and_join_junction_args() {
    let (j, a) = split_args(&strings(&["junction", "-v", "--", "app", "x"]));
    assert_eq!(j, strings(&["junction", "-v"]));
    assert_eq!(a, strings(&["app", "x"]));
    assert_eq!(junction_argv(&j, &a), strings(&["junction", "-v", "--", "app", "x"]));
    let (j, a) = split_args(&strings(&["junction", "-v"]));
    assert_eq!(j, strings(&["junction", "-v"]));
    assert!(a.is_empty());
    assert_eq!(junction_argv(&j, &a), strings(&["junction", "-v"]));
    // Only the first separator splits.
    let (j, a) = split_args(&strings(&["j", "--", "a", "--", "b"]));
    assert_eq!(j, strings(&["j"]));
    assert_eq!(a, strings(&["a", "--", "b"]));
    // A trailing separator is dropped when joining back.
    let (j, a) = split_args(&strings(&["j", "--"]));
    assert_eq!(junction_argv(&j, &a), strings(&["j"]));
}

#[test]
fn segment_placement_and_protection() {
    assert_eq!(segment_prot(4), 1);
    assert_eq!(segment_prot(5), 5);
    assert_eq!(segment_prot(6), 3);
    assert_eq!(segment_prot(7), 7);
    let ph = ElfSegment { p_type: PT_LOAD, p_flags: 5, p_offset: 0x123, p_vaddr: 0x1123, p_filesz: 0x100, p_memsz: 0x2000 };
    assert_eq!(
        place_segment(0x4000_0000, &ph),
        SegmentMap { addr: 0x4000_1000, size: 0x3000, prot: 5, dest: 0x4000_1123, file_offset: 0x123, len: 0x100 }
    );
}

fn image(e_type: u16, segments: Vec<ElfSegment>) -> ElfImage {
    ElfImage { e_type, entry: 0x1000, phoff: 64, phentsize: 56, phnum: segments.len() as u16, segments }
}

#[test]
fn load_plans() {
    let load = ElfSegment { p_type: PT_LOAD, p_flags: 5, p_offset: 0, p_vaddr: 0, p_filesz: 0x800, p_memsz: 0x800 };
    let interp = ElfSegment { p_type: PT_INTERP, p_flags: 4, p_offset: 0x200, p_vaddr: 0x200, p_filesz: 28, p_memsz: 28 };
    let pie = image(ET_DYN, vec![interp, load]);
    let plan = plan_elf_load(&pie, 0x1000, 0x4000_0000).unwrap();
    assert_eq!(plan.base, 0x4000_0000);
    assert_eq!(plan.maps.len(), 1);
    assert_eq!(plan.maps[0].addr, 0x4000_0000);
    assert_eq!(plan.interp, Some((0x200, 27)));
    let fixed = image(2, vec![load]);
    let plan = plan_elf_load(&fixed, 0x1000, 0x4000_0000).unwrap();
    assert_eq!(plan.base, 0);
    assert_eq!(plan.interp, None);
    assert_eq!(
        plan_elf_load(&fixed, 0x100, 0).err(),
        Some("ELF segment lies outside the file".to_string())
    );
    let bad_interp = ElfSegment { p_filesz: 0, ..interp };
    assert_eq!(
        plan_elf_load(&image(ET_DYN, vec![bad_interp]), 0x1000, 0).err(),
        Some("ELF interpreter path lies outside the file".to_string())
    );
}

#[test]
fn goblin_parses_headers() {
    assert_eq!(load_elf_file(b"not an elf file at all", 0x1000).err(), Some("Failed to parse ELF".to_string()));
    // A minimal 64-bit little-endian ELF header with no program headers.
    let mut h = vec![0u8; 64];
    h[0..4].copy_from_slice(b"\x7fELF");
    h[4] = 2; // 64-bit
    h[5] = 1; // little endian
    h[6] = 1; // version
    h[16] = 3; // ET_DYN
    h[18] = 62; // x86_64
    h[20] = 1;
    h[24] = 0x34; // entry
    h[52] = 64; // ehsize
    h[54] = 56; // phentsize
    h[58] = 64; // shentsize
    let (img, plan) = load_elf_file(&h, 0x4000_0000).expect("minimal ELF");
    assert_eq!(img.e_type, ET_DYN);
    assert_eq!(img.entry, 0x34);
    assert!(img.segments.is_empty());
    assert_eq!(plan.base, 0x4000_0000);
    assert!(plan.maps.is_empty());
    assert_eq!(plan.interp, None);
}

#[test]
fn page_cache_fill_decisions() {
    let a = PAGE_CACHE_POOL_BASE_VA;
    assert_eq!(pagecache_fill_plan(a, 0x1000, 3, 0, Some(10)), Err(LinuxError::ENOSYS));
    assert_eq!(pagecache_fill_plan(0x1000, 0x1000, 0, 0, Some(10)), Err(LinuxError::EINVAL));
    assert_eq!(pagecache_fill_plan(a, 0x1000, 0, 0, None), Err(LinuxError::ENOENT));
    assert_eq!(pagecache_fill_plan(a, 0x1000, 0, 0x2000, Some(0x2000)), Ok(FillPlan { copy_len: 0, zero_len: 0x1000 }));
    assert_eq!(pagecache_fill_plan(a, 0x1000, 0, 0x1800, Some(0x2000)), Ok(FillPlan { copy_len: 0x800, zero_len: 0x800 }));
    assert_eq!(pagecache_fill_plan(a, 0x1000, 0, 0, Some(0x8000)), Ok(FillPlan { copy_len: 0x1000, zero_len: 0 }));
    assert_eq!(LinuxError::ENOENT.code(), 2);
    assert_eq!(LinuxError::EINVAL.code(), 22);
    assert_eq!(LinuxError::ENOSYS.code(), 38);
}

#[test]
fn shared_page_chunks_tile_the_buffer() {
    assert!(shared_page_chunks(0).is_empty());
    assert_eq!(shared_page_chunks(10), vec![(0, 10)]);
    assert_eq!(shared_page_chunks(4096), vec![(0, 4096)]);
    assert_eq!(shared_page_chunks(9000), vec![(0, 4096), (4096, 4096), (8192, 808)]);
}

#[test]
fn junction_aux_vector() {
    let img = image(ET_DYN, vec![]);
    let v = build_junction_auxv(Some(0x4000_0000), &img, 0x7f00_0000_0000);
    let mut seed = [0u8; 16];
    for (i, b) in seed.iter_mut().enumerate() {
        *b = i as u8;
    }
    assert_eq!(
        v,
        vec![
            AuxEntry::PageSize(4096),
            AuxEntry::Phdr(0x4000_0000 + 64),
            AuxEntry::PhEnt(56),
            AuxEntry::PhNum(0),
            AuxEntry::Entry(0x4000_1000),
            AuxEntry::NotPreserveArgv0,
            AuxEntry::Random(seed),
            AuxEntry::Base(0x7f00_0000_0000),
        ]
    );
    let fixed = build_junction_auxv(None, &img, 0);
    assert_eq!(fixed[4], AuxEntry::Entry(0x1000));
}

//! Checks and derived settings of a microVM configuration: machine size,
//! block drives, the kernel command line of a root drive, passthrough
//! devices, and the host PCI data of a VFIO device.
use vstd::prelude::*;
use crate::command::{same_result, str_string, push_chars};
use crate::config::{
    MachineConfig, BootSourceConfig, BlockDeviceConfig, DEFAULT_KERNEL_CMDLINE, VfioConfig, PciBdf,
    IovaMode, split_on, split_chars, pci_bdf_of, parse_pci_bdf, iova_mode_of, parse_iova_mode,
};
use crate::command::int_error_text;
use crate::text::{spec_parse_uint, parse_uint, IntErrorKind, lemma_parse_uint_bounded};
use crate::text::{
    dec, push_dec, push_str, str_chars, string_from_chars, split_whitespace, words,
    spec_is_whitespace, is_whitespace, lemma_words_append_word, lemma_words_append_space,
};

verus! {

/// A command-line word that sets `key`: the key alone or `key=...`.
pub open spec fn key_token(t: Seq<char>, key: Seq<char>) -> bool {
    t == key || (t.len() > key.len() && t.subrange(0, key.len() as int) == key && t[key.len() as int] == '=')
}

/// Whether some word of the command line sets `key`.
pub open spec fn has_key(cmdline: Seq<char>, key: Seq<char>) -> bool {
    exists|i: int| 0 <= i < words(cmdline).len() && key_token(#[trigger] words(cmdline)[i], key)
}

/// Whether `token` is a word of the command line.
pub open spec fn has_token(cmdline: Seq<char>, token: Seq<char>) -> bool {
    exists|i: int| 0 <= i < words(cmdline).len() && #[trigger] words(cmdline)[i] == token
}

fn vec_eq(a: &Vec<char>, b: &Vec<char>) -> (r: bool)
    ensures
        r == (a@ == b@),
{
    if a.len() != b.len() {
        return false;
    }
    let mut i: usize = 0;
    while i < a.len()
        invariant
            a@.len() == b@.len(),
            i <= a.len(),
            forall|j: int| 0 <= j < i ==> a@[j] == b@[j],
        decreases a.len() - i,
    {
        if a[i] != b[i] {
            return false;
        }
        i = i + 1;
    }
    assert(a@ =~= b@);
    true
}

fn key_token_exec(t: &Vec<char>, key: &Vec<char>) -> (r: bool)
    ensures
        r == key_token(t@, key@),
{
    if vec_eq(t, key) {
        return true;
    }
    if t.len() <= key.len() {
        return false;
    }
    let mut i: usize = 0;
    while i < key.len()
        invariant
            key@.len() < t@.len(),
            i <= key.len(),
            forall|j: int| 0 <= j < i ==> t@[j] == key@[j],
        decreases key.len() - i,
    {
        if t[i] != key[i] {
            assert(t@.subrange(0, key@.len() as int)[i as int] != key@[i as int]);
            return false;
        }
        i = i + 1;
    }
    assert(t@.subrange(0, key@.len() as int) =~= key@);
    t[key.len()] == '='
}

fn words_have_key(ws: &Vec<Vec<char>>, key: &Vec<char>, exact: bool) -> (r: bool)
    ensures
        r == exists|i: int| 0 <= i < ws@.len() && (if exact { (#[trigger] ws@[i])@ == key@ } else { key_token(ws@[i]@, key@) }),
{
    let mut i: usize = 0;
    while i < ws.len()
        invariant
            i <= ws.len(),
            forall|j: int| 0 <= j < i ==> !(if exact { (#[trigger] ws@[j])@ == key@ } else { key_token(ws@[j]@, key@) }),
        decreases ws.len() - i,
    {
        let hit = if exact { vec_eq(&ws[i], key) } else { key_token_exec(&ws[i], key) };
        if hit {
            return true;
        }
        i = i + 1;
    }
    false
}

fn chars_have(cmdline: &Vec<char>, key: &str, exact: bool) -> (r: bool)
    ensures
        r == (if exact { has_token(cmdline@, key@) } else { has_key(cmdline@, key@) }),
{
    let ws = split_whitespace(cmdline);
    let k = str_chars(key);
    let r = words_have_key(&ws, &k, exact);
    proof {
        if r {
            let i = choose|i: int| 0 <= i < ws@.len() && (if exact { (#[trigger] ws@[i])@ == k@ } else { key_token(ws@[i]@, k@) });
            assert(ws@[i]@ == words(cmdline@)[i]);
        } else {
            assert forall|i: int| 0 <= i < words(cmdline@).len() implies !(if exact { #[trigger] words(cmdline@)[i] == key@ } else { key_token(words(cmdline@)[i], key@) }) by {
                assert(ws@[i]@ == words(cmdline@)[i]);
            }
        }
    }
    r
}

/// Whether some word of the command line sets `key` (see [`has_key`]).
pub fn cmdline_has_key(cmdline: &str, key: &str) -> (r: bool)
    ensures
        r == has_key(cmdline@, key@),
{
    let c = str_chars(cmdline);
    chars_have(&c, key, false)
}

/// Whether `token` is a word of the command line.
pub fn cmdline_has_token(cmdline: &str, token: &str) -> (r: bool)
    ensures
        r == has_token(cmdline@, token@),
{
    let c = str_chars(cmdline);
    chars_have(&c, token, true)
}

/// The command line for a root block drive: kept when it already sets
/// `root`; otherwise `root=/dev/vda` is appended (after a space unless the
/// line is empty or ends with one), then ` rw` unless `rw` or `ro` is a
/// word, then ` rootwait` unless it is a word.
pub open spec fn rootfs_cmdline(c: Seq<char>) -> Seq<char> {
    if has_key(c, "root"@) {
        c
    } else {
        let c1 = if c.len() > 0 && c.last() != ' ' { c.push(' ') } else { c };
        let c2 = c1 + "root=/dev/vda"@;
        let c3 = if !has_token(c2, "rw"@) && !has_token(c2, "ro"@) { c2 + " rw"@ } else { c2 };
        if !has_token(c3, "rootwait"@) { c3 + " rootwait"@ } else { c3 }
    }
}

/// The boot arguments as characters, the default line when absent.
pub open spec fn boot_args_text(b: Option<String>) -> Seq<char> {
    match b {
        Some(s) => s@,
        None => DEFAULT_KERNEL_CMDLINE@,
    }
}

fn append_str(v: &mut Vec<char>, s: &str)
    ensures
        final(v)@ == old(v)@ + s@,
{
    let c = str_chars(s);
    let mut i: usize = 0;
    let ghost start = v@;
    while i < c.len()
        invariant
            i <= c.len(),
            v@ == start + c@.subrange(0, i as int),
        decreases c.len() - i,
    {
        v.push(c[i]);
        i = i + 1;
        assert(v@ =~= start + c@.subrange(0, i as int));
    }
    assert(c@.subrange(0, c@.len() as int) =~= c@);
}

/// Makes the boot arguments mount the root drive (see [`rootfs_cmdline`]);
/// absent arguments become the default line first.
pub fn ensure_rootfs_cmdline(cfg: &mut BootSourceConfig)
    ensures
        final(cfg).kernel_image_path == old(cfg).kernel_image_path,
        final(cfg).initrd_path == old(cfg).initrd_path,
        final(cfg).boot_args is Some,
        final(cfg).boot_args->0@ == rootfs_cmdline(boot_args_text(old(cfg).boot_args)),
{
    let mut c = match &cfg.boot_args {
        Some(a) => str_chars(a.as_str()),
        None => str_chars(DEFAULT_KERNEL_CMDLINE),
    };
    if !chars_have(&c, "root", false) {
        if c.len() > 0 && c[c.len() - 1] != ' ' {
            c.push(' ');
        }
        append_str(&mut c, "root=/dev/vda");
        if !chars_have(&c, "rw", true) && !chars_have(&c, "ro", true) {
            append_str(&mut c, " rw");
        }
        if !chars_have(&c, "rootwait", true) {
            append_str(&mut c, " rootwait");
        }
    }
    cfg.boot_args = Some(string_from_chars(&c));
}

/// A machine configuration starts at least one vCPU and no more than its
/// maximum.
pub open spec fn machine_config_check(m: MachineConfig) -> Result<(), Seq<char>> {
    let d = m.spec_default_vcpu_count();
    let x = m.spec_max_vcpu_count();
    if d == 0 {
        Err("default vCPU count must be at least 1"@)
    } else if x == 0 {
        Err("max vCPU count must be at least 1"@)
    } else if d > x {
        Err("default vCPU count "@ + dec(d as nat) + " must not exceed max vCPU count "@ + dec(x as nat))
    } else {
        Ok(())
    }
}

pub fn validate_machine_config(m: &MachineConfig) -> (r: Result<(), String>)
    ensures
        same_result(r, machine_config_check(*m)),
{
    let d = m.default_vcpu_count();
    let x = m.max_vcpu_count();
    if d == 0 {
        Err(str_string("default vCPU count must be at least 1"))
    } else if x == 0 {
        Err(str_string("max vCPU count must be at least 1"))
    } else if d > x {
        let mut e = String::new();
        push_str(&mut e, "default vCPU count ");
        push_dec(&mut e, d as u64);
        push_str(&mut e, " must not exceed max vCPU count ");
        push_dec(&mut e, x as u64);
        Err(e)
    } else {
        Ok(())
    }
}

/// What the host says of a drive's backing file.
pub enum FileStat {
    /// The file could not be examined, with the reason.
    Missing(String),
    /// The file exists: whether it is a regular file, and its length.
    Found { is_file: bool, len: u64 },
}

/// The checks on one drive: a non-blank id, and a backing file that is a
/// non-empty regular file whose length is a multiple of 512.
pub open spec fn drive_check(d: BlockDeviceConfig, f: FileStat) -> Result<(), Seq<char>> {
    let id = d.drive_id@;
    let path = d.path_on_host@;
    if forall|i: int| 0 <= i < id.len() ==> spec_is_whitespace(#[trigger] id[i]) {
        Err("drive_id must not be empty"@)
    } else {
        match f {
            FileStat::Missing(e) => Err("Invalid drive path_on_host '"@ + path + "' for drive '"@ + id + "': "@ + e@),
            FileStat::Found { is_file, len } => if !is_file {
                Err("drive '"@ + id + "' path_on_host must be a regular file: "@ + path)
            } else if len == 0 {
                Err("drive '"@ + id + "' path_on_host must not be empty: "@ + path)
            } else if len % 512 != 0 {
                Err("drive '"@ + id + "' path_on_host size must be 512-byte aligned: "@ + dec(len as nat) + " bytes ("@ + path + ")"@)
            } else {
                Ok(())
            },
        }
    }
}

/// The checks on the drive list: at most one drive, and that one must pass
/// [`drive_check`]. (With one drive, ids cannot repeat and at most one is
/// the root.)
pub open spec fn drives_check(ds: Seq<BlockDeviceConfig>, files: Seq<FileStat>) -> Result<(), Seq<char>> {
    if ds.len() > 1 {
        Err("only one split virtio-blk drive is supported in this stage"@)
    } else if ds.len() == 1 {
        drive_check(ds[0], files[0])
    } else {
        Ok(())
    }
}

fn all_whitespace(s: &str) -> (r: bool)
    ensures
        r == forall|i: int| 0 <= i < s@.len() ==> spec_is_whitespace(#[trigger] s@[i]),
{
    let c = str_chars(s);
    let mut i: usize = 0;
    while i < c.len()
        invariant
            c@ == s@,
            i <= c.len(),
            forall|j: int| 0 <= j < i ==> spec_is_whitespace(#[trigger] c@[j]),
        decreases c.len() - i,
    {
        if !is_whitespace(c[i]) {
            return false;
        }
        i = i + 1;
    }
    true
}

fn check_drive(d: &BlockDeviceConfig, f: &FileStat) -> (r: Result<(), String>)
    ensures
        same_result(r, drive_check(*d, *f)),
{
    let id = d.drive_id.as_str();
    let path = d.path_on_host.as_str();
    if all_whitespace(id) {
        return Err(str_string("drive_id must not be empty"));
    }
    match f {
        FileStat::Missing(e) => {
            let mut m = String::new();
            push_str(&mut m, "Invalid drive path_on_host '");
            push_str(&mut m, path);
            push_str(&mut m, "' for drive '");
            push_str(&mut m, id);
            push_str(&mut m, "': ");
            push_str(&mut m, e.as_str());
            Err(m)
        },
        FileStat::Found { is_file, len } => {
            if !*is_file {
                let mut m = String::new();
                push_str(&mut m, "drive '");
                push_str(&mut m, id);
                push_str(&mut m, "' path_on_host must be a regular file: ");
                push_str(&mut m, path);
                Err(m)
            } else if *len == 0 {
                let mut m = String::new();
                push_str(&mut m, "drive '");
                push_str(&mut m, id);
                push_str(&mut m, "' path_on_host must not be empty: ");
                push_str(&mut m, path);
                Err(m)
            } else if *len % 512 != 0 {
                let mut m = String::new();
                push_str(&mut m, "drive '");
                push_str(&mut m, id);
                push_str(&mut m, "' path_on_host size must be 512-byte aligned: ");
                push_dec(&mut m, *len);
                push_str(&mut m, " bytes (");
                push_str(&mut m, path);
                push_str(&mut m, ")");
                Err(m)
            } else {
                Ok(())
            }
        },
    }
}

/// The drives of a configuration (none when absent), as [`drives_check`]
/// accepts them. `files` says what the host found at each drive's path.
pub fn validate_block_devices(drives: Option<Vec<BlockDeviceConfig>>, files: &Vec<FileStat>) -> (r: Result<Vec<BlockDeviceConfig>, String>)
    requires
        files@.len() == match drives {
            Some(d) => d@.len(),
            None => 0,
        },
    ensures
        match drives_check(match drives { Some(d) => d@, None => Seq::empty() }, files@) {
            Ok(_) => r is Ok && r->Ok_0@ == match drives { Some(d) => d@, None => Seq::empty() },
            Err(m) => r is Err && r->Err_0@ == m,
        },
{
    let drives = match drives {
        Some(d) => d,
        None => Vec::new(),
    };
    if drives.len() > 1 {
        return Err(str_string("only one split virtio-blk drive is supported in this stage"));
    }
    if drives.len() == 1 {
        check_drive(&drives[0], &files[0])?;
    }
    Ok(drives)
}

/// Whether any drive is the root drive.
pub open spec fn has_root_drive(ds: Seq<BlockDeviceConfig>) -> bool {
    exists|i: int| 0 <= i < ds.len() && (#[trigger] ds[i]).is_root_device
}

pub fn any_root_drive(ds: &Vec<BlockDeviceConfig>) -> (r: bool)
    ensures
        r == has_root_drive(ds@),
{
    let mut i: usize = 0;
    while i < ds.len()
        invariant
            i <= ds.len(),
            forall|j: int| 0 <= j < i ==> !(#[trigger] ds@[j]).is_root_device,
        decreases ds.len() - i,
    {
        if ds[i].is_root_device {
            return true;
        }
        i = i + 1;
    }
    false
}

/// The block flag of an enabled drive.
pub const MICROVM_BLOCK_FLAG_ENABLED: u64 = 1;
/// The block flag of a read-only drive.
pub const MICROVM_BLOCK_FLAG_READ_ONLY: u64 = 2;

/// The block flags and capacity in 512-byte sectors that the hypervisor is
/// told of: zeros without a drive, else those of the first drive.
pub open spec fn block_meta(ds: Seq<BlockDeviceConfig>, files: Seq<FileStat>) -> Result<(u64, u64), Seq<char>> {
    if ds.len() == 0 {
        Ok((0, 0))
    } else {
        match files[0] {
            FileStat::Missing(e) => Err("Invalid drive path_on_host '"@ + ds[0].path_on_host@ + "' for drive '"@
                + ds[0].drive_id@ + "': "@ + e@),
            FileStat::Found { len, .. } => Ok((
                if ds[0].is_read_only { MICROVM_BLOCK_FLAG_ENABLED | MICROVM_BLOCK_FLAG_READ_ONLY } else { MICROVM_BLOCK_FLAG_ENABLED },
                len / 512,
            )),
        }
    }
}

pub fn block_metadata(ds: &Vec<BlockDeviceConfig>, files: &Vec<FileStat>) -> (r: Result<(u64, u64), String>)
    requires
        files@.len() == ds@.len(),
    ensures
        same_result(r, block_meta(ds@, files@)),
{
    if ds.len() == 0 {
        return Ok((0, 0));
    }
    match &files[0] {
        FileStat::Missing(e) => {
            let mut m = String::new();
            push_str(&mut m, "Invalid drive path_on_host '");
            push_str(&mut m, ds[0].path_on_host.as_str());
            push_str(&mut m, "' for drive '");
            push_str(&mut m, ds[0].drive_id.as_str());
            push_str(&mut m, "': ");
            push_str(&mut m, e.as_str());
            Err(m)
        },
        FileStat::Found { len, .. } => {
            let flags = if ds[0].is_read_only {
                MICROVM_BLOCK_FLAG_ENABLED | MICROVM_BLOCK_FLAG_READ_ONLY
            } else {
                MICROVM_BLOCK_FLAG_ENABLED
            };
            Ok((flags, *len / 512))
        },
    }
}


proof fn lemma_append_spaced_word(s: Seq<char>, w: Seq<char>)
    requires
        w.len() > 0,
        forall|i: int| 0 <= i < w.len() ==> !spec_is_whitespace(#[trigger] w[i]),
    ensures
        words(s + seq![' '] + w) == words(s).push(w),
{
    lemma_words_append_space(s);
    assert(s.push(' ') =~= s + seq![' ']);
    assert(spec_is_whitespace(' '));
    lemma_words_append_word(s.push(' '), w);
}

/// The root command line sets `root`, and what it held stays in place.
proof fn lemma_rootfs_sets_root(c: Seq<char>)
    ensures
        has_key(rootfs_cmdline(c), "root"@),
{
    reveal_strlit("root");
    reveal_strlit("root=/dev/vda");
    reveal_strlit(" rw");
    reveal_strlit("rw");
    reveal_strlit(" rootwait");
    reveal_strlit("rootwait");
    if !has_key(c, "root"@) {
        let c1 = if c.len() > 0 && c.last() != ' ' { c.push(' ') } else { c };
        let w = "root=/dev/vda"@;
        let c2 = c1 + w;
        assert(c1.len() == 0 || spec_is_whitespace(c1.last())) by {
            if c.len() > 0 && c.last() != ' ' {
                assert(c1.last() == ' ');
            } else if c.len() > 0 {
                assert(c.last() == ' ');
            }
        }
        assert forall|i: int| 0 <= i < w.len() implies !spec_is_whitespace(#[trigger] w[i]) by {}
        lemma_words_append_word(c1, w);
        let n = words(c1).len() as int;
        assert(words(c2)[n] == w);
        let c3 = if !has_token(c2, "rw"@) && !has_token(c2, "ro"@) { c2 + " rw"@ } else { c2 };
        if !has_token(c2, "rw"@) && !has_token(c2, "ro"@) {
            let rw = "rw"@;
            assert forall|i: int| 0 <= i < rw.len() implies !spec_is_whitespace(#[trigger] rw[i]) by {}
            assert(" rw"@ =~= seq![' '] + rw);
            assert(c2 + " rw"@ =~= c2 + seq![' '] + rw);
            lemma_append_spaced_word(c2, rw);
        }
        assert(words(c3)[n] == w);
        let c4 = if !has_token(c3, "rootwait"@) { c3 + " rootwait"@ } else { c3 };
        if !has_token(c3, "rootwait"@) {
            let rwt = "rootwait"@;
            assert forall|i: int| 0 <= i < rwt.len() implies !spec_is_whitespace(#[trigger] rwt[i]) by {}
            assert(" rootwait"@ =~= seq![' '] + rwt);
            assert(c3 + " rootwait"@ =~= c3 + seq![' '] + rwt);
            lemma_append_spaced_word(c3, rwt);
        }
        assert(words(c4)[n] == w);
        assert(c4 == rootfs_cmdline(c));
        assert(w.subrange(0, 4) =~= "root"@);
        assert(key_token(words(c4)[n], "root"@));
    }
}

/// A command line made to mount the root drive sets `root`, so making it
/// mount the root drive again leaves it as it is.
pub proof fn lemma_rootfs_cmdline_idempotent(c: Seq<char>)
    ensures
        has_key(rootfs_cmdline(c), "root"@),
        rootfs_cmdline(rootfs_cmdline(c)) == rootfs_cmdline(c),
        has_key(c, "root"@) ==> rootfs_cmdline(c) == c,
{
    lemma_rootfs_sets_root(c);
}


/// One base address register of a host PCI device.
#[derive(Clone, Copy, Debug, Default)]
pub struct VfioBarInfo {
    pub start: u64,
    pub size: u64,
    pub flags: u64,
}

/// What the hypervisor is told of a VFIO passthrough device.
#[derive(Clone, Debug)]
pub struct VfioResourceConfig {
    pub iommu_group: u32,
    pub guest_visible_bdf: PciBdf,
    pub iova_mode: IovaMode,
    pub bars: Vec<VfioBarInfo>,
    /// Snapshot of the host PCI config space (256 bytes), of which the first
    /// `pci_cfg_space_len` bytes were read from the device.
    pub pci_cfg_space_len: usize,
    pub pci_cfg_space: Vec<u8>,
}

/// The lines of a text (`str::lines`, but keeping a final carriage return,
/// which only the word splitting of a line sees, as whitespace).
pub open spec fn text_lines(s: Seq<char>) -> Seq<Seq<char>> {
    let p = split_on(s, '\n');
    if p.last().len() == 0 {
        p.drop_last()
    } else {
        p
    }
}

/// `s` with every leading repetition of `p` removed (`trim_start_matches`).
pub open spec fn strip_all(s: Seq<char>, p: Seq<char>) -> Seq<char>
    decreases s.len(),
{
    if p.len() > 0 && s.len() >= p.len() && s.subrange(0, p.len() as int) == p {
        strip_all(s.skip(p.len() as int), p)
    } else {
        s
    }
}

fn starts_with_at(s: &Vec<char>, at: usize, p: &Vec<char>) -> (r: bool)
    requires
        at <= s@.len(),
    ensures
        r == (s@.len() - at >= p@.len() && s@.subrange(at as int, at + p@.len()) == p@),
{
    if s.len() - at < p.len() {
        return false;
    }
    let mut i: usize = 0;
    while i < p.len()
        invariant
            at + p@.len() <= s@.len(),
            i <= p.len(),
            forall|j: int| 0 <= j < i ==> s@[at + j] == p@[j],
        decreases p.len() - i,
    {
        assert(at + i < s.len());
        if s[at + i] != p[i] {
            assert(s@.subrange(at as int, at + p@.len())[i as int] != p@[i as int]);
            return false;
        }
        i = i + 1;
    }
    assert(s@.subrange(at as int, at + p@.len()) =~= p@);
    true
}

/// Where the stripped text starts (see [`strip_all`]).
fn strip_all_from(s: &Vec<char>, at: usize, p: &str) -> (r: usize)
    requires
        at <= s@.len(),
    ensures
        at <= r <= s@.len(),
        s@.subrange(r as int, s@.len() as int) == strip_all(s@.subrange(at as int, s@.len() as int), p@),
    decreases s@.len() - at,
{
    let pv = str_chars(p);
    let ghost rest = s@.subrange(at as int, s@.len() as int);
    if pv.len() > 0 && starts_with_at(s, at, &pv) {
        assert(at + pv.len() <= s.len());
        proof {
            assert(rest.subrange(0, p@.len() as int) =~= s@.subrange(at as int, at + p@.len()));
            assert(rest.skip(p@.len() as int) =~= s@.subrange(at + p@.len(), s@.len() as int));
        }
        strip_all_from(s, at + pv.len(), p)
    } else {
        proof {
            if p@.len() > 0 && rest.len() >= p@.len() {
                assert(rest.subrange(0, p@.len() as int) =~= s@.subrange(at as int, at + p@.len()));
            }
        }
        at
    }
}

/// A hexadecimal word, with any `0x` and then `0X` prefixes removed.
pub open spec fn hex_word(raw: Seq<char>, field: Seq<char>) -> Result<u64, Seq<char>> {
    let n = strip_all(strip_all(raw, "0x"@), "0X"@);
    match spec_parse_uint(n, 16, u64::MAX as nat) {
        Ok(v) => Ok(v as u64),
        Err(k) => Err("Invalid "@ + field + " '"@ + raw + "': "@ + int_error_text(k)),
    }
}

fn hex_word_exec(raw: &Vec<char>, field: &str) -> (r: Result<u64, String>)
    ensures
        same_result(r, hex_word(raw@, field@)),
{
    let a = strip_all_from(raw, 0, "0x");
    assert(raw@.subrange(0, raw@.len() as int) =~= raw@);
    let b = strip_all_from(raw, a, "0X");
    let mut digits: Vec<char> = Vec::new();
    let mut i: usize = b;
    while i < raw.len()
        invariant
            b <= i <= raw.len(),
            digits@ == raw@.subrange(b as int, i as int),
        decreases raw.len() - i,
    {
        digits.push(raw[i]);
        i = i + 1;
        assert(digits@ =~= raw@.subrange(b as int, i as int));
    }
    match parse_uint(&digits, 16, u64::MAX) {
        Ok(v) => Ok(v),
        Err(k) => {
            let mut m = String::new();
            push_str(&mut m, "Invalid ");
            push_str(&mut m, field);
            push_str(&mut m, " '");
            push_chars(&mut m, raw);
            push_str(&mut m, "': ");
            push_str(&mut m, crate::command::int_error_message(k));
            Err(m)
        },
    }
}

/// One line of a sysfs `resource` file: start, end and flags in
/// hexadecimal; the size is zero for an unused BAR.
pub open spec fn bar_line(line: Seq<char>) -> Result<VfioBarInfo, Seq<char>> {
    let ws = words(line);
    if ws.len() < 1 {
        Err("Malformed resource line: missing start"@)
    } else if ws.len() < 2 {
        Err("Malformed resource line: missing end"@)
    } else if ws.len() < 3 {
        Err("Malformed resource line: missing flags"@)
    } else {
        match hex_word(ws[0], "BAR start"@) {
            Err(m) => Err(m),
            Ok(start) => match hex_word(ws[1], "BAR end"@) {
                Err(m) => Err(m),
                Ok(end) => match hex_word(ws[2], "BAR flags"@) {
                    Err(m) => Err(m),
                    Ok(flags) => Ok(VfioBarInfo {
                        start,
                        size: if start == 0 || end < start { 0 } else { (end - start + 1) as u64 },
                        flags,
                    }),
                },
            },
        }
    }
}

/// The BARs of the first `k` lines, or the first line's error.
pub open spec fn bar_prefix(lines: Seq<Seq<char>>, k: int) -> Result<Seq<VfioBarInfo>, Seq<char>>
    decreases k,
{
    if k <= 0 {
        Ok(Seq::empty())
    } else {
        match bar_prefix(lines, k - 1) {
            Err(m) => Err(m),
            Ok(bs) => match bar_line(lines[k - 1]) {
                Err(m) => Err(m),
                Ok(b) => Ok(bs.push(b)),
            },
        }
    }
}

/// The six BARs of a sysfs `resource` file: one per line for its first six
/// lines, the others unused.
pub open spec fn vfio_bars(text: Seq<char>) -> Result<Seq<VfioBarInfo>, Seq<char>> {
    let lines = text_lines(text);
    let n = if lines.len() < 6 { lines.len() as int } else { 6 };
    match bar_prefix(lines, n) {
        Err(m) => Err(m),
        Ok(bs) => Ok(bs + Seq::new((6 - n) as nat, |i: int| VfioBarInfo { start: 0, size: 0, flags: 0 })),
    }
}

fn parse_bar_line(line: &Vec<char>) -> (r: Result<VfioBarInfo, String>)
    ensures
        same_result(r, bar_line(line@)),
{
    let ws = split_whitespace(line);
    if ws.len() < 1 {
        return Err(str_string("Malformed resource line: missing start"));
    }
    if ws.len() < 2 {
        return Err(str_string("Malformed resource line: missing end"));
    }
    if ws.len() < 3 {
        return Err(str_string("Malformed resource line: missing flags"));
    }
    assert(ws@[0]@ == words(line@)[0]);
    assert(ws@[1]@ == words(line@)[1]);
    assert(ws@[2]@ == words(line@)[2]);
    let start = hex_word_exec(&ws[0], "BAR start")?;
    let end = hex_word_exec(&ws[1], "BAR end")?;
    let flags = hex_word_exec(&ws[2], "BAR flags")?;
    let size = if start == 0 || end < start { 0 } else { end - start + 1 };
    Ok(VfioBarInfo { start, size, flags })
}

/// Parses a sysfs `resource` file (see [`vfio_bars`]).
pub fn parse_vfio_bars(text: &str) -> (r: Result<Vec<VfioBarInfo>, String>)
    ensures
        match vfio_bars(text@) {
            Ok(bs) => r is Ok && r->Ok_0@ == bs,
            Err(m) => r is Err && r->Err_0@ == m,
        },
{
    let chars = str_chars(text);
    let parts = split_chars(&chars, '\n');
    let ghost lines = text_lines(text@);
    proof {
        crate::config::lemma_split_on_nonempty_pub(text@, '\n');
    }
    let last_empty = parts[parts.len() - 1].len() == 0;
    let nlines: usize = if last_empty { parts.len() - 1 } else { parts.len() };
    assert(nlines == lines.len());
    let n: usize = if nlines < 6 { nlines } else { 6 };
    let mut bars: Vec<VfioBarInfo> = Vec::new();
    let mut i: usize = 0;
    while i < n
        invariant
            i <= n,
            n <= nlines,
            nlines == lines.len(),
            nlines <= parts@.len(),
            lines == text_lines(text@),
            parts@.len() == split_on(text@, '\n').len(),
            forall|k: int| 0 <= k < parts@.len() ==> #[trigger] parts@[k]@ == split_on(text@, '\n')[k],
            bar_prefix(lines, i as int) == Ok::<Seq<VfioBarInfo>, Seq<char>>(bars@),
            bars@.len() == i,
            n <= 6,
            n == (if nlines < 6 { nlines } else { 6 }),
        decreases n - i,
    {
        assert(parts@[i as int]@ == lines[i as int]);
        match parse_bar_line(&parts[i]) {
            Ok(b) => bars.push(b),
            Err(m) => {
                proof {
                    assert(bar_line(lines[i as int]) == Err::<VfioBarInfo, Seq<char>>(m@));
                    assert(bar_prefix(lines, i as int + 1) == Err::<Seq<VfioBarInfo>, Seq<char>>(m@));
                    lemma_bar_prefix_err(lines, i as int + 1, n as int);
                    assert(vfio_bars(text@) == Err::<Seq<VfioBarInfo>, Seq<char>>(m@));
                }
                return Err(m);
            },
        }
        i = i + 1;
    }
    let ghost prefix = bars@;
    while bars.len() < 6
        invariant
            n <= 6,
            prefix.len() == n,
            n <= bars@.len() <= 6,
            bars@.subrange(0, n as int) == prefix,
            forall|k: int| n <= k < bars@.len() ==> #[trigger] bars@[k] == (VfioBarInfo { start: 0, size: 0, flags: 0 }),
        decreases 6 - bars.len(),
    {
        bars.push(VfioBarInfo { start: 0, size: 0, flags: 0 });
        assert(bars@.subrange(0, n as int) =~= prefix);
    }
    assert(bars@ =~= prefix + Seq::new((6 - n) as nat, |i: int| VfioBarInfo { start: 0, size: 0, flags: 0 }));
    Ok(bars)
}

proof fn lemma_bar_prefix_err(lines: Seq<Seq<char>>, k: int, n: int)
    requires
        1 <= k <= n,
        bar_prefix(lines, k) is Err,
    ensures
        bar_prefix(lines, n) == bar_prefix(lines, k),
    decreases n - k,
{
    if k < n {
        lemma_bar_prefix_err(lines, k, n - 1);
    }
}


/// The PCI config space snapshot: the first 256 bytes read, zero-filled.
pub open spec fn cfg_snapshot(raw: Seq<u8>) -> Seq<u8> {
    Seq::new(256, |i: int| if i < raw.len() { raw[i] } else { 0u8 })
}

/// The snapshot of a device's config space and how many bytes of it were
/// read from the device.
pub fn pci_cfg_snapshot(raw: &Vec<u8>) -> (r: (usize, Vec<u8>))
    ensures
        r.0 == (if raw@.len() < 256 { raw@.len() } else { 256 }),
        r.1@ == cfg_snapshot(raw@),
{
    let len: usize = if raw.len() < 256 { raw.len() } else { 256 };
    let mut cfg: Vec<u8> = Vec::new();
    let mut i: usize = 0;
    while i < 256
        invariant
            i <= 256,
            cfg@.len() == i,
            forall|k: int| 0 <= k < i ==> #[trigger] cfg@[k] == (if k < raw@.len() { raw@[k] } else { 0u8 }),
        decreases 256 - i,
    {
        if i < raw.len() {
            cfg.push(raw[i]);
        } else {
            cfg.push(0);
        }
        i = i + 1;
    }
    assert(cfg@ =~= cfg_snapshot(raw@));
    (len, cfg)
}

/// The vendor and device ids of a config space, little-endian.
pub open spec fn cfg_vendor(cfg: Seq<u8>) -> int {
    cfg[0] + cfg[1] * 256
}

pub open spec fn cfg_device(cfg: Seq<u8>) -> int {
    cfg[2] + cfg[3] * 256
}

/// A config space whose vendor or device id reads as all ones.
pub open spec fn cfg_identity_missing(cfg: Seq<u8>) -> bool {
    cfg_vendor(cfg) == 0xffff || cfg_device(cfg) == 0xffff
}

pub fn pci_cfg_identity_missing(cfg: &Vec<u8>) -> (r: bool)
    requires
        cfg@.len() >= 4,
    ensures
        r == cfg_identity_missing(cfg@),
{
    let vendor = cfg[0] as u32 + cfg[1] as u32 * 256;
    let device = cfg[2] as u32 + cfg[3] as u32 * 256;
    vendor == 0xffff || device == 0xffff
}

/// The config space with the identity that sysfs gives: the vendor and
/// device ids; the class bytes when all three read as `0xff`; a type-0
/// header when the header type reads as `0xff`.
pub open spec fn patched_cfg(cfg: Seq<u8>, vendor: u16, device: u16, class: u32) -> Seq<u8> {
    let c1 = cfg.update(0, (vendor % 256) as u8).update(1, (vendor / 256) as u8)
        .update(2, (device % 256) as u8).update(3, (device / 256) as u8);
    let c2 = if c1[0x0b] == 0xff && c1[0x0a] == 0xff && c1[0x09] == 0xff {
        c1.update(0x0b, ((class / 0x10000) % 256) as u8).update(0x0a, ((class / 0x100) % 256) as u8)
            .update(0x09, (class % 256) as u8)
    } else {
        c1
    };
    if c2[0x0e] == 0xff {
        c2.update(0x0e, 0u8)
    } else {
        c2
    }
}

pub fn patch_pci_cfg_identity(cfg: &mut Vec<u8>, vendor: u16, device: u16, class: u32)
    requires
        old(cfg)@.len() == 256,
    ensures
        final(cfg)@ == patched_cfg(old(cfg)@, vendor, device, class),
{
    cfg.set(0, (vendor % 256) as u8);
    cfg.set(1, (vendor / 256) as u8);
    cfg.set(2, (device % 256) as u8);
    cfg.set(3, (device / 256) as u8);
    if cfg[0x0b] == 0xff && cfg[0x0a] == 0xff && cfg[0x09] == 0xff {
        cfg.set(0x0b, ((class / 0x10000) % 256) as u8);
        cfg.set(0x0a, ((class / 0x100) % 256) as u8);
        cfg.set(0x09, (class % 256) as u8);
    }
    if cfg[0x0e] == 0xff {
        cfg.set(0x0e, 0);
    }
}

/// `s` without leading whitespace.
pub open spec fn trim_start(s: Seq<char>) -> Seq<char>
    decreases s.len(),
{
    if s.len() > 0 && spec_is_whitespace(s[0]) {
        trim_start(s.drop_first())
    } else {
        s
    }
}

/// `s` without trailing whitespace.
pub open spec fn trim_end(s: Seq<char>) -> Seq<char>
    decreases s.len(),
{
    if s.len() > 0 && spec_is_whitespace(s.last()) {
        trim_end(s.drop_last())
    } else {
        s
    }
}

/// `str::trim`.
pub open spec fn trim(s: Seq<char>) -> Seq<char> {
    trim_end(trim_start(s))
}

/// The bounds of the trimmed text.
fn trim_bounds(s: &Vec<char>) -> (r: (usize, usize))
    ensures
        r.0 <= r.1 <= s@.len(),
        s@.subrange(r.0 as int, r.1 as int) == trim(s@),
{
    let mut a: usize = 0;
    assert(s@.subrange(0, s@.len() as int) =~= s@);
    while a < s.len() && is_whitespace(s[a])
        invariant
            a <= s@.len(),
            trim_start(s@) == trim_start(s@.subrange(a as int, s@.len() as int)),
        decreases s.len() - a,
    {
        assert(s@.subrange(a as int, s@.len() as int).drop_first() =~= s@.subrange(a as int + 1, s@.len() as int));
        a = a + 1;
    }
    assert(s@.subrange(0, s@.len() as int) =~= s@);
    let mut b: usize = s.len();
    while b > a && is_whitespace(s[b - 1])
        invariant
            a <= b <= s@.len(),
            trim_start(s@) == s@.subrange(a as int, s@.len() as int),
            trim(s@) == trim_end(s@.subrange(a as int, b as int)),
        decreases b - a,
    {
        assert(s@.subrange(a as int, b as int).drop_last() =~= s@.subrange(a as int, b - 1));
        b = b - 1;
    }
    (a, b)
}

/// A hexadecimal sysfs attribute: trimmed, then any `0x` and `0X` prefixes
/// removed, no larger than `max`; the message names the field, the trimmed
/// text and the file.
pub open spec fn sysfs_hex(raw: Seq<char>, max: nat, field: Seq<char>, path: Seq<char>) -> Result<u64, Seq<char>> {
    let t = trim(raw);
    let n = strip_all(strip_all(t, "0x"@), "0X"@);
    match spec_parse_uint(n, 16, max) {
        Ok(v) => Ok(v as u64),
        Err(k) => Err("Invalid "@ + field + " value '"@ + t + "' in "@ + path + ": "@ + int_error_text(k)),
    }
}

/// Parses a hexadecimal sysfs attribute (see [`sysfs_hex`]).
pub fn parse_sysfs_hex(raw: &str, max: u64, field: &str, path: &str) -> (r: Result<u64, String>)
    ensures
        same_result(r, sysfs_hex(raw@, max as nat, field@, path@)),
        r matches Ok(v) ==> v <= max,
{
    let chars = str_chars(raw);
    let (a, b) = trim_bounds(&chars);
    let mut t: Vec<char> = Vec::new();
    let mut i: usize = a;
    while i < b
        invariant
            a <= i <= b <= chars@.len(),
            t@ == chars@.subrange(a as int, i as int),
        decreases b - i,
    {
        t.push(chars[i]);
        i = i + 1;
        assert(t@ =~= chars@.subrange(a as int, i as int));
    }
    let p1 = strip_all_from(&t, 0, "0x");
    assert(t@.subrange(0, t@.len() as int) =~= t@);
    let p2 = strip_all_from(&t, p1, "0X");
    let mut digits: Vec<char> = Vec::new();
    let mut j: usize = p2;
    while j < t.len()
        invariant
            p2 <= j <= t@.len(),
            digits@ == t@.subrange(p2 as int, j as int),
        decreases t.len() - j,
    {
        digits.push(t[j]);
        j = j + 1;
        assert(digits@ =~= t@.subrange(p2 as int, j as int));
    }
    proof {
        lemma_parse_uint_bounded(digits@, 16, max as nat);
    }
    match parse_uint(&digits, 16, max) {
        Ok(v) => Ok(v),
        Err(k) => {
            let mut m = String::new();
            push_str(&mut m, "Invalid ");
            push_str(&mut m, field);
            push_str(&mut m, " value '");
            push_chars(&mut m, &t);
            push_str(&mut m, "' in ");
            push_str(&mut m, path);
            push_str(&mut m, ": ");
            push_str(&mut m, crate::command::int_error_message(k));
            Err(m)
        },
    }
}

/// The passthrough devices of a configuration, each a PCI address; the
/// first that is not one fails.
pub open spec fn passthrough_prefix(devs: Seq<String>, k: int) -> Result<Seq<PciBdf>, Seq<char>>
    decreases k,
{
    if k <= 0 {
        Ok(Seq::empty())
    } else {
        match passthrough_prefix(devs, k - 1) {
            Err(m) => Err(m),
            Ok(bs) => match pci_bdf_of(devs[k - 1]@) {
                None => Err("Invalid PCI BDF '"@ + devs[k - 1]@ + "', expected bb:dd.f or dddd:bb:dd.f"@),
                Some(b) => Ok(bs.push(b)),
            },
        }
    }
}

proof fn lemma_passthrough_err(devs: Seq<String>, k: int, n: int)
    requires
        1 <= k <= n,
        passthrough_prefix(devs, k) is Err,
    ensures
        passthrough_prefix(devs, n) == passthrough_prefix(devs, k),
    decreases n - k,
{
    if k < n {
        lemma_passthrough_err(devs, k, n - 1);
    }
}

pub fn parse_passthrough_devices(devs: &Option<Vec<String>>) -> (r: Result<Vec<PciBdf>, String>)
    ensures
        match devs {
            None => r is Ok && r->Ok_0@.len() == 0,
            Some(d) => match passthrough_prefix(d@, d@.len() as int) {
                Ok(bs) => r is Ok && r->Ok_0@ == bs,
                Err(m) => r is Err && r->Err_0@ == m,
            },
        },
{
    match devs {
        None => Ok(Vec::new()),
        Some(d) => parse_bdf_list(d),
    }
}

fn parse_bdf_list(d: &Vec<String>) -> (r: Result<Vec<PciBdf>, String>)
    ensures
        match passthrough_prefix(d@, d@.len() as int) {
            Ok(bs) => r is Ok && r->Ok_0@ == bs,
            Err(m) => r is Err && r->Err_0@ == m,
        },
{
    let mut out: Vec<PciBdf> = Vec::new();
    let mut i: usize = 0;
    while i < d.len()
        invariant
            i <= d@.len(),
            passthrough_prefix(d@, i as int) == Ok::<Seq<PciBdf>, Seq<char>>(out@),
        decreases d.len() - i,
    {
        match parse_pci_bdf(d[i].as_str()) {
            Some(b) => out.push(b),
            None => {
                let mut m = String::new();
                push_str(&mut m, "Invalid PCI BDF '");
                push_str(&mut m, d[i].as_str());
                push_str(&mut m, "', expected bb:dd.f or dddd:bb:dd.f");
                proof {
                    assert(passthrough_prefix(d@, i as int + 1) == Err::<Seq<PciBdf>, Seq<char>>(m@));
                    lemma_passthrough_err(d@, i as int + 1, d@.len() as int);
                }
                return Err(m);
            },
        }
        i = i + 1;
    }
    Ok(out)
}

/// The VFIO settings in force: the configuration's, or defaults as soon as
/// there is a passthrough device, or none.
pub open spec fn vfio_requested(vfio: Option<VfioConfig>, passthrough_count: nat) -> Option<VfioConfig> {
    if vfio is Some {
        vfio
    } else if passthrough_count > 0 {
        Some(VfioConfig { iommu_group: None, guest_visible_bdf: None, iova_mode: None })
    } else {
        None
    }
}

pub fn vfio_request(vfio: Option<VfioConfig>, passthrough: &Vec<PciBdf>) -> (r: Option<VfioConfig>)
    ensures
        r == vfio_requested(vfio, passthrough@.len()),
{
    if vfio.is_some() {
        vfio
    } else if passthrough.len() > 0 {
        Some(VfioConfig { iommu_group: None, guest_visible_bdf: None, iova_mode: None })
    } else {
        None
    }
}

/// The host device of VFIO mode: the first passthrough device.
pub open spec fn vfio_host(pt: Seq<PciBdf>) -> Result<PciBdf, Seq<char>> {
    if pt.len() == 0 {
        Err("vfio metadata mode requires at least one passthrough-devices entry"@)
    } else {
        Ok(pt[0])
    }
}

pub fn vfio_host_device(pt: &Vec<PciBdf>) -> (r: Result<PciBdf, String>)
    ensures
        same_result(r, vfio_host(pt@)),
{
    if pt.len() == 0 {
        Err(str_string("vfio metadata mode requires at least one passthrough-devices entry"))
    } else {
        Ok(pt[0])
    }
}

/// The host device must be bound to `vfio-pci`.
pub open spec fn vfio_driver_check(driver: Seq<char>) -> Result<(), Seq<char>> {
    if driver == "vfio-pci"@ {
        Ok(())
    } else {
        Err("Host PCI device must be bound to 'vfio-pci', current driver is '"@ + driver + "'"@)
    }
}

pub fn check_vfio_driver(driver: &str) -> (r: Result<(), String>)
    ensures
        same_result(r, vfio_driver_check(driver@)),
{
    let d = str_chars(driver);
    if crate::text::chars_eq_str(&d, "vfio-pci") {
        Ok(())
    } else {
        let mut m = String::new();
        push_str(&mut m, "Host PCI device must be bound to 'vfio-pci', current driver is '");
        push_str(&mut m, driver);
        push_str(&mut m, "'");
        Err(m)
    }
}

/// The IOMMU group named by the `iommu_group` link's target.
pub open spec fn iommu_group_of(name: Seq<char>) -> Result<u32, Seq<char>> {
    match spec_parse_uint(name, 10, u32::MAX as nat) {
        Ok(v) => Ok(v as u32),
        Err(k) => Err("Invalid iommu_group id '"@ + name + "': "@ + int_error_text(k)),
    }
}

pub fn parse_iommu_group_id(name: &str) -> (r: Result<u32, String>)
    ensures
        same_result(r, iommu_group_of(name@)),
{
    let c = str_chars(name);
    proof {
        lemma_parse_uint_bounded(c@, 10, u32::MAX as nat);
    }
    match parse_uint(&c, 10, u32::MAX as u64) {
        Ok(v) => Ok(v as u32),
        Err(k) => {
            let mut m = String::new();
            push_str(&mut m, "Invalid iommu_group id '");
            push_str(&mut m, name);
            push_str(&mut m, "': ");
            push_str(&mut m, crate::command::int_error_message(k));
            Err(m)
        },
    }
}

/// The guest-visible address (`0000:00:00.0` when not given) and the IOVA
/// mode (GPA identity when not given) of the VFIO settings.
pub open spec fn vfio_guest(cfg: VfioConfig) -> Result<(PciBdf, IovaMode), Seq<char>> {
    let bdf = match cfg.guest_visible_bdf {
        Some(b) => match pci_bdf_of(b@) {
            Some(x) => Ok(x),
            None => Err("Invalid vfio.guest-visible-bdf '"@ + b@ + "', expected bb:dd.f or dddd:bb:dd.f"@),
        },
        None => Ok(PciBdf { domain: 0, bus: 0, device: 0, function: 0 }),
    };
    match bdf {
        Err(m) => Err(m),
        Ok(x) => match cfg.iova_mode {
            Some(m) => match iova_mode_of(m@) {
                Some(mode) => Ok((x, mode)),
                None => Err("Invalid vfio.iova-mode '"@ + m@ + "', only 'gpa-identity' is supported"@),
            },
            None => Ok((x, IovaMode::GpaIdentity)),
        },
    }
}

pub fn vfio_guest_settings(cfg: &VfioConfig) -> (r: Result<(PciBdf, IovaMode), String>)
    ensures
        same_result(r, vfio_guest(*cfg)),
{
    let bdf = match &cfg.guest_visible_bdf {
        Some(b) => match parse_pci_bdf(b.as_str()) {
            Some(x) => x,
            None => {
                let mut m = String::new();
                push_str(&mut m, "Invalid vfio.guest-visible-bdf '");
                push_str(&mut m, b.as_str());
                push_str(&mut m, "', expected bb:dd.f or dddd:bb:dd.f");
                return Err(m);
            },
        },
        None => PciBdf { domain: 0, bus: 0, device: 0, function: 0 },
    };
    match &cfg.iova_mode {
        Some(m) => match parse_iova_mode(m.as_str()) {
            Some(mode) => Ok((bdf, mode)),
            None => {
                let mut e = String::new();
                push_str(&mut e, "Invalid vfio.iova-mode '");
                push_str(&mut e, m.as_str());
                push_str(&mut e, "', only 'gpa-identity' is supported");
                Err(e)
            },
        },
        None => Ok((bdf, IovaMode::GpaIdentity)),
    }
}

} // verus!

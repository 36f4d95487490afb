//! Character-level text handling: whitespace tokenizing, integer parsing with
//! the standard library's rules, and decimal / hexadecimal rendering.
use vstd::prelude::*;

verus! {

/// Appends one character to a string (`String::push`).
#[verifier::external_body]
pub(crate) fn push_char(s: &mut String, c: char)
    ensures
        final(s)@ == old(s)@.push(c),
{
    s.push(c);
}

/// Appends a string slice to a string (`String::push_str`).
pub fn push_str(s: &mut String, t: &str)
    ensures
        final(s)@ == old(s)@ + t@,
{
    s.append(t);
}

/// The characters of a string slice, in order.
pub fn str_chars(s: &str) -> (v: Vec<char>)
    ensures
        v@ == s@,
{
    let n = s.unicode_len();
    let mut v: Vec<char> = Vec::new();
    let mut i: usize = 0;
    while i < n
        invariant
            n == s@.len(),
            i <= n,
            v@ == s@.subrange(0, i as int),
        decreases n - i,
    {
        let c = s.get_char(i);
        v.push(c);
        i = i + 1;
        assert(v@ =~= s@.subrange(0, i as int));
    }
    assert(v@ =~= s@);
    v
}

/// A string holding exactly the given characters.
pub fn string_from_chars(v: &Vec<char>) -> (s: String)
    ensures
        s@ == v@,
{
    let mut s = String::new();
    let mut i: usize = 0;
    while i < v.len()
        invariant
            i <= v.len(),
            s@ == v@.subrange(0, i as int),
        decreases v.len() - i,
    {
        push_char(&mut s, v[i]);
        i = i + 1;
        assert(s@ =~= v@.subrange(0, i as int));
    }
    assert(s@ =~= v@);
    s
}

/// Whether two character sequences are equal, one of them given as a `str`.
pub fn chars_eq_str(a: &Vec<char>, b: &str) -> (r: bool)
    ensures
        r == (a@ == b@),
{
    let n = b.unicode_len();
    if a.len() != n {
        return false;
    }
    let mut i: usize = 0;
    while i < n
        invariant
            n == b@.len(),
            a@.len() == n,
            i <= n,
            forall|j: int| 0 <= j < i ==> a@[j] == b@[j],
        decreases n - i,
    {
        if a[i] != b.get_char(i) {
            return false;
        }
        i = i + 1;
    }
    assert(a@ =~= b@);
    true
}

/// `char::is_whitespace`: the characters with the Unicode `White_Space` property.
pub open spec fn spec_is_whitespace(c: char) -> bool {
    let u = c as u32;
    ||| 0x9 <= u <= 0xd
    ||| u == 0x20
    ||| u == 0x85
    ||| u == 0xa0
    ||| u == 0x1680
    ||| 0x2000 <= u <= 0x200a
    ||| u == 0x2028
    ||| u == 0x2029
    ||| u == 0x202f
    ||| u == 0x205f
    ||| u == 0x3000
}

pub fn is_whitespace(c: char) -> (r: bool)
    ensures
        r == spec_is_whitespace(c),
{
    let u = c as u32;
    (0x9 <= u && u <= 0xd) || u == 0x20 || u == 0x85 || u == 0xa0 || u == 0x1680 || (0x2000
        <= u && u <= 0x200a) || u == 0x2028 || u == 0x2029 || u == 0x202f || u == 0x205f || u
        == 0x3000
}

/// Splitting state after reading a prefix: the words completed so far and the
/// word being read.
pub open spec fn split_state(s: Seq<char>) -> (Seq<Seq<char>>, Seq<char>)
    decreases s.len(),
{
    if s.len() == 0 {
        (Seq::empty(), Seq::empty())
    } else {
        let (done, cur) = split_state(s.drop_last());
        let c = s.last();
        if spec_is_whitespace(c) {
            if cur.len() > 0 {
                (done.push(cur), Seq::empty())
            } else {
                (done, Seq::empty())
            }
        } else {
            (done, cur.push(c))
        }
    }
}

/// `str::split_whitespace`: the maximal runs of non-whitespace characters.
pub open spec fn words(s: Seq<char>) -> Seq<Seq<char>> {
    let (done, cur) = split_state(s);
    if cur.len() > 0 {
        done.push(cur)
    } else {
        done
    }
}

/// A line that is empty or ends with whitespace has no word in progress.
pub proof fn lemma_split_state_idle(s: Seq<char>)
    requires
        s.len() == 0 || spec_is_whitespace(s.last()),
    ensures
        split_state(s).1.len() == 0,
{
}

proof fn lemma_split_state_append_word(s: Seq<char>, w: Seq<char>, k: int)
    requires
        split_state(s).1.len() == 0,
        0 <= k <= w.len(),
        forall|i: int| 0 <= i < w.len() ==> !spec_is_whitespace(#[trigger] w[i]),
    ensures
        split_state(s + w.subrange(0, k)) == (split_state(s).0, w.subrange(0, k)),
    decreases k,
{
    if k == 0 {
        assert(s + w.subrange(0, 0) =~= s);
        assert(split_state(s).1 =~= w.subrange(0, 0));
    } else {
        lemma_split_state_append_word(s, w, k - 1);
        assert((s + w.subrange(0, k)).drop_last() =~= s + w.subrange(0, k - 1));
        assert((s + w.subrange(0, k)).last() == w[k - 1]);
        assert(w.subrange(0, k - 1).push(w[k - 1]) =~= w.subrange(0, k));
    }
}

/// Appending a word right after whitespace (or to an empty line) adds
/// exactly that word.
pub proof fn lemma_words_append_word(s: Seq<char>, w: Seq<char>)
    requires
        s.len() == 0 || spec_is_whitespace(s.last()),
        w.len() > 0,
        forall|i: int| 0 <= i < w.len() ==> !spec_is_whitespace(#[trigger] w[i]),
    ensures
        words(s + w) == words(s).push(w),
{
    lemma_split_state_idle(s);
    lemma_split_state_append_word(s, w, w.len() as int);
    assert(w.subrange(0, w.len() as int) =~= w);
}

/// Appending a space completes the word in progress and adds none.
pub proof fn lemma_words_append_space(s: Seq<char>)
    ensures
        words(s.push(' ')) == words(s),
        split_state(s.push(' ')).1.len() == 0,
{
    assert(s.push(' ').drop_last() =~= s);
}

pub fn split_whitespace(s: &Vec<char>) -> (r: Vec<Vec<char>>)
    ensures
        r@.len() == words(s@).len(),
        forall|i: int| 0 <= i < r@.len() ==> #[trigger] r@[i]@ == words(s@)[i],
{
    let mut done: Vec<Vec<char>> = Vec::new();
    let mut cur: Vec<char> = Vec::new();
    let mut i: usize = 0;
    while i < s.len()
        invariant
            i <= s.len(),
            done@.len() == split_state(s@.subrange(0, i as int)).0.len(),
            forall|k: int|
                0 <= k < done@.len() ==> #[trigger] done@[k]@ == split_state(
                    s@.subrange(0, i as int),
                ).0[k],
            cur@ == split_state(s@.subrange(0, i as int)).1,
        decreases s.len() - i,
    {
        let c = s[i];
        proof {
            assert(s@.subrange(0, i as int + 1).drop_last() =~= s@.subrange(0, i as int));
        }
        if is_whitespace(c) {
            if cur.len() > 0 {
                done.push(cur);
                cur = Vec::new();
            }
        } else {
            cur.push(c);
        }
        i = i + 1;
    }
    assert(s@.subrange(0, s@.len() as int) =~= s@);
    if cur.len() > 0 {
        done.push(cur);
    }
    done
}

/// The error kinds of the standard integer parser.
#[derive(Clone, Copy, Debug, PartialEq, Eq, Structural)]
pub enum IntErrorKind {
    /// The input was empty.
    Empty,
    /// The input held a character that is not a digit of the radix.
    InvalidDigit,
    /// The value does not fit in the target type.
    PosOverflow,
}

/// Value of a digit character in radix 10 or 16.
pub open spec fn spec_digit(c: char, radix: nat) -> Option<nat> {
    if '0' <= c && c <= '9' {
        Some((c as nat - '0' as nat) as nat)
    } else if radix == 16 && 'a' <= c && c <= 'f' {
        Some((c as nat - 'a' as nat + 10) as nat)
    } else if radix == 16 && 'A' <= c && c <= 'F' {
        Some((c as nat - 'A' as nat + 10) as nat)
    } else {
        None
    }
}

/// Reads the digits left to right, failing at the first character that is
/// not a digit or at the first step that exceeds `max`.
pub open spec fn scan_digits(d: Seq<char>, radix: nat, max: nat) -> Result<nat, IntErrorKind>
    decreases d.len(),
{
    if d.len() == 0 {
        Ok(0)
    } else {
        match scan_digits(d.drop_last(), radix, max) {
            Err(e) => Err(e),
            Ok(v) => match spec_digit(d.last(), radix) {
                None => Err(IntErrorKind::InvalidDigit),
                Some(x) => if v * radix + x > max {
                    Err(IntErrorKind::PosOverflow)
                } else {
                    Ok(v * radix + x)
                },
            },
        }
    }
}

/// `from_str_radix` for an unsigned type whose largest value is `max`: an
/// optional leading `+`, then at least one digit.
pub open spec fn spec_parse_uint(s: Seq<char>, radix: nat, max: nat) -> Result<
    nat,
    IntErrorKind,
> {
    if s.len() == 0 {
        Err(IntErrorKind::Empty)
    } else if s.len() == 1 && (s[0] == '+' || s[0] == '-') {
        Err(IntErrorKind::InvalidDigit)
    } else if s[0] == '+' {
        scan_digits(s.drop_first(), radix, max)
    } else {
        scan_digits(s, radix, max)
    }
}

proof fn lemma_scan_bounded(d: Seq<char>, radix: nat, max: nat)
    ensures
        scan_digits(d, radix, max) matches Ok(v) ==> v <= max,
    decreases d.len(),
{
    if d.len() > 0 {
        lemma_scan_bounded(d.drop_last(), radix, max);
    }
}

/// A parsed value never exceeds the bound it was parsed against.
pub proof fn lemma_parse_uint_bounded(s: Seq<char>, radix: nat, max: nat)
    ensures
        spec_parse_uint(s, radix, max) matches Ok(v) ==> v <= max,
{
    if s.len() > 0 {
        lemma_scan_bounded(s, radix, max);
        lemma_scan_bounded(s.drop_first(), radix, max);
    }
}

fn digit(c: char, radix: u32) -> (r: Option<u32>)
    requires
        radix == 10 || radix == 16,
    ensures
        r matches Some(x) ==> spec_digit(c, radix as nat) == Some(x as nat) && x < radix,
        r is None ==> spec_digit(c, radix as nat) is None,
{
    if '0' <= c && c <= '9' {
        Some((c as u32) - ('0' as u32))
    } else if radix == 16 && 'a' <= c && c <= 'f' {
        Some((c as u32) - ('a' as u32) + 10)
    } else if radix == 16 && 'A' <= c && c <= 'F' {
        Some((c as u32) - ('A' as u32) + 10)
    } else {
        None
    }
}

/// Parses an unsigned integer no larger than `max` in radix 10 or 16.
pub fn parse_uint(s: &Vec<char>, radix: u32, max: u64) -> (r: Result<u64, IntErrorKind>)
    requires
        radix == 10 || radix == 16,
    ensures
        match spec_parse_uint(s@, radix as nat, max as nat) {
            Ok(v) => r == Ok::<u64, IntErrorKind>(v as u64),
            Err(e) => r == Err::<u64, IntErrorKind>(e),
        },
{
    if s.len() == 0 {
        return Err(IntErrorKind::Empty);
    }
    if s.len() == 1 && (s[0] == '+' || s[0] == '-') {
        return Err(IntErrorKind::InvalidDigit);
    }
    let start: usize = if s[0] == '+' {
        1
    } else {
        0
    };
    let ghost d = s@.subrange(start as int, s@.len() as int);
    proof {
        if start == 1 {
            assert(d =~= s@.drop_first());
        } else {
            assert(d =~= s@);
        }
        assert(spec_parse_uint(s@, radix as nat, max as nat) == scan_digits(d, radix as nat, max as nat));
    }
    let mut v: u128 = 0;
    let mut i: usize = start;
    while i < s.len()
        invariant
            start <= i <= s.len(),
            d == s@.subrange(start as int, s@.len() as int),
            spec_parse_uint(s@, radix as nat, max as nat) == scan_digits(d, radix as nat, max as nat),
            radix == 10 || radix == 16,
            scan_digits(s@.subrange(start as int, i as int), radix as nat, max as nat) == Ok::<
                nat,
                IntErrorKind,
            >(v as nat),
            v <= max,
        decreases s.len() - i,
    {
        let ghost pre = s@.subrange(start as int, i as int);
        let ghost next = s@.subrange(start as int, i as int + 1);
        proof {
            assert(next.drop_last() =~= pre);
        }
        match digit(s[i], radix) {
            None => {
                proof {
                    assert(next.last() == s@[i as int]);
                    assert(scan_digits(next, radix as nat, max as nat) == Err::<nat, IntErrorKind>(
                        IntErrorKind::InvalidDigit,
                    ));
                    assert(d.subrange(0, (i - start) as int + 1) =~= next);
                    lemma_scan_prefix_err(d, (i - start) as nat, radix as nat, max as nat,
                        IntErrorKind::InvalidDigit);
                }
                return Err(IntErrorKind::InvalidDigit);
            },
            Some(x) => {
                proof {
                    assert(v * radix <= 0xffff_ffff_ffff_ffffu128 * 16) by (nonlinear_arith)
                        requires
                            v <= 0xffff_ffff_ffff_ffffu128,
                            radix <= 16,
                    ;
                    assert(next.last() == s@[i as int]);
                }
                let nv: u128 = v * (radix as u128) + (x as u128);
                if nv > max as u128 {
                    proof {
                        assert(scan_digits(next, radix as nat, max as nat) == Err::<
                            nat,
                            IntErrorKind,
                        >(IntErrorKind::PosOverflow));
                        assert(d.subrange(0, (i - start) as int + 1) =~= next);
                        lemma_scan_prefix_err(d, (i - start) as nat, radix as nat, max as nat,
                            IntErrorKind::PosOverflow);
                    }
                    return Err(IntErrorKind::PosOverflow);
                }
                v = nv;
            },
        }
        i = i + 1;
    }
    assert(s@.subrange(start as int, s@.len() as int) =~= d);
    Ok(v as u64)
}

/// Once a prefix of the digits fails, the whole scan fails the same way.
proof fn lemma_scan_prefix_err(d: Seq<char>, k: nat, radix: nat, max: nat, e: IntErrorKind)
    requires
        k < d.len(),
        scan_digits(d.subrange(0, k as int + 1), radix, max) == Err::<nat, IntErrorKind>(e),
    ensures
        scan_digits(d, radix, max) == Err::<nat, IntErrorKind>(e),
    decreases d.len(),
{
    if k + 1 == d.len() {
        assert(d.subrange(0, k as int + 1) =~= d);
    } else {
        assert(d.drop_last().subrange(0, k as int + 1) =~= d.subrange(0, k as int + 1));
        lemma_scan_prefix_err(d.drop_last(), k, radix, max, e);
    }
}

/// The character of a digit value below 16 (lower-case letters above 9).
pub open spec fn spec_digit_char(d: nat) -> char {
    if d < 10 {
        (d + 48) as char
    } else {
        (d - 10 + 97) as char
    }
}

fn digit_char(d: u64) -> (c: char)
    requires
        d < 16,
    ensures
        c == spec_digit_char(d as nat),
{
    if d < 10 {
        ((d + 48) as u8) as char
    } else {
        ((d - 10 + 97) as u8) as char
    }
}

/// Digits of `n` in `radix` without leading zeros (`0` for zero).
pub open spec fn digits(n: nat, radix: nat) -> Seq<char>
    decreases n,
{
    if radix < 2 || n < radix {
        seq![spec_digit_char(n)]
    } else {
        proof {
            assert(n / radix < n) by (nonlinear_arith)
                requires
                    radix >= 2,
                    n >= radix,
            ;
        }
        digits(n / radix, radix).push(spec_digit_char(n % radix))
    }
}

/// `{}` of an unsigned integer.
pub open spec fn dec(n: nat) -> Seq<char> {
    digits(n, 10)
}

/// `{:#x}` of an unsigned integer.
pub open spec fn hex(n: nat) -> Seq<char> {
    seq!['0', 'x'] + digits(n, 16)
}

/// `{}` of a signed integer.
pub open spec fn int_text(n: int) -> Seq<char> {
    if n < 0 {
        seq!['-'] + dec((-n) as nat)
    } else {
        dec(n as nat)
    }
}

fn push_digits(s: &mut String, n: u64, radix: u64)
    requires
        radix == 10 || radix == 16,
    ensures
        final(s)@ == old(s)@ + digits(n as nat, radix as nat),
    decreases n,
{
    if n >= radix {
        push_digits(s, n / radix, radix);
    }
    push_char(s, digit_char(n % radix));
    proof {
        if n >= radix {
            assert(final(s)@ =~= old(s)@ + digits(n as nat, radix as nat));
        } else {
            assert(final(s)@ =~= old(s)@ + digits(n as nat, radix as nat));
        }
    }
}

/// Appends the decimal form of `n`.
pub fn push_dec(s: &mut String, n: u64)
    ensures
        final(s)@ == old(s)@ + dec(n as nat),
{
    push_digits(s, n, 10);
}

/// Appends the `0x`-prefixed lower-case hexadecimal form of `n`.
pub fn push_hex(s: &mut String, n: u64)
    ensures
        final(s)@ == old(s)@ + hex(n as nat),
{
    push_char(s, '0');
    push_char(s, 'x');
    push_digits(s, n, 16);
    assert(final(s)@ =~= old(s)@ + hex(n as nat));
}

/// Appends the decimal form of a signed integer.
pub fn push_int(s: &mut String, n: i64)
    ensures
        final(s)@ == old(s)@ + int_text(n as int),
{
    if n < 0 {
        push_char(s, '-');
        let m: u64 = if n == i64::MIN {
            0x8000_0000_0000_0000u64
        } else {
            (-n) as u64
        };
        push_digits(s, m, 10);
        assert(final(s)@ =~= old(s)@ + int_text(n as int));
    } else {
        push_digits(s, n as u64, 10);
    }
}

/// The decimal form of `n` as a new string.
pub fn dec_string(n: u64) -> (s: String)
    ensures
        s@ == dec(n as nat),
{
    let mut s = String::new();
    push_dec(&mut s, n);
    assert(s@ =~= dec(n as nat));
    s
}

/// How a byte is shown in a C-style escaped string: printable ASCII and
/// space as themselves, anything else as a backslash and three octal
/// digits.
pub open spec fn escaped_byte(b: u8) -> Seq<char> {
    if 0x20 <= b <= 0x7e {
        seq![b as char]
    } else {
        seq!['\\', ((b / 64) + 48) as char, (((b / 8) % 8) + 48) as char, ((b % 8) + 48) as char]
    }
}

/// The escaped form of a byte string, byte by byte.
pub open spec fn escaped(bytes: Seq<u8>) -> Seq<char>
    decreases bytes.len(),
{
    if bytes.len() == 0 {
        Seq::empty()
    } else {
        escaped(bytes.drop_last()) + escaped_byte(bytes.last())
    }
}

/// Renders bytes C-style for logs (see [`escaped`]).
pub fn escape_c_string_style(bytes: &[u8]) -> (r: String)
    ensures
        r@ == escaped(bytes@),
{
    let mut s = String::new();
    let mut i: usize = 0;
    while i < bytes.len()
        invariant
            i <= bytes@.len(),
            s@ == escaped(bytes@.subrange(0, i as int)),
        decreases bytes@.len() - i,
    {
        let b = bytes[i];
        if 0x20 <= b && b <= 0x7e {
            push_char(&mut s, b as char);
        } else {
            push_char(&mut s, '\\');
            push_char(&mut s, ((b / 64) + 48) as char);
            push_char(&mut s, (((b / 8) % 8) + 48) as char);
            push_char(&mut s, ((b % 8) + 48) as char);
        }
        proof {
            assert(bytes@.subrange(0, i as int + 1).drop_last() =~= bytes@.subrange(0, i as int));
            assert(s@ =~= escaped(bytes@.subrange(0, i as int + 1)));
        }
        i = i + 1;
    }
    proof {
        assert(bytes@.subrange(0, bytes@.len() as int) =~= bytes@);
    }
    s
}

} // verus!

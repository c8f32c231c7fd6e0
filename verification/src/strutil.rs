//! Verified helpers on strings: equality, ASCII case-insensitive matching,
//! decimal and boolean parsing, path joining and a hexadecimal codec.

use vstd::prelude::*;
use vstd::string::StrSliceExecFns;
use vstd::string::StringExecFns;

verus! {

/// Character-wise equality of two string slices.
pub fn str_eq(a: &str, b: &str) -> (r: bool)
    ensures
        r == (a@ == b@),
{
    let alen = a.unicode_len();
    let blen = b.unicode_len();
    if alen != blen {
        return false;
    }
    let mut i: usize = 0;
    while i < alen
        invariant
            i <= alen,
            alen == a@.len(),
            alen == b@.len(),
            forall|j: int| 0 <= j < i ==> a@[j] == b@[j],
        decreases alen - i,
    {
        if a.get_char(i) != b.get_char(i) {
            return false;
        }
        i += 1;
    }
    proof {
        assert(a@ =~= b@);
    }
    true
}

/// A character of the examined string matches the corresponding character of
/// a lowercase pattern, up to ASCII case folding of the examined character.
pub open spec fn ci_eq(a: char, b: char) -> bool {
    a == b || ('A' <= a && a <= 'Z' && a as u32 + 32 == b as u32)
}

/// The examined string equals the (lowercase) pattern after ASCII-lowercasing.
pub open spec fn matches_ci(s: Seq<char>, t: Seq<char>) -> bool {
    s.len() == t.len() && forall|i: int| 0 <= i < s.len() ==> ci_eq(s[i], #[trigger] t[i])
}

/// Case-insensitive comparison of `s` against a lowercase pattern `t`.
pub fn str_eq_ci(s: &str, t: &str) -> (r: bool)
    ensures
        r == matches_ci(s@, t@),
{
    let slen = s.unicode_len();
    let tlen = t.unicode_len();
    if slen != tlen {
        return false;
    }
    let mut i: usize = 0;
    while i < slen
        invariant
            i <= slen,
            slen == s@.len(),
            slen == t@.len(),
            forall|j: int| 0 <= j < i ==> ci_eq(s@[j], #[trigger] t@[j]),
        decreases slen - i,
    {
        let a = s.get_char(i);
        let b = t.get_char(i);
        if !(a == b || ('A' <= a && a <= 'Z' && (a as u32) + 32 == b as u32)) {
            return false;
        }
        i += 1;
    }
    true
}

/// The boolean value a configuration string denotes: the words `true` and
/// `false`, compared after ASCII case folding.
pub open spec fn bool_token(s: Seq<char>) -> Option<bool> {
    if matches_ci(s, "true"@) {
        Some(true)
    } else if matches_ci(s, "false"@) {
        Some(false)
    } else {
        None
    }
}

/// Parses a configuration boolean: `true`/`false` up to ASCII case.
pub fn parse_bool(s: &str) -> (r: Option<bool>)
    ensures
        r == bool_token(s@),
{
    if str_eq_ci(s, "true") {
        Some(true)
    } else if str_eq_ci(s, "false") {
        Some(false)
    } else {
        None
    }
}

/// An ASCII decimal digit.
pub open spec fn is_dec_digit(c: char) -> bool {
    '0' <= c && c <= '9'
}

/// A non-empty, all-digit character sequence.
pub open spec fn dec_digits(s: Seq<char>) -> bool {
    s.len() > 0 && forall|i: int| 0 <= i < s.len() ==> is_dec_digit(#[trigger] s[i])
}

/// Value of a decimal digit string, most significant digit first.
pub open spec fn dec_val(s: Seq<char>) -> int
    decreases s.len(),
{
    if s.len() == 0 {
        0
    } else {
        dec_val(s.drop_last()) * 10 + (s.last() as int - '0' as int)
    }
}

/// The digit part of an unsigned decimal token: an optional leading `+` is
/// not part of the value.
pub open spec fn u32_digits(s: Seq<char>) -> Seq<char> {
    if s.len() > 0 && s[0] == '+' {
        s.skip(1)
    } else {
        s
    }
}

/// The `u32` a string denotes, the way `str::parse::<u32>` reads it: an
/// optional leading `+`, then one or more ASCII digits, no overflow.
pub open spec fn u32_token(s: Seq<char>) -> Option<u32> {
    let d = u32_digits(s);
    if dec_digits(d) && dec_val(d) <= u32::MAX {
        Some(dec_val(d) as u32)
    } else {
        None
    }
}

proof fn lemma_dec_val_bounds(s: Seq<char>)
    requires
        forall|i: int| 0 <= i < s.len() ==> is_dec_digit(#[trigger] s[i]),
    ensures
        dec_val(s) >= 0,
    decreases s.len(),
{
    if s.len() > 0 {
        lemma_dec_val_bounds(s.drop_last());
    }
}

/// A digit string's value only grows when more digits follow.
proof fn lemma_dec_val_prefix_le(s: Seq<char>, i: int)
    requires
        0 <= i <= s.len(),
        forall|j: int| 0 <= j < s.len() ==> is_dec_digit(#[trigger] s[j]),
    ensures
        dec_val(s.take(i)) <= dec_val(s),
    decreases s.len() - i,
{
    if i == s.len() {
        assert(s.take(i) =~= s);
    } else {
        assert(s.take(i + 1).drop_last() =~= s.take(i));
        assert(s.take(i + 1).last() == s[i]);
        lemma_dec_val_bounds(s.take(i));
        assert(dec_val(s.take(i + 1)) == dec_val(s.take(i)) * 10 + (s[i] as int - '0' as int));
        assert(dec_val(s.take(i)) <= dec_val(s.take(i + 1)));
        lemma_dec_val_prefix_le(s, i + 1);
    }
}

/// Parses an unsigned 32-bit decimal number the way `str::parse::<u32>` does.
pub fn parse_u32(s: &str) -> (r: Option<u32>)
    ensures
        r == u32_token(s@),
{
    let n = s.unicode_len();
    let start: usize = if n > 0 && s.get_char(0) == '+' {
        1
    } else {
        0
    };
    proof {
        assert(u32_digits(s@) =~= s@.skip(start as int));
    }
    if start >= n {
        assert(!dec_digits(u32_digits(s@)));
        return None;
    }
    let ghost d = s@.skip(start as int);
    let mut acc: u32 = 0;
    let mut i: usize = start;
    while i < n
        invariant
            start <= i <= n,
            n == s@.len(),
            start < n,
            d == s@.skip(start as int),
            d == u32_digits(s@),
            forall|j: int| start <= j < i ==> is_dec_digit(#[trigger] s@[j]),
            acc as int == dec_val(s@.subrange(start as int, i as int)),
        decreases n - i,
    {
        let c = s.get_char(i);
        if !('0' <= c && c <= '9') {
            proof {
                assert(d[i - start] == s@[i as int]);
                assert(!is_dec_digit(d[i - start]));
                assert(!dec_digits(d));
            }
            return None;
        }
        let dv: u32 = (c as u32) - 48;
        proof {
            assert(s@.subrange(start as int, i + 1).drop_last() =~= s@.subrange(
                start as int,
                i as int,
            ));
            assert(s@.subrange(start as int, i + 1).last() == s@[i as int]);
        }
        if acc > (u32::MAX - dv) / 10 {
            proof {
                assert(dec_val(s@.subrange(start as int, i + 1)) == acc as int * 10 + dv) by {
                    assert(dec_val(s@.subrange(start as int, i + 1)) == dec_val(
                        s@.subrange(start as int, i as int),
                    ) * 10 + (s@[i as int] as int - '0' as int));
                };
                assert(acc as int * 10 + dv > u32::MAX) by (nonlinear_arith)
                    requires
                        acc > (u32::MAX - dv) / 10,
                        0 <= dv <= 9,
                        acc >= 0,
                ;
                if dec_digits(d) {
                    assert(d =~= s@.subrange(start as int, n as int));
                    lemma_dec_val_prefix_le(d, i + 1 - start);
                    assert(d.take(i + 1 - start) =~= s@.subrange(start as int, i + 1));
                    assert(dec_val(d) > u32::MAX);
                }
            }
            return None;
        }
        proof {
            assert(acc * 10 + dv <= u32::MAX) by (nonlinear_arith)
                requires
                    acc <= (u32::MAX - dv) / 10,
                    0 <= dv <= 9,
                    acc >= 0,
            ;
        }
        acc = acc * 10 + dv;
        i += 1;
    }
    proof {
        assert(s@.subrange(start as int, n as int) =~= d);
        assert(dec_digits(d));
        assert(u32_token(s@) == Some(acc));
    }
    Some(acc)
}

/// The result of joining a relative file name under a directory with a single
/// `/` separator, as path `join` does for relative right-hand sides.
pub open spec fn joined_path(dir: Seq<char>, rel: Seq<char>) -> Seq<char> {
    if dir.len() == 0 {
        rel
    } else if dir.last() == '/' {
        dir + rel
    } else {
        dir + "/"@ + rel
    }
}

/// Joins a relative file name under a directory.
pub fn path_join(dir: &str, rel: &str) -> (r: String)
    ensures
        r@ == joined_path(dir@, rel@),
{
    let n = dir.unicode_len();
    if n == 0 {
        return rel.to_owned();
    }
    let mut out = dir.to_owned();
    if dir.get_char(n - 1) != '/' {
        out.append("/");
    }
    out.append(rel);
    out
}

/// Lowercase hexadecimal digit for a value below 16.
pub open spec fn hex_digit_char(d: int) -> char {
    if d == 0 {
        '0'
    } else if d == 1 {
        '1'
    } else if d == 2 {
        '2'
    } else if d == 3 {
        '3'
    } else if d == 4 {
        '4'
    } else if d == 5 {
        '5'
    } else if d == 6 {
        '6'
    } else if d == 7 {
        '7'
    } else if d == 8 {
        '8'
    } else if d == 9 {
        '9'
    } else if d == 10 {
        'a'
    } else if d == 11 {
        'b'
    } else if d == 12 {
        'c'
    } else if d == 13 {
        'd'
    } else if d == 14 {
        'e'
    } else {
        'f'
    }
}

/// Two lowercase hexadecimal digits of one byte.
pub open spec fn byte_hex(b: u8) -> Seq<char> {
    seq![hex_digit_char(b as int / 16), hex_digit_char(b as int % 16)]
}

/// Lowercase hexadecimal rendering of a byte string.
pub open spec fn hex_of(bs: Seq<u8>) -> Seq<char>
    decreases bs.len(),
{
    if bs.len() == 0 {
        Seq::empty()
    } else {
        hex_of(bs.drop_last()) + byte_hex(bs.last())
    }
}

fn hex_digit_str(d: u8) -> (r: &'static str)
    requires
        d < 16,
    ensures
        r@ =~= seq![hex_digit_char(d as int)],
{
    proof {
        reveal_strlit("0");
        reveal_strlit("1");
        reveal_strlit("2");
        reveal_strlit("3");
        reveal_strlit("4");
        reveal_strlit("5");
        reveal_strlit("6");
        reveal_strlit("7");
        reveal_strlit("8");
        reveal_strlit("9");
        reveal_strlit("a");
        reveal_strlit("b");
        reveal_strlit("c");
        reveal_strlit("d");
        reveal_strlit("e");
        reveal_strlit("f");
    }
    if d == 0 {
        "0"
    } else if d == 1 {
        "1"
    } else if d == 2 {
        "2"
    } else if d == 3 {
        "3"
    } else if d == 4 {
        "4"
    } else if d == 5 {
        "5"
    } else if d == 6 {
        "6"
    } else if d == 7 {
        "7"
    } else if d == 8 {
        "8"
    } else if d == 9 {
        "9"
    } else if d == 10 {
        "a"
    } else if d == 11 {
        "b"
    } else if d == 12 {
        "c"
    } else if d == 13 {
        "d"
    } else if d == 14 {
        "e"
    } else {
        "f"
    }
}

/// Renders a byte string as lowercase hexadecimal text.
pub fn hex_encode(v: &Vec<u8>) -> (r: String)
    ensures
        r@ == hex_of(v@),
{
    let mut out = String::new();
    let mut i: usize = 0;
    while i < v.len()
        invariant
            i <= v@.len(),
            out@ == hex_of(v@.take(i as int)),
        decreases v@.len() - i,
    {
        let b = v[i];
        out.append(hex_digit_str(b / 16));
        out.append(hex_digit_str(b % 16));
        proof {
            assert(v@.take(i + 1).drop_last() =~= v@.take(i as int));
            assert(v@.take(i + 1).last() == v@[i as int]);
            assert(out@ =~= hex_of(v@.take(i + 1)));
        }
        i += 1;
    }
    proof {
        assert(v@.take(v@.len() as int) =~= v@);
    }
    out
}

/// A lowercase hexadecimal digit character.
pub open spec fn is_hex_char(c: char) -> bool {
    ('0' <= c && c <= '9') || ('a' <= c && c <= 'f')
}

/// Value of one lowercase hexadecimal digit.
pub open spec fn hex_char_val(c: char) -> int {
    if '0' <= c && c <= '9' {
        c as int - '0' as int
    } else {
        c as int - 'a' as int + 10
    }
}

/// Well-formed lowercase hexadecimal text: even length, every character a digit.
pub open spec fn is_hex_seq(s: Seq<char>) -> bool {
    s.len() % 2 == 0 && forall|i: int| 0 <= i < s.len() ==> is_hex_char(#[trigger] s[i])
}

/// The byte string a hexadecimal text denotes.
pub open spec fn bytes_of_hex(s: Seq<char>) -> Seq<u8>
    decreases s.len(),
{
    if s.len() < 2 {
        Seq::empty()
    } else {
        bytes_of_hex(s.take(s.len() - 2)).push(
            (hex_char_val(s[s.len() - 2]) * 16 + hex_char_val(s[s.len() - 1])) as u8,
        )
    }
}

fn hex_val(c: char) -> (r: u8)
    requires
        is_hex_char(c),
    ensures
        r as int == hex_char_val(c),
        r < 16,
{
    if '0' <= c && c <= '9' {
        ((c as u32) - 48) as u8
    } else {
        ((c as u32) - 97 + 10) as u8
    }
}

/// Decodes lowercase hexadecimal text into bytes; fails unless the text is
/// well-formed hexadecimal of even length.
pub fn hex_decode(s: &str) -> (r: Option<Vec<u8>>)
    ensures
        r is Some <==> is_hex_seq(s@),
        r matches Some(v) ==> v@ == bytes_of_hex(s@),
{
    let n = s.unicode_len();
    if n % 2 != 0 {
        return None;
    }
    let mut out: Vec<u8> = Vec::new();
    let mut i: usize = 0;
    while i < n
        invariant
            i <= n,
            i % 2 == 0,
            n % 2 == 0,
            n == s@.len(),
            forall|j: int| 0 <= j < i ==> is_hex_char(#[trigger] s@[j]),
            out@ == bytes_of_hex(s@.take(i as int)),
        decreases n - i,
    {
        let hi = s.get_char(i);
        let lo = s.get_char(i + 1);
        let hi_ok = ('0' <= hi && hi <= '9') || ('a' <= hi && hi <= 'f');
        let lo_ok = ('0' <= lo && lo <= '9') || ('a' <= lo && lo <= 'f');
        if !hi_ok || !lo_ok {
            return None;
        }
        let b: u8 = hex_val(hi) * 16 + hex_val(lo);
        out.push(b);
        proof {
            assert(s@.take(i + 2).take(i as int) =~= s@.take(i as int));
            assert(s@.take(i + 2)[i as int] == s@[i as int]);
            assert(s@.take(i + 2)[i + 1] == s@[i + 1]);
            assert(out@ =~= bytes_of_hex(s@.take(i + 2)));
        }
        i += 2;
    }
    proof {
        assert(s@.take(n as int) =~= s@);
    }
    Some(out)
}

/// Each hexadecimal digit decodes to the value it was rendered from.
proof fn lemma_hex_digit_round(d: int)
    requires
        0 <= d < 16,
    ensures
        is_hex_char(hex_digit_char(d)),
        hex_char_val(hex_digit_char(d)) == d,
{
}

/// Rendering bytes as hexadecimal and decoding the text restores the bytes.
pub proof fn lemma_hex_round_trip(bs: Seq<u8>)
    ensures
        is_hex_seq(hex_of(bs)),
        hex_of(bs).len() == 2 * bs.len(),
        bytes_of_hex(hex_of(bs)) == bs,
    decreases bs.len(),
{
    if bs.len() == 0 {
        assert(bytes_of_hex(hex_of(bs)) =~= bs);
    } else {
        let prev = bs.drop_last();
        lemma_hex_round_trip(prev);
        let b = bs.last();
        let s = hex_of(bs);
        lemma_hex_digit_round(b as int / 16);
        lemma_hex_digit_round(b as int % 16);
        assert(s == hex_of(prev) + byte_hex(b));
        assert(s.len() == 2 * bs.len());
        assert(forall|i: int| 0 <= i < s.len() - 2 ==> #[trigger] s[i] == hex_of(prev)[i]);
        assert(s[s.len() - 2] == hex_digit_char(b as int / 16));
        assert(s[s.len() - 1] == hex_digit_char(b as int % 16));
        assert(is_hex_seq(s));
        assert(s.take(s.len() - 2) =~= hex_of(prev));
        vstd::arithmetic::div_mod::lemma_fundamental_div_mod(b as int, 16);
        assert(hex_char_val(s[s.len() - 2]) * 16 + hex_char_val(s[s.len() - 1]) == b as int);
        assert(bytes_of_hex(s) == bytes_of_hex(hex_of(prev)).push(b));
        assert(bytes_of_hex(s) =~= bs);
    }
}

} // verus!

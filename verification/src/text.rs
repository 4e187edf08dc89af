//! Text helpers: comparing strings and byte slices, searching for substrings,
//! and rendering numbers in decimal and hexadecimal.

use vstd::prelude::*;
use vstd::utf8::*;

verus! {

/// The decimal digit for `d`, for `d` below ten.
pub open spec fn digit_char(d: nat) -> char {
    seq!['0', '1', '2', '3', '4', '5', '6', '7', '8', '9'][d as int]
}

/// The lowercase hexadecimal digit for `d`, for `d` below sixteen.
pub open spec fn hex_digit_char(d: nat) -> char {
    seq!['0', '1', '2', '3', '4', '5', '6', '7', '8', '9', 'a', 'b', 'c', 'd', 'e', 'f'][d as int]
}

/// `n` in decimal, without leading zeros.
pub open spec fn decimal(n: nat) -> Seq<char>
    decreases n,
{
    if n < 10 {
        seq![digit_char(n)]
    } else {
        decimal(n / 10).push(digit_char(n % 10))
    }
}

/// The lowest `width` hexadecimal digits of `n`, most significant first,
/// padded with zeros on the left.
pub open spec fn hex_padded(n: nat, width: nat) -> Seq<char>
    decreases width,
{
    if width == 0 {
        Seq::empty()
    } else {
        hex_padded(n / 16, (width - 1) as nat).push(hex_digit_char(n % 16))
    }
}

/// Whether `c` is a lowercase hexadecimal digit.
pub open spec fn is_lower_hex(c: char) -> bool {
    ('0' <= c && c <= '9') || ('a' <= c && c <= 'f')
}

/// A zero-padded hexadecimal rendering has exactly `width` characters, each a
/// lowercase hexadecimal digit.
pub proof fn lemma_hex_padded_shape(n: nat, width: nat)
    ensures
        hex_padded(n, width).len() == width,
        forall|i: int| 0 <= i < width ==> is_lower_hex(#[trigger] hex_padded(n, width)[i]),
    decreases width,
{
    if width > 0 {
        lemma_hex_padded_shape(n / 16, (width - 1) as nat);
        let d = n % 16;
        assert(is_lower_hex(hex_digit_char(d)));
    }
}

/// The one-character string for a digit below sixteen.
fn digit_str(d: u64) -> (s: &'static str)
    requires
        d < 16,
    ensures
        s@ == seq![hex_digit_char(d as nat)],
{
    proof {
        reveal_strlit("0");
        reveal_strlit("1");
        reveal_strlit("2");
        reveal_strlit("3");
        reveal_strlit("4");
        reveal_strlit("5");
        reveal_strlit("6");
        reveal_strlit("7");
        reveal_strlit("8");
        reveal_strlit("9");
        reveal_strlit("a");
        reveal_strlit("b");
        reveal_strlit("c");
        reveal_strlit("d");
        reveal_strlit("e");
        reveal_strlit("f");
    }
    let s = match d {
        0 => "0",
        1 => "1",
        2 => "2",
        3 => "3",
        4 => "4",
        5 => "5",
        6 => "6",
        7 => "7",
        8 => "8",
        9 => "9",
        10 => "a",
        11 => "b",
        12 => "c",
        13 => "d",
        14 => "e",
        _ => "f",
    };
    assert(s@ =~= seq![hex_digit_char(d as nat)]);
    s
}

/// Appends `n` in decimal to `out`.
pub fn push_decimal(out: &mut String, n: u32)
    ensures
        final(out)@ == old(out)@ + decimal(n as nat),
    decreases n,
{
    if n >= 10 {
        push_decimal(out, n / 10);
    }
    let digit = digit_str((n % 10) as u64);
    out.append(digit);
    proof {
        let d = (n % 10) as nat;
        assert(hex_digit_char(d) == digit_char(d));
        assert(final(out)@ =~= old(out)@ + decimal(n as nat));
    }
}

/// `n` in decimal, without leading zeros.
pub fn decimal_string(n: u32) -> (s: String)
    ensures
        s@ == decimal(n as nat),
{
    let mut s = String::new();
    push_decimal(&mut s, n);
    assert(s@ =~= decimal(n as nat));
    s
}

/// Appends the lowest `width` hexadecimal digits of `n` to `out`, zero-padded.
pub fn push_hex_padded(out: &mut String, n: u64, width: u32)
    ensures
        final(out)@ == old(out)@ + hex_padded(n as nat, width as nat),
    decreases width,
{
    if width == 0 {
        assert(final(out)@ =~= old(out)@ + hex_padded(n as nat, width as nat));
    } else {
        push_hex_padded(out, n / 16, width - 1);
        out.append(digit_str(n % 16));
        assert(final(out)@ =~= old(out)@ + hex_padded(n as nat, width as nat));
    }
}

/// Whether two byte slices hold the same bytes.
pub fn bytes_eq(a: &[u8], b: &[u8]) -> (same: bool)
    ensures
        same == (a@ == b@),
{
    if a.len() != b.len() {
        return false;
    }
    let mut i: usize = 0;
    while i < a.len()
        invariant
            a@.len() == b@.len(),
            i <= a@.len(),
            forall|j: int| 0 <= j < i ==> a@[j] == b@[j],
        decreases a@.len() - i,
    {
        if a[i] != b[i] {
            return false;
        }
        i += 1;
    }
    assert(a@ =~= b@);
    true
}

/// Two strings with the same UTF-8 bytes are the same string.
pub proof fn lemma_same_bytes_same_text(a: Seq<char>, b: Seq<char>)
    requires
        encode_utf8(a) == encode_utf8(b),
    ensures
        a == b,
{
    encode_utf8_decode_utf8(a);
    encode_utf8_decode_utf8(b);
}

/// Whether two strings are the same.
pub fn str_eq(a: &str, b: &str) -> (same: bool)
    ensures
        same == (a@ == b@),
{
    let same = bytes_eq(a.as_bytes(), b.as_bytes());
    proof {
        if same {
            lemma_same_bytes_same_text(a@, b@);
        }
    }
    same
}

/// The ASCII lowercase form of a byte; bytes other than `A` to `Z` are unchanged.
pub open spec fn ascii_lower(b: u8) -> u8 {
    if 65 <= b && b <= 90 {
        (b + 32) as u8
    } else {
        b
    }
}

/// Whether `needle` occurs in `hay` at offset `at`.
pub open spec fn occurs_at(hay: Seq<u8>, needle: Seq<u8>, at: int) -> bool {
    &&& 0 <= at
    &&& at + needle.len() <= hay.len()
    &&& forall|j: int| 0 <= j < needle.len() ==> hay[at + j] == #[trigger] needle[j]
}

/// Whether `needle` occurs in `hay` at offset `at`, ASCII letters compared
/// without regard to case.
pub open spec fn occurs_ignoring_case_at(hay: Seq<u8>, needle: Seq<u8>, at: int) -> bool {
    &&& 0 <= at
    &&& at + needle.len() <= hay.len()
    &&& forall|j: int|
        0 <= j < needle.len() ==> ascii_lower(hay[at + j]) == ascii_lower(#[trigger] needle[j])
}

/// Whether `needle` occurs somewhere in `hay`, ASCII letters compared without
/// regard to case.
pub open spec fn contains_ignoring_case(hay: Seq<u8>, needle: Seq<u8>) -> bool {
    exists|at: int| occurs_ignoring_case_at(hay, needle, at)
}

/// The index of the first `b` in `hay`, or the length of `hay` if there is none.
pub open spec fn position(hay: Seq<u8>, b: u8) -> int
    decreases hay.len(),
{
    if hay.len() == 0 {
        0
    } else if hay[0] == b {
        0
    } else {
        1 + position(hay.drop_first(), b)
    }
}

/// `position` is the first index that holds `b`: nothing before it does, and
/// it is the length exactly when `b` does not occur.
pub proof fn lemma_position(hay: Seq<u8>, b: u8)
    ensures
        0 <= position(hay, b) <= hay.len(),
        forall|j: int| 0 <= j < position(hay, b) ==> hay[j] != b,
        position(hay, b) < hay.len() ==> hay[position(hay, b)] == b,
    decreases hay.len(),
{
    if hay.len() > 0 && hay[0] != b {
        let rest = hay.drop_first();
        lemma_position(rest, b);
        assert forall|j: int| 0 <= j < position(hay, b) implies hay[j] != b by {
            if j > 0 {
                assert(hay[j] == rest[j - 1]);
            }
        }
        if position(hay, b) < hay.len() {
            assert(hay[position(hay, b)] == rest[position(rest, b)]);
        }
    }
}

/// An index that holds `b` with no `b` before it is the `position` of `b`.
pub proof fn lemma_position_unique(hay: Seq<u8>, b: u8, at: int)
    requires
        0 <= at <= hay.len(),
        forall|j: int| 0 <= j < at ==> hay[j] != b,
        at < hay.len() ==> hay[at] == b,
    ensures
        position(hay, b) == at,
{
    lemma_position(hay, b);
    let p = position(hay, b);
    if p < at {
        assert(hay[p] != b);
    } else if at < p {
        assert(hay[at] != b);
    }
}

/// The lowercase form of an ASCII byte.
pub fn to_ascii_lower(b: u8) -> (lower: u8)
    ensures
        lower == ascii_lower(b),
{
    if 65 <= b && b <= 90 {
        b + 32
    } else {
        b
    }
}

/// The index of the first `b` in `hay`, if there is one.
pub fn find_byte(hay: &[u8], b: u8) -> (found: Option<usize>)
    ensures
        match found {
            Some(at) => at == position(hay@, b) && at < hay@.len(),
            None => position(hay@, b) == hay@.len(),
        },
{
    let mut i: usize = 0;
    while i < hay.len()
        invariant
            i <= hay@.len(),
            forall|j: int| 0 <= j < i ==> hay@[j] != b,
        decreases hay@.len() - i,
    {
        if hay[i] == b {
            proof {
                lemma_position_unique(hay@, b, i as int);
            }
            return Some(i);
        }
        i += 1;
    }
    proof {
        lemma_position_unique(hay@, b, hay@.len() as int);
    }
    None
}

/// Whether `needle` occurs in `hay` at offset `at`, with or without regard to
/// the case of ASCII letters.
fn occurs_at_offset(hay: &[u8], needle: &[u8], at: usize, ignore_case: bool) -> (found: bool)
    requires
        at + needle@.len() <= hay@.len(),
    ensures
        found == if ignore_case {
            occurs_ignoring_case_at(hay@, needle@, at as int)
        } else {
            occurs_at(hay@, needle@, at as int)
        },
{
    let hay_len = hay.len();
    let mut j: usize = 0;
    while j < needle.len()
        invariant
            j <= needle@.len(),
            hay_len == hay@.len(),
            at + needle@.len() <= hay@.len(),
            ignore_case ==> forall|k: int|
                0 <= k < j ==> ascii_lower(hay@[at + k]) == ascii_lower(#[trigger] needle@[k]),
            !ignore_case ==> forall|k: int| 0 <= k < j ==> hay@[at + k] == #[trigger] needle@[k],
        decreases needle@.len() - j,
    {
        let same = if ignore_case {
            to_ascii_lower(hay[at + j]) == to_ascii_lower(needle[j])
        } else {
            hay[at + j] == needle[j]
        };
        if !same {
            return false;
        }
        j += 1;
    }
    true
}

/// Whether `needle` occurs somewhere in `hay`, ASCII letters compared without
/// regard to case.
pub fn contains_ignore_ascii_case(hay: &[u8], needle: &[u8]) -> (found: bool)
    ensures
        found == contains_ignoring_case(hay@, needle@),
{
    if needle.len() > hay.len() {
        return false;
    }
    let last: usize = hay.len() - needle.len();
    let mut at: usize = 0;
    while at < last
        invariant
            last == hay@.len() - needle@.len(),
            at <= last,
            forall|k: int| 0 <= k < at ==> !occurs_ignoring_case_at(hay@, needle@, k),
        decreases last - at,
    {
        if occurs_at_offset(hay, needle, at, true) {
            return true;
        }
        at += 1;
    }
    occurs_at_offset(hay, needle, last, true)
}

/// Whether `text` begins with `prefix`.
pub fn starts_with(text: &[u8], prefix: &[u8]) -> (found: bool)
    ensures
        found == occurs_at(text@, prefix@, 0),
{
    if prefix.len() > text.len() {
        return false;
    }
    occurs_at_offset(text, prefix, 0, false)
}

} // verus!

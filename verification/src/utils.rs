//! Bytes and text: the string conventions of ATA and little-endian loads.

use vstd::prelude::*;
use vstd::string::StrSliceExecFns;

verus! {

/// `String::push` of the standard library: the string afterwards is the
/// string before with `c` appended.
pub assume_specification[ String::push ](s: &mut String, c: char)
    ensures
        final(s)@ == old(s)@.push(c),
;

/// The bytes of `s` with the two bytes of every pair in each other's place.
pub open spec fn swapped(s: Seq<u8>) -> Seq<u8> {
    Seq::new(
        s.len(),
        |i: int|
            if i % 2 == 0 {
                s[i + 1]
            } else {
                s[i - 1]
            },
    )
}

/// Swaps the two bytes of every pair.  ATA stores text in 16-bit words whose
/// first character sits in the high byte.
pub fn swap_string_bytes(s: &mut [u8])
    requires
        old(s)@.len() % 2 == 0,
    ensures
        final(s)@ == swapped(old(s)@),
{
    let n: usize = s.len();
    let mut i: usize = 0;
    while i < n
        invariant
            n == s@.len(),
            n == old(s)@.len(),
            n % 2 == 0,
            i % 2 == 0,
            i <= n,
            forall|j: int| 0 <= j < i ==> s@[j] == swapped(old(s)@)[j],
            forall|j: int| i <= j < n ==> s@[j] == old(s)@[j],
        decreases n - i,
    {
        let a: u8 = s[i];
        let b: u8 = s[i + 1];
        s[i] = b;
        s[i + 1] = a;
        i += 2;
    }
    assert(s@ =~= swapped(old(s)@));
}

/// The bytes of `s` with a space in place of every byte that is no printable
/// ASCII character.
pub open spec fn cleaned(s: Seq<u8>) -> Seq<u8> {
    Seq::new(
        s.len(),
        |i: int|
            if s[i] < 0x20 || s[i] >= 0x7f {
                0x20u8
            } else {
                s[i]
            },
    )
}

/// Puts a space in place of every byte below 0x20 or above 0x7E.
pub fn clean_string(s: &mut [u8])
    ensures
        final(s)@ == cleaned(old(s)@),
{
    let n: usize = s.len();
    let mut i: usize = 0;
    while i < n
        invariant
            n == s@.len(),
            n == old(s)@.len(),
            i <= n,
            forall|j: int| 0 <= j < i ==> s@[j] == cleaned(old(s)@)[j],
            forall|j: int| i <= j < n ==> s@[j] == old(s)@[j],
        decreases n - i,
    {
        if s[i] < 0x20 || s[i] >= 0x7f {
            s[i] = 0x20;
        }
        i += 1;
    }
    assert(s@ =~= cleaned(old(s)@));
}

/// Whether `c` is white space: a character with the Unicode property
/// White_Space.
pub open spec fn is_space(c: char) -> bool {
    let n = c as u32;
    ||| 0x09 <= n <= 0x0D
    ||| n == 0x20
    ||| n == 0x85
    ||| n == 0xA0
    ||| n == 0x1680
    ||| 0x2000 <= n <= 0x200A
    ||| n == 0x2028
    ||| n == 0x2029
    ||| n == 0x202F
    ||| n == 0x205F
    ||| n == 0x3000
}

/// Whether `c` is white space.
pub fn is_whitespace(c: char) -> (r: bool)
    ensures
        r == is_space(c),
{
    let n: u32 = c as u32;
    (0x09 <= n && n <= 0x0D) || n == 0x20 || n == 0x85 || n == 0xA0 || n == 0x1680 || (0x2000 <= n
        && n <= 0x200A) || n == 0x2028 || n == 0x2029 || n == 0x202F || n == 0x205F || n == 0x3000
}

/// The words of `s`, with one space between a word and the next: every
/// character of `s` that is no white space, in order, and a single space
/// before each that begins a word other than the first.
pub open spec fn squeezed(s: Seq<char>) -> Seq<char>
    decreases s.len(),
{
    if s.len() == 0 {
        Seq::empty()
    } else {
        let front = s.drop_last();
        let c = s.last();
        if is_space(c) {
            squeezed(front)
        } else if squeezed(front).len() > 0 && front.len() > 0 && is_space(front.last()) {
            squeezed(front).push(' ').push(c)
        } else {
            squeezed(front).push(c)
        }
    }
}

/// Squeezed text is tidy: it neither begins nor ends with white space, and
/// the only white space in it is a single space between two characters that
/// are none.
pub proof fn lemma_squeezed_is_tidy(s: Seq<char>)
    ensures
        squeezed(s).len() > 0 ==> !is_space(squeezed(s)[0]) && !is_space(squeezed(s).last()),
        forall|i: int|
            0 <= i < squeezed(s).len() && is_space(#[trigger] squeezed(s)[i]) ==> squeezed(s)[i]
                == ' ' && i + 1 < squeezed(s).len() && !is_space(squeezed(s)[i + 1]),
    decreases s.len(),
{
    if s.len() > 0 {
        lemma_squeezed_is_tidy(s.drop_last());
    }
}

/// Drops white space at both ends and puts a single space in place of each
/// run of white space inside.
pub fn trim_spaces(s: &str) -> (r: String)
    ensures
        r@ == squeezed(s@),
{
    let n: usize = s.unicode_len();
    let mut out = String::new();
    let mut empty: bool = true;
    let mut after_space: bool = false;
    let mut i: usize = 0;
    while i < n
        invariant
            n == s@.len(),
            i <= n,
            out@ == squeezed(s@.subrange(0, i as int)),
            empty == (out@.len() == 0),
            after_space == (i > 0 && is_space(s@[i - 1])),
        decreases n - i,
    {
        let c: char = s.get_char(i);
        proof {
            let upto = s@.subrange(0, i + 1);
            assert(upto.drop_last() =~= s@.subrange(0, i as int));
            assert(upto.last() == c);
        }
        if is_whitespace(c) {
            after_space = true;
        } else {
            if !empty && after_space {
                out.push(' ');
            }
            out.push(c);
            empty = false;
            after_space = false;
        }
        i += 1;
    }
    assert(s@.subrange(0, n as int) =~= s@);
    out
}

/// The characters whose codes are the bytes of `s`.
pub open spec fn text_of(s: Seq<u8>) -> Seq<char> {
    Seq::new(s.len(), |i: int| s[i] as char)
}

/// The text that a field of an IDENTIFY DEVICE sector holds: the bytes of
/// every pair swapped, a space in place of every byte that is no printable
/// ASCII character, white space dropped at both ends and runs of it inside
/// made a single space.
pub open spec fn ata_string(raw: Seq<u8>) -> Seq<char> {
    squeezed(text_of(cleaned(swapped(raw))))
}

/// Reads the text of a field of an IDENTIFY DEVICE sector.
pub fn read_ata_string(raw: &[u8]) -> (r: String)
    requires
        raw@.len() % 2 == 0,
    ensures
        r@ == ata_string(raw@),
{
    let n: usize = raw.len();
    let ghost text = text_of(cleaned(swapped(raw@)));
    let mut out = String::new();
    let mut empty: bool = true;
    let mut after_space: bool = false;
    let mut i: usize = 0;
    while i < n
        invariant
            n == raw@.len(),
            n % 2 == 0,
            i <= n,
            text == text_of(cleaned(swapped(raw@))),
            out@ == squeezed(text.subrange(0, i as int)),
            empty == (out@.len() == 0),
            after_space == (i > 0 && is_space(text[i - 1])),
        decreases n - i,
    {
        let b: u8 = if i % 2 == 0 {
            raw[i + 1]
        } else {
            raw[i - 1]
        };
        let c: char = if b < 0x20 || b >= 0x7f {
            ' '
        } else {
            b as char
        };
        proof {
            let upto = text.subrange(0, i + 1);
            assert(upto.drop_last() =~= text.subrange(0, i as int));
            assert(upto.last() == c);
        }
        if is_whitespace(c) {
            after_space = true;
        } else {
            if !empty && after_space {
                out.push(' ');
            }
            out.push(c);
            empty = false;
            after_space = false;
        }
        i += 1;
    }
    assert(text.subrange(0, n as int) =~= text);
    out
}

/// Whether two strings hold the same characters.
pub fn str_eq(a: &str, b: &str) -> (r: bool)
    ensures
        r == (a@ == b@),
{
    let n: usize = a.unicode_len();
    if b.unicode_len() != n {
        return false;
    }
    let mut i: usize = 0;
    while i < n
        invariant
            n == a@.len(),
            n == b@.len(),
            i <= n,
            forall|j: int| 0 <= j < i ==> a@[j] == b@[j],
        decreases n - i,
    {
        if a.get_char(i) != b.get_char(i) {
            return false;
        }
        i += 1;
    }
    assert(a@ =~= b@);
    true
}

/// Whether `part` stands somewhere in `text`.
pub open spec fn contains(text: Seq<char>, part: Seq<char>) -> bool {
    exists|i: int| occurs_at(text, part, i)
}

/// Whether `part` stands in `text` from index `i` on.
pub open spec fn occurs_at(text: Seq<char>, part: Seq<char>, i: int) -> bool {
    0 <= i && i + part.len() <= text.len() && text.subrange(i, i + part.len()) == part
}

/// Whether `part` stands in `text` from index `i` on.
fn str_occurs_at(text: &str, part: &str, i: usize) -> (r: bool)
    requires
        i + part@.len() <= text@.len(),
    ensures
        r == occurs_at(text@, part@, i as int),
{
    let m: usize = part.unicode_len();
    let _ = text.unicode_len();
    let mut k: usize = 0;
    while k < m
        invariant
            m == part@.len(),
            i + m <= text@.len(),
            text@.len() <= usize::MAX,
            k <= m,
            forall|j: int| 0 <= j < k ==> text@[i + j] == part@[j],
        decreases m - k,
    {
        if text.get_char(i + k) != part.get_char(k) {
            assert(text@.subrange(i as int, i + m)[k as int] != part@[k as int]);
            return false;
        }
        k += 1;
    }
    assert(text@.subrange(i as int, i + m) =~= part@);
    true
}

/// Whether `part` stands somewhere in `text`.
pub fn str_contains(text: &str, part: &str) -> (r: bool)
    ensures
        r == contains(text@, part@),
{
    let n: usize = text.unicode_len();
    let m: usize = part.unicode_len();
    if m > n {
        return false;
    }
    let last: usize = n - m;
    let mut i: usize = 0;
    while i < last
        invariant
            n == text@.len(),
            m == part@.len(),
            last == n - m,
            i <= last,
            forall|j: int| 0 <= j < i ==> !occurs_at(text@, part@, j),
        decreases last - i,
    {
        if str_occurs_at(text, part, i) {
            return true;
        }
        i += 1;
    }
    str_occurs_at(text, part, last)
}

/// The character of the decimal digit `d`.
pub open spec fn digit(d: int) -> char {
    (0x30 + d) as u8 as char
}

/// The decimal digits of `n`, without leading zeros.
pub open spec fn decimal(n: nat) -> Seq<char>
    decreases n,
{
    if n < 10 {
        seq![digit(n as int)]
    } else {
        decimal(n / 10).push(digit((n % 10) as int))
    }
}

/// Appends the decimal digits of `n`.
pub fn push_decimal(s: &mut String, n: u64)
    ensures
        final(s)@ == old(s)@ + decimal(n as nat),
    decreases n,
{
    if n >= 10 {
        push_decimal(s, n / 10);
    }
    s.push((0x30u8 + (n % 10) as u8) as char);
    assert(s@ =~= old(s)@ + decimal(n as nat));
}

/// The number that the first two bytes of `b` spell, least significant byte
/// first.
pub open spec fn le16(b: Seq<u8>) -> int {
    b[0] as int + b[1] as int * 0x100
}

/// The number that the first four bytes of `b` spell, least significant byte
/// first.
pub open spec fn le32(b: Seq<u8>) -> int {
    b[0] as int + b[1] as int * 0x100 + b[2] as int * 0x1_0000 + b[3] as int * 0x100_0000
}

/// The number that the first six bytes of `b` spell, least significant byte
/// first.
pub open spec fn le48(b: Seq<u8>) -> int {
    le32(b) + b[4] as int * 0x1_0000_0000 + b[5] as int * 0x100_0000_0000
}

/// Reads the little-endian number of two bytes at `pos`.
pub fn read_le16(data: &[u8], pos: usize) -> (r: u16)
    requires
        pos + 2 <= data@.len(),
    ensures
        r == le16(data@.subrange(pos as int, pos + 2)),
{
    data[pos] as u16 + data[pos + 1] as u16 * 0x100
}

/// Reads the little-endian number of four bytes at `pos`.
pub fn read_le32(data: &[u8], pos: usize) -> (r: u32)
    requires
        pos + 4 <= data@.len(),
    ensures
        r == le32(data@.subrange(pos as int, pos + 4)),
{
    data[pos] as u32 + data[pos + 1] as u32 * 0x100 + data[pos + 2] as u32 * 0x1_0000 + data[pos
        + 3] as u32 * 0x100_0000
}

/// Reads the little-endian number of six bytes at `pos`.
pub fn read_le48(data: &[u8], pos: usize) -> (r: u64)
    requires
        pos + 6 <= data@.len(),
    ensures
        r == le48(data@.subrange(pos as int, pos + 6)),
        r < 0x1_0000_0000_0000,
{
    data[pos] as u64 + data[pos + 1] as u64 * 0x100 + data[pos + 2] as u64 * 0x1_0000 + data[pos
        + 3] as u64 * 0x100_0000 + data[pos + 4] as u64 * 0x1_0000_0000 + data[pos + 5] as u64
        * 0x100_0000_0000
}

} // verus!

//! Numbers and text as bytes, the least significant byte first.

use crate::text::chars_of;
use vstd::prelude::*;

verus! {

/// The bytes of a 16-bit number.
pub open spec fn le16(x: u16) -> Seq<u8> {
    seq![(x & 0xff) as u8, ((x >> 8) & 0xff) as u8]
}

/// The bytes of a 32-bit number.
pub open spec fn le32(x: u32) -> Seq<u8> {
    seq![
        (x & 0xff) as u8,
        ((x >> 8) & 0xff) as u8,
        ((x >> 16) & 0xff) as u8,
        ((x >> 24) & 0xff) as u8,
    ]
}

/// The number that four bytes stand for.
pub open spec fn number32(a: u8, b: u8, c: u8, d: u8) -> u32 {
    (a as u32) | ((b as u32) << 8) | ((c as u32) << 16) | ((d as u32) << 24)
}

/// `n` bytes of zero.
pub open spec fn zeros(n: nat) -> Seq<u8> {
    Seq::new(n, |i: int| 0u8)
}

/// The bytes of a run of 16-bit numbers.
pub open spec fn le_units(units: Seq<u16>) -> Seq<u8>
    decreases units.len(),
{
    if units.len() == 0 {
        Seq::empty()
    } else {
        le_units(units.drop_last()) + le16(units.last())
    }
}

/// A character in UTF-16: one unit, or two where its number takes more than 16 bits.
pub open spec fn utf16_char(c: char) -> Seq<u16> {
    let n = c as u32;
    if n < 0x1_0000 {
        seq![n as u16]
    } else {
        seq![
            (0xd800 + (n - 0x1_0000) / 0x400) as u16,
            (0xdc00 + (n - 0x1_0000) % 0x400) as u16,
        ]
    }
}

/// A text in UTF-16.
pub open spec fn utf16(s: Seq<char>) -> Seq<u16>
    decreases s.len(),
{
    if s.len() == 0 {
        Seq::empty()
    } else {
        utf16(s.drop_last()) + utf16_char(s.last())
    }
}

/// How many units of a text are written: no more than a 16-bit count can tell.
pub open spec fn counted_len(units: Seq<u16>) -> nat {
    if units.len() <= 0xffff {
        units.len()
    } else {
        0xffff
    }
}

/// A text in UTF-16 with the number of its units before it.
pub open spec fn counted_text(s: Seq<char>) -> Seq<u8> {
    let n = counted_len(utf16(s));
    le16(n as u16) + le_units(utf16(s).take(n as int))
}

/// A number is what its four bytes stand for.
pub proof fn law_number_from_bytes(x: u32)
    ensures
        number32(le32(x)[0], le32(x)[1], le32(x)[2], le32(x)[3]) == x,
{
    let a = (x & 0xff) as u8;
    let b = ((x >> 8) & 0xff) as u8;
    let c = ((x >> 16) & 0xff) as u8;
    let d = ((x >> 24) & 0xff) as u8;
    assert((a as u32) | ((b as u32) << 8) | ((c as u32) << 16) | ((d as u32) << 24) == x)
        by (bit_vector)
        requires
            a == (x & 0xff) as u8,
            b == ((x >> 8) & 0xff) as u8,
            c == ((x >> 16) & 0xff) as u8,
            d == ((x >> 24) & 0xff) as u8,
    ;
}

/// Each 16-bit number takes two bytes.
pub proof fn lemma_units_len(units: Seq<u16>)
    ensures
        le_units(units).len() == 2 * units.len(),
    decreases units.len(),
{
    if units.len() > 0 {
        lemma_units_len(units.drop_last());
    }
}

/// A character takes one unit of UTF-16, its number, or two: a high and a low surrogate that stand
/// for its number less what one unit can tell.
pub proof fn law_utf16_char(c: char)
    ensures
        ({
            let u = utf16_char(c);
            &&& (c as u32) < 0x1_0000 ==> u.len() == 1 && u[0] == c as u32
            &&& (c as u32) >= 0x1_0000 ==> {
                &&& u.len() == 2
                &&& 0xd800 <= u[0] < 0xdc00
                &&& 0xdc00 <= u[1] < 0xe000
                &&& (u[0] - 0xd800) * 0x400 + (u[1] - 0xdc00) + 0x1_0000 == c as u32
            }
        }),
{
}

/// The units of a text are those of its characters in order.
pub proof fn law_utf16_in_order(a: Seq<char>, b: Seq<char>)
    ensures
        utf16(Seq::empty()) == Seq::<u16>::empty(),
        forall|c: char| #[trigger] utf16(seq![c]) == utf16_char(c),
        utf16(a + b) == utf16(a) + utf16(b),
    decreases b.len(),
{
    assert forall|c: char| #[trigger] utf16(seq![c]) == utf16_char(c) by {
        assert(seq![c].drop_last() =~= Seq::empty());
        assert(utf16(Seq::<char>::empty()) =~= Seq::<u16>::empty());
        assert(utf16(seq![c]) =~= utf16_char(c));
    }
    if b.len() == 0 {
        assert(a + b =~= a);
        assert(utf16(a) + utf16(b) =~= utf16(a));
    } else {
        law_utf16_in_order(a, b.drop_last());
        assert((a + b).drop_last() =~= a + b.drop_last());
        assert(utf16(a + b) =~= utf16(a) + utf16(b));
    }
}

/// A counted text tells first how many units it has, and then each unit in order, all with the
/// least significant byte first.
pub proof fn law_counted_text(s: Seq<char>, k: int)
    ensures
        ({
            let n = if utf16(s).len() <= 0xffff {
                utf16(s).len()
            } else {
                0xffff
            };
            let r = counted_text(s);
            &&& r.len() == 2 + 2 * n
            &&& r[0] + 0x100 * r[1] == n
            &&& 0 <= k < n ==> r[2 + 2 * k] + 0x100 * r[3 + 2 * k] == utf16(s)[k]
        }),
{
    let n = counted_len(utf16(s));
    let units = utf16(s).take(n as int);
    lemma_units_len(units);
    lemma_le16_value(n as u16);
    if 0 <= k < n {
        lemma_unit_at(units, k);
        assert(counted_text(s)[2 + 2 * k] == le_units(units)[2 * k]);
        assert(counted_text(s)[3 + 2 * k] == le_units(units)[2 * k + 1]);
    }
}

proof fn lemma_le16_value(x: u16)
    ensures
        le16(x)[0] + 0x100 * le16(x)[1] == x,
{
    let a = (x & 0xff) as u8;
    let b = ((x >> 8) & 0xff) as u8;
    assert(a + 0x100 * b == x) by (bit_vector)
        requires
            a == (x & 0xff) as u8,
            b == ((x >> 8) & 0xff) as u8,
    ;
}

proof fn lemma_unit_at(units: Seq<u16>, k: int)
    requires
        0 <= k < units.len(),
    ensures
        le_units(units)[2 * k] + 0x100 * le_units(units)[2 * k + 1] == units[k],
    decreases units.len(),
{
    lemma_units_len(units);
    lemma_units_len(units.drop_last());
    lemma_le16_value(units.last());
    if k < units.len() - 1 {
        lemma_unit_at(units.drop_last(), k);
    }
}

/// Appends the bytes of a 16-bit number.
pub fn push_u16(out: &mut Vec<u8>, x: u16)
    ensures
        final(out)@ == old(out)@ + le16(x),
{
    out.push((x & 0xff) as u8);
    out.push(((x >> 8) & 0xff) as u8);
}

/// Appends the bytes of a 32-bit number.
pub fn push_u32(out: &mut Vec<u8>, x: u32)
    ensures
        final(out)@ == old(out)@ + le32(x),
{
    out.push((x & 0xff) as u8);
    out.push(((x >> 8) & 0xff) as u8);
    out.push(((x >> 16) & 0xff) as u8);
    out.push(((x >> 24) & 0xff) as u8);
}

/// Appends bytes of zero.
pub fn push_zeros(out: &mut Vec<u8>, n: usize)
    ensures
        final(out)@ == old(out)@ + zeros(n as nat),
{
    for i in 0..n
        invariant
            out@ == old(out)@ + zeros(i as nat),
    {
        out.push(0);
        assert(out@ =~= old(out)@ + zeros((i + 1) as nat));
    }
}

/// The number that the first four bytes stand for.
pub fn read_u32(bytes: &Vec<u8>) -> (r: u32)
    requires
        bytes@.len() >= 4,
    ensures
        r == number32(bytes@[0], bytes@[1], bytes@[2], bytes@[3]),
{
    (bytes[0] as u32) | ((bytes[1] as u32) << 8) | ((bytes[2] as u32) << 16) | ((bytes[3] as u32)
        << 24)
}

/// Whether two runs of bytes are the same.
pub fn same_bytes(a: &Vec<u8>, b: &Vec<u8>) -> (r: bool)
    ensures
        r == (a@ == b@),
{
    if a.len() != b.len() {
        return false;
    }
    for i in 0..a.len()
        invariant
            a.len() == b.len(),
            forall|j: int| 0 <= j < i ==> a@[j] == b@[j],
    {
        if a[i] != b[i] {
            return false;
        }
    }
    assert(a@ =~= b@);
    true
}

/// A text in UTF-16.
pub fn encode_utf16(s: &str) -> (r: Vec<u16>)
    ensures
        r@ == utf16(s@),
{
    let chars = chars_of(s);
    let mut out: Vec<u16> = Vec::new();
    for i in 0..chars.len()
        invariant
            chars@ == s@,
            out@ == utf16(s@.take(i as int)),
    {
        let n: u32 = chars[i] as u32;
        if n < 0x1_0000 {
            out.push(n as u16);
        } else {
            out.push((0xd800 + (n - 0x1_0000) / 0x400) as u16);
            out.push((0xdc00 + (n - 0x1_0000) % 0x400) as u16);
        }
        assert(s@.take(i + 1).drop_last() == s@.take(i as int));
        assert(out@ =~= utf16(s@.take(i as int)) + utf16_char(s@[i as int]));
    }
    assert(s@.take(s@.len() as int) == s@);
    out
}

/// Appends a text in UTF-16 with the number of its units before it.
pub fn push_counted_text(out: &mut Vec<u8>, s: &str)
    ensures
        final(out)@ == old(out)@ + counted_text(s@),
{
    let units = encode_utf16(s);
    let count: usize = if units.len() <= 0xffff {
        units.len()
    } else {
        0xffff
    };
    push_u16(out, count as u16);
    let ghost head = old(out)@ + le16(count as u16);
    for i in 0..count
        invariant
            count <= units.len(),
            out@ == head + le_units(units@.take(i as int)),
    {
        push_u16(out, units[i]);
        assert(units@.take(i + 1).drop_last() == units@.take(i as int));
        assert(out@ =~= head + le_units(units@.take(i + 1)));
    }
    assert(out@ =~= old(out)@ + counted_text(s@));
}

} // verus!

//! Wide-character text and the little-endian bytes of the values that an
//! information request is made of.

use vstd::prelude::*;

verus! {

/// The UTF-16 code units of one character: the character itself below
/// `0x10000`, a surrogate pair above.
pub open spec fn char_units(c: char) -> Seq<u16> {
    let v = c as u32;
    if v < 0x10000 {
        seq![v as u16]
    } else {
        seq![
            (0xD800 + (v - 0x10000) / 0x400) as u16,
            (0xDC00 + (v - 0x10000) % 0x400) as u16,
        ]
    }
}

/// The UTF-16 encoding of a text, one character after the other, with no
/// byte-order mark and no terminator.
pub open spec fn utf16(text: Seq<char>) -> Seq<u16>
    decreases text.len(),
{
    if text.len() == 0 {
        Seq::empty()
    } else {
        utf16(text.drop_last()) + char_units(text.last())
    }
}

/// The two bytes of a code unit, low byte first.
pub open spec fn le_bytes_u16(x: u16) -> Seq<u8> {
    seq![(x % 256) as u8, (x / 256) as u8]
}

/// The four bytes of a 32-bit field, lowest byte first.
pub open spec fn le_bytes_u32(x: u32) -> Seq<u8> {
    seq![
        (x % 256) as u8,
        (x / 0x100 % 256) as u8,
        (x / 0x1_0000 % 256) as u8,
        (x / 0x100_0000) as u8,
    ]
}

/// The bytes of a run of code units: unit `i` fills bytes `2 * i` and
/// `2 * i + 1`, low byte first.
pub open spec fn wide_bytes(units: Seq<u16>) -> Seq<u8> {
    Seq::new(
        2 * units.len(),
        |i: int|
            if i % 2 == 0 {
                (units[i / 2] % 256) as u8
            } else {
                (units[i / 2] / 256) as u8
            },
    )
}

/// `count` bytes of zero.
pub open spec fn zeros(count: nat) -> Seq<u8> {
    Seq::new(count, |i: int| 0u8)
}

/// Encoding a text that ends in `c` is encoding what precedes `c` and then `c`.
pub proof fn lemma_utf16_push(text: Seq<char>, c: char)
    ensures
        utf16(text.push(c)) == utf16(text) + char_units(c),
{
    assert(text.push(c).drop_last() == text);
}

/// A character takes one code unit or two, so a text of `n` characters takes
/// between `n` and `2 * n`.
pub proof fn lemma_utf16_len(text: Seq<char>)
    ensures
        text.len() <= utf16(text).len() <= 2 * text.len(),
    decreases text.len(),
{
    if text.len() > 0 {
        lemma_utf16_len(text.drop_last());
    }
}

/// Encodes `text` as UTF-16 code units, without a terminator.
pub fn encode_utf16(text: &str) -> (units: Vec<u16>)
    ensures
        units@ == utf16(text@),
{
    let count = text.unicode_len();
    let mut units: Vec<u16> = Vec::new();
    let mut i: usize = 0;
    while i < count
        invariant
            count == text@.len(),
            i <= count,
            units@ == utf16(text@.subrange(0, i as int)),
        decreases count - i,
    {
        let c = text.get_char(i);
        let v: u32 = c as u32;
        proof {
            lemma_utf16_push(text@.subrange(0, i as int), c);
            assert(text@.subrange(0, i as int).push(c) == text@.subrange(0, i + 1));
        }
        if v < 0x10000 {
            units.push(v as u16);
        } else {
            let offset: u32 = v - 0x10000;
            units.push((0xD800 + offset / 0x400) as u16);
            units.push((0xDC00 + offset % 0x400) as u16);
        }
        i += 1;
    }
    proof {
        assert(text@.subrange(0, count as int) == text@);
    }
    units
}

/// Appends the four little-endian bytes of `x`.
pub fn push_u32_le(bytes: &mut Vec<u8>, x: u32)
    ensures
        final(bytes)@ == old(bytes)@ + le_bytes_u32(x),
{
    bytes.push((x % 256) as u8);
    bytes.push((x / 0x100 % 256) as u8);
    bytes.push((x / 0x1_0000 % 256) as u8);
    bytes.push((x / 0x100_0000) as u8);
}

/// Appends the bytes of `units`, each unit low byte first.
pub fn push_wide_le(bytes: &mut Vec<u8>, units: &Vec<u16>)
    ensures
        final(bytes)@ == old(bytes)@ + wide_bytes(units@),
{
    let mut i: usize = 0;
    while i < units.len()
        invariant
            i <= units.len(),
            bytes@ == old(bytes)@ + wide_bytes(units@.subrange(0, i as int)),
        decreases units.len() - i,
    {
        let unit: u16 = units[i];
        proof {
            assert(wide_bytes(units@.subrange(0, i + 1)) == wide_bytes(
                units@.subrange(0, i as int),
            ) + le_bytes_u16(unit));
        }
        bytes.push((unit % 256) as u8);
        bytes.push((unit / 256) as u8);
        i += 1;
    }
    proof {
        assert(units@.subrange(0, units.len() as int) == units@);
    }
}

/// Appends `count` bytes of zero.
pub fn push_zeros(bytes: &mut Vec<u8>, count: usize)
    ensures
        final(bytes)@ == old(bytes)@ + zeros(count as nat),
{
    let mut i: usize = 0;
    while i < count
        invariant
            i <= count,
            bytes@ == old(bytes)@ + zeros(i as nat),
        decreases count - i,
    {
        bytes.push(0u8);
        i += 1;
    }
}

} // verus!

//! UTF-16 text as the system calls take and give it.

use vstd::prelude::*;

verus! {

/// The code units of one character: the character itself, or a surrogate
/// pair for one beyond the basic plane.
pub open spec fn code_units(c: char) -> Seq<u16> {
    let v = c as int;
    if v < 0x1_0000 {
        seq![v as u16]
    } else {
        seq![
            (0xD800 + (v - 0x1_0000) / 0x400) as u16,
            (0xDC00 + (v - 0x1_0000) % 0x400) as u16,
        ]
    }
}

/// The UTF-16 encoding of a text.
pub open spec fn utf16(text: Seq<char>) -> Seq<u16>
    decreases text.len(),
{
    if text.len() == 0 {
        seq![]
    } else {
        utf16(text.drop_last()) + code_units(text.last())
    }
}

fn push_code_units(units: &mut Vec<u16>, c: char)
    ensures
        final(units)@ == old(units)@ + code_units(c),
{
    let v: u32 = c as u32;
    if v < 0x1_0000 {
        units.push(v as u16);
    } else {
        let w: u32 = v - 0x1_0000;
        units.push((0xD800 + w / 0x400) as u16);
        units.push((0xDC00 + w % 0x400) as u16);
    }
    assert(units@ =~= old(units)@ + code_units(c));
}

/// The UTF-16 encoding of a text with a zero at the end.
pub fn wide_z(text: &str) -> (units: Vec<u16>)
    ensures
        units@ == utf16(text@).push(0),
{
    let mut units: Vec<u16> = Vec::new();
    for c in iter: text.chars()
        invariant
            iter.seq() == text@,
            units@ == utf16(text@.take(iter.index())),
    {
        push_code_units(&mut units, c);
        assert(text@.take(iter.index() + 1).drop_last() =~= text@.take(iter.index()));
    }
    assert(text@.take(text@.len() as int) =~= text@);
    units.push(0);
    units
}

/// The bytes of code units, low byte first.
pub open spec fn unit_bytes(units: Seq<u16>) -> Seq<u8> {
    Seq::new(
        2 * units.len(),
        |i: int|
            if i % 2 == 0 {
                (units[i / 2] % 256) as u8
            } else {
                (units[i / 2] / 256) as u8
            },
    )
}

/// The bytes of code units, low byte first.
pub fn little_endian(units: &Vec<u16>) -> (bytes: Vec<u8>)
    ensures
        bytes@ == unit_bytes(units@),
{
    let mut bytes: Vec<u8> = Vec::new();
    let n: usize = units.len();
    for k in 0..n
        invariant
            n == units.len(),
            bytes@ == unit_bytes(units@.take(k as int)),
    {
        bytes.push((units[k] % 256) as u8);
        bytes.push((units[k] / 256) as u8);
        assert(bytes@ =~= unit_bytes(units@.take(k as int + 1)));
    }
    assert(units@.take(n as int) =~= units@);
    bytes
}

/// Only the units of a surrogate pair lie in the ranges of these.
proof fn lemma_code_units(c: char)
    ensures
        1 <= code_units(c).len() <= 2,
        code_units(c).len() == 2 <==> 0xDC00 <= code_units(c).last() < 0xE000,
        code_units(c).len() == 2 <==> 0xD800 <= code_units(c)[0] < 0xDC00,
        code_units(c).len() == 1 ==> c as int == code_units(c)[0],
        code_units(c).len() == 2 ==> c as int == 0x1_0000 + (code_units(c)[0] - 0xD800) * 0x400 + (
        code_units(c)[1] - 0xDC00),
{
}

/// The unit is the first half of a surrogate pair.
pub open spec fn is_high_surrogate(unit: u16) -> bool {
    0xD800 <= unit < 0xDC00
}

/// The unit is the second half of a surrogate pair.
pub open spec fn is_low_surrogate(unit: u16) -> bool {
    0xDC00 <= unit < 0xE000
}

/// The text that code units decode to: a surrogate pair gives the character
/// that it stands for, a surrogate without its other half gives the
/// replacement character, and any other unit gives itself.
pub open spec fn utf16_lossy(units: Seq<u16>) -> Seq<char>
    decreases units.len(),
{
    if units.len() == 0 {
        seq![]
    } else if units.len() >= 2 && is_high_surrogate(units[0]) && is_low_surrogate(units[1]) {
        let v = 0x1_0000 + (units[0] - 0xD800) * 0x400 + (units[1] - 0xDC00);
        seq![v as char] + utf16_lossy(units.skip(2))
    } else if is_high_surrogate(units[0]) || is_low_surrogate(units[0]) {
        seq!['\u{FFFD}'] + utf16_lossy(units.skip(1))
    } else {
        seq![units[0] as char] + utf16_lossy(units.skip(1))
    }
}

/// `String::from_utf16_lossy` decodes UTF-16 and puts the replacement
/// character U+FFFD in place of what is no valid UTF-16, which is each
/// surrogate that stands alone.
pub assume_specification[ String::from_utf16_lossy ](units: &[u16]) -> (text: String)
    ensures
        text@ == utf16_lossy(units@),
;

proof fn lemma_encoding_starts(text: Seq<char>)
    requires
        text.len() > 0,
    ensures
        utf16(text) == code_units(text[0]) + utf16(text.skip(1)),
    decreases text.len(),
{
    let front = text.drop_last();
    if front.len() > 0 {
        lemma_encoding_starts(front);
        assert(front.skip(1) =~= text.skip(1).drop_last());
        assert(utf16(text) =~= code_units(text[0]) + utf16(text.skip(1)));
    } else {
        reveal_with_fuel(utf16, 2);
        assert(utf16(text) =~= code_units(text[0]) + utf16(text.skip(1)));
    }
}

/// Decoding undoes encoding.
pub proof fn law_decoding_undoes_encoding(text: Seq<char>)
    ensures
        utf16_lossy(utf16(text)) == text,
    decreases text.len(),
{
    if text.len() > 0 {
        let c = text[0];
        let units = utf16(text);
        lemma_encoding_starts(text);
        lemma_code_units(c);
        law_decoding_undoes_encoding(text.skip(1));
        assert(units.skip(code_units(c).len() as int) =~= utf16(text.skip(1)));
        assert(units[0] == code_units(c)[0]);
        if code_units(c).len() == 2 {
            assert(units[1] == code_units(c)[1]);
            assert((0x1_0000 + (units[0] - 0xD800) * 0x400 + (units[1] - 0xDC00)) as char == c);
        } else {
            assert(units[0] as char == c);
        }
        assert(utf16_lossy(units) =~= seq![c] + text.skip(1));
        assert(text =~= seq![c] + text.skip(1));
    }
}

/// Different texts have different encodings.
pub proof fn law_encodings_differ(a: Seq<char>, b: Seq<char>)
    requires
        utf16(a) == utf16(b),
    ensures
        a == b,
{
    law_decoding_undoes_encoding(a);
    law_decoding_undoes_encoding(b);
}

/// A character of the basic plane is its own code unit. Any other character is
/// a high and a low surrogate, with ten bits of it above 2^16 each.
pub proof fn law_code_units_of_a_character(c: char)
    ensures
        (c as int) < 0x1_0000 ==> code_units(c).len() == 1 && code_units(c)[0] == c as int,
        (c as int) >= 0x1_0000 ==> {
            let u = code_units(c);
            &&& u.len() == 2
            &&& 0xD800 <= u[0] < 0xDC00
            &&& 0xDC00 <= u[1] < 0xE000
            &&& c as int == 0x1_0000 + (u[0] - 0xD800) * 0x400 + (u[1] - 0xDC00)
        },
{
}

/// Texts are encoded character by character, in order.
pub proof fn law_encoding_goes_by_characters(a: Seq<char>, b: Seq<char>, c: char)
    ensures
        utf16(Seq::<char>::empty()) =~= Seq::<u16>::empty(),
        utf16(seq![c]) =~= code_units(c),
        utf16(a + b) =~= utf16(a) + utf16(b),
    decreases b.len(),
{
    reveal_with_fuel(utf16, 2);
    assert(seq![c].drop_last() =~= Seq::<char>::empty());
    if b.len() == 0 {
        assert(a + b =~= a);
    } else {
        law_encoding_goes_by_characters(a, b.drop_last(), c);
        assert((a + b).drop_last() =~= a + b.drop_last());
        assert((a + b).last() == b.last());
    }
}

/// Each code unit becomes two bytes, low byte first.
pub proof fn law_bytes_make_up_the_units(units: Seq<u16>, i: int)
    requires
        0 <= i < units.len(),
    ensures
        unit_bytes(units).len() == 2 * units.len(),
        unit_bytes(units)[2 * i] + 256 * unit_bytes(units)[2 * i + 1] == units[i],
{
}

/// Decoding takes one character off the front at a time: a pair of surrogates
/// for the character that it encodes, a surrogate that stands alone for the
/// replacement character, and any other unit for the character of its number.
pub proof fn law_decoding_goes_from_the_front(c: char, unit: u16, rest: Seq<u16>)
    ensures
        utf16_lossy(Seq::<u16>::empty()) =~= Seq::<char>::empty(),
        utf16_lossy(code_units(c) + rest) =~= seq![c] + utf16_lossy(rest),
        0xDC00 <= unit < 0xE000 ==> utf16_lossy(seq![unit] + rest) =~= seq!['\u{FFFD}']
            + utf16_lossy(rest),
        0xD800 <= unit < 0xDC00 && !(rest.len() > 0 && 0xDC00 <= rest[0] < 0xE000) ==> utf16_lossy(
            seq![unit] + rest,
        ) =~= seq!['\u{FFFD}'] + utf16_lossy(rest),
{
    lemma_code_units(c);
    let units = code_units(c) + rest;
    assert(units[0] == code_units(c)[0]);
    assert(units.skip(code_units(c).len() as int) =~= rest);
    if code_units(c).len() == 2 {
        assert(units[1] == code_units(c)[1]);
        assert((0x1_0000 + (units[0] - 0xD800) * 0x400 + (units[1] - 0xDC00)) as char == c);
    } else {
        assert(units[0] as char == c);
    }
    let lone = seq![unit] + rest;
    assert(lone.skip(1) =~= rest);
    assert(lone[0] == unit);
    assert(rest.len() > 0 ==> lone[1] == rest[0]);
}

} // verus!

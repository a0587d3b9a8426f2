//! UTF-16 as a mathematical model: which code units a text encodes to, and
//! which text a sequence of code units decodes to when every ill-formed
//! unit is replaced.

use crate::std_specs::is_scalar_value;
use vstd::prelude::*;

verus! {

/// The character that stands in for a code unit that cannot be decoded.
pub const REPLACEMENT_CHARACTER: char = '\u{FFFD}';

/// A leading (high) surrogate: the first unit of a two-unit character.
pub open spec fn is_high_surrogate(unit: u16) -> bool {
    0xD800 <= unit <= 0xDBFF
}

/// A trailing (low) surrogate: the second unit of a two-unit character.
pub open spec fn is_low_surrogate(unit: u16) -> bool {
    0xDC00 <= unit <= 0xDFFF
}

/// A unit that is no character by itself.
pub open spec fn is_surrogate(unit: u16) -> bool {
    0xD800 <= unit <= 0xDFFF
}

/// The code units of one character: itself where it fits in 16 bits, else a
/// high and a low surrogate that carry ten bits each of its offset from
/// U+10000.
pub open spec fn encode_char(c: char) -> Seq<u16> {
    let scalar = c as int;
    if scalar < 0x10000 {
        seq![scalar as u16]
    } else {
        seq![
            (0xD800 + (scalar - 0x10000) / 0x400) as u16,
            (0xDC00 + (scalar - 0x10000) % 0x400) as u16,
        ]
    }
}

/// The code units of a text: those of its characters, in order.
pub open spec fn encode_utf16(text: Seq<char>) -> Seq<u16>
    decreases text.len(),
{
    if text.len() == 0 {
        Seq::empty()
    } else {
        encode_char(text.first()) + encode_utf16(text.drop_first())
    }
}

/// Every character is a Unicode scalar value: at most U+10FFFF and no
/// surrogate.
pub proof fn lemma_char_is_scalar(c: char)
    ensures
        0 <= c as int <= 0x10FFFF,
        !(0xD800 <= c as int <= 0xDFFF),
        c as u32 == c as int,
{
}

/// Encoding distributes over concatenation: a text's units are those of
/// its first part followed by those of its second.
pub proof fn lemma_encode_concat(left: Seq<char>, right: Seq<char>)
    ensures
        encode_utf16(left + right) == encode_utf16(left) + encode_utf16(right),
    decreases left.len(),
{
    if left.len() == 0 {
        assert(left + right =~= right);
    } else {
        lemma_encode_concat(left.drop_first(), right);
        assert((left + right).drop_first() =~= left.drop_first() + right);
        assert((left + right).first() == left.first());
    }
}

/// Appending one character appends exactly its code units.
pub proof fn lemma_encode_push(text: Seq<char>, c: char)
    ensures
        encode_utf16(text.push(c)) == encode_utf16(text) + encode_char(c),
{
    lemma_encode_concat(text, seq![c]);
    assert(text.push(c) =~= text + seq![c]);
    assert(seq![c].drop_first() =~= Seq::<char>::empty());
    assert(encode_utf16(Seq::<char>::empty()) =~= Seq::<u16>::empty());
    assert(encode_utf16(seq![c]) =~= encode_char(c));
}

/// Encodes `text` as UTF-16, without a terminator.
pub fn encode(text: &str) -> (units: Vec<u16>)
    ensures
        units@ == encode_utf16(text@),
{
    let mut units: Vec<u16> = Vec::new();
    for c in it: text.chars()
        invariant
            it.seq() == text@,
            units@ == encode_utf16(text@.take(it.index())),
    {
        let ghost before = units@;
        proof {
            lemma_encode_push(text@.take(it.index()), c);
            assert(text@.take(it.index() + 1) =~= text@.take(it.index()).push(c));
            lemma_char_is_scalar(c);
        }
        let scalar: u32 = c as u32;
        if scalar < 0x10000 {
            units.push(scalar as u16);
            assert(units@ =~= before + encode_char(c));
        } else {
            let offset: u32 = scalar - 0x10000;
            units.push((0xD800 + offset / 0x400) as u16);
            units.push((0xDC00 + offset % 0x400) as u16);
            assert(units@ =~= before + encode_char(c));
        }
    }
    proof {
        assert(text@.take(text@.len() as int) =~= text@);
    }
    units
}

/// The character that a high and a low surrogate stand for together.
pub open spec fn combine_surrogates(high: u16, low: u16) -> char {
    (0x10000 + (high - 0xD800) * 0x400 + (low - 0xDC00)) as char
}

/// Whether the units begin with a well-formed surrogate pair.
pub open spec fn starts_with_pair(units: Seq<u16>) -> bool {
    units.len() >= 2 && is_high_surrogate(units[0]) && is_low_surrogate(units[1])
}

/// The first character that non-empty units decode to: the character of a
/// leading surrogate pair, the replacement character for a surrogate that
/// has no partner, else the unit itself.
pub open spec fn decode_first(units: Seq<u16>) -> char
    recommends
        units.len() > 0,
{
    if starts_with_pair(units) {
        combine_surrogates(units[0], units[1])
    } else if is_surrogate(units[0]) {
        REPLACEMENT_CHARACTER
    } else {
        units[0] as char
    }
}

/// How many units the first character takes up.
pub open spec fn first_width(units: Seq<u16>) -> int {
    if starts_with_pair(units) {
        2
    } else {
        1
    }
}

/// The text that code units decode to when nothing is rejected: each
/// unpaired surrogate becomes one replacement character.
pub open spec fn decode_utf16_lossy(units: Seq<u16>) -> Seq<char>
    decreases units.len(),
{
    if units.len() == 0 {
        Seq::empty()
    } else {
        seq![decode_first(units)] + decode_utf16_lossy(units.skip(first_width(units)))
    }
}

/// Units that begin with the encoding of `c` decode to `c`, followed by
/// whatever the remaining units decode to.
pub proof fn lemma_decode_after_char(c: char, rest: Seq<u16>)
    ensures
        decode_utf16_lossy(encode_char(c) + rest) == seq![c] + decode_utf16_lossy(rest),
{
    lemma_char_is_scalar(c);
    let units = encode_char(c) + rest;
    let scalar = c as int;
    if scalar < 0x10000 {
        assert(units[0] == scalar as u16);
        assert(!is_surrogate(units[0]));
        assert(units.skip(1) =~= rest);
        assert(decode_first(units) == c);
    } else {
        let offset = scalar - 0x10000;
        assert(units[0] == (0xD800 + offset / 0x400) as u16);
        assert(units[1] == (0xDC00 + offset % 0x400) as u16);
        assert(starts_with_pair(units));
        assert(units.skip(2) =~= rest);
        assert(combine_surrogates(units[0], units[1]) == c);
    }
}

/// Units that begin with the encoding of a text decode to that text,
/// followed by whatever the remaining units decode to.
pub proof fn lemma_decode_after_text(text: Seq<char>, rest: Seq<u16>)
    ensures
        decode_utf16_lossy(encode_utf16(text) + rest) == text + decode_utf16_lossy(rest),
    decreases text.len(),
{
    if text.len() == 0 {
        assert(encode_utf16(text) + rest =~= rest);
        assert(text + decode_utf16_lossy(rest) =~= decode_utf16_lossy(rest));
    } else {
        let tail = text.drop_first();
        lemma_decode_after_text(tail, rest);
        lemma_decode_after_char(text.first(), encode_utf16(tail) + rest);
        assert(encode_utf16(text) + rest =~= encode_char(text.first()) + (encode_utf16(tail)
            + rest));
        assert(text + decode_utf16_lossy(rest) =~= seq![text.first()] + (tail
            + decode_utf16_lossy(rest)));
    }
}

/// Round trip: decoding the encoding of a text gives the text back. Every
/// character has an encoding, so this holds of every text.
pub proof fn lemma_decode_encode(text: Seq<char>)
    ensures
        decode_utf16_lossy(encode_utf16(text)) == text,
{
    lemma_decode_after_text(text, Seq::empty());
    assert(encode_utf16(text) + Seq::<u16>::empty() =~= encode_utf16(text));
    assert(text + decode_utf16_lossy(Seq::<u16>::empty()) =~= text);
}

/// The character with the given number.
fn scalar_to_char(scalar: u32) -> (c: char)
    requires
        is_scalar_value(scalar),
    ensures
        c == scalar as char,
{
    match char::from_u32(scalar) {
        Some(c) => c,
        None => REPLACEMENT_CHARACTER,
    }
}

/// Decodes UTF-16 code units to text, replacing each unpaired surrogate by
/// U+FFFD. Nothing is rejected and nothing is skipped: a zero unit decodes
/// to the character U+0000.
pub fn decode_lossy(units: &[u16]) -> (text: String)
    ensures
        text@ == decode_utf16_lossy(units@),
{
    let mut text = String::new();
    let mut next: usize = 0;
    proof {
        assert(units@.skip(0) =~= units@);
        assert(text@ + decode_utf16_lossy(units@) =~= decode_utf16_lossy(units@));
    }
    while next < units.len()
        invariant
            next <= units.len(),
            decode_utf16_lossy(units@) == text@ + decode_utf16_lossy(units@.skip(next as int)),
        decreases units.len() - next,
    {
        let ghost rest = units@.skip(next as int);
        let ghost done = text@;
        let unit = units[next];
        assert(rest.len() > 0 && rest[0] == unit);
        if unit < 0xD800 || unit > 0xDFFF {
            text.push(scalar_to_char(unit as u32));
            next += 1;
        } else if unit <= 0xDBFF && next + 1 < units.len() && 0xDC00 <= units[next + 1]
            && units[next + 1] <= 0xDFFF {
            let high: u32 = (unit - 0xD800) as u32;
            let low: u32 = (units[next + 1] - 0xDC00) as u32;
            assert(rest[1] == units[next + 1]);
            text.push(scalar_to_char(0x10000 + high * 0x400 + low));
            next += 2;
        } else {
            text.push(REPLACEMENT_CHARACTER);
            next += 1;
        }
        proof {
            assert(units@.skip(next as int) =~= rest.skip(first_width(rest)));
            assert(text@ == done.push(decode_first(rest)));
            assert(text@ + decode_utf16_lossy(units@.skip(next as int)) =~= done
                + decode_utf16_lossy(rest));
        }
    }
    proof {
        assert(units@.skip(units@.len() as int) =~= Seq::<u16>::empty());
        assert(text@ + Seq::<char>::empty() =~= text@);
    }
    text
}

} // verus!

//! The wide-string buffer: an owned run of UTF-16 code units that is lent
//! to operating-system calls, which read a zero-terminated text from it or
//! write one into it.

use crate::utf16::{
    decode_lossy, decode_utf16_lossy, encode, encode_char, encode_utf16, lemma_char_is_scalar,
    lemma_decode_after_text, lemma_decode_encode,
};
use vstd::prelude::*;

verus! {

/// `count` zero units.
pub open spec fn zeros(count: nat) -> Seq<u16> {
    Seq::new(count, |i: int| 0u16)
}

/// A text's code units followed by the terminator.
pub open spec fn terminated_units(text: Seq<char>) -> Seq<u16> {
    encode_utf16(text).push(0u16)
}

/// Whether a buffer of `size` units has room for the text and its
/// terminator.
pub open spec fn fits(text: Seq<char>, size: nat) -> bool {
    encode_utf16(text).len() < size
}

/// A text's code units, zero-padded to `size` units. Where the text fits,
/// the first unit of the padding is its terminator.
pub open spec fn padded_units(text: Seq<char>, size: nat) -> Seq<u16>
    recommends
        fits(text, size),
{
    encode_utf16(text) + zeros((size - encode_utf16(text).len()) as nat)
}

/// Why a buffer could not be built.
#[derive(Clone, Copy, Debug, PartialEq, Eq, Structural)]
pub enum WideStringError {
    /// The requested size has no room for the text and its terminator.
    InvalidArgument,
}

/// An owned buffer of UTF-16 code units.
///
/// A buffer made from a text always holds the text's terminator. Its
/// length is fixed when it is made: the borrows that `ptr` and `mut_ptr`
/// hand out can read and overwrite units, never add or remove one.
#[derive(Debug)]
pub struct WideString {
    inner: Vec<u16>,
}

impl View for WideString {
    type V = Seq<u16>;

    closed spec fn view(&self) -> Seq<u16> {
        self.inner@
    }
}

/// The code units of `text`, followed by one zero unit.
pub fn get_wide_string(text: &str) -> (units: Vec<u16>)
    ensures
        units@ == terminated_units(text@),
{
    let mut units = encode(text);
    units.push(0);
    units
}

impl WideString {
    /// Lends the units for reading, for as long as the buffer is borrowed.
    pub fn ptr(&self) -> (units: &[u16])
        ensures
            units@ == self@,
    {
        self.inner.as_slice()
    }

    /// Lends the units for writing in place. The buffer afterwards holds
    /// what the borrower left in them; the borrow cannot change its length.
    pub fn mut_ptr(&mut self) -> (units: &mut [u16])
        ensures
            units@ == old(self)@,
            final(self)@ == final(units)@,
    {
        self.inner.as_mut_slice()
    }

    /// A buffer of `size` zero units, for a call that writes its result
    /// into it.
    pub fn with_size(size: usize) -> (buffer: Self)
        ensures
            buffer@ == zeros(size as nat),
    {
        let mut units: Vec<u16> = Vec::new();
        units.resize(size, 0);
        assert(units@ =~= zeros(size as nat));
        WideString { inner: units }
    }

    /// A buffer of exactly `size` units that holds `text`, its terminator
    /// and zero padding.
    ///
    /// A size without room for the text and the terminator is rejected:
    /// the text is never cut short.
    pub fn from_str_with_size(text: &str, size: usize) -> (made: Result<Self, WideStringError>)
        ensures
            made.is_ok() <==> fits(text@, size as nat),
            made matches Ok(buffer) ==> {
                &&& buffer@ == padded_units(text@, size as nat)
                &&& buffer@.len() == size
                &&& buffer@.take(encode_utf16(text@).len() as int) == encode_utf16(text@)
                &&& forall|i: int| encode_utf16(text@).len() <= i < size ==> buffer@[i] == 0
                &&& is_terminated(buffer@)
            },
            made matches Err(error) ==> error == WideStringError::InvalidArgument,
    {
        let mut units = encode(text);
        if units.len() < size {
            units.resize(size, 0);
            proof {
                assert(units@ =~= padded_units(text@, size as nat));
                lemma_sized_buffer(text@, size as nat);
                lemma_buffer_is_terminated(text@, size as nat);
            }
            Ok(WideString { inner: units })
        } else {
            Err(WideStringError::InvalidArgument)
        }
    }

    /// A buffer that holds `text` and its terminator, and nothing more.
    pub fn from_str(text: &str) -> (buffer: Self)
        ensures
            buffer@ == terminated_units(text@),
            buffer@.len() == encode_utf16(text@).len() + 1,
            buffer@.last() == 0,
            is_terminated(buffer@),
    {
        proof {
            lemma_terminated_buffer(text@);
            lemma_buffer_is_terminated(text@, encode_utf16(text@).len() + 1);
        }
        WideString { inner: get_wide_string(text) }
    }

    /// The text that the whole buffer decodes to, terminator and padding
    /// included; each unit that is no valid UTF-16 becomes U+FFFD.
    pub fn to_string(&self) -> (text: String)
        ensures
            text@ == decode_utf16_lossy(self@),
    {
        decode_lossy(self.inner.as_slice())
    }
}

impl Default for WideString {
    /// The empty buffer.
    fn default() -> (buffer: Self)
        ensures
            buffer@ == Seq::<u16>::empty(),
    {
        WideString { inner: Vec::new() }
    }
}

/// `count` characters U+0000.
pub open spec fn nul_chars(count: nat) -> Seq<char> {
    Seq::new(count, |i: int| '\0')
}

/// How many units come before the first zero unit; all of them where there
/// is none.
pub open spec fn text_len(units: Seq<u16>) -> nat
    decreases units.len(),
{
    if units.len() == 0 || units.first() == 0 {
        0
    } else {
        1 + text_len(units.drop_first())
    }
}

/// What a reader of zero-terminated strings takes the units to hold: the
/// units before the first zero unit.
pub open spec fn text_units(units: Seq<u16>) -> Seq<u16> {
    units.take(text_len(units) as int)
}

/// Whether the units hold a terminator, so that a reader of
/// zero-terminated strings stops inside them.
pub open spec fn is_terminated(units: Seq<u16>) -> bool {
    text_len(units) < units.len()
}

/// Whether the character U+0000 occurs nowhere in the text.
pub open spec fn has_no_nul(text: Seq<char>) -> bool {
    forall|i: int| 0 <= i < text.len() ==> text[i] != '\0'
}

/// A buffer made from a text alone is one unit longer than the text's
/// encoding, ends with a zero unit, and is the sized buffer of the smallest
/// size that has room.
pub proof fn lemma_terminated_buffer(text: Seq<char>)
    ensures
        terminated_units(text).len() == encode_utf16(text).len() + 1,
        terminated_units(text).last() == 0,
        terminated_units(text) == padded_units(text, encode_utf16(text).len() + 1),
{
    assert(terminated_units(text) =~= padded_units(text, encode_utf16(text).len() + 1));
}

/// A sized buffer with room for its text has exactly the requested length;
/// the units of its text come first and decode back to the text; every unit
/// after them is zero.
pub proof fn lemma_sized_buffer(text: Seq<char>, size: nat)
    requires
        fits(text, size),
    ensures
        padded_units(text, size).len() == size,
        padded_units(text, size).take(encode_utf16(text).len() as int) == encode_utf16(text),
        decode_utf16_lossy(padded_units(text, size).take(encode_utf16(text).len() as int))
            == text,
        forall|i: int|
            encode_utf16(text).len() <= i < size ==> padded_units(text, size)[i] == 0,
{
    assert(padded_units(text, size).take(encode_utf16(text).len() as int) =~= encode_utf16(
        text,
    ));
    lemma_decode_encode(text);
}

/// Zero units decode to as many characters U+0000.
pub proof fn lemma_decode_zeros(count: nat)
    ensures
        decode_utf16_lossy(zeros(count)) == nul_chars(count),
    decreases count,
{
    if count == 0 {
        assert(decode_utf16_lossy(zeros(count)) =~= nul_chars(count));
    } else {
        lemma_decode_zeros((count - 1) as nat);
        assert(zeros(count).skip(1) =~= zeros((count - 1) as nat));
        assert(zeros(count)[0] as char == '\0');
        assert(decode_utf16_lossy(zeros(count)) =~= nul_chars(count));
    }
}

/// Decoding a whole sized buffer gives its text, followed by one character
/// U+0000 for the terminator and one for each unit of padding.
pub proof fn lemma_decode_buffer(text: Seq<char>, size: nat)
    requires
        fits(text, size),
    ensures
        decode_utf16_lossy(padded_units(text, size)) == text + nul_chars(
            (size - encode_utf16(text).len()) as nat,
        ),
{
    let padding = (size - encode_utf16(text).len()) as nat;
    lemma_decode_after_text(text, zeros(padding));
    lemma_decode_zeros(padding);
}

/// A reader of zero-terminated strings stops at the first zero unit, so
/// before any other.
pub proof fn lemma_text_len_at_most(units: Seq<u16>, at: int)
    requires
        0 <= at < units.len(),
        units[at] == 0,
    ensures
        text_len(units) <= at,
    decreases units.len(),
{
    if units.first() != 0 {
        assert(units.drop_first()[at - 1] == units[at]);
        lemma_text_len_at_most(units.drop_first(), at - 1);
    }
}

/// A buffer with room for its text is terminated, whatever the text.
pub proof fn lemma_buffer_is_terminated(text: Seq<char>, size: nat)
    requires
        fits(text, size),
    ensures
        is_terminated(padded_units(text, size)),
{
    lemma_text_len_at_most(padded_units(text, size), encode_utf16(text).len() as int);
}

/// The encoding of a text without U+0000 holds no zero unit.
pub proof fn lemma_encode_has_no_zero(text: Seq<char>)
    requires
        has_no_nul(text),
    ensures
        forall|i: int| 0 <= i < encode_utf16(text).len() ==> encode_utf16(text)[i] != 0,
    decreases text.len(),
{
    if text.len() > 0 {
        let tail = text.drop_first();
        assert(has_no_nul(tail)) by {
            assert forall|i: int| 0 <= i < tail.len() implies tail[i] != '\0' by {
                assert(tail[i] == text[i + 1]);
            }
        }
        lemma_encode_has_no_zero(tail);
        lemma_char_is_scalar(text.first());
        assert(text[0] != '\0');
        let head = encode_char(text.first());
        assert(forall|i: int| 0 <= i < head.len() ==> head[i] != 0);
        assert forall|i: int| 0 <= i < encode_utf16(text).len() implies encode_utf16(text)[i]
            != 0 by {
            if i >= head.len() {
                assert(encode_utf16(text)[i] == encode_utf16(tail)[i - head.len()]);
            }
        }
    }
}

/// A reader of zero-terminated strings passes over units that hold no
/// zero, and goes on in what follows them.
pub proof fn lemma_text_len_after(units: Seq<u16>, rest: Seq<u16>)
    requires
        forall|i: int| 0 <= i < units.len() ==> units[i] != 0,
    ensures
        text_len(units + rest) == units.len() + text_len(rest),
    decreases units.len(),
{
    if units.len() == 0 {
        assert(units + rest =~= rest);
    } else {
        lemma_text_len_after(units.drop_first(), rest);
        assert((units + rest).drop_first() =~= units.drop_first() + rest);
        assert((units + rest).first() == units[0]);
    }
}

/// Round trip through a buffer: where the text holds no U+0000 and the
/// buffer has room for it, the buffer is terminated, a reader of
/// zero-terminated strings finds exactly the text's units in it, and they
/// decode to the text.
pub proof fn lemma_buffer_round_trip(text: Seq<char>, size: nat)
    requires
        has_no_nul(text),
        fits(text, size),
    ensures
        is_terminated(padded_units(text, size)),
        text_units(padded_units(text, size)) == encode_utf16(text),
        decode_utf16_lossy(text_units(padded_units(text, size))) == text,
{
    let units = encode_utf16(text);
    let padding = zeros((size - units.len()) as nat);
    lemma_encode_has_no_zero(text);
    lemma_text_len_after(units, padding);
    assert(padding.first() == 0);
    assert(text_len(padding) == 0);
    assert(padded_units(text, size).take(units.len() as int) =~= units);
    lemma_decode_encode(text);
}

} // verus!

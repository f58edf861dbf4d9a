//! UTF-16 text as the native search layers hand it over: encoding a Rust
//! string into wide units, and decoding a fixed-size, zero-padded buffer.
use vstd::prelude::*;
use vstd::string::*;
use vstd::utf8::{char_is_scalar, is_scalar};

verus! {

/// The character that stands in for an unpaired surrogate.
pub const REPLACEMENT_CHARACTER: char = '\u{FFFD}';

pub open spec fn is_high_surrogate(u: u16) -> bool {
    0xD800 <= u && u < 0xDC00
}

pub open spec fn is_low_surrogate(u: u16) -> bool {
    0xDC00 <= u && u < 0xE000
}

/// The scalar value that a high and a low surrogate stand for together.
pub open spec fn pair_scalar(hi: u16, lo: u16) -> u32 {
    (0x10000 + (hi - 0xD800) * 0x400 + (lo - 0xDC00)) as u32
}

/// The wide units of one character.
pub open spec fn encode_char(c: char) -> Seq<u16> {
    let v = c as u32;
    if v < 0x10000 {
        seq![v as u16]
    } else {
        seq![(0xD800 + (v - 0x10000) / 0x400) as u16, (0xDC00 + (v - 0x10000) % 0x400) as u16]
    }
}

/// The UTF-16 encoding of a text.
pub open spec fn encode_utf16(s: Seq<char>) -> Seq<u16>
    decreases s.len(),
{
    if s.len() == 0 {
        seq![]
    } else {
        encode_char(s[0]) + encode_utf16(s.skip(1))
    }
}

/// Lossy UTF-16 decoding: a surrogate without its partner becomes the
/// replacement character, and decoding goes on with the next unit.
pub open spec fn decode_utf16(units: Seq<u16>) -> Seq<char>
    decreases units.len(),
{
    if units.len() == 0 {
        seq![]
    } else if units.len() >= 2 && is_high_surrogate(units[0]) && is_low_surrogate(units[1]) {
        seq![pair_scalar(units[0], units[1]) as char] + decode_utf16(units.skip(2))
    } else if is_high_surrogate(units[0]) || is_low_surrogate(units[0]) {
        seq![REPLACEMENT_CHARACTER] + decode_utf16(units.skip(1))
    } else {
        seq![units[0] as char] + decode_utf16(units.skip(1))
    }
}

/// Index of the first zero unit, or the length when there is none.
pub open spec fn terminator_index(units: Seq<u16>) -> int
    decreases units.len(),
{
    if units.len() == 0 {
        0
    } else if units[0] == 0 {
        0
    } else {
        1 + terminator_index(units.skip(1))
    }
}

/// The text that a zero-terminated, zero-padded buffer holds.
pub open spec fn decode_wide_buffer_spec(units: Seq<u16>) -> Seq<char> {
    decode_utf16(units.take(terminator_index(units)))
}

/// Whether a text holds a nul character, which no zero-terminated native
/// string can carry.
pub open spec fn has_nul(s: Seq<char>) -> bool {
    s.contains('\0')
}

/// The message given for a text that holds a nul character.
pub const NUL_MESSAGE: &'static str = "nul byte found in provided data";

pub fn contains_nul(s: &str) -> (r: bool)
    ensures
        r == has_nul(s@),
{
    let n = s.unicode_len();
    let mut i: usize = 0;
    while i < n
        invariant
            n == s@.len(),
            0 <= i <= n,
            forall|j: int| 0 <= j < i ==> s@[j] != '\0',
        decreases n - i,
    {
        if s.get_char(i) == '\0' {
            assert(s@[i as int] == '\0');
            return true;
        }
        i = i + 1;
    }
    false
}

/// Relies on char::from_u32: it gives the char of exactly the Unicode scalar values.
#[verifier::external_body]
fn char_of_scalar(v: u32) -> (r: Option<char>)
    ensures
        is_scalar(v) ==> r == Some(v as char),
        !is_scalar(v) ==> r is None,
{
    char::from_u32(v)
}

/// Relies on String::push: it appends one char.
#[verifier::external_body]
pub(crate) fn push_char(s: &mut String, c: char)
    ensures
        final(s)@ == old(s)@.push(c),
{
    s.push(c)
}

proof fn lemma_terminator_index_of_prefix(units: Seq<u16>, n: int)
    requires
        0 <= n <= units.len(),
        forall|i: int| 0 <= i < n ==> units[i] != 0,
        n < units.len() ==> units[n] == 0,
    ensures
        terminator_index(units) == n,
    decreases units.len(),
{
    if units.len() > 0 && n > 0 {
        assert forall|i: int| 0 <= i < n - 1 implies units.skip(1)[i] != 0 by {
            assert(units.skip(1)[i] == units[i + 1]);
        }
        lemma_terminator_index_of_prefix(units.skip(1), n - 1);
    }
}

/// Decodes the text of a fixed-size wide buffer: the text ends at the first
/// zero unit, and nothing of the padding after it is kept.
pub fn decode_wide_buffer(buf: &[u16]) -> (r: String)
    ensures
        r@ == decode_wide_buffer_spec(buf@),
{
    let mut end: usize = 0;
    while end < buf.len() && buf[end] != 0
        invariant
            0 <= end <= buf@.len(),
            forall|i: int| 0 <= i < end ==> buf@[i] != 0,
        decreases buf@.len() - end,
    {
        end = end + 1;
    }
    proof {
        lemma_terminator_index_of_prefix(buf@, end as int);
    }
    let ghost text = buf@.take(end as int);
    let mut out = String::new();
    let mut i: usize = 0;
    assert(text.skip(0) =~= text);
    assert(out@ + decode_utf16(text) =~= decode_utf16(text));
    while i < end
        invariant
            0 <= i <= end <= buf@.len(),
            text == buf@.take(end as int),
            out@ + decode_utf16(text.skip(i as int)) == decode_utf16(text),
        decreases end - i,
    {
        let ghost rest = text.skip(i as int);
        assert(rest[0] == buf@[i as int]);
        let u = buf[i];
        if i + 1 < end && 0xD800 <= u && u < 0xDC00 && 0xDC00 <= buf[i + 1] && buf[i + 1] < 0xE000 {
            let lo = buf[i + 1];
            assert(rest[1] == lo);
            let v: u32 = 0x10000 + (u as u32 - 0xD800) * 0x400 + (lo as u32 - 0xDC00);
            assert(v == pair_scalar(u, lo));
            match char_of_scalar(v) {
                Some(c) => push_char(&mut out, c),
                None => push_char(&mut out, REPLACEMENT_CHARACTER),
            }
            assert(rest.skip(2) =~= text.skip(i + 2));
            i = i + 2;
        } else {
            if 0xD800 <= u && u < 0xE000 {
                push_char(&mut out, REPLACEMENT_CHARACTER);
            } else {
                match char_of_scalar(u as u32) {
                    Some(c) => push_char(&mut out, c),
                    None => push_char(&mut out, REPLACEMENT_CHARACTER),
                }
            }
            assert(rest.skip(1) =~= text.skip(i + 1));
            i = i + 1;
        }
    }
    assert(text.skip(end as int) =~= Seq::<u16>::empty());
    assert(out@ + Seq::<char>::empty() =~= out@);
    out
}

/// The wide units of a text, in order.
pub fn encode_wide(s: &str) -> (r: Vec<u16>)
    ensures
        r@ == encode_utf16(s@),
{
    let n = s.unicode_len();
    let mut out: Vec<u16> = Vec::new();
    let mut i: usize = 0;
    assert(s@.skip(0) =~= s@);
    assert(out@ + encode_utf16(s@) =~= encode_utf16(s@));
    while i < n
        invariant
            n == s@.len(),
            0 <= i <= n,
            out@ + encode_utf16(s@.skip(i as int)) == encode_utf16(s@),
        decreases n - i,
    {
        let c = s.get_char(i);
        let ghost rest = s@.skip(i as int);
        assert(rest[0] == c);
        let v = c as u32;
        proof {
            char_is_scalar(c);
        }
        if v < 0x10000 {
            out.push(v as u16);
        } else {
            out.push((0xD800 + (v - 0x10000) / 0x400) as u16);
            out.push((0xDC00 + (v - 0x10000) % 0x400) as u16);
        }
        assert(rest.skip(1) =~= s@.skip(i + 1));
        assert(out@ + encode_utf16(s@.skip(i + 1)) =~= encode_utf16(s@));
        i = i + 1;
    }
    assert(s@.skip(n as int) =~= Seq::<char>::empty());
    assert(out@ + Seq::<u16>::empty() =~= out@);
    out
}

/// A buffer that holds a text without zero units, followed by zero padding
/// of any length, decodes to that text alone: nothing of the padding is kept.
pub proof fn lemma_padding_dropped(text: Seq<u16>, padding: Seq<u16>)
    requires
        forall|i: int| 0 <= i < text.len() ==> text[i] != 0,
        forall|i: int| 0 <= i < padding.len() ==> padding[i] == 0,
    ensures
        decode_wide_buffer_spec(text + padding) == decode_utf16(text),
{
    let buf = text + padding;
    assert forall|i: int| 0 <= i < text.len() implies buf[i] != 0 by {
        assert(buf[i] == text[i]);
    }
    if text.len() < buf.len() {
        assert(buf[text.len() as int] == padding[0]);
    }
    lemma_terminator_index_of_prefix(buf, text.len() as int);
    assert(buf.take(text.len() as int) =~= text);
}

} // verus!

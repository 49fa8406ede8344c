//! UTF-16 conversion for the Win32 string boundary.
//!
//! `PCWSTR` parameters read until a NUL terminator ([`wide_z`]); length-taking
//! APIs read exactly the given length ([`wide_into`]), where a terminator would
//! be a stray glyph.

use vstd::prelude::*;
use vstd::string::*;

verus! {

/// The UTF-16 code units of one character: itself below U+10000, otherwise a
/// surrogate pair (high then low).
pub open spec fn utf16_of(c: char) -> Seq<u16> {
    let v = c as u32;
    if v < 0x10000 {
        seq![v as u16]
    } else {
        let u = (v - 0x10000) as int;
        seq![(0xD800 + u / 1024) as u16, (0xDC00 + u % 1024) as u16]
    }
}

/// `str::encode_utf16` collected: the code units of each character in order.
pub open spec fn encode_utf16(s: Seq<char>) -> Seq<u16> {
    s.map_values(|c: char| utf16_of(c)).flatten()
}

/// Append the code units of `c` to `buf`.
fn push_utf16(buf: &mut Vec<u16>, c: char)
    ensures
        final(buf)@ == old(buf)@ + utf16_of(c),
{
    let v = c as u32;
    if v < 0x10000 {
        buf.push(v as u16);
        assert(buf@ =~= old(buf)@ + utf16_of(c));
    } else {
        let u = v - 0x10000;
        buf.push((0xD800 + u / 1024) as u16);
        buf.push((0xDC00 + u % 1024) as u16);
        assert(buf@ =~= old(buf)@ + utf16_of(c));
    }
}

/// Encode `text` onto the end of `buf`.
fn extend_utf16(buf: &mut Vec<u16>, text: &str)
    ensures
        final(buf)@ == old(buf)@ + encode_utf16(text@),
{
    let n = text.unicode_len();
    let mut i: usize = 0;
    while i < n
        invariant
            n == text@.len(),
            i <= n,
            buf@ == old(buf)@ + encode_utf16(text@.take(i as int)),
        decreases n - i,
    {
        let c = text.get_char(i);
        push_utf16(buf, c);
        proof {
            let f = |c: char| utf16_of(c);
            assert(text@.take(i + 1) =~= text@.take(i as int).push(c));
            assert(text@.take(i + 1).map_values(f) =~= text@.take(i as int).map_values(f).push(
                utf16_of(c),
            ));
            text@.take(i as int).map_values(f).lemma_flatten_push(utf16_of(c));
            assert(buf@ =~= old(buf)@ + encode_utf16(text@.take(i + 1)));
        }
        i = i + 1;
    }
    assert(text@.take(n as int) =~= text@);
}

/// For `PCWSTR` parameters: the code units of `text` and one NUL terminator.
pub fn wide_z(text: &str) -> (r: Vec<u16>)
    ensures
        r@ == encode_utf16(text@).push(0),
{
    let mut buf: Vec<u16> = Vec::new();
    extend_utf16(&mut buf, text);
    buf.push(0);
    assert(buf@ =~= encode_utf16(text@).push(0));
    buf
}

/// Encode `text` for a length-taking API into `buf`, replacing its contents
/// (no terminator).
pub fn wide_into(buf: &mut Vec<u16>, text: &str)
    ensures
        final(buf)@ == encode_utf16(text@),
{
    buf.clear();
    extend_utf16(buf, text);
    assert(buf@ =~= encode_utf16(text@));
}

/// Whether a code unit is a surrogate (half of a pair).
pub open spec fn is_surrogate(u: u16) -> bool {
    0xD800 <= u <= 0xDFFF
}

/// The text of UTF-16 code units, decoded as `char::decode_utf16` does with
/// each error replaced by U+FFFD: a unit outside the surrogate range is its
/// own character; a high surrogate followed by a low one is the pair's
/// character; any other surrogate is unpaired, becomes U+FFFD, and decoding
/// goes on with the next unit.
pub open spec fn decode_utf16_lossy(units: Seq<u16>) -> Seq<char>
    decreases units.len(),
{
    if units.len() == 0 {
        Seq::empty()
    } else if !is_surrogate(units[0]) {
        seq![units[0] as char] + decode_utf16_lossy(units.drop_first())
    } else if units[0] <= 0xDBFF && units.len() >= 2 && 0xDC00 <= units[1] <= 0xDFFF {
        seq![(0x10000 + (units[0] - 0xD800) * 0x400 + (units[1] - 0xDC00)) as char]
            + decode_utf16_lossy(units.skip(2))
    } else {
        seq!['\u{FFFD}'] + decode_utf16_lossy(units.drop_first())
    }
}

proof fn lemma_decode_one(c: char, rest: Seq<u16>)
    ensures
        decode_utf16_lossy(utf16_of(c) + rest) == seq![c] + decode_utf16_lossy(rest),
{
    let v = c as u32;
    let units = utf16_of(c) + rest;
    if v < 0x10000 {
        assert(units.drop_first() =~= rest);
        assert(!(0xD800 <= v <= 0xDFFF));
        assert((v as u16) as char == c);
    } else {
        let u = (v - 0x10000) as int;
        assert(0 <= u < 0x100000);
        assert(0 <= u / 1024 < 1024);
        assert(0 <= u % 1024 < 1024);
        assert(units.skip(2) =~= rest);
        assert(u == (u / 1024) * 1024 + u % 1024);
        assert((0x10000 + (u / 1024) * 0x400 + u % 1024) as char == c);
    }
}

/// Decoding the encoding of a text gives the text back.
pub proof fn lemma_decode_encode(s: Seq<char>)
    ensures
        decode_utf16_lossy(encode_utf16(s)) == s,
    decreases s.len(),
{
    if s.len() == 0 {
        assert(encode_utf16(s) =~= Seq::<u16>::empty());
    } else {
        let f = |c: char| utf16_of(c);
        assert(s.map_values(f).drop_first() =~= s.drop_first().map_values(f));
        assert(encode_utf16(s) == utf16_of(s[0]) + encode_utf16(s.drop_first()));
        lemma_decode_one(s[0], encode_utf16(s.drop_first()));
        lemma_decode_encode(s.drop_first());
        assert(s =~= seq![s[0]] + s.drop_first());
    }
}

} // verus!

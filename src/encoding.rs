//! Decoding of the command output and cleaning of the names found in it.
use vstd::prelude::*;
use crate::text::{chars_of, trim, trim_str};

verus! {

/// A character kept in a distribution name: printable ASCII or a space.
pub open spec fn is_name_char(c: char) -> bool {
    ('!' <= c && c <= '~') || c == ' '
}

/// The characters of `s` that may stand in a name, in order.
pub open spec fn name_chars(s: Seq<char>) -> Seq<char>
    decreases s.len(),
{
    if s.len() == 0 {
        seq![]
    } else if is_name_char(s.last()) {
        name_chars(s.drop_last()).push(s.last())
    } else {
        name_chars(s.drop_last())
    }
}

/// `name` without control and non-ASCII characters (such as the NULs of UTF-16 output) and
/// without surrounding whitespace.
pub fn clean_distro_name(name: &str) -> (r: String)
    ensures
        r@ == trim(name_chars(name@)),
{
    let cs = chars_of(name);
    let mut kept = String::new();
    let mut i: usize = 0;
    while i < cs.len()
        invariant
            i <= cs@.len(),
            cs@ == name@,
            kept@ == name_chars(name@.subrange(0, i as int)),
        decreases cs@.len() - i,
    {
        let ghost pre = name@.subrange(0, i as int);
        assert(name@.subrange(0, i + 1).drop_last() =~= pre);
        let c = cs[i];
        if ('!' <= c && c <= '~') || c == ' ' {
            kept.append(name.substring_char(i, i + 1));
            assert(kept@ =~= name_chars(name@.subrange(0, i + 1)));
        }
        i = i + 1;
    }
    assert(name@.subrange(0, name@.len() as int) =~= name@);
    trim_str(kept.as_str())
}

/// `s` without any of the characters `c`.
pub open spec fn without_char(s: Seq<char>, c: char) -> Seq<char>
    decreases s.len(),
{
    if s.len() == 0 {
        seq![]
    } else if s.last() == c {
        without_char(s.drop_last(), c)
    } else {
        without_char(s.drop_last(), c).push(s.last())
    }
}

/// `s` without NUL characters and carriage returns.
pub open spec fn scrubbed(s: Seq<char>) -> Seq<char> {
    without_char(without_char(s, '\0'), '\r')
}

/// What `String::from_utf8_lossy` gives for bytes: UTF-8 decoding with each invalid sequence
/// replaced by U+FFFD.
pub uninterp spec fn utf8_lossy(bytes: Seq<u8>) -> Seq<char>;

/// What `String::from_utf16_lossy` gives for code units: UTF-16 decoding with each unpaired
/// surrogate replaced by U+FFFD.
pub uninterp spec fn utf16_lossy(units: Seq<u16>) -> Seq<char>;

/// Relies on `String::from_utf8_lossy`; the result depends on the bytes alone.
#[verifier::external_body]
pub(crate) fn decode_utf8_lossy(bytes: &[u8]) -> (r: String)
    ensures
        r@ == utf8_lossy(bytes@),
{
    String::from_utf8_lossy(bytes).into_owned()
}

/// Relies on `String::from_utf16_lossy`; the result depends on the code units alone.
#[verifier::external_body]
fn decode_utf16_lossy(units: &[u16]) -> (r: String)
    ensures
        r@ == utf16_lossy(units@),
{
    String::from_utf16_lossy(units)
}

/// The little-endian 16-bit code units of `data`, a trailing odd byte left out.
pub open spec fn le_units(data: Seq<u8>) -> Seq<u16> {
    Seq::new(data.len() / 2, |i: int| (data[2 * i] as int + 256 * data[2 * i + 1] as int) as u16)
}

/// The text of command output in UTF-16LE, after a byte-order mark if there is one; output of
/// fewer than two bytes is read as UTF-8. NULs and carriage returns are dropped.
pub open spec fn decoded_output(bytes: Seq<u8>) -> Seq<char> {
    if bytes.len() < 2 {
        without_char(utf8_lossy(bytes), '\r')
    } else if bytes[0] == 0xFF && bytes[1] == 0xFE {
        scrubbed(utf16_lossy(le_units(bytes.subrange(2, bytes.len() as int))))
    } else {
        scrubbed(utf16_lossy(le_units(bytes)))
    }
}

/// `s` without the characters `c`.
pub fn remove_char(s: &str, c: char) -> (r: String)
    ensures
        r@ == without_char(s@, c),
{
    let cs = chars_of(s);
    let mut kept = String::new();
    let mut i: usize = 0;
    while i < cs.len()
        invariant
            i <= cs@.len(),
            cs@ == s@,
            kept@ == without_char(s@.subrange(0, i as int), c),
        decreases cs@.len() - i,
    {
        assert(s@.subrange(0, i + 1).drop_last() =~= s@.subrange(0, i as int));
        if cs[i] != c {
            kept.append(s.substring_char(i, i + 1));
            assert(kept@ =~= without_char(s@.subrange(0, i + 1), c));
        }
        i = i + 1;
    }
    assert(s@.subrange(0, s@.len() as int) =~= s@);
    kept
}

/// Decoded text without NULs and carriage returns.
pub fn scrub_decoded(decoded: &str) -> (r: String)
    ensures
        r@ == scrubbed(decoded@),
{
    let no_nul = remove_char(decoded, '\0');
    remove_char(no_nul.as_str(), '\r')
}

/// Decodes command output written in UTF-16LE (the usual encoding of the gateway's output),
/// skipping a byte-order mark and a trailing odd byte; output of fewer than two bytes is read
/// as UTF-8. NULs and carriage returns are dropped.
pub fn decode_utf16le(bytes: &[u8]) -> (r: String)
    ensures
        r@ == decoded_output(bytes@),
{
    let n = bytes.len();
    if n < 2 {
        let text = decode_utf8_lossy(bytes);
        return remove_char(text.as_str(), '\r');
    }
    let start: usize = if bytes[0] == 0xFF && bytes[1] == 0xFE { 2 } else { 0 };
    let ghost data = bytes@.subrange(start as int, n as int);
    let pairs: usize = (n - start) / 2;
    let mut units: Vec<u16> = Vec::new();
    let mut i: usize = 0;
    while i < pairs
        invariant
            n == bytes@.len(),
            start <= n,
            pairs == (n - start) / 2,
            data == bytes@.subrange(start as int, n as int),
            i <= pairs,
            units@ =~= le_units(data).subrange(0, i as int),
        decreases pairs - i,
    {
        let lo = bytes[start + 2 * i] as u16;
        let hi = bytes[start + 2 * i + 1] as u16;
        let unit: u16 = lo + 256 * hi;
        units.push(unit);
        assert(data[2 * i as int] == bytes@[start + 2 * i]);
        assert(data[2 * i + 1] == bytes@[start + 2 * i + 1]);
        i = i + 1;
    }
    assert(units@ =~= le_units(data));
    let decoded = decode_utf16_lossy(units.as_slice());
    proof {
        if start == 0 {
            assert(data =~= bytes@);
        }
    }
    scrub_decoded(decoded.as_str())
}

} // verus!

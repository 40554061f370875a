//! UTF-16 as the Windows API has it: code units, zero-terminated names and
//! little-endian bytes.

use vstd::prelude::*;

use crate::text::{chars_of, text_of};

verus! {

/// Whether `n` is a Unicode scalar value, that is, the number of a `char`.
pub open spec fn is_scalar(n: u32) -> bool {
    n <= 0xd7ff || 0xe000 <= n <= 0x10ffff
}

/// `char::from_u32`: the character with the number `n`, or `None` where `n` is
/// no Unicode scalar value.
pub assume_specification[ char::from_u32 ](n: u32) -> (r: Option<char>)
    ensures
        r == if is_scalar(n) {
            Some(n as char)
        } else {
            None
        },
;

/// Whether `u` opens a surrogate pair.
pub open spec fn is_high(u: u16) -> bool {
    0xd800 <= u <= 0xdbff
}

/// Whether `u` closes a surrogate pair.
pub open spec fn is_low(u: u16) -> bool {
    0xdc00 <= u <= 0xdfff
}

/// Whether `u` is one half of a surrogate pair.
pub open spec fn is_surrogate(u: u16) -> bool {
    is_high(u) || is_low(u)
}

/// Whether `units` begins with a surrogate pair.
pub open spec fn begins_with_pair(units: Seq<u16>) -> bool {
    units.len() >= 2 && is_high(units[0]) && is_low(units[1])
}

/// The character that a surrogate pair stands for.
pub open spec fn pair_char(high: u16, low: u16) -> char {
    (0x10000 + (high - 0xd800) * 0x400 + (low - 0xdc00)) as char
}

/// The code units of one character.
pub open spec fn char_units(c: char) -> Seq<u16> {
    let n = c as u32;
    if n < 0x10000 {
        seq![n as u16]
    } else {
        seq![
            (0xd800 + (n - 0x10000) / 0x400) as u16,
            (0xdc00 + (n - 0x10000) % 0x400) as u16,
        ]
    }
}

/// The code units of a text.
pub open spec fn units_of(s: Seq<char>) -> Seq<u16>
    decreases s.len(),
{
    if s.len() == 0 {
        Seq::empty()
    } else {
        units_of(s.drop_last()) + char_units(s.last())
    }
}

/// The code units of a text with the terminating zero.
pub open spec fn wide_of(s: Seq<char>) -> Seq<u16> {
    units_of(s).push(0)
}

/// The text that `units` encode; `None` where a surrogate stands alone.
pub open spec fn decoded(units: Seq<u16>) -> Option<Seq<char>>
    decreases units.len(),
{
    if units.len() == 0 {
        Some(Seq::empty())
    } else if !is_surrogate(units[0]) {
        match decoded(units.skip(1)) {
            Some(rest) => Some(seq![units[0] as char] + rest),
            None => None,
        }
    } else if begins_with_pair(units) {
        match decoded(units.skip(2)) {
            Some(rest) => Some(seq![pair_char(units[0], units[1])] + rest),
            None => None,
        }
    } else {
        None
    }
}

/// The text that `units` encode, with U+FFFD for each surrogate that stands
/// alone.
pub open spec fn decoded_lossy(units: Seq<u16>) -> Seq<char>
    decreases units.len(),
{
    if units.len() == 0 {
        Seq::empty()
    } else if !is_surrogate(units[0]) {
        seq![units[0] as char] + decoded_lossy(units.skip(1))
    } else if begins_with_pair(units) {
        seq![pair_char(units[0], units[1])] + decoded_lossy(units.skip(2))
    } else {
        seq!['\u{fffd}'] + decoded_lossy(units.skip(1))
    }
}

/// The bytes of code units, low byte first.
pub open spec fn le_bytes(units: Seq<u16>) -> Seq<u8> {
    Seq::new(
        2 * units.len(),
        |i: int|
            if i % 2 == 0 {
                (units[i / 2] % 256) as u8
            } else {
                (units[i / 2] / 256) as u8
            },
    )
}

/// The code units that `bytes` hold, low byte first.
pub open spec fn le_units(bytes: Seq<u8>) -> Seq<u16> {
    Seq::new(bytes.len() / 2, |i: int| (bytes[2 * i] + 256 * bytes[2 * i + 1]) as u16)
}

/// The text that little-endian UTF-16 `bytes` hold; `None` where the number of
/// bytes is odd or a surrogate stands alone.
pub open spec fn decoded_le(bytes: Seq<u8>) -> Option<Seq<char>> {
    if bytes.len() % 2 != 0 {
        None
    } else {
        decoded(le_units(bytes))
    }
}

fn push_char_units(out: &mut Vec<u16>, c: char)
    ensures
        final(out)@ == old(out)@ + char_units(c),
{
    let n: u32 = c as u32;
    if n < 0x10000 {
        out.push(n as u16);
    } else {
        out.push((0xd800 + (n - 0x10000) / 0x400) as u16);
        out.push((0xdc00 + (n - 0x10000) % 0x400) as u16);
    }
}

/// The code units of `s`.
pub fn encode_utf16(s: &str) -> (r: Vec<u16>)
    ensures
        r@ == units_of(s@),
{
    let chars: Vec<char> = chars_of(s);
    let mut out: Vec<u16> = Vec::new();
    let mut i: usize = 0;
    while i < chars.len()
        invariant
            i <= chars@.len(),
            out@ == units_of(chars@.take(i as int)),
        decreases chars@.len() - i,
    {
        assert(chars@.take(i + 1).drop_last() == chars@.take(i as int));
        push_char_units(&mut out, chars[i]);
        i += 1;
    }
    assert(chars@.take(i as int) == chars@);
    out
}

/// The code units of `s` with the terminating zero, as the Windows API takes a
/// name.
pub fn wide(s: &str) -> (r: Vec<u16>)
    ensures
        r@ == wide_of(s@),
{
    let mut out: Vec<u16> = encode_utf16(s);
    out.push(0);
    out
}

/// The code units of `s` with the terminating zero, as the registry takes a
/// name or a value.
pub fn wide_utf16(s: &str) -> (r: Vec<u16>)
    ensures
        r@ == wide_of(s@),
{
    wide(s)
}

/// The bytes of `s` in little-endian UTF-16, without a terminating zero.
pub fn to_utf16le(s: &str) -> (r: Vec<u8>)
    ensures
        r@ == le_bytes(units_of(s@)),
{
    let units: Vec<u16> = encode_utf16(s);
    let mut out: Vec<u8> = Vec::new();
    let mut i: usize = 0;
    while i < units.len()
        invariant
            i <= units@.len(),
            out@ == le_bytes(units@.take(i as int)),
        decreases units@.len() - i,
    {
        let ghost before = out@;
        out.push((units[i] % 256) as u8);
        out.push((units[i] / 256) as u8);
        proof {
            let next = le_bytes(units@.take(i + 1));
            assert forall|k: int| 0 <= k < out@.len() implies out@[k] == next[k] by {
                if k < before.len() {
                    assert(out@[k] == before[k]);
                }
            }
            assert(out@ == next);
        }
        i += 1;
    }
    assert(units@.take(i as int) == units@);
    out
}

fn pair_of(high: u16, low: u16) -> (c: char)
    requires
        is_high(high),
        is_low(low),
    ensures
        c == pair_char(high, low),
{
    let n: u32 = 0x10000 + (high as u32 - 0xd800) * 0x400 + (low as u32 - 0xdc00);
    match char::from_u32(n) {
        Some(c) => c,
        None => '\u{fffd}',
    }
}

fn unit_char(u: u16) -> (c: char)
    requires
        !is_surrogate(u),
    ensures
        c == u as char,
{
    match char::from_u32(u as u32) {
        Some(c) => c,
        None => '\u{fffd}',
    }
}

/// Decodes `units`; `None` where a surrogate stands alone.
pub fn decode_utf16(units: &Vec<u16>) -> (r: Option<String>)
    ensures
        r is Some <==> decoded(units@) is Some,
        r matches Some(s) ==> decoded(units@) == Some(s@),
{
    let mut out: Vec<char> = Vec::new();
    let mut i: usize = 0;
    assert(units@.skip(0) == units@);
    while i < units.len()
        invariant
            i <= units@.len(),
            decoded(units@) == match decoded(units@.skip(i as int)) {
                Some(rest) => Some(out@ + rest),
                None => None,
            },
        decreases units@.len() - i,
    {
        let ghost rest = units@.skip(i as int);
        let ghost done = out@;
        let u: u16 = units[i];
        if u < 0xd800 || u > 0xdfff {
            let c: char = unit_char(u);
            assert(rest.skip(1) == units@.skip(i + 1));
            out.push(c);
            assert(forall|t: Seq<char>| done + (seq![c] + t) == #[trigger] (out@ + t));
            i += 1;
        } else if u <= 0xdbff && units.len() - i >= 2 && units[i + 1] >= 0xdc00 && units[i + 1]
            <= 0xdfff {
            let c: char = pair_of(u, units[i + 1]);
            assert(rest.skip(2) == units@.skip(i + 2));
            out.push(c);
            assert(forall|t: Seq<char>| done + (seq![c] + t) == #[trigger] (out@ + t));
            i += 2;
        } else {
            return None;
        }
    }
    assert(out@ + Seq::<char>::empty() == out@);
    Some(text_of(&out))
}

/// Decodes `units`, with U+FFFD for each surrogate that stands alone.
pub fn decode_utf16_lossy(units: &Vec<u16>) -> (r: String)
    ensures
        r@ == decoded_lossy(units@),
{
    let mut out: Vec<char> = Vec::new();
    let mut i: usize = 0;
    assert(units@.skip(0) == units@);
    while i < units.len()
        invariant
            i <= units@.len(),
            decoded_lossy(units@) == out@ + decoded_lossy(units@.skip(i as int)),
        decreases units@.len() - i,
    {
        let ghost rest = units@.skip(i as int);
        let ghost done = out@;
        let u: u16 = units[i];
        let mut c: char = '\u{fffd}';
        let mut width: usize = 1;
        if u < 0xd800 || u > 0xdfff {
            c = unit_char(u);
        } else if u <= 0xdbff && units.len() - i >= 2 && units[i + 1] >= 0xdc00 && units[i + 1]
            <= 0xdfff {
            c = pair_of(u, units[i + 1]);
            width = 2;
        }
        assert(rest.skip(width as int) == units@.skip(i + width));
        out.push(c);
        assert(done + (seq![c] + decoded_lossy(rest.skip(width as int))) == out@ + decoded_lossy(
            units@.skip(i + width),
        ));
        i += width;
    }
    assert(out@ + Seq::<char>::empty() == out@);
    text_of(&out)
}

/// The text in little-endian UTF-16 `bytes`; `None` where the number of bytes
/// is odd or a surrogate stands alone.
pub fn from_utf16le(bytes: &Vec<u8>) -> (r: Option<String>)
    ensures
        r is Some <==> decoded_le(bytes@) is Some,
        r matches Some(s) ==> decoded_le(bytes@) == Some(s@),
{
    if bytes.len() % 2 != 0 {
        return None;
    }
    let half: usize = bytes.len() / 2;
    let mut units: Vec<u16> = Vec::new();
    let mut i: usize = 0;
    while i < half
        invariant
            half == bytes@.len() / 2,
            2 * half <= bytes@.len() <= usize::MAX,
            i <= half,
            units@ == le_units(bytes@).take(i as int),
        decreases half - i,
    {
        units.push(bytes[2 * i] as u16 + 256 * (bytes[2 * i + 1] as u16));
        i += 1;
        assert(units@ == le_units(bytes@).take(i as int));
    }
    assert(le_units(bytes@).take(i as int) == le_units(bytes@));
    decode_utf16(&units)
}

/// The part of a buffer that is filled, its first `len` units; a length that the buffer cannot have stands for the whole buffer.
pub open spec fn filled_part(buf: Seq<u16>, len: int) -> Seq<u16> {
    if 0 <= len <= buf.len() {
        buf.take(len)
    } else {
        buf
    }
}

/// Decodes the filled part of a buffer.
pub fn buffer_text(buf: &Vec<u16>, len: i64) -> (r: String)
    ensures
        r@ == decoded_lossy(filled_part(buf@, len as int)),
{
    let mut part: Vec<u16> = Vec::new();
    let mut i: usize = 0;
    while i < buf.len() && (len < 0 || (i as i128) < (len as i128))
        invariant
            i <= buf@.len(),
            0 <= len <= buf@.len() ==> i <= len,
            part@ == buf@.take(i as int),
        decreases buf@.len() - i,
    {
        assert(buf@.take(i + 1) == buf@.take(i as int).push(buf@[i as int]));
        part.push(buf[i]);
        i += 1;
    }
    assert(part@ == filled_part(buf@, len as int));
    decode_utf16_lossy(&part)
}

// ---------------------------------------------------------------------------
// Round trips
// ---------------------------------------------------------------------------

proof fn lemma_char_units(c: char)
    ensures
        ({
            let u = char_units(c);
            ||| u.len() == 1 && !is_surrogate(u[0]) && u[0] as char == c
            ||| u.len() == 2 && begins_with_pair(u) && pair_char(u[0], u[1]) == c
        }),
{
    let n = c as u32;
    assert(is_scalar(n));
    if n >= 0x10000 {
        let d: int = n - 0x10000;
        assert(0 <= d <= 0xfffff);
        assert(d == (d / 0x400) * 0x400 + d % 0x400);
    }
}

proof fn lemma_units_first(s: Seq<char>)
    requires
        s.len() > 0,
    ensures
        units_of(s) == char_units(s.first()) + units_of(s.drop_first()),
    decreases s.len(),
{
    if s.len() == 1 {
        assert(s.drop_last() == Seq::<char>::empty());
        assert(s.drop_first() == Seq::<char>::empty());
        assert(units_of(s) == char_units(s.first()) + units_of(s.drop_first()));
    } else {
        lemma_units_first(s.drop_last());
        assert(s.drop_last().drop_first() == s.drop_first().drop_last());
        assert(units_of(s) == char_units(s.first()) + units_of(s.drop_first()));
    }
}

/// Decoding what was encoded gives the text back, strictly and with
/// replacement.
pub proof fn law_utf16_round_trip(s: Seq<char>)
    ensures
        decoded(units_of(s)) == Some(s),
        decoded_lossy(units_of(s)) == s,
    decreases s.len(),
{
    if s.len() > 0 {
        lemma_units_first(s);
        lemma_char_units(s.first());
        law_utf16_round_trip(s.drop_first());
        let u = units_of(s);
        let head = char_units(s.first());
        assert(u.skip(head.len() as int) == units_of(s.drop_first()));
        assert(u[0] == head[0]);
        if head.len() == 2 {
            assert(u[1] == head[1]);
        }
        assert(seq![s.first()] + s.drop_first() == s);
    }
}

/// Replacement changes nothing in what can be decoded strictly.
pub proof fn law_lossy_agrees_with_strict(units: Seq<u16>)
    requires
        decoded(units) is Some,
    ensures
        decoded(units) == Some(decoded_lossy(units)),
    decreases units.len(),
{
    if units.len() > 0 {
        if !is_surrogate(units[0]) {
            law_lossy_agrees_with_strict(units.skip(1));
        } else {
            law_lossy_agrees_with_strict(units.skip(2));
        }
    }
}

/// The bytes of code units give the code units back.
pub proof fn law_le_round_trip(units: Seq<u16>)
    ensures
        le_units(le_bytes(units)) == units,
{
    assert forall|i: int| 0 <= i < units.len() implies le_units(le_bytes(units))[i]
        == units[i] by {
        let u = units[i];
        assert((2 * i) % 2 == 0 && (2 * i) / 2 == i);
        assert((2 * i + 1) % 2 == 1 && (2 * i + 1) / 2 == i);
        assert(u == u % 256 + 256 * (u / 256));
    }
    assert(le_units(le_bytes(units)) == units);
}

/// `from_utf16le` gives back the text that `to_utf16le` was given.
pub proof fn law_utf16le_round_trip(s: Seq<char>)
    ensures
        decoded_le(le_bytes(units_of(s))) == Some(s),
{
    law_le_round_trip(units_of(s));
    law_utf16_round_trip(s);
}

/// Different texts have different terminated names.
pub proof fn law_wide_is_injective(a: Seq<char>, b: Seq<char>)
    requires
        wide_of(a) == wide_of(b),
    ensures
        a == b,
{
    assert(wide_of(a).drop_last() == units_of(a));
    assert(wide_of(b).drop_last() == units_of(b));
    law_utf16_round_trip(a);
    law_utf16_round_trip(b);
}

// ---------------------------------------------------------------------------
// What the encoding is
// ---------------------------------------------------------------------------

/// A character of the basic plane is one unit, its number. Any other is a
/// surrogate pair, the high one first, which holds ten bits each of the number
/// less 0x10000.
pub proof fn law_units_of_a_character(c: char)
    ensures
        (c as int) < 0x10000 ==> char_units(c).len() == 1 && char_units(c)[0] == c as int,
        (c as int) >= 0x10000 ==> {
            &&& char_units(c).len() == 2
            &&& 0xd800 <= char_units(c)[0] <= 0xdbff
            &&& 0xdc00 <= char_units(c)[1] <= 0xdfff
            &&& c as int == 0x10000 + (char_units(c)[0] - 0xd800) * 0x400 + (char_units(c)[1]
                - 0xdc00)
        },
{
    let n = c as u32;
    if n >= 0x10000 {
        let d: int = n - 0x10000;
        assert(0 <= d <= 0xfffff);
        assert(d == (d / 0x400) * 0x400 + d % 0x400);
    }
}

/// The units of a text are those of its characters, one after the other.
pub proof fn law_units_follow_the_text(a: Seq<char>, b: Seq<char>, c: char)
    ensures
        units_of(Seq::empty()) == Seq::<u16>::empty(),
        units_of(seq![c]) == char_units(c),
        units_of(a + b) == units_of(a) + units_of(b),
    decreases b.len(),
{
    let one = seq![c];
    assert(one.drop_last() == Seq::<char>::empty());
    assert(units_of(Seq::<char>::empty()) == Seq::<u16>::empty());
    assert(units_of(one) == char_units(c));
    if b.len() > 0 {
        law_units_follow_the_text(a, b.drop_last(), c);
        assert((a + b).drop_last() == a + b.drop_last());
        assert(units_of(a + b) == units_of(a) + units_of(b));
    } else {
        assert(a + b == a);
        assert(units_of(a) + units_of(b) == units_of(a));
    }
}

/// A name for the system is the units of the text with one zero behind them.
pub proof fn law_names_end_in_zero(s: Seq<char>)
    ensures
        wide_of(s).len() == units_of(s).len() + 1,
        wide_of(s).last() == 0,
        wide_of(s).drop_last() == units_of(s),
{
    assert(wide_of(s).drop_last() == units_of(s));
}

proof fn lemma_decoded_units(units: Seq<u16>)
    requires
        decoded(units) is Some,
    ensures
        units_of(decoded(units)->0) == units,
    decreases units.len(),
{
    if units.len() > 0 {
        let s = decoded(units)->0;
        if !is_surrogate(units[0]) {
            lemma_decoded_units(units.skip(1));
            let rest = decoded(units.skip(1))->0;
            assert(s.drop_first() == rest);
            lemma_units_first(s);
            assert(char_units(s.first()) == seq![units[0]]);
            assert(seq![units[0]] + units.skip(1) == units);
        } else {
            lemma_decoded_units(units.skip(2));
            let rest = decoded(units.skip(2))->0;
            assert(s.drop_first() == rest);
            lemma_units_first(s);
            let h = units[0];
            let l = units[1];
            let n: int = 0x10000 + (h - 0xd800) * 0x400 + (l - 0xdc00);
            assert(0x10000 <= n <= 0x10ffff);
            assert(s.first() as u32 == n);
            assert((n - 0x10000) / 0x400 == h - 0xd800);
            assert((n - 0x10000) % 0x400 == l - 0xdc00);
            assert(char_units(s.first()) == seq![h, l]);
            assert(seq![h, l] + units.skip(2) == units);
        }
    }
}

/// Units are decoded to a text exactly where they are the units of that text.
pub proof fn law_decoding_inverts_encoding(units: Seq<u16>, s: Seq<char>)
    ensures
        decoded(units) == Some(s) <==> units == units_of(s),
{
    law_utf16_round_trip(s);
    if decoded(units) == Some(s) {
        lemma_decoded_units(units);
    }
}

proof fn lemma_lossy_after_text(s: Seq<char>, rest: Seq<u16>)
    ensures
        decoded_lossy(units_of(s) + rest) == s + decoded_lossy(rest),
        decoded(rest) is None ==> decoded(units_of(s) + rest) is None,
    decreases s.len(),
{
    if s.len() > 0 {
        lemma_units_first(s);
        lemma_char_units(s.first());
        lemma_lossy_after_text(s.drop_first(), rest);
        let u = units_of(s) + rest;
        let head = char_units(s.first());
        assert(u.skip(head.len() as int) == units_of(s.drop_first()) + rest);
        assert(u[0] == head[0]);
        if head.len() == 2 {
            assert(u[1] == head[1]);
        }
        assert(seq![s.first()] + (s.drop_first() + decoded_lossy(rest)) == s + decoded_lossy(rest));
    } else {
        assert(units_of(s) + rest == rest);
        assert(s + decoded_lossy(rest) == decoded_lossy(rest));
    }
}

/// A surrogate that stands alone, wherever it stands, is replaced by U+FFFD and
/// costs no other unit; strictly, nothing is decoded then.
pub proof fn law_lone_surrogate_is_replaced(before: Seq<char>, unit: u16, after: Seq<u16>)
    requires
        0xd800 <= unit <= 0xdfff,
        unit <= 0xdbff ==> after.len() == 0 || !(0xdc00 <= after[0] <= 0xdfff),
    ensures
        decoded_lossy(units_of(before).push(unit) + after) == before.push('\u{fffd}')
            + decoded_lossy(after),
        decoded(units_of(before).push(unit) + after) is None,
{
    let rest = seq![unit] + after;
    assert(rest.skip(1) == after);
    assert(units_of(before).push(unit) + after == units_of(before) + rest);
    lemma_lossy_after_text(before, rest);
    assert(!begins_with_pair(rest));
    assert(before + (seq!['\u{fffd}'] + decoded_lossy(after)) == before.push('\u{fffd}')
        + decoded_lossy(after));
}

/// What can be decoded is not replaced, whatever comes behind it.
pub proof fn law_text_in_front_is_kept(before: Seq<char>, after: Seq<u16>)
    ensures
        decoded_lossy(units_of(before) + after) == before + decoded_lossy(after),
        decoded_lossy(Seq::empty()) == Seq::<char>::empty(),
{
    lemma_lossy_after_text(before, after);
}

/// The bytes of a unit stand at twice its position, the low one first.
pub proof fn law_bytes_of_a_unit(units: Seq<u16>, i: int)
    requires
        0 <= i < units.len(),
    ensures
        le_bytes(units).len() == 2 * units.len(),
        le_bytes(units)[2 * i] + 256 * le_bytes(units)[2 * i + 1] == units[i],
{
    let u = units[i];
    assert((2 * i) % 2 == 0 && (2 * i) / 2 == i);
    assert((2 * i + 1) % 2 == 1 && (2 * i + 1) / 2 == i);
    assert(u == u % 256 + 256 * (u / 256));
}

proof fn lemma_bytes_of_units_of_bytes(bytes: Seq<u8>)
    requires
        bytes.len() % 2 == 0,
    ensures
        le_bytes(le_units(bytes)) == bytes,
{
    let units = le_units(bytes);
    assert forall|k: int| 0 <= k < bytes.len() implies le_bytes(units)[k] == bytes[k] by {
        let i = k / 2;
        let u = units[i];
        assert(u == bytes[2 * i] + 256 * bytes[2 * i + 1]);
        assert(u % 256 == bytes[2 * i] && u / 256 == bytes[2 * i + 1]);
    }
    assert(le_bytes(units) == bytes);
}

/// Bytes hold a text exactly where they are the bytes of its units. So an odd
/// number of bytes holds none.
pub proof fn law_bytes_hold_a_text(bytes: Seq<u8>, s: Seq<char>)
    ensures
        decoded_le(bytes) == Some(s) <==> bytes == le_bytes(units_of(s)),
        bytes.len() % 2 == 1 ==> decoded_le(bytes) is None,
{
    law_utf16le_round_trip(s);
    if decoded_le(bytes) == Some(s) {
        lemma_decoded_units(le_units(bytes));
        lemma_bytes_of_units_of_bytes(bytes);
    }
}

/// Of a buffer the first `len` units are filled, and the whole buffer where it is
/// too short for that or the length is negative.
pub proof fn law_filled_part_of_a_buffer(filled: Seq<u16>, unused: Seq<u16>, len: int)
    ensures
        filled_part(filled + unused, filled.len() as int) == filled,
        len > filled.len() ==> filled_part(filled, len) == filled,
        len < 0 ==> filled_part(filled, len) == filled,
{
    assert((filled + unused).take(filled.len() as int) == filled);
}

// ---------------------------------------------------------------------------
// What the operations do
// ---------------------------------------------------------------------------

/// `wide` and `wide_utf16` write a text as its units and one zero; of these the
/// text can be read again.
pub proof fn law_wide_names_the_text(s: &str, name: Vec<u16>, value: Vec<u16>)
    requires
        call_ensures(wide, (s,), name),
        call_ensures(wide_utf16, (s,), value),
    ensures
        name@.len() > 0,
        name@.last() == 0,
        decoded(name@.drop_last()) == Some(s@),
        value@ == name@,
{
    law_names_end_in_zero(s@);
    law_utf16_round_trip(s@);
}

/// `from_utf16le` gives back the text that `to_utf16le` wrote, with two bytes for
/// each unit, the low one first, and gives nothing for an odd number of bytes.
pub proof fn law_from_utf16le_reads_what_was_written(
    s: &str,
    units: Vec<u16>,
    written: Vec<u8>,
    bytes: &Vec<u8>,
    read: Option<String>,
    i: int,
)
    requires
        call_ensures(encode_utf16, (s,), units),
        call_ensures(to_utf16le, (s,), written),
        call_ensures(from_utf16le, (bytes,), read),
    ensures
        bytes@ == written@ ==> read is Some && read->0@ == s@,
        bytes@.len() % 2 == 1 ==> read is None,
        written@.len() == 2 * units@.len(),
        0 <= i < units@.len() ==> written@[2 * i] + 256 * written@[2 * i + 1] == units@[i],
{
    law_utf16le_round_trip(s@);
    law_bytes_hold_a_text(bytes@, s@);
    if 0 <= i < units@.len() {
        law_bytes_of_a_unit(units@, i);
    }
}

/// `buffer_text` reads what was written to a buffer, and the whole buffer where
/// the length says more than it has.
pub proof fn law_buffer_text_reads_what_was_written(
    buf: &Vec<u16>,
    len: i64,
    text: String,
    s: Seq<char>,
    unused: Seq<u16>,
)
    requires
        call_ensures(buffer_text, (buf, len), text),
    ensures
        buf@ == units_of(s) + unused && len == units_of(s).len() ==> text@ == s,
        buf@ == units_of(s) && (len < 0 || len > buf@.len()) ==> text@ == s,
{
    law_utf16_round_trip(s);
    law_filled_part_of_a_buffer(units_of(s), unused, len as int);
}

/// `decode_utf16` reads exactly the units of a text, `decode_utf16_lossy` reads
/// them too, and puts U+FFFD for a surrogate that stands alone.
pub proof fn law_units_are_decoded(
    units: &Vec<u16>,
    strict: Option<String>,
    lossy: String,
    s: Seq<char>,
    unit: u16,
    after: Seq<char>,
)
    requires
        call_ensures(decode_utf16, (units,), strict),
        call_ensures(decode_utf16_lossy, (units,), lossy),
    ensures
        units@ == units_of(s) ==> strict is Some && strict->0@ == s && lossy@ == s,
        strict is Some ==> units@ == units_of(strict->0@),
        0xdc00 <= unit <= 0xdfff && units@ == units_of(s).push(unit) + units_of(after)
            ==> strict is None && lossy@ == s.push('\u{fffd}') + after,
{
    law_utf16_round_trip(s);
    law_utf16_round_trip(after);
    if strict is Some {
        law_decoding_inverts_encoding(units@, strict->0@);
    }
    if 0xdc00 <= unit <= 0xdfff {
        law_lone_surrogate_is_replaced(s, unit, units_of(after));
    }
}

} // verus!

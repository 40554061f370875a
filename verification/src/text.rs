//! Text as sequences of characters: trimming, searching and decimal notation.

use vstd::prelude::*;
use vstd::string::StrSliceExecFns;
use vstd::string::StringExecFns;

verus! {

/// `String::push`: the character is appended to the end of the text.
pub assume_specification[ String::push ](s: &mut String, c: char)
    ensures
        final(s)@ == old(s)@.push(c),
;

/// The contents of a list of texts.
pub open spec fn texts(list: Seq<String>) -> Seq<Seq<char>> {
    Seq::new(list.len(), |i: int| list[i]@)
}

/// The characters of `s`, in order.
pub fn chars_of(s: &str) -> (r: Vec<char>)
    ensures
        r@ == s@,
{
    let mut out: Vec<char> = Vec::new();
    for c in it: s.chars()
        invariant
            out@ == s@.take(it.index()),
            it.seq() == s@,
    {
        assert(s@.take(it.index() + 1) == s@.take(it.index()).push(s@[it.index()]));
        out.push(c);
    }
    assert(s@.take(s@.len() as int) == s@);
    out
}

/// The text made of `chars`, in order.
pub fn text_of(chars: &Vec<char>) -> (r: String)
    ensures
        r@ == chars@,
{
    let mut out: String = String::new();
    let mut i: usize = 0;
    while i < chars.len()
        invariant
            i <= chars@.len(),
            out@ == chars@.take(i as int),
        decreases chars@.len() - i,
    {
        assert(chars@.take(i + 1) == chars@.take(i as int).push(chars@[i as int]));
        out.push(chars[i]);
        i += 1;
    }
    assert(chars@.take(i as int) == chars@);
    out
}

/// Whether two texts have the same characters.
pub fn same_text(a: &str, b: &str) -> (r: bool)
    ensures
        r == (a@ == b@),
{
    let left: String = a.to_owned();
    let right: String = b.to_owned();
    left == right
}

// ---------------------------------------------------------------------------
// Trimming
// ---------------------------------------------------------------------------

/// What a trim takes off both ends of a text.
#[derive(Clone, Copy, Debug, PartialEq, Eq, Structural)]
pub enum Strip {
    /// Characters with the Unicode property `White_Space`.
    White,
    /// The double quote.
    DoubleQuote,
    /// The single quote.
    SingleQuote,
}

/// The Unicode property `White_Space`.
pub open spec fn is_white_space(c: char) -> bool {
    let n = c as u32;
    ||| 0x0009 <= n <= 0x000d
    ||| n == 0x0020
    ||| n == 0x0085
    ||| n == 0x00a0
    ||| n == 0x1680
    ||| 0x2000 <= n <= 0x200a
    ||| n == 0x2028
    ||| n == 0x2029
    ||| n == 0x202f
    ||| n == 0x205f
    ||| n == 0x3000
}

impl Strip {
    /// Whether the trim takes `c` off.
    pub open spec fn takes(self, c: char) -> bool {
        match self {
            Strip::White => is_white_space(c),
            Strip::DoubleQuote => c == '"',
            Strip::SingleQuote => c == '\'',
        }
    }

    fn test(self, c: char) -> (r: bool)
        ensures
            r == self.takes(c),
    {
        match self {
            Strip::White => {
                let n: u32 = c as u32;
                (0x0009 <= n && n <= 0x000d) || n == 0x0020 || n == 0x0085 || n == 0x00a0 || n
                    == 0x1680 || (0x2000 <= n && n <= 0x200a) || n == 0x2028 || n == 0x2029 || n
                    == 0x202f || n == 0x205f || n == 0x3000
            },
            Strip::DoubleQuote => c == '"',
            Strip::SingleQuote => c == '\'',
        }
    }
}

/// `s` without the characters that `strip` takes at its start.
pub open spec fn without_leading(s: Seq<char>, strip: Strip) -> Seq<char>
    decreases s.len(),
{
    if s.len() > 0 && strip.takes(s.first()) {
        without_leading(s.drop_first(), strip)
    } else {
        s
    }
}

/// `s` without the characters that `strip` takes at its end.
pub open spec fn without_trailing(s: Seq<char>, strip: Strip) -> Seq<char>
    decreases s.len(),
{
    if s.len() > 0 && strip.takes(s.last()) {
        without_trailing(s.drop_last(), strip)
    } else {
        s
    }
}

/// `s` without the characters that `strip` takes at both ends.
pub open spec fn stripped(s: Seq<char>, strip: Strip) -> Seq<char> {
    without_trailing(without_leading(s, strip), strip)
}

/// `s` without white space at both ends.
pub open spec fn trimmed(s: Seq<char>) -> Seq<char> {
    stripped(s, Strip::White)
}

/// Takes the characters of `strip` off both ends of `s`.
pub fn strip_ends(s: &str, strip: Strip) -> (r: String)
    ensures
        r@ == stripped(s@, strip),
{
    let chars: Vec<char> = chars_of(s);
    let mut from: usize = 0;
    assert(chars@.skip(0) == chars@);
    while from < chars.len() && strip.test(chars[from])
        invariant
            from <= chars@.len(),
            without_leading(chars@, strip) == without_leading(chars@.skip(from as int), strip),
        ensures
            from <= chars@.len(),
            without_leading(chars@, strip) == chars@.skip(from as int),
        decreases chars@.len() - from,
    {
        assert(chars@.skip(from as int).drop_first() == chars@.skip(from + 1));
        from += 1;
    }
    let ghost head = chars@.skip(from as int);
    let mut to: usize = chars.len();
    assert(head.take(to - from) == head);
    while to > from && strip.test(chars[to - 1])
        invariant
            from <= to <= chars@.len(),
            head == chars@.skip(from as int),
            without_trailing(head, strip) == without_trailing(head.take(to - from), strip),
        ensures
            from <= to <= chars@.len(),
            without_trailing(head, strip) == head.take(to - from),
        decreases to,
    {
        assert(head.take(to - from).drop_last() == head.take(to - 1 - from));
        to -= 1;
    }
    assert(head.take(to - from) == s@.subrange(from as int, to as int));
    s.substring_char(from, to).to_owned()
}

/// Takes white space off both ends of `s`.
pub fn trim(s: &str) -> (r: String)
    ensures
        r@ == trimmed(s@),
{
    strip_ends(s, Strip::White)
}

proof fn lemma_leading_ends(s: Seq<char>, strip: Strip)
    ensures
        without_leading(s, strip).len() > 0 ==> !strip.takes(without_leading(s, strip).first()),
    decreases s.len(),
{
    if s.len() > 0 && strip.takes(s.first()) {
        lemma_leading_ends(s.drop_first(), strip);
    }
}

proof fn lemma_trailing_ends(s: Seq<char>, strip: Strip)
    ensures
        without_trailing(s, strip).len() > 0 ==> {
            &&& !strip.takes(without_trailing(s, strip).last())
            &&& without_trailing(s, strip).first() == s.first()
        },
    decreases s.len(),
{
    if s.len() > 0 && strip.takes(s.last()) {
        lemma_trailing_ends(s.drop_last(), strip);
    }
}

/// Trimming a trimmed text changes nothing.
pub proof fn law_strip_is_idempotent(s: Seq<char>, strip: Strip)
    ensures
        stripped(stripped(s, strip), strip) == stripped(s, strip),
{
    let r = stripped(s, strip);
    lemma_leading_ends(s, strip);
    lemma_trailing_ends(without_leading(s, strip), strip);
    assert(without_leading(r, strip) == r);
    assert(without_trailing(r, strip) == r);
}

// ---------------------------------------------------------------------------
// Searching
// ---------------------------------------------------------------------------

/// Whether `part` stands in `s` at position `at`.
pub open spec fn occurs_at(s: Seq<char>, part: Seq<char>, at: int) -> bool {
    &&& 0 <= at <= s.len() - part.len()
    &&& s.subrange(at, at + part.len()) == part
}

/// Whether `part` stands somewhere in `s`.
pub open spec fn has_part(s: Seq<char>, part: Seq<char>) -> bool {
    exists|at: int| occurs_at(s, part, at)
}

/// Whether `s` begins with `part`.
pub open spec fn begins_with(s: Seq<char>, part: Seq<char>) -> bool {
    occurs_at(s, part, 0)
}

fn stands_at(s: &Vec<char>, part: &Vec<char>, at: usize) -> (r: bool)
    requires
        at + part@.len() <= s@.len(),
    ensures
        r == occurs_at(s@, part@, at as int),
{
    let end: usize = s.len();
    let mut i: usize = 0;
    while i < part.len()
        invariant
            end == s@.len(),
            at + part@.len() <= end,
            i <= part@.len(),
            forall|j: int| 0 <= j < i ==> s@[at + j] == part@[j],
        decreases part@.len() - i,
    {
        if s[at + i] != part[i] {
            assert(s@.subrange(at as int, at + part@.len())[i as int] == s@[at + i]);
            return false;
        }
        i += 1;
    }
    assert(s@.subrange(at as int, at + part@.len()) == part@);
    true
}

/// Whether `part` stands somewhere in `s`.
pub fn contains_text(s: &str, part: &str) -> (r: bool)
    ensures
        r == has_part(s@, part@),
{
    let whole: Vec<char> = chars_of(s);
    let wanted: Vec<char> = chars_of(part);
    if wanted.len() > whole.len() {
        return false;
    }
    let last: usize = whole.len() - wanted.len();
    let mut at: usize = 0;
    while at <= last
        invariant
            whole@ == s@,
            wanted@ == part@,
            wanted@.len() <= whole@.len(),
            last == whole@.len() - wanted@.len(),
            at <= last + 1,
            forall|j: int| 0 <= j < at ==> !occurs_at(s@, part@, j),
        decreases last + 1 - at,
    {
        if stands_at(&whole, &wanted, at) {
            return true;
        }
        if at == last {
            return false;
        }
        at += 1;
    }
    false
}

/// Whether `s` begins with `part`.
pub fn starts_with_text(s: &str, part: &str) -> (r: bool)
    ensures
        r == begins_with(s@, part@),
{
    let whole: Vec<char> = chars_of(s);
    let wanted: Vec<char> = chars_of(part);
    if wanted.len() > whole.len() {
        return false;
    }
    stands_at(&whole, &wanted, 0)
}

// ---------------------------------------------------------------------------
// Decimal notation
// ---------------------------------------------------------------------------

/// The character of a decimal digit.
pub open spec fn digit_char(d: nat) -> char {
    (48 + d) as char
}

/// The decimal notation of a natural number, without leading zeros.
pub open spec fn decimal(n: nat) -> Seq<char>
    decreases n,
{
    if n < 10 {
        seq![digit_char(n)]
    } else {
        decimal(n / 10).push(digit_char(n % 10))
    }
}

/// The decimal notation of an integer.
pub open spec fn signed_decimal(n: int) -> Seq<char> {
    if n < 0 {
        seq!['-'] + decimal((-n) as nat)
    } else {
        decimal(n as nat)
    }
}

/// `n` zeros.
pub open spec fn zeros(n: nat) -> Seq<char> {
    Seq::new(n, |i: int| '0')
}

/// The decimal notation of `n`, filled up with zeros on the left to `width` digits.
pub open spec fn padded_decimal(n: nat, width: nat) -> Seq<char> {
    let digits = decimal(n);
    if digits.len() < width {
        zeros((width - digits.len()) as nat) + digits
    } else {
        digits
    }
}

/// Whether `c` is a decimal digit.
pub open spec fn is_digit(c: char) -> bool {
    '0' <= c <= '9'
}

/// The value of a row of decimal digits.
pub open spec fn digits_value(s: Seq<char>) -> nat
    decreases s.len(),
{
    if s.len() == 0 {
        0
    } else {
        digits_value(s.drop_last()) * 10 + (s.last() as nat - 48) as nat
    }
}

/// The number that `s` writes in decimal digits; 0 where `s` is no such row of
/// digits or the number exceeds 32 bits.
pub open spec fn number_or_zero(s: Seq<char>) -> nat {
    if s.len() > 0 && (forall|i: int| 0 <= i < s.len() ==> is_digit(s[i])) && digits_value(s)
        <= u32::MAX {
        digits_value(s)
    } else {
        0
    }
}

fn digit(d: u8) -> (c: char)
    requires
        d < 10,
    ensures
        c == digit_char(d as nat),
{
    (48u8 + d) as char
}

/// Appends the decimal notation of `n`.
pub fn push_decimal(out: &mut String, n: u64)
    ensures
        final(out)@ == old(out)@ + decimal(n as nat),
    decreases n,
{
    if n < 10 {
        out.push(digit(n as u8));
    } else {
        push_decimal(out, n / 10);
        out.push(digit((n % 10) as u8));
    }
}

/// Appends the decimal notation of `n`.
pub fn push_signed_decimal(out: &mut String, n: i64)
    ensures
        final(out)@ == old(out)@ + signed_decimal(n as int),
{
    if n < 0 {
        out.push('-');
        push_decimal(out, (-(n as i128)) as u64);
    } else {
        push_decimal(out, n as u64);
    }
}

/// Appends the decimal notation of `n`, filled up with zeros on the left to
/// `width` digits.
pub fn push_padded_decimal(out: &mut String, n: u64, width: usize)
    ensures
        final(out)@ == old(out)@ + padded_decimal(n as nat, width as nat),
{
    let mut digits: String = String::new();
    push_decimal(&mut digits, n);
    let have: usize = digits.as_str().unicode_len();
    let ghost start = out@;
    let mut filled: usize = 0;
    if have < width {
        let missing: usize = width - have;
        while filled < missing
            invariant
                filled <= missing,
                out@ == start + zeros(filled as nat),
            decreases missing - filled,
        {
            out.push('0');
            filled += 1;
            assert(out@ == start + zeros(filled as nat));
        }
    }
    assert(digits@ == decimal(n as nat));
    out.append(digits.as_str());
    assert(out@ == start + zeros(filled as nat) + digits@);
    assert(zeros(0) + digits@ == digits@);
}

proof fn lemma_digits_value_step(s: Seq<char>, i: int)
    requires
        0 <= i < s.len(),
    ensures
        digits_value(s.take(i + 1)) == digits_value(s.take(i)) * 10 + (s[i] as nat - 48) as nat,
{
    assert(s.take(i + 1).drop_last() == s.take(i));
}

proof fn lemma_digits_value_grows(s: Seq<char>, i: int)
    requires
        0 <= i <= s.len(),
    ensures
        digits_value(s.take(i)) <= digits_value(s),
    decreases s.len() - i,
{
    if i < s.len() {
        lemma_digits_value_step(s, i);
        lemma_digits_value_grows(s, i + 1);
    } else {
        assert(s.take(i) == s);
    }
}

/// Reads the number that `s` writes in decimal digits; 0 where it writes none
/// of 32 bits.
pub fn read_number_or_zero(s: &str) -> (r: u32)
    ensures
        r == number_or_zero(s@),
{
    let chars: Vec<char> = chars_of(s);
    if chars.len() == 0 {
        return 0;
    }
    let mut value: u64 = 0;
    let mut i: usize = 0;
    while i < chars.len()
        invariant
            chars@ == s@,
            i <= chars@.len(),
            value <= u32::MAX,
            value == digits_value(chars@.take(i as int)),
            forall|j: int| 0 <= j < i ==> is_digit(chars@[j]),
        decreases chars@.len() - i,
    {
        let c: char = chars[i];
        if c < '0' || c > '9' {
            assert(!is_digit(s@[i as int]));
            return 0;
        }
        proof {
            lemma_digits_value_step(chars@, i as int);
            lemma_digits_value_grows(chars@, i + 1);
        }
        value = value * 10 + (c as u32 - 48) as u64;
        if value > 0xffff_ffff {
            return 0;
        }
        i += 1;
    }
    assert(chars@.take(i as int) == s@);
    value as u32
}

/// The notation of a number is a row of decimal digits, and its value is the
/// number.
pub proof fn law_decimal_reads_back(n: nat)
    ensures
        decimal(n).len() > 0,
        forall|i: int| 0 <= i < decimal(n).len() ==> is_digit(decimal(n)[i]),
        digits_value(decimal(n)) == n,
    decreases n,
{
    if n < 10 {
        let s = seq![digit_char(n)];
        assert(s.drop_last() == Seq::<char>::empty());
        assert(digits_value(s.drop_last()) == 0);
        assert(decimal(n) == s);
    } else {
        law_decimal_reads_back(n / 10);
        let s = decimal(n / 10).push(digit_char(n % 10));
        assert(s.drop_last() == decimal(n / 10));
    }
}

proof fn lemma_zeros_in_front(k: nat, s: Seq<char>)
    ensures
        digits_value(zeros(k) + s) == digits_value(s),
    decreases s.len(), k,
{
    if s.len() > 0 {
        assert((zeros(k) + s).drop_last() == zeros(k) + s.drop_last());
        lemma_zeros_in_front(k, s.drop_last());
    } else if k > 0 {
        assert(zeros(k) + s == zeros(k));
        assert(zeros(k).drop_last() == zeros((k - 1) as nat));
        assert(zeros((k - 1) as nat) + s == zeros((k - 1) as nat));
        lemma_zeros_in_front((k - 1) as nat, s);
    }
}

/// Zeros in front of the notation of a number change neither that it is a row
/// of decimal digits nor its value.
pub proof fn law_padded_decimal_reads_back(n: nat, width: nat)
    ensures
        padded_decimal(n, width).len() >= width,
        padded_decimal(n, width).len() > 0,
        forall|i: int|
            0 <= i < padded_decimal(n, width).len() ==> is_digit(padded_decimal(n, width)[i]),
        digits_value(padded_decimal(n, width)) == n,
{
    law_decimal_reads_back(n);
    if decimal(n).len() < width {
        lemma_zeros_in_front((width - decimal(n).len()) as nat, decimal(n));
    }
}

// ---------------------------------------------------------------------------
// What these functions say of a text
// ---------------------------------------------------------------------------

/// A list of texts is given text by text, in order.
pub proof fn law_texts_are_given_in_order(list: Seq<String>)
    ensures
        texts(list).len() == list.len(),
        forall|i: int| 0 <= i < list.len() ==> #[trigger] texts(list)[i] == list[i]@,
{
}

/// White space are the 25 characters of the Unicode property, and no others.
pub proof fn law_white_space_characters(c: char)
    ensures
        is_white_space(c) <==> {
            ||| c == '\t'
            ||| c == '\n'
            ||| c == '\u{b}'
            ||| c == '\u{c}'
            ||| c == '\r'
            ||| c == ' '
            ||| c == '\u{85}'
            ||| c == '\u{a0}'
            ||| c == '\u{1680}'
            ||| c == '\u{2000}'
            ||| c == '\u{2001}'
            ||| c == '\u{2002}'
            ||| c == '\u{2003}'
            ||| c == '\u{2004}'
            ||| c == '\u{2005}'
            ||| c == '\u{2006}'
            ||| c == '\u{2007}'
            ||| c == '\u{2008}'
            ||| c == '\u{2009}'
            ||| c == '\u{200a}'
            ||| c == '\u{2028}'
            ||| c == '\u{2029}'
            ||| c == '\u{202f}'
            ||| c == '\u{205f}'
            ||| c == '\u{3000}'
        },
{
}

/// A trim takes white space, or one kind of quote, and nothing else.
pub proof fn law_what_a_trim_takes(c: char)
    ensures
        Strip::White.takes(c) <==> is_white_space(c),
        Strip::DoubleQuote.takes(c) <==> c == '"',
        Strip::SingleQuote.takes(c) <==> c == '\'',
{
}

proof fn lemma_leading_part(head: Seq<char>, rest: Seq<char>, strip: Strip)
    requires
        forall|i: int| 0 <= i < head.len() ==> strip.takes(#[trigger] head[i]),
    ensures
        without_leading(head + rest, strip) == without_leading(rest, strip),
    decreases head.len(),
{
    if head.len() > 0 {
        assert((head + rest).first() == head[0]);
        assert((head + rest).drop_first() == head.drop_first() + rest);
        lemma_leading_part(head.drop_first(), rest, strip);
    } else {
        assert(head + rest == rest);
    }
}

proof fn lemma_trailing_part(rest: Seq<char>, tail: Seq<char>, strip: Strip)
    requires
        forall|i: int| 0 <= i < tail.len() ==> strip.takes(#[trigger] tail[i]),
    ensures
        without_trailing(rest + tail, strip) == without_trailing(rest, strip),
    decreases tail.len(),
{
    if tail.len() > 0 {
        assert((rest + tail).last() == tail[tail.len() - 1]);
        assert((rest + tail).drop_last() == rest + tail.drop_last());
        lemma_trailing_part(rest, tail.drop_last(), strip);
    } else {
        assert(rest + tail == rest);
    }
}

/// A trim takes off all it can at both ends and leaves what stands between as it
/// is.
pub proof fn law_trim_keeps_the_middle(
    head: Seq<char>,
    middle: Seq<char>,
    tail: Seq<char>,
    strip: Strip,
)
    requires
        forall|i: int| 0 <= i < head.len() ==> strip.takes(#[trigger] head[i]),
        forall|i: int| 0 <= i < tail.len() ==> strip.takes(#[trigger] tail[i]),
        middle.len() > 0 ==> !strip.takes(middle.first()) && !strip.takes(middle.last()),
    ensures
        stripped(head + middle + tail, strip) == middle,
{
    assert(head + middle + tail == head + (middle + tail));
    lemma_leading_part(head, middle + tail, strip);
    if middle.len() > 0 {
        assert((middle + tail).first() == middle.first());
        lemma_trailing_part(middle, tail, strip);
    } else {
        assert(middle + tail == tail + middle);
        lemma_leading_part(tail, middle, strip);
        assert(without_leading(middle, strip) == middle);
    }
}

/// White space around a text is trimmed off, and only there.
pub proof fn law_trimmed_text(head: Seq<char>, middle: Seq<char>, tail: Seq<char>)
    requires
        forall|i: int| 0 <= i < head.len() ==> is_white_space(#[trigger] head[i]),
        forall|i: int| 0 <= i < tail.len() ==> is_white_space(#[trigger] tail[i]),
        middle.len() > 0 ==> !is_white_space(middle.first()) && !is_white_space(middle.last()),
    ensures
        trimmed(head + middle + tail) == middle,
{
    law_trim_keeps_the_middle(head, middle, tail, Strip::White);
}

/// A part is found wherever it stands.
pub proof fn law_part_is_found(before: Seq<char>, part: Seq<char>, after: Seq<char>)
    ensures
        has_part(before + part + after, part),
        begins_with(part + after, part),
{
    let s = before + part + after;
    assert(s.subrange(before.len() as int, (before.len() + part.len()) as int) == part);
    assert(occurs_at(s, part, before.len() as int));
    assert((part + after).subrange(0, part.len() as int) == part);
}

/// A part that is found stands there: the text is what comes before it, the part
/// and what comes after it.
pub proof fn law_found_part_stands_there(s: Seq<char>, part: Seq<char>)
    ensures
        has_part(s, part) ==> exists|before: Seq<char>, after: Seq<char>|
            s == #[trigger] (before + part + after),
        begins_with(s, part) ==> s == part + s.skip(part.len() as int),
{
    if has_part(s, part) {
        let at = choose|at: int| occurs_at(s, part, at);
        let before = s.take(at);
        let after = s.skip(at + part.len());
        assert forall|i: int| 0 <= i < part.len() implies s[at + i] == part[i] by {
            assert(s.subrange(at, at + part.len())[i] == part[i]);
        }
        assert(s == before + part + after);
    }
    if begins_with(s, part) {
        assert forall|i: int| 0 <= i < part.len() implies s[i] == part[i] by {
            assert(s.subrange(0, part.len() as int)[i] == part[i]);
        }
        assert(s == part + s.skip(part.len() as int));
    }
}

/// A digit behind a row of digits makes its value ten times as large and adds its
/// own.
pub proof fn law_digits_are_decimal(s: Seq<char>, c: char)
    ensures
        is_digit(c) <==> c == '0' || c == '1' || c == '2' || c == '3' || c == '4' || c == '5' || c
            == '6' || c == '7' || c == '8' || c == '9',
        digits_value(Seq::empty()) == 0,
        is_digit(c) ==> digits_value(s.push(c)) == 10 * digits_value(s) + (c as int - '0' as int),
{
    assert(s.push(c).drop_last() == s);
}

/// The notation of a number has no zero in front, but for that of 0 itself.
pub proof fn law_decimal_has_no_leading_zero(n: nat)
    ensures
        n > 0 ==> decimal(n).first() != '0',
        n == 0 ==> decimal(n) == seq!['0'],
    decreases n,
{
    if n >= 10 {
        law_decimal_has_no_leading_zero(n / 10);
        law_decimal_reads_back(n / 10);
    }
}

/// A negative number is written as its amount behind a minus sign, any other as it
/// is.
pub proof fn law_signed_notation(n: nat)
    ensures
        signed_decimal(n as int) == decimal(n),
        n > 0 ==> signed_decimal(-n) == seq!['-'] + decimal(n),
{
}

/// Zeros fill a notation up to the width and no further.
pub proof fn law_padding_fills_the_width(n: nat, width: nat)
    ensures
        decimal(n).len() <= width ==> padded_decimal(n, width).len() == width,
        decimal(n).len() >= width ==> padded_decimal(n, width) == decimal(n),
{
}

/// A number is read from a row of digits of 32 bits; anything else reads as 0.
pub proof fn law_number_is_read(s: Seq<char>)
    ensures
        s.len() == 0 ==> number_or_zero(s) == 0,
        (exists|i: int| 0 <= i < s.len() && !is_digit(#[trigger] s[i])) ==> number_or_zero(s)
            == 0,
        s.len() > 0 && (forall|i: int| 0 <= i < s.len() ==> is_digit(#[trigger] s[i]))
            ==> number_or_zero(s) == if digits_value(s) <= 0xffff_ffff {
            digits_value(s)
        } else {
            0
        },
{
}

// ---------------------------------------------------------------------------
// What the operations do
// ---------------------------------------------------------------------------

/// `trim` and `strip_ends` take off what they take at both ends and keep what
/// stands between.
pub proof fn law_trim_gives_the_middle(
    s: &str,
    strip: Strip,
    r: String,
    t: String,
    head: Seq<char>,
    middle: Seq<char>,
    tail: Seq<char>,
)
    requires
        call_ensures(strip_ends, (s, strip), r),
        call_ensures(trim, (s,), t),
        s@ == head + middle + tail,
        forall|i: int| 0 <= i < head.len() ==> strip.takes(#[trigger] head[i]),
        forall|i: int| 0 <= i < tail.len() ==> strip.takes(#[trigger] tail[i]),
        middle.len() > 0 ==> !strip.takes(middle.first()) && !strip.takes(middle.last()),
    ensures
        r@ == middle,
        strip == Strip::White ==> t@ == middle,
{
    law_trim_keeps_the_middle(head, middle, tail, strip);
}

/// `contains_text` finds a part exactly where it stands in the text,
/// `starts_with_text` exactly where it stands in front, and `same_text` where there
/// is nothing else.
pub proof fn law_parts_are_found_where_they_stand(
    s: &str,
    part: &str,
    found: bool,
    first: bool,
    same: bool,
    before: Seq<char>,
    after: Seq<char>,
)
    requires
        call_ensures(contains_text, (s, part), found),
        call_ensures(starts_with_text, (s, part), first),
        call_ensures(same_text, (s, part), same),
    ensures
        s@ == before + part@ + after ==> found,
        found ==> exists|b: Seq<char>, a: Seq<char>| s@ == #[trigger] (b + part@ + a),
        first <==> part@.len() <= s@.len() && s@.take(part@.len() as int) == part@,
        same <==> s@ == part@,
{
    law_part_is_found(before, part@, after);
    law_found_part_stands_there(s@, part@);
    assert(s@.subrange(0, part@.len() as int) == s@.take(part@.len() as int));
}

/// A number that `push_decimal` or `push_padded_decimal` wrote is read again by
/// `read_number_or_zero`, as far as 32 bits go, and what was there before stays in
/// front.
pub proof fn law_written_numbers_are_read(
    out: &mut String,
    padded: &mut String,
    n: u64,
    width: usize,
    written: &str,
    r: u32,
)
    requires
        call_ensures(push_decimal, (out, n), ()),
        call_ensures(push_padded_decimal, (padded, n, width), ()),
        written@ == final(out)@.skip(old(out)@.len() as int) || written@ == final(padded)@.skip(
            old(padded)@.len() as int,
        ),
        call_ensures(read_number_or_zero, (written,), r),
        n <= u32::MAX,
    ensures
        r == n,
        final(out)@.take(old(out)@.len() as int) == old(out)@,
        final(padded)@.take(old(padded)@.len() as int) == old(padded)@,
        final(padded)@.len() >= old(padded)@.len() + width,
{
    law_decimal_reads_back(n as nat);
    law_padded_decimal_reads_back(n as nat, width as nat);
    assert(final(out)@.skip(old(out)@.len() as int) == decimal(n as nat));
    assert(final(padded)@.skip(old(padded)@.len() as int) == padded_decimal(
        n as nat,
        width as nat,
    ));
    assert(final(out)@.take(old(out)@.len() as int) == old(out)@);
    assert(final(padded)@.take(old(padded)@.len() as int) == old(padded)@);
}

/// `push_signed_decimal` writes a minus sign before the amount of a negative
/// number, and any other number as `push_decimal` does.
pub proof fn law_signed_numbers_are_written(
    out: &mut String,
    signed: &mut String,
    amount: u64,
    n: i64,
)
    requires
        call_ensures(push_decimal, (out, amount), ()),
        call_ensures(push_signed_decimal, (signed, n), ()),
        old(out)@ == old(signed)@,
    ensures
        n == amount ==> final(signed)@ == final(out)@,
        n < 0 && n == -amount ==> final(signed)@ == old(signed)@.push('-') + final(out)@.skip(
            old(out)@.len() as int,
        ),
{
    law_signed_notation(amount as nat);
    assert(final(out)@.skip(old(out)@.len() as int) == decimal(amount as nat));
    if n < 0 && n == -amount {
        assert(old(signed)@ + (seq!['-'] + decimal(amount as nat)) == old(signed)@.push('-')
            + decimal(amount as nat));
    }
}

} // verus!

//! Text helpers shared by the command grammar and the reports.

use vstd::prelude::*;
use vstd::slice::slice_subrange;
use vstd::string::*;

verus! {

/// The decimal digit that stands for `d`, for `d` below ten.
pub open spec fn digit_char(d: nat) -> char {
    if d == 0 {
        '0'
    } else if d == 1 {
        '1'
    } else if d == 2 {
        '2'
    } else if d == 3 {
        '3'
    } else if d == 4 {
        '4'
    } else if d == 5 {
        '5'
    } else if d == 6 {
        '6'
    } else if d == 7 {
        '7'
    } else if d == 8 {
        '8'
    } else {
        '9'
    }
}

/// The decimal numeral of `n`, without leading zeros.
pub open spec fn decimal(n: nat) -> Seq<char>
    decreases n,
{
    if n < 10 {
        seq![digit_char(n)]
    } else {
        decimal(n / 10).push(digit_char(n % 10))
    }
}

fn digit_text(d: u64) -> (text: &'static str)
    requires
        d < 10,
    ensures
        text@ == seq![digit_char(d as nat)],
{
    proof {
        reveal_strlit("0");
        reveal_strlit("1");
        reveal_strlit("2");
        reveal_strlit("3");
        reveal_strlit("4");
        reveal_strlit("5");
        reveal_strlit("6");
        reveal_strlit("7");
        reveal_strlit("8");
        reveal_strlit("9");
    }
    let text = if d == 0 {
        "0"
    } else if d == 1 {
        "1"
    } else if d == 2 {
        "2"
    } else if d == 3 {
        "3"
    } else if d == 4 {
        "4"
    } else if d == 5 {
        "5"
    } else if d == 6 {
        "6"
    } else if d == 7 {
        "7"
    } else if d == 8 {
        "8"
    } else {
        "9"
    };
    assert(text@ =~= seq![digit_char(d as nat)]);
    text
}

/// Appends the decimal numeral of `n` to `out`.
pub fn append_decimal(out: &mut String, n: u64)
    ensures
        final(out)@ == old(out)@ + decimal(n as nat),
    decreases n,
{
    if n >= 10 {
        append_decimal(out, n / 10);
    }
    out.append(digit_text(n % 10));
    assert(out@ =~= old(out)@ + decimal(n as nat));
}

/// The characters of `s`, one by one.
pub fn chars_of(s: &str) -> (chars: Vec<char>)
    ensures
        chars@ == s@,
{
    broadcast use vstd::string::group_string_axioms;

    let mut chars: Vec<char> = Vec::new();
    for c in it: s.chars()
        invariant
            it.seq() == s@,
            chars@ == s@.take(it.index()),
    {
        chars.push(c);
        assert(chars@ =~= s@.take(it.index() + 1));
    }
    assert(chars@ =~= s@);
    chars
}

/// Whether `c` is white space, as Unicode lists it.
pub open spec fn is_whitespace(c: char) -> bool {
    let code = c as u32;
    ||| 0x09 <= code <= 0x0d
    ||| code == 0x20
    ||| code == 0x85
    ||| code == 0xa0
    ||| code == 0x1680
    ||| 0x2000 <= code <= 0x200a
    ||| code == 0x2028
    ||| code == 0x2029
    ||| code == 0x202f
    ||| code == 0x205f
    ||| code == 0x3000
}

/// Tests a character for white space.
pub fn is_whitespace_char(c: char) -> (white: bool)
    ensures
        white == is_whitespace(c),
{
    let code: u32 = c as u32;
    (0x09 <= code && code <= 0x0d) || code == 0x20 || code == 0x85 || code == 0xa0 || code
        == 0x1680 || (0x2000 <= code && code <= 0x200a) || code == 0x2028 || code == 0x2029
        || code == 0x202f || code == 0x205f || code == 0x3000
}

/// `s` with every white-space character taken out.
pub open spec fn without_whitespace(s: Seq<char>) -> Seq<char>
    decreases s.len(),
{
    if s.len() == 0 {
        Seq::<char>::empty()
    } else if is_whitespace(s.last()) {
        without_whitespace(s.drop_last())
    } else {
        without_whitespace(s.drop_last()).push(s.last())
    }
}

/// Removes every white-space character.
pub fn strip_whitespace(chars: &[char]) -> (kept: Vec<char>)
    ensures
        kept@ == without_whitespace(chars@),
{
    let mut kept: Vec<char> = Vec::new();
    let mut i: usize = 0;
    while i < chars.len()
        invariant
            i <= chars@.len(),
            kept@ == without_whitespace(chars@.take(i as int)),
        decreases chars@.len() - i,
    {
        assert(chars@.take(i + 1).drop_last() =~= chars@.take(i as int));
        if !is_whitespace_char(chars[i]) {
            kept.push(chars[i]);
        }
        i += 1;
    }
    assert(chars@.take(i as int) =~= chars@);
    kept
}

/// What `str::to_lowercase` makes of a text: its lowercase equivalent as
/// Unicode defines it.
pub uninterp spec fn lowercase_of(s: Seq<char>) -> Seq<char>;

/// Calls `str::to_lowercase`. Nothing is proved of the mapping itself: the
/// result is only given the name `lowercase_of`.
#[verifier::external_body]
pub(crate) fn to_lowercase(s: &str) -> (lower: String)
    ensures
        lower@ == lowercase_of(s@),
{
    s.to_lowercase()
}

/// Whether the text `word` stands in `s` at position `at`.
pub open spec fn occurs_at(s: Seq<char>, word: Seq<char>, at: int) -> bool {
    0 <= at && at + word.len() <= s.len() && s.subrange(at, at + word.len()) == word
}

/// Whether `s` begins with `word`.
pub open spec fn begins_with(s: Seq<char>, word: Seq<char>) -> bool {
    occurs_at(s, word, 0)
}

/// Tests whether `word` stands in `chars` at position `at`.
pub fn word_at(chars: &[char], word: &[char], at: usize) -> (found: bool)
    ensures
        found == occurs_at(chars@, word@, at as int),
{
    if word.len() > chars.len() || at > chars.len() - word.len() {
        return false;
    }
    let mut i: usize = 0;
    while i < word.len()
        invariant
            i <= word@.len(),
            at + word@.len() <= chars@.len() <= usize::MAX,
            forall|j: int| 0 <= j < i ==> chars@[at + j] == word@[j],
        decreases word@.len() - i,
    {
        if chars[at + i] != word[i] {
            assert(chars@.subrange(at as int, at + word@.len())[i as int] != word@[i as int]);
            return false;
        }
        i += 1;
    }
    assert(chars@.subrange(at as int, at + word@.len()) =~= word@);
    true
}

/// Tests whether `chars` begins with the text `word`.
pub fn starts_with(chars: &[char], word: &str) -> (found: bool)
    ensures
        found == begins_with(chars@, word@),
{
    let word_chars = chars_of(word);
    word_at(chars, word_chars.as_slice(), 0)
}

/// Tests whether `chars` is the text `word`.
pub fn is_word(chars: &[char], word: &str) -> (same: bool)
    ensures
        same == (chars@ == word@),
{
    let word_chars = chars_of(word);
    if word_chars.len() != chars.len() {
        return false;
    }
    let found = word_at(chars, word_chars.as_slice(), 0);
    assert(chars@.subrange(0, chars@.len() as int) =~= chars@);
    found
}

/// The part of `chars` from position `from` on.
pub fn tail(chars: &[char], from: usize) -> (rest: Vec<char>)
    requires
        from <= chars@.len(),
    ensures
        rest@ == chars@.skip(from as int),
{
    let mut rest: Vec<char> = Vec::new();
    let mut i: usize = from;
    while i < chars.len()
        invariant
            from <= i <= chars@.len(),
            rest@ == chars@.subrange(from as int, i as int),
        decreases chars@.len() - i,
    {
        rest.push(chars[i]);
        assert(rest@ =~= chars@.subrange(from as int, i + 1));
        i += 1;
    }
    assert(rest@ =~= chars@.skip(from as int));
    rest
}

/// Whether `c` is one of the ten decimal digits.
pub open spec fn is_digit(c: char) -> bool {
    0x30 <= c as u32 <= 0x39
}

/// The number that the decimal digit `c` stands for.
pub open spec fn digit_value(c: char) -> nat {
    (c as u32 - 0x30) as nat
}

/// Whether `s` holds decimal digits only.
pub open spec fn all_digits(s: Seq<char>) -> bool {
    forall|i: int| 0 <= i < s.len() ==> is_digit(#[trigger] s[i])
}

/// The number that the decimal digits `s` spell; 0 for no digits.
pub open spec fn digits_value(s: Seq<char>) -> nat
    decreases s.len(),
{
    if s.len() == 0 {
        0
    } else {
        digits_value(s.drop_last()) * 10 + digit_value(s.last())
    }
}

/// A numeral does not shrink when digits are appended to it.
pub proof fn lemma_digits_value_grows(s: Seq<char>, k: int)
    requires
        0 <= k <= s.len(),
    ensures
        digits_value(s.take(k)) <= digits_value(s),
    decreases s.len() - k,
{
    if k == s.len() {
        assert(s.take(k) =~= s);
    } else {
        lemma_digits_value_grows(s, k + 1);
        assert(s.take(k + 1).drop_last() =~= s.take(k));
    }
}

/// Reads the digits of `chars[from..to]`, counting no further than `cap`.
/// `None` says that something other than a digit stands there.
pub fn read_digits(chars: &[char], from: usize, to: usize, cap: u64) -> (value: Option<u64>)
    requires
        from <= to <= chars@.len(),
        cap <= 1_000_000_000_000,
    ensures
        value is Some <==> all_digits(chars@.subrange(from as int, to as int)),
        value matches Some(v) ==> v == if digits_value(chars@.subrange(from as int, to as int))
            < cap {
            digits_value(chars@.subrange(from as int, to as int))
        } else {
            cap as nat
        },
{
    let ghost digits = chars@.subrange(from as int, to as int);
    let mut value: u64 = 0;
    let mut i: usize = from;
    while i < to
        invariant
            from <= i <= to <= chars@.len(),
            cap <= 1_000_000_000_000,
            digits == chars@.subrange(from as int, to as int),
            all_digits(digits.take(i - from)),
            value == if digits_value(digits.take(i - from)) < cap {
                digits_value(digits.take(i - from))
            } else {
                cap as nat
            },
        decreases to - i,
    {
        let code: u32 = chars[i] as u32;
        assert(digits[i - from] == chars@[i as int]);
        if code < 0x30 || code > 0x39 {
            return None;
        }
        assert(digits.take(i - from + 1).drop_last() =~= digits.take(i - from));
        let next: u64 = value * 10 + (code - 0x30) as u64;
        value = if next < cap {
            next
        } else {
            cap
        };
        i += 1;
    }
    assert(digits.take(to - from) =~= digits);
    Some(value)
}

/// What a text names as a track index: digits, with one `+` allowed in front.
pub open spec fn index_value(s: Seq<char>) -> Option<nat> {
    let digits = if s.len() > 0 && s[0] == '+' {
        s.skip(1)
    } else {
        s
    };
    if digits.len() > 0 && all_digits(digits) {
        Some(digits_value(digits))
    } else {
        None
    }
}

/// Reads a track index. `None` where the text is no index, or where the
/// number is beyond what `usize` holds.
pub fn parse_index(chars: &[char]) -> (index: Option<usize>)
    ensures
        index == match index_value(chars@) {
            Some(v) => if v <= usize::MAX {
                Some(v as usize)
            } else {
                None
            },
            None => None,
        },
{
    let len = chars.len();
    let start: usize = if len > 0 && chars[0] == '+' {
        1
    } else {
        0
    };
    let ghost digits = chars@.skip(start as int);
    if start == len {
        return None;
    }
    let mut value: usize = 0;
    let mut i: usize = start;
    while i < len
        invariant
            start <= i <= len == chars@.len(),
            start < len,
            start == if chars@.len() > 0 && chars@[0] == '+' {
                1int
            } else {
                0int
            },
            digits == chars@.skip(start as int),
            all_digits(digits.take(i - start)),
            value == digits_value(digits.take(i - start)),
        decreases len - i,
    {
        let code: u32 = chars[i] as u32;
        assert(digits[i - start] == chars@[i as int]);
        if code < 0x30 || code > 0x39 {
            return None;
        }
        assert(digits.take(i - start + 1).drop_last() =~= digits.take(i - start));
        let digit: usize = (code - 0x30) as usize;
        assert(digits_value(digits.take(i - start + 1)) == value * 10 + digit) by {
            assert(digits.take(i - start + 1).last() == chars@[i as int]);
        }
        let grown = match value.checked_mul(10) {
            Some(tens) => tens.checked_add(digit),
            None => None,
        };
        match grown {
            Some(next) => {
                value = next;
            },
            None => {
                proof {
                    lemma_digits_value_grows(digits, i - start + 1);
                    assert(chars@.skip(0) =~= chars@);
                }
                return None;
            },
        }
        i += 1;
    }
    assert(digits.take(len - start) =~= digits);
    assert(chars@.skip(0) =~= chars@);
    Some(value)
}

/// How many characters stand in `s` before the first `c`; the length of
/// `s` where it holds no `c`.
pub open spec fn span_before(s: Seq<char>, c: char) -> nat
    decreases s.len(),
{
    if s.len() == 0 || s[0] == c {
        0
    } else {
        1 + span_before(s.drop_first(), c)
    }
}

/// `span_before` is the position of the first occurrence.
pub proof fn lemma_span_before(s: Seq<char>, c: char, at: int)
    requires
        0 <= at <= s.len(),
        forall|j: int| 0 <= j < at ==> s[j] != c,
        at < s.len() ==> s[at] == c,
    ensures
        span_before(s, c) == at,
    decreases s.len(),
{
    if s.len() == 0 || s[0] == c {
    } else {
        let rest = s.drop_first();
        assert forall|j: int| 0 <= j < at - 1 implies rest[j] != c by {
            assert(rest[j] == s[j + 1]);
        }
        lemma_span_before(rest, c, at - 1);
    }
}

/// Finds the first `c` in `chars`; the length where there is none.
pub fn find_char(chars: &[char], c: char) -> (at: usize)
    ensures
        at == span_before(chars@, c),
        at <= chars@.len(),
{
    let mut at: usize = 0;
    while at < chars.len() && chars[at] != c
        invariant
            at <= chars@.len(),
            forall|j: int| 0 <= j < at ==> chars@[j] != c,
        decreases chars@.len() - at,
    {
        at += 1;
    }
    proof {
        lemma_span_before(chars@, c, at as int);
    }
    at
}

/// The digit of `s` at position `at`, and 0 where `s` ends before it.
pub open spec fn digit_or_zero(s: Seq<char>, at: int) -> nat {
    if 0 <= at < s.len() {
        digit_value(s[at])
    } else {
        0
    }
}

/// A number written in decimal: an optional sign, digits, and optionally a
/// point with further digits; at least one digit in all.
pub struct Numeral {
    pub negative: bool,
    pub whole: Seq<char>,
    pub fraction: Seq<char>,
}

/// Splits a text at its sign and its decimal point, without judging the parts.
pub open spec fn numeral_parts(s: Seq<char>) -> Numeral {
    let signed = s.len() > 0 && (s[0] == '+' || s[0] == '-');
    let body = if signed {
        s.skip(1)
    } else {
        s
    };
    let point = span_before(body, '.') as int;
    Numeral {
        negative: s.len() > 0 && s[0] == '-',
        whole: body.take(point),
        fraction: if point < body.len() {
            body.skip(point + 1)
        } else {
            Seq::<char>::empty()
        },
    }
}

/// Whether `s` is a decimal number.
pub open spec fn is_numeral(s: Seq<char>) -> bool {
    let parts = numeral_parts(s);
    &&& all_digits(parts.whole)
    &&& all_digits(parts.fraction)
    &&& parts.whole.len() + parts.fraction.len() > 0
}

/// The number `s`, counted in hundredths and cut off below them, held to the
/// range from 0 to `cap`.
pub open spec fn hundredths(s: Seq<char>, cap: nat) -> nat {
    let parts = numeral_parts(s);
    let size = digits_value(parts.whole) * 100 + digit_or_zero(parts.fraction, 0) * 10
        + digit_or_zero(parts.fraction, 1);
    if parts.negative {
        0
    } else if size < cap {
        size
    } else {
        cap
    }
}

/// Reads a decimal number in hundredths, held to the range from 0 to `cap`.
/// `None` where the text is no number.
pub fn parse_hundredths(chars: &[char], cap: u32) -> (value: Option<u32>)
    ensures
        value is Some <==> is_numeral(chars@),
        value matches Some(v) ==> v == hundredths(chars@, cap as nat),
{
    let len = chars.len();
    let signed = len > 0 && (chars[0] == '+' || chars[0] == '-');
    let negative = len > 0 && chars[0] == '-';
    let start: usize = if signed {
        1
    } else {
        0
    };
    let body = slice_subrange(chars, start, len);
    proof {
        assert(chars@.skip(0) =~= chars@);
        assert(body@ =~= chars@.skip(start as int));
    }
    let point = find_char(body, '.');
    let ghost parts = numeral_parts(chars@);
    let after: usize = if point < body.len() {
        point + 1
    } else {
        point
    };
    proof {
        assert(body@.subrange(0, point as int) =~= parts.whole);
        assert(body@.subrange(after as int, body@.len() as int) =~= parts.fraction);
    }
    let whole = match read_digits(body, 0, point, 1_000_000_000) {
        Some(whole) => whole,
        None => {
            return None;
        },
    };
    if read_digits(body, after, body.len(), 0).is_none() {
        return None;
    }
    if point + (body.len() - after) == 0 {
        return None;
    }
    proof {
        if after < body@.len() {
            assert(is_digit(parts.fraction[0]));
            assert(parts.fraction[0] == body@[after as int]);
            if after + 1 < body@.len() {
                assert(is_digit(parts.fraction[1]));
                assert(parts.fraction[1] == body@[after + 1]);
            }
        }
    }
    let first: u64 = if after < body.len() {
        (body[after] as u32 - 0x30) as u64
    } else {
        0
    };
    let second: u64 = if after < body.len() && after + 1 < body.len() {
        (body[after + 1] as u32 - 0x30) as u64
    } else {
        0
    };
    let size: u64 = whole * 100 + first * 10 + second;
    if negative {
        Some(0)
    } else if size < cap as u64 {
        Some(size as u32)
    } else {
        Some(cap)
    }
}

/// Whether `a` comes before `b` in dictionary order by code point, the order
/// in which `str` values sort.
pub open spec fn text_lt(a: Seq<char>, b: Seq<char>) -> bool
    decreases a.len(),
{
    if b.len() == 0 {
        false
    } else if a.len() == 0 {
        true
    } else if a[0] != b[0] {
        (a[0] as u32) < (b[0] as u32)
    } else {
        text_lt(a.drop_first(), b.drop_first())
    }
}

/// Nothing comes before itself.
pub proof fn lemma_text_lt_irreflexive(a: Seq<char>)
    ensures
        !text_lt(a, a),
    decreases a.len(),
{
    if a.len() > 0 {
        lemma_text_lt_irreflexive(a.drop_first());
    }
}

/// The order is transitive.
pub proof fn lemma_text_lt_transitive(a: Seq<char>, b: Seq<char>, c: Seq<char>)
    requires
        text_lt(a, b),
        text_lt(b, c),
    ensures
        text_lt(a, c),
    decreases a.len(),
{
    if a.len() > 0 && a[0] == b[0] && b[0] == c[0] {
        lemma_text_lt_transitive(a.drop_first(), b.drop_first(), c.drop_first());
    }
}

/// Of two different texts one comes before the other.
pub proof fn lemma_text_lt_total(a: Seq<char>, b: Seq<char>)
    ensures
        text_lt(a, b) || text_lt(b, a) || a == b,
    decreases a.len(),
{
    if a.len() == 0 || b.len() == 0 {
        if a.len() == 0 && b.len() == 0 {
            assert(a =~= b);
        }
    } else if a[0] == b[0] {
        lemma_text_lt_total(a.drop_first(), b.drop_first());
        if a.drop_first() == b.drop_first() {
            assert(a =~= seq![a[0]] + a.drop_first());
            assert(b =~= seq![b[0]] + b.drop_first());
        }
    } else {
        vstd::utf8::char_u32_cast(a[0], a[0] as u32);
        vstd::utf8::char_u32_cast(b[0], b[0] as u32);
    }
}

/// A shared beginning does not decide the order.
pub proof fn lemma_text_lt_skip(a: Seq<char>, b: Seq<char>, k: int)
    requires
        0 <= k <= a.len(),
        k <= b.len(),
        forall|j: int| 0 <= j < k ==> a[j] == b[j],
    ensures
        text_lt(a, b) == text_lt(a.skip(k), b.skip(k)),
    decreases k,
{
    if k == 0 {
        assert(a.skip(0) =~= a);
        assert(b.skip(0) =~= b);
    } else {
        assert forall|j: int| 0 <= j < k - 1 implies a.drop_first()[j] == b.drop_first()[j] by {
            assert(a.drop_first()[j] == a[j + 1]);
            assert(b.drop_first()[j] == b[j + 1]);
        }
        lemma_text_lt_skip(a.drop_first(), b.drop_first(), k - 1);
        assert(a.drop_first().skip(k - 1) =~= a.skip(k));
        assert(b.drop_first().skip(k - 1) =~= b.skip(k));
    }
}

/// Tests whether `a` sorts before `b`.
pub fn text_before(a: &[char], b: &[char]) -> (before: bool)
    ensures
        before == text_lt(a@, b@),
{
    let mut k: usize = 0;
    while k < a.len() && k < b.len() && a[k] == b[k]
        invariant
            k <= a@.len(),
            k <= b@.len(),
            forall|j: int| 0 <= j < k ==> a@[j] == b@[j],
        decreases a@.len() - k,
    {
        k += 1;
    }
    proof {
        lemma_text_lt_skip(a@, b@, k as int);
    }
    if k == b.len() {
        false
    } else if k == a.len() {
        true
    } else {
        (a[k] as u32) < (b[k] as u32)
    }
}

/// Tests two texts for equality.
pub fn same_text(a: &[char], b: &[char]) -> (same: bool)
    ensures
        same == (a@ == b@),
{
    if a.len() != b.len() {
        return false;
    }
    let found = word_at(a, b, 0);
    assert(a@.subrange(0, a@.len() as int) =~= a@);
    found
}

} // verus!

//! Text that the user reads and types: numbers in decimal, trimming, prefixes.
use vstd::prelude::*;

verus! {

/// The character of the decimal digit `d`.
pub open spec fn digit_char(d: nat) -> char
    recommends
        d < 10,
{
    ('0' as int + d) as char
}

/// `n` in decimal, without leading zeros.
pub open spec fn decimal(n: nat) -> Seq<char>
    decreases n,
{
    if n < 10 {
        seq![digit_char(n)]
    } else {
        decimal(n / 10).push(digit_char(n % 10))
    }
}

/// Whether `c` is one of the ten decimal digits.
pub open spec fn is_digit(c: char) -> bool {
    '0' as int <= c as int <= '9' as int
}

/// Whether `text` consists of decimal digits.
pub open spec fn all_digits(text: Seq<char>) -> bool {
    forall|i: int| 0 <= i < text.len() ==> is_digit(#[trigger] text[i])
}

/// The number that a sequence of decimal digits stands for.
pub open spec fn digits_value(digits: Seq<char>) -> nat
    decreases digits.len(),
{
    if digits.len() == 0 {
        0
    } else {
        (10 * digits_value(digits.drop_last()) + (digits.last() as int - '0' as int)) as nat
    }
}

/// `text` without a plus sign in front.
pub open spec fn without_plus(text: Seq<char>) -> Seq<char> {
    if text.len() > 0 && text[0] == '+' {
        text.skip(1)
    } else {
        text
    }
}

/// The number that `text` denotes: decimal digits, at least one, behind an optional plus sign.
pub open spec fn unsigned_value(text: Seq<char>) -> Option<nat> {
    let digits = without_plus(text);
    if digits.len() > 0 && all_digits(digits) {
        Some(digits_value(digits))
    } else {
        None
    }
}

/// The 16-bit number that `text` denotes, if it denotes one that fits.
pub open spec fn parsed_u16(text: Seq<char>) -> Option<u16> {
    match unsigned_value(text) {
        Some(value) => if value <= u16::MAX {
            Some(value as u16)
        } else {
            None
        },
        None => None,
    }
}

/// Whether `c` has the Unicode property `White_Space`.
pub open spec fn is_white_space(c: char) -> bool {
    let n = c as int;
    ||| 0x09 <= n <= 0x0D
    ||| n == 0x20
    ||| n == 0x85
    ||| n == 0xA0
    ||| n == 0x1680
    ||| 0x2000 <= n <= 0x200A
    ||| n == 0x2028
    ||| n == 0x2029
    ||| n == 0x202F
    ||| n == 0x205F
    ||| n == 0x3000
}

/// `text` without the white space at its start.
pub open spec fn trim_start(text: Seq<char>) -> Seq<char>
    decreases text.len(),
{
    if text.len() > 0 && is_white_space(text[0]) {
        trim_start(text.skip(1))
    } else {
        text
    }
}

/// `text` without the white space at its end.
pub open spec fn trim_end(text: Seq<char>) -> Seq<char>
    decreases text.len(),
{
    if text.len() > 0 && is_white_space(text.last()) {
        trim_end(text.drop_last())
    } else {
        text
    }
}

/// `text` without the white space at either end.
pub open spec fn trimmed(text: Seq<char>) -> Seq<char> {
    trim_end(trim_start(text))
}

/// The digit `d` as text.
fn digit_text(d: u16) -> (text: &'static str)
    requires
        d < 10,
    ensures
        text@ == seq![digit_char(d as nat)],
{
    proof {
        reveal_strlit("0");
        reveal_strlit("1");
        reveal_strlit("2");
        reveal_strlit("3");
        reveal_strlit("4");
        reveal_strlit("5");
        reveal_strlit("6");
        reveal_strlit("7");
        reveal_strlit("8");
        reveal_strlit("9");
    }
    if d == 0 {
        "0"
    } else if d == 1 {
        "1"
    } else if d == 2 {
        "2"
    } else if d == 3 {
        "3"
    } else if d == 4 {
        "4"
    } else if d == 5 {
        "5"
    } else if d == 6 {
        "6"
    } else if d == 7 {
        "7"
    } else if d == 8 {
        "8"
    } else {
        "9"
    }
}

/// `n` in decimal.
pub fn decimal_string(n: u16) -> (text: String)
    ensures
        text@ == decimal(n as nat),
    decreases n,
{
    if n < 10 {
        digit_text(n).to_owned()
    } else {
        let mut text = decimal_string(n / 10);
        text.append(digit_text(n % 10));
        assert(text@ == decimal((n / 10) as nat).push(digit_char((n % 10) as nat)));
        text
    }
}

/// The characters of `text`.
pub fn characters(text: &str) -> (chars: Vec<char>)
    ensures
        chars@ == text@,
{
    let mut chars: Vec<char> = Vec::new();
    for c in iter: text.chars()
        invariant
            chars@ == iter.seq().take(iter.index() as int),
            iter.seq() == text@,
    {
        chars.push(c);
    }
    chars
}

/// A prefix of a sequence of digits never stands for a larger number than the whole.
proof fn lemma_prefix_value(digits: Seq<char>, n: int)
    requires
        0 <= n <= digits.len(),
        all_digits(digits),
    ensures
        digits_value(digits.take(n)) <= digits_value(digits),
    decreases digits.len() - n,
{
    if n == digits.len() {
        assert(digits.take(n) == digits);
    } else {
        lemma_prefix_value(digits, n + 1);
        assert(digits.take(n + 1).drop_last() == digits.take(n));
        assert(is_digit(digits[n]));
    }
}

/// Reads `text` as a 16-bit number in decimal, with an optional plus sign in front.
pub fn parse_u16(text: &str) -> (number: Option<u16>)
    ensures
        number == parsed_u16(text@),
{
    let chars = characters(text);
    let start: usize = if chars.len() > 0 && chars[0] == '+' {
        1
    } else {
        0
    };
    let ghost digits = chars@.skip(start as int);
    assert(digits == without_plus(text@));
    if start == chars.len() {
        return None;
    }
    let mut value: u32 = 0;
    let mut i: usize = start;
    while i < chars.len()
        invariant
            start <= i <= chars.len(),
            start <= 1,
            start < chars.len(),
            digits == chars@.skip(start as int),
            digits == without_plus(text@),
            all_digits(digits.take(i - start)),
            value == digits_value(digits.take(i - start)),
            value <= u16::MAX,
        decreases chars.len() - i,
    {
        let c = chars[i];
        assert(c == digits[i - start]);
        if c < '0' || c > '9' {
            return None;
        }
        assert(digits.take(i - start + 1).drop_last() == digits.take(i - start));
        assert(digits.take(i - start + 1) == digits.take(i - start).push(c));
        value = 10 * value + (c as u32 - '0' as u32);
        assert(value == digits_value(digits.take(i - start + 1)));
        if value > 65535 {
            proof {
                if all_digits(digits) {
                    lemma_prefix_value(digits, i - start + 1);
                }
            }
            return None;
        }
        i = i + 1;
    }
    assert(digits.take(i - start) == digits);
    Some(value as u16)
}

/// Whether `c` is white space.
fn white_space(c: char) -> (yes: bool)
    ensures
        yes == is_white_space(c),
{
    let n: u32 = c as u32;
    (0x09 <= n && n <= 0x0D) || n == 0x20 || n == 0x85 || n == 0xA0 || n == 0x1680 || (0x2000 <= n
        && n <= 0x200A) || n == 0x2028 || n == 0x2029 || n == 0x202F || n == 0x205F || n == 0x3000
}

/// `text` without the white space at either end.
pub fn trim(text: &str) -> (result: String)
    ensures
        result@ == trimmed(text@),
{
    let chars = characters(text);
    let mut from: usize = 0;
    assert(chars@.skip(0) == text@);
    while from < chars.len() && white_space(chars[from])
        invariant
            chars@ == text@,
            from <= chars.len(),
            trim_start(text@) == trim_start(chars@.skip(from as int)),
        decreases chars.len() - from,
    {
        assert(chars@.skip(from as int).skip(1) == chars@.skip(from + 1));
        from = from + 1;
    }
    let ghost rest = chars@.skip(from as int);
    assert(rest == trim_start(text@));
    let mut to: usize = chars.len();
    assert(chars@.subrange(from as int, to as int) == rest);
    while from < to && white_space(chars[to - 1])
        invariant
            from <= to <= chars.len(),
            trim_end(rest) == trim_end(chars@.subrange(from as int, to as int)),
        decreases to,
    {
        assert(chars@.subrange(from as int, to as int).drop_last() == chars@.subrange(
            from as int,
            to - 1,
        ));
        to = to - 1;
    }
    text.substring_char(from, to).to_owned()
}

/// What follows `prefix` in `text`, if `text` starts with it.
pub fn strip_prefix<'a>(text: &'a str, prefix: &str) -> (rest: Option<&'a str>)
    ensures
        match rest {
            Some(rest) => text@ == prefix@ + rest@,
            None => !prefix@.is_prefix_of(text@),
        },
{
    let total: usize = text.unicode_len();
    let length: usize = prefix.unicode_len();
    if length > total {
        return None;
    }
    let mut i: usize = 0;
    while i < length
        invariant
            i <= length <= total,
            length == prefix@.len(),
            total == text@.len(),
            forall|k: int| 0 <= k < i ==> text@[k] == prefix@[k],
        decreases length - i,
    {
        if text.get_char(i) != prefix.get_char(i) {
            return None;
        }
        i = i + 1;
    }
    let rest = text.substring_char(length, total);
    assert(text@ == prefix@ + rest@);
    Some(rest)
}

/// A decimal number read back is the number that was written.
pub proof fn law_decimal_reads_back(n: u16)
    ensures
        parsed_u16(decimal(n as nat)) == Some(n),
{
    lemma_decimal_digits(n as nat);
    assert(decimal(n as nat)[0] != '+');
}

/// A number in decimal is made of digits, at least one, that stand for the number.
pub proof fn lemma_decimal_digits(n: nat)
    ensures
        decimal(n).len() > 0,
        all_digits(decimal(n)),
        digits_value(decimal(n)) == n,
    decreases n,
{
    if n < 10 {
        assert(seq![digit_char(n)].drop_last() == Seq::<char>::empty());
        assert(digits_value(Seq::<char>::empty()) == 0);
    } else {
        lemma_decimal_digits(n / 10);
        assert(decimal(n).drop_last() == decimal(n / 10));
    }
}

/// Different numbers are written differently.
pub proof fn law_decimal_is_injective(m: u16, n: u16)
    requires
        decimal(m as nat) == decimal(n as nat),
    ensures
        m == n,
{
    law_decimal_reads_back(m);
    law_decimal_reads_back(n);
}

/// Trimming takes away white space at both ends and nothing else: what is left stands between white
/// space, and neither begins nor ends with any.
pub proof fn law_trimming_takes_only_white_space_at_the_ends(text: Seq<char>)
    ensures
        exists|from: int, to: int|
            {
                &&& 0 <= from <= to <= text.len()
                &&& trimmed(text) == #[trigger] text.subrange(from, to)
                &&& forall|i: int|
                    0 <= i < from || to <= i < text.len() ==> is_white_space(#[trigger] text[i])
                &&& from < to ==> !is_white_space(text[from]) && !is_white_space(text[to - 1])
            },
{
    let from = lemma_trim_start(text);
    let rest = text.skip(from);
    let length = lemma_trim_end(rest);
    let to = from + length;
    assert(rest.take(length) =~= text.subrange(from, to));
    assert forall|i: int| 0 <= i < from || to <= i < text.len() implies is_white_space(
        #[trigger] text[i],
    ) by {
        if i >= to {
            assert(rest[i - from] == text[i]);
        }
    }
    if from < to {
        assert(rest[0] == text[from]);
        assert(rest[length - 1] == text[to - 1]);
    }
}

proof fn lemma_trim_start(text: Seq<char>) -> (from: int)
    ensures
        0 <= from <= text.len(),
        trim_start(text) == text.skip(from),
        forall|i: int| 0 <= i < from ==> is_white_space(#[trigger] text[i]),
        from < text.len() ==> !is_white_space(text[from]),
    decreases text.len(),
{
    if text.len() > 0 && is_white_space(text[0]) {
        let rest = text.skip(1);
        let later = lemma_trim_start(rest);
        assert(rest.skip(later) =~= text.skip(later + 1));
        assert forall|i: int| 0 <= i < later + 1 implies is_white_space(#[trigger] text[i]) by {
            if i > 0 {
                assert(rest[i - 1] == text[i]);
            }
        }
        if later + 1 < text.len() {
            assert(rest[later] == text[later + 1]);
        }
        later + 1
    } else {
        assert(text.skip(0) =~= text);
        0
    }
}

proof fn lemma_trim_end(text: Seq<char>) -> (length: int)
    ensures
        0 <= length <= text.len(),
        trim_end(text) == text.take(length),
        forall|i: int| length <= i < text.len() ==> is_white_space(#[trigger] text[i]),
        length > 0 ==> !is_white_space(text[length - 1]),
        text.len() > 0 && !is_white_space(text[0]) ==> length > 0,
    decreases text.len(),
{
    if text.len() > 0 && is_white_space(text.last()) {
        let front = text.drop_last();
        let length = lemma_trim_end(front);
        assert(front.take(length) =~= text.take(length));
        assert forall|i: int| length <= i < text.len() implies is_white_space(#[trigger] text[i]) by {
            if i < front.len() {
                assert(front[i] == text[i]);
            }
        }
        if length > 0 {
            assert(front[length - 1] == text[length - 1]);
        }
        length
    } else {
        assert(text.take(text.len() as int) =~= text);
        text.len() as int
    }
}

/// The value of a digit.
pub open spec fn digit_value(c: char) -> int {
    c as int - '0' as int
}

/// A number is read digit by digit: one digit more makes it ten times as large and adds the digit,
/// and a number that does not fit is none.
pub proof fn law_numbers_are_read_digit_by_digit(digits: Seq<char>, c: char)
    requires
        digits.len() > 0,
        forall|i: int| 0 <= i < digits.len() ==> '0' <= #[trigger] digits[i] <= '9',
        '0' <= c <= '9',
    ensures
        parsed_u16(seq![c]) == Some(digit_value(c) as u16),
        parsed_u16(digits.push(c)) == match parsed_u16(digits) {
            Some(n) => if 10 * n + digit_value(c) <= 65535 {
                Some((10 * n + digit_value(c)) as u16)
            } else {
                None
            },
            None => None,
        },
{
    assert(digits.push(c).drop_last() == digits);
    assert(digits.push(c)[0] == digits[0]);
    assert(seq![c].drop_last() == Seq::<char>::empty());
    assert(digits_value(Seq::<char>::empty()) == 0);
    assert(all_digits(digits));
    assert(all_digits(digits.push(c)));
    assert(all_digits(seq![c]));
}

/// A text with anything but digits behind an optional plus sign is no number, and neither is one
/// without digits.
pub proof fn law_only_digits_are_numbers(text: Seq<char>, i: int)
    requires
        0 <= i < text.len() ==> !('0' <= text[i] <= '9') && (i > 0 || text[0] != '+'),
        text.len() == 0 || 0 <= i < text.len() || text == seq!['+'],
    ensures
        parsed_u16(text) is None,
{
    if 0 <= i < text.len() {
        let rest = without_plus(text);
        if rest != text {
            assert(rest[i - 1] == text[i]);
        }
    }
}

} // verus!

//! Text over `Seq<char>`: comparison, decimal numbers, trimming and joining.

use vstd::prelude::*;

verus! {

/// Append one character with `String::push`: the text grows by exactly that
/// character, at its end.
#[verifier::external_body]
pub(crate) fn push_char(text: &mut String, c: char)
    ensures
        final(text)@ == old(text)@.push(c),
{
    text.push(c);
}

/// The characters of a text, in order.
pub fn chars_of(text: &str) -> (chars: Vec<char>)
    ensures
        chars@ == text@,
{
    let mut chars: Vec<char> = Vec::new();
    for c in iter: text.chars()
        invariant
            chars@ == iter.seq().take(iter.index() as int),
            iter.seq() == text@,
    {
        chars.push(c);
    }
    assert(chars@ =~= text@);
    chars
}

/// The text made of the characters `from..to`.
pub fn text_of(chars: &[char], from: usize, to: usize) -> (text: String)
    requires
        from <= to <= chars@.len(),
    ensures
        text@ == chars@.subrange(from as int, to as int),
{
    let mut text = String::new();
    let mut i: usize = from;
    while i < to
        invariant
            from <= i <= to <= chars@.len(),
            text@ == chars@.subrange(from as int, i as int),
        decreases to - i,
    {
        push_char(&mut text, chars[i]);
        i = i + 1;
        assert(text@ =~= chars@.subrange(from as int, i as int));
    }
    text
}

/// Whether two texts hold the same characters.
pub fn same(a: &str, b: &str) -> (r: bool)
    ensures
        r == (a@ == b@),
{
    let left = chars_of(a);
    let right = chars_of(b);
    if left.len() != right.len() {
        return false;
    }
    let mut i: usize = 0;
    while i < left.len()
        invariant
            i <= left@.len(),
            left@ == a@,
            right@ == b@,
            left@.len() == right@.len(),
            forall|j: int| 0 <= j < i ==> left@[j] == right@[j],
        decreases left@.len() - i,
    {
        if left[i] != right[i] {
            return false;
        }
        i = i + 1;
    }
    assert(a@ =~= b@);
    true
}

/// The character of one decimal digit.
pub open spec fn digit_char(d: int) -> char {
    (('0' as int) + d) as char
}

/// Whether a character is an ASCII digit.
pub open spec fn is_digit(c: char) -> bool {
    '0' <= c <= '9'
}

/// The value of an ASCII digit.
pub open spec fn digit_value(c: char) -> int {
    c as int - '0' as int
}

/// The decimal text of a natural number, without leading zeros.
pub open spec fn decimal_text(n: nat) -> Seq<char>
    decreases n,
{
    if n < 10 {
        seq![digit_char(n as int)]
    } else {
        decimal_text(n / 10).push(digit_char((n % 10) as int))
    }
}

/// The decimal text of an integer: a minus sign in front of a negative one.
pub open spec fn int_text(n: int) -> Seq<char> {
    if n < 0 {
        seq!['-'] + decimal_text((-n) as nat)
    } else {
        decimal_text(n as nat)
    }
}

/// Whether every character is an ASCII digit.
pub open spec fn all_digits(s: Seq<char>) -> bool {
    forall|i: int| 0 <= i < s.len() ==> is_digit(#[trigger] s[i])
}

/// The number that a sequence of digits denotes.
pub open spec fn digits_value(s: Seq<char>) -> nat
    decreases s.len(),
{
    if s.len() == 0 {
        0
    } else {
        digits_value(s.drop_last()) * 10 + digit_value(s.last()) as nat
    }
}

/// The digits of an optional-sign number text: the text without one leading `+`.
pub open spec fn unsigned_digits(s: Seq<char>) -> Seq<char> {
    if s.len() > 0 && s[0] == '+' {
        s.skip(1)
    } else {
        s
    }
}

/// What `u64` number a text denotes, if any: an optional `+`, then at least one
/// digit, within range.
pub open spec fn u64_of(s: Seq<char>) -> Option<u64> {
    let digits = unsigned_digits(s);
    if digits.len() > 0 && all_digits(digits) && digits_value(digits) <= u64::MAX {
        Some(digits_value(digits) as u64)
    } else {
        None
    }
}

/// What `i64` number a text denotes, if any: an optional `+` or `-`, then at
/// least one digit, within range.
pub open spec fn i64_of(s: Seq<char>) -> Option<i64> {
    if s.len() > 0 && s[0] == '-' {
        let digits = s.skip(1);
        if digits.len() > 0 && all_digits(digits) && -digits_value(digits) >= i64::MIN {
            Some((-digits_value(digits)) as i64)
        } else {
            None
        }
    } else {
        let digits = unsigned_digits(s);
        if digits.len() > 0 && all_digits(digits) && digits_value(digits) <= i64::MAX {
            Some(digits_value(digits) as i64)
        } else {
            None
        }
    }
}

/// The digit character of a value below ten.
fn digit(d: u64) -> (c: char)
    requires
        d < 10,
    ensures
        c == digit_char(d as int),
{
    (48u8 + d as u8) as char
}

/// Append the decimal text of a number.
fn push_decimal(text: &mut String, n: u64)
    ensures
        final(text)@ == old(text)@ + decimal_text(n as nat),
    decreases n,
{
    if n >= 10 {
        push_decimal(text, n / 10);
    }
    push_char(text, digit(n % 10));
    proof {
        assert(final(text)@ =~= old(text)@ + decimal_text(n as nat));
    }
}

/// The decimal text of a number.
pub fn decimal(n: u64) -> (text: String)
    ensures
        text@ == decimal_text(n as nat),
{
    let mut text = String::new();
    push_decimal(&mut text, n);
    assert(text@ =~= decimal_text(n as nat));
    text
}

/// The decimal text of a signed number.
pub fn signed_decimal(n: i64) -> (text: String)
    ensures
        text@ == int_text(n as int),
{
    if n >= 0 {
        return decimal(n as u64);
    }
    let mut text = String::new();
    push_char(&mut text, '-');
    let magnitude: u64 = if n == i64::MIN {
        0x8000_0000_0000_0000
    } else {
        (-n) as u64
    };
    push_decimal(&mut text, magnitude);
    assert(text@ =~= int_text(n as int));
    text
}

/// The value of a number's digits does not shrink as digits are added.
pub proof fn lemma_digits_value_grows(s: Seq<char>, n: int)
    requires
        all_digits(s),
        0 <= n <= s.len(),
    ensures
        digits_value(s.take(n)) <= digits_value(s),
    decreases s.len() - n,
{
    if n < s.len() {
        lemma_digits_value_grows(s, n + 1);
        assert(s.take(n + 1).drop_last() =~= s.take(n));
        assert(is_digit(s[n]));
    } else {
        assert(s.take(n) =~= s);
    }
}

/// Read the digits `from..`, or `None` when one is no digit or the number
/// exceeds `limit`.
pub fn parse_digits(chars: &[char], from: usize, limit: u64) -> (value: Option<u64>)
    requires
        from <= chars@.len(),
    ensures
        value == (if from < chars@.len() && all_digits(chars@.skip(from as int)) && digits_value(
            chars@.skip(from as int),
        ) <= limit {
            Some(digits_value(chars@.skip(from as int)) as u64)
        } else {
            None
        }),
{
    if from >= chars.len() {
        return None;
    }
    let ghost tail = chars@.skip(from as int);
    let mut value: u64 = 0;
    let mut i: usize = from;
    while i < chars.len()
        invariant
            from <= i <= chars@.len(),
            tail == chars@.skip(from as int),
            forall|j: int| 0 <= j < i - from ==> is_digit(#[trigger] tail[j]),
            value == digits_value(tail.take(i - from)),
            value <= limit,
        decreases chars@.len() - i,
    {
        let c = chars[i];
        assert(tail[i - from] == c);
        if !('0' <= c && c <= '9') {
            return None;
        }
        let d: u64 = (c as u32 - 48) as u64;
        proof {
            assert(tail.take(i - from + 1).drop_last() =~= tail.take(i - from));
            assert(tail.take(i - from + 1).last() == c);
        }
        let next: Option<u64> = match value.checked_mul(10) {
            Some(tens) => tens.checked_add(d),
            None => None,
        };
        match next {
            Some(n) if n <= limit => {
                value = n;
            },
            _ => {
                proof {
                    assert(digits_value(tail.take(i - from + 1)) > limit);
                    if all_digits(tail) {
                        lemma_digits_value_grows(tail, i - from + 1);
                    }
                }
                return None;
            },
        }
        i = i + 1;
    }
    assert(tail.take(i - from) =~= tail);
    Some(value)
}

/// Read a `u64`: an optional `+`, then digits.
pub fn parse_u64(text: &str) -> (value: Option<u64>)
    ensures
        value == u64_of(text@),
{
    let chars = chars_of(text);
    let from: usize = if chars.len() > 0 && chars[0] == '+' {
        1
    } else {
        0
    };
    assert(chars@.skip(from as int) =~= unsigned_digits(text@));
    parse_digits(&chars, from, u64::MAX)
}

/// Read an `i64`: an optional `+` or `-`, then digits.
pub fn parse_i64(text: &str) -> (value: Option<i64>)
    ensures
        value == i64_of(text@),
{
    let chars = chars_of(text);
    if chars.len() > 0 && chars[0] == '-' {
        return match parse_digits(&chars, 1, 0x8000_0000_0000_0000) {
            Some(n) => if n == 0x8000_0000_0000_0000 {
                Some(i64::MIN)
            } else {
                Some(-(n as i64))
            },
            None => None,
        };
    }
    let from: usize = if chars.len() > 0 && chars[0] == '+' {
        1
    } else {
        0
    };
    assert(chars@.skip(from as int) =~= unsigned_digits(text@));
    match parse_digits(&chars, from, 0x7fff_ffff_ffff_ffff) {
        Some(n) => Some(n as i64),
        None => None,
    }
}

/// A decimal text is not empty, holds only digits, and denotes its number.
pub proof fn lemma_decimal_denotes(n: nat)
    ensures
        decimal_text(n).len() > 0,
        all_digits(decimal_text(n)),
        digits_value(decimal_text(n)) == n,
    decreases n,
{
    if n < 10 {
        let s = decimal_text(n);
        assert(s.drop_last() =~= Seq::<char>::empty());
        assert(digits_value(s.drop_last()) == 0);
        assert(s.last() == digit_char(n as int));
    } else {
        lemma_decimal_denotes(n / 10);
        let s = decimal_text(n);
        assert(s.drop_last() =~= decimal_text(n / 10));
        assert(s.last() == digit_char((n % 10) as int));
    }
}

/// Whether a character is white space (the Unicode `White_Space` property).
pub open spec fn is_space(c: char) -> bool {
    let n = c as int;
    ||| 0x09 <= n <= 0x0d
    ||| n == 0x20
    ||| n == 0x85
    ||| n == 0xa0
    ||| n == 0x1680
    ||| 0x2000 <= n <= 0x200a
    ||| n == 0x2028
    ||| n == 0x2029
    ||| n == 0x202f
    ||| n == 0x205f
    ||| n == 0x3000
}

/// Whether a text holds nothing but white space.
pub open spec fn is_blank(s: Seq<char>) -> bool {
    forall|i: int| 0 <= i < s.len() ==> is_space(#[trigger] s[i])
}

/// A text without the white space at its end.
pub open spec fn trimmed_end(s: Seq<char>) -> Seq<char>
    decreases s.len(),
{
    if s.len() > 0 && is_space(s.last()) {
        trimmed_end(s.drop_last())
    } else {
        s
    }
}

/// A text without the white space at its start.
pub open spec fn trimmed_start(s: Seq<char>) -> Seq<char>
    decreases s.len(),
{
    if s.len() > 0 && is_space(s[0]) {
        trimmed_start(s.skip(1))
    } else {
        s
    }
}

/// A text without the white space at its start and at its end.
pub open spec fn trimmed(s: Seq<char>) -> Seq<char> {
    trimmed_end(trimmed_start(s))
}

/// Whether a character is white space.
pub fn space(c: char) -> (r: bool)
    ensures
        r == is_space(c),
{
    let n = c as u32;
    (0x09 <= n && n <= 0x0d) || n == 0x20 || n == 0x85 || n == 0xa0 || n == 0x1680 || (0x2000 <= n
        && n <= 0x200a) || n == 0x2028 || n == 0x2029 || n == 0x202f || n == 0x205f || n == 0x3000
}

/// Whether a text holds nothing but white space.
pub fn blank(text: &str) -> (r: bool)
    ensures
        r == is_blank(text@),
{
    let chars = chars_of(text);
    let mut i: usize = 0;
    while i < chars.len()
        invariant
            i <= chars@.len(),
            chars@ == text@,
            forall|j: int| 0 <= j < i ==> is_space(#[trigger] text@[j]),
        decreases chars@.len() - i,
    {
        if !space(chars[i]) {
            assert(!is_space(text@[i as int]));
            return false;
        }
        i = i + 1;
    }
    true
}

/// A text without the white space at its start and at its end.
pub fn trim(text: &str) -> (r: String)
    ensures
        r@ == trimmed(text@),
{
    let chars = chars_of(text);
    let mut from: usize = 0;
    assert(text@.skip(0) =~= text@);
    while from < chars.len() && space(chars[from])
        invariant
            from <= chars@.len(),
            chars@ == text@,
            trimmed_start(text@) == trimmed_start(text@.skip(from as int)),
        decreases chars@.len() - from,
    {
        proof {
            assert(text@.skip(from as int)[0] == text@[from as int]);
            assert(text@.skip(from as int).skip(1) =~= text@.skip(from as int + 1));
        }
        from = from + 1;
    }
    proof {
        assert(trimmed_start(text@) == text@.skip(from as int));
    }
    let ghost tail = text@.skip(from as int);
    let mut to: usize = chars.len();
    while from < to && space(chars[to - 1])
        invariant
            from <= to <= chars@.len(),
            chars@ == text@,
            tail == text@.skip(from as int),
            trimmed_end(tail) == trimmed_end(text@.subrange(from as int, to as int)),
        decreases to - from,
    {
        proof {
            let kept = text@.subrange(from as int, to as int);
            assert(kept.last() == text@[to - 1]);
            assert(kept.drop_last() =~= text@.subrange(from as int, to - 1));
        }
        to = to - 1;
    }
    proof {
        if to == chars@.len() {
            assert(text@.subrange(from as int, to as int) =~= tail);
        }
        let kept = text@.subrange(from as int, to as int);
        assert(trimmed_end(kept) == kept);
    }
    text_of(&chars, from, to)
}

/// Whether a text starts with a character.
pub open spec fn begins(s: Seq<char>, c: char) -> bool {
    s.len() > 0 && s[0] == c
}

/// Whether a text starts with a character.
pub fn starts_with(text: &str, c: char) -> (r: bool)
    ensures
        r == begins(text@, c),
{
    if text.is_empty() {
        false
    } else {
        text.get_char(0) == c
    }
}

/// Whether a text holds a character.
pub fn holds_char(text: &str, c: char) -> (r: bool)
    ensures
        r == text@.contains(c),
{
    let chars = chars_of(text);
    let mut i: usize = 0;
    while i < chars.len()
        invariant
            i <= chars@.len(),
            chars@ == text@,
            forall|j: int| 0 <= j < i ==> chars@[j] != c,
        decreases chars@.len() - i,
    {
        if chars[i] == c {
            assert(text@[i as int] == c);
            return true;
        }
        i = i + 1;
    }
    false
}

/// Whether `part` occurs in `s` as consecutive characters.
pub open spec fn occurs(s: Seq<char>, part: Seq<char>) -> bool {
    exists|i: int|
        0 <= i <= s.len() - part.len() && #[trigger] s.subrange(i, i + part.len()) == part
}

/// Whether `part` occurs in `text` as consecutive characters.
pub fn holds(text: &str, part: &str) -> (r: bool)
    ensures
        r == occurs(text@, part@),
{
    let chars = chars_of(text);
    let wanted = chars_of(part);
    if wanted.len() > chars.len() {
        return false;
    }
    if wanted.len() == 0 {
        assert(text@.subrange(0, 0int + part@.len()) =~= part@);
        return true;
    }
    let mut i: usize = 0;
    while i <= chars.len() - wanted.len()
        invariant
            i <= chars.len() - wanted.len() + 1,
            0 < wanted.len() <= chars.len(),
            chars@ == text@,
            wanted@ == part@,
            forall|k: int| 0 <= k < i ==> #[trigger] text@.subrange(k, k + part@.len()) != part@,
        decreases chars@.len() - wanted@.len() + 1 - i,
    {
        let mut j: usize = 0;
        while j < wanted.len() && chars[i + j] == wanted[j]
            invariant
                j <= wanted@.len(),
                i + wanted.len() <= chars.len(),
                forall|k: int| 0 <= k < j ==> chars@[i + k] == wanted@[k],
            decreases wanted@.len() - j,
        {
            j = j + 1;
        }
        let ghost window = text@.subrange(i as int, i + part@.len());
        if j == wanted.len() {
            assert(window =~= part@);
            return true;
        }
        assert(window[j as int] != part@[j as int]);
        i = i + 1;
    }
    false
}

/// The texts of a sequence of strings.
pub open spec fn texts(v: Seq<String>) -> Seq<Seq<char>> {
    v.map_values(|s: String| s@)
}

/// Texts joined with a separator between each two.
pub open spec fn joined(parts: Seq<Seq<char>>, separator: Seq<char>) -> Seq<char>
    decreases parts.len(),
{
    if parts.len() == 0 {
        Seq::empty()
    } else if parts.len() == 1 {
        parts[0]
    } else {
        joined(parts.drop_last(), separator) + separator + parts.last()
    }
}

/// Join texts with a separator between each two.
pub fn join(parts: &Vec<String>, separator: &str) -> (text: String)
    ensures
        text@ == joined(texts(parts@), separator@),
{
    let mut text = String::new();
    let mut i: usize = 0;
    while i < parts.len()
        invariant
            i <= parts@.len(),
            text@ == joined(texts(parts@.take(i as int)), separator@),
        decreases parts@.len() - i,
    {
        if i > 0 {
            text.append(separator);
        }
        text.append(parts[i].as_str());
        proof {
            let next = texts(parts@.take(i as int + 1));
            assert(next.drop_last() =~= texts(parts@.take(i as int)));
            assert(next.last() == parts@[i as int]@);
            if i == 0 {
                assert(text@ =~= next[0]);
            }
        }
        i = i + 1;
    }
    assert(parts@.take(i as int) =~= parts@);
    text
}

/// Whether one of the strings has this text.
pub open spec fn lists(v: Seq<String>, s: Seq<char>) -> bool {
    exists|i: int| 0 <= i < v.len() && #[trigger] v[i]@ == s
}

/// Whether one of the strings has this text.
pub fn listed(v: &Vec<String>, text: &str) -> (r: bool)
    ensures
        r == lists(v@, text@),
{
    let mut i: usize = 0;
    while i < v.len()
        invariant
            i <= v@.len(),
            forall|j: int| 0 <= j < i ==> #[trigger] v@[j]@ != text@,
        decreases v@.len() - i,
    {
        if same(v[i].as_str(), text) {
            return true;
        }
        i = i + 1;
    }
    false
}

/// Whether a result is the one that was meant: the same value, or an error with
/// the same text.
pub open spec fn told<T>(r: Result<T, String>, meant: Result<T, Seq<char>>) -> bool {
    match (r, meant) {
        (Ok(a), Ok(b)) => a == b,
        (Err(e), Err(t)) => e@ == t,
        _ => false,
    }
}

/// The index of the first such character.
pub open spec fn first_index(s: Seq<char>, c: char) -> Option<int>
    decreases s.len(),
{
    if s.len() == 0 {
        None
    } else {
        match first_index(s.drop_last(), c) {
            Some(i) => Some(i),
            None => if s.last() == c {
                Some(s.len() - 1)
            } else {
                None
            },
        }
    }
}

/// `first_index` finds the character, and none before it.
pub proof fn lemma_first_index(s: Seq<char>, c: char)
    ensures
        match first_index(s, c) {
            Some(i) => 0 <= i < s.len() && s[i] == c && !s.take(i).contains(c),
            None => !s.contains(c),
        },
    decreases s.len(),
{
    if s.len() > 0 {
        let rest = s.drop_last();
        lemma_first_index(rest, c);
        match first_index(rest, c) {
            Some(i) => {
                assert(rest.take(i) =~= s.take(i));
            },
            None => {
                assert(s.take(s.len() - 1) =~= rest);
                if s.contains(c) {
                    let k = choose|k: int| 0 <= k < s.len() && s[k] == c;
                    if k < s.len() - 1 {
                        assert(rest[k] == c);
                    }
                }
            },
        }
    }
}

/// The first index of a character, where no earlier one is that character.
pub proof fn lemma_first_index_is(s: Seq<char>, c: char, i: int)
    requires
        0 <= i < s.len(),
        s[i] == c,
        !s.take(i).contains(c),
    ensures
        first_index(s, c) == Some(i),
{
    lemma_first_index(s, c);
    assert(s.contains(c));
    let j = first_index(s, c)->0;
    if j < i {
        assert(s.take(i)[j] == c);
    } else if i < j {
        assert(s.take(j)[i] == c);
    }
}

/// The index of the first such character.
pub fn find_char(chars: &[char], c: char) -> (index: Option<usize>)
    ensures
        match (index, first_index(chars@, c)) {
            (Some(i), Some(j)) => i == j && i < chars@.len(),
            (None, None) => true,
            _ => false,
        },
{
    let mut i: usize = 0;
    while i < chars.len()
        invariant
            i <= chars@.len(),
            first_index(chars@.take(i as int), c) is None,
            !chars@.take(i as int).contains(c),
        decreases chars@.len() - i,
    {
        if chars[i] == c {
            proof {
                lemma_first_index_is(chars@, c, i as int);
            }
            return Some(i);
        }
        proof {
            let next = chars@.take(i as int + 1);
            assert(next.drop_last() =~= chars@.take(i as int));
            lemma_first_index(next, c);
        }
        i = i + 1;
    }
    assert(chars@.take(i as int) =~= chars@);
    None
}

/// The parts of a text between separators. There is always at least one.
pub open spec fn split_on(s: Seq<char>, separator: char) -> Seq<Seq<char>>
    decreases s.len(),
{
    if s.len() == 0 {
        seq![Seq::empty()]
    } else {
        let before = split_on(s.drop_last(), separator);
        if s.last() == separator {
            before.push(Seq::empty())
        } else {
            before.drop_last().push(before.last().push(s.last()))
        }
    }
}

pub proof fn lemma_split_is_not_empty(s: Seq<char>, separator: char)
    ensures
        split_on(s, separator).len() > 0,
    decreases s.len(),
{
    if s.len() > 0 {
        lemma_split_is_not_empty(s.drop_last(), separator);
    }
}

/// A text without a separator is its own only part.
pub proof fn lemma_split_whole(s: Seq<char>, separator: char)
    requires
        !s.contains(separator),
    ensures
        split_on(s, separator) == seq![s],
    decreases s.len(),
{
    if s.len() > 0 {
        let rest = s.drop_last();
        assert(s[s.len() - 1] != separator);
        assert forall|i: int| 0 <= i < rest.len() implies rest[i] != separator by {
            assert(s[i] == rest[i]);
        }
        lemma_split_whole(rest, separator);
        assert(split_on(s, separator) =~= seq![s]) by {
            assert(rest.push(s.last()) =~= s);
        }
    } else {
        assert(s =~= Seq::<char>::empty());
        assert(split_on(s, separator) =~= seq![s]);
    }
}

/// A part without separators behind a separator is the last part.
pub proof fn lemma_split_last(before: Seq<char>, separator: char, part: Seq<char>)
    requires
        !part.contains(separator),
    ensures
        split_on(before.push(separator) + part, separator) == split_on(before, separator).push(
            part,
        ),
    decreases part.len(),
{
    let s = before.push(separator) + part;
    lemma_split_is_not_empty(before, separator);
    if part.len() == 0 {
        assert(part =~= Seq::<char>::empty());
        assert(s.drop_last() =~= before);
        assert(split_on(s, separator) =~= split_on(before, separator).push(part));
    } else {
        let shorter = part.drop_last();
        assert(part[part.len() - 1] != separator);
        assert forall|i: int| 0 <= i < shorter.len() implies shorter[i] != separator by {
            assert(part[i] == shorter[i]);
        }
        lemma_split_last(before, separator, shorter);
        assert(s.drop_last() =~= before.push(separator) + shorter);
        assert(shorter.push(part.last()) =~= part);
        assert(split_on(s, separator) =~= split_on(before, separator).push(part));
    }
}

/// The characters of a sequence of parts.
pub open spec fn part_views(parts: Seq<Vec<char>>) -> Seq<Seq<char>> {
    parts.map_values(|p: Vec<char>| p@)
}

/// Split the characters `from..to` at each separator.
pub fn split_chars(chars: &[char], from: usize, to: usize, separator: char) -> (parts: Vec<
    Vec<char>,
>)
    requires
        from <= to <= chars@.len(),
    ensures
        part_views(parts@) == split_on(chars@.subrange(from as int, to as int), separator),
        parts@.len() > 0,
{
    let mut parts: Vec<Vec<char>> = Vec::new();
    let mut current: Vec<char> = Vec::new();
    let mut i: usize = from;
    proof {
        assert(chars@.subrange(from as int, from as int) =~= Seq::<char>::empty());
        assert(part_views(parts@).push(current@) =~= split_on(
            chars@.subrange(from as int, i as int),
            separator,
        ));
    }
    while i < to
        invariant
            from <= i <= to <= chars@.len(),
            part_views(parts@).push(current@) == split_on(
                chars@.subrange(from as int, i as int),
                separator,
            ),
        decreases to - i,
    {
        let c = chars[i];
        let ghost now = chars@.subrange(from as int, i as int);
        let ghost next = chars@.subrange(from as int, i as int + 1);
        let ghost done = part_views(parts@);
        proof {
            assert(next.drop_last() =~= now);
            assert(next.last() == c);
            assert(done.push(current@).drop_last() =~= done);
        }
        if c == separator {
            let mut fresh: Vec<char> = Vec::new();
            let ghost finished = current@;
            core::mem::swap(&mut fresh, &mut current);
            parts.push(fresh);
            proof {
                assert(part_views(parts@) =~= done.push(finished));
                assert(part_views(parts@).push(current@) =~= split_on(next, separator));
            }
        } else {
            current.push(c);
            proof {
                assert(part_views(parts@).push(current@) =~= split_on(next, separator));
            }
        }
        i = i + 1;
    }
    let ghost done = part_views(parts@);
    let ghost finished = current@;
    parts.push(current);
    proof {
        assert(part_views(parts@) =~= done.push(finished));
    }
    parts
}

/// Whether a text comes before another, or is the same, character by character.
pub open spec fn text_le(a: Seq<char>, b: Seq<char>) -> bool
    decreases a.len(),
{
    if a.len() == 0 {
        true
    } else if b.len() == 0 {
        false
    } else if a[0] == b[0] {
        text_le(a.skip(1), b.skip(1))
    } else {
        a[0] < b[0]
    }
}

/// Whether a text comes before another, or is the same.
pub fn text_before(a: &str, b: &str) -> (r: bool)
    ensures
        r == text_le(a@, b@),
{
    let left = chars_of(a);
    let right = chars_of(b);
    let mut i: usize = 0;
    assert(a@.skip(0) =~= a@ && b@.skip(0) =~= b@);
    loop
        invariant
            left@ == a@,
            right@ == b@,
            i <= left@.len(),
            i <= right@.len(),
            text_le(a@, b@) == text_le(a@.skip(i as int), b@.skip(i as int)),
        decreases left@.len() - i,
    {
        if i == left.len() {
            return true;
        }
        if i == right.len() {
            return false;
        }
        proof {
            assert(a@.skip(i as int)[0] == left@[i as int]);
            assert(b@.skip(i as int)[0] == right@[i as int]);
            assert(a@.skip(i as int).skip(1) =~= a@.skip(i as int + 1));
            assert(b@.skip(i as int).skip(1) =~= b@.skip(i as int + 1));
        }
        if left[i] != right[i] {
            return left[i] < right[i];
        }
        i = i + 1;
    }
}

/// A line without the carriage return that ends it, where one does.
pub open spec fn without_return(line: Seq<char>) -> Seq<char> {
    if line.len() > 0 && line.last() == '\r' {
        line.drop_last()
    } else {
        line
    }
}

/// The lines of a text. Each but the last ends at a newline, with or without a carriage
/// return before it; what follows the last newline is a line where there is anything.
pub open spec fn text_lines(s: Seq<char>) -> Seq<Seq<char>> {
    let parts = split_on(s, '\n');
    let ended = parts.drop_last().map_values(|line: Seq<char>| without_return(line));
    if parts.last().len() == 0 {
        ended
    } else {
        ended.push(parts.last())
    }
}

/// The lines of a text.
pub fn lines(text: &str) -> (lines: Vec<String>)
    ensures
        texts(lines@) == text_lines(text@),
{
    let chars = chars_of(text);
    let parts = split_chars(&chars, 0, chars.len(), '\n');
    assert(chars@.subrange(0, chars@.len() as int) =~= text@);
    let ghost meant = split_on(text@, '\n');
    let mut lines: Vec<String> = Vec::new();
    let last: usize = parts.len() - 1;
    let mut i: usize = 0;
    while i < last
        invariant
            i <= last,
            last + 1 == parts@.len(),
            part_views(parts@) == meant,
            lines@.len() == i,
            forall|j: int| 0 <= j < i ==> (#[trigger] lines@[j])@ == without_return(meant[j]),
        decreases last - i,
    {
        let part = &parts[i];
        assert(part@ == meant[i as int]);
        let length: usize = part.len();
        let line = if length > 0 && part[length - 1] == '\r' {
            text_of(part, 0, length - 1)
        } else {
            text_of(part, 0, length)
        };
        assert(line@ =~= without_return(meant[i as int]));
        lines.push(line);
        i = i + 1;
    }
    let rest = &parts[last];
    assert(rest@ == meant[last as int]);
    if rest.len() > 0 {
        lines.push(text_of(rest, 0, rest.len()));
        assert(lines@.last()@ =~= meant.last());
    }
    assert(texts(lines@) =~= text_lines(text@));
    lines
}

/// Whether a text starts with another.
pub open spec fn leads(prefix: Seq<char>, text: Seq<char>) -> bool {
    prefix.len() <= text.len() && text.take(prefix.len() as int) == prefix
}

/// Whether a text starts with another.
pub fn has_prefix(text: &str, prefix: &str) -> (r: bool)
    ensures
        r == leads(prefix@, text@),
{
    let chars = chars_of(text);
    let wanted = chars_of(prefix);
    if wanted.len() > chars.len() {
        return false;
    }
    let mut i: usize = 0;
    while i < wanted.len()
        invariant
            i <= wanted@.len() <= chars@.len(),
            chars@ == text@,
            wanted@ == prefix@,
            forall|j: int| 0 <= j < i ==> chars@[j] == wanted@[j],
        decreases wanted@.len() - i,
    {
        if chars[i] != wanted[i] {
            assert(text@.take(prefix@.len() as int)[i as int] != prefix@[i as int]);
            return false;
        }
        i = i + 1;
    }
    assert(text@.take(prefix@.len() as int) =~= prefix@);
    true
}

proof fn lemma_trimmed_end(s: Seq<char>)
    ensures
        trimmed_end(s).len() <= s.len(),
        trimmed_end(s) == s.take(trimmed_end(s).len() as int),
        is_blank(s.skip(trimmed_end(s).len() as int)),
        trimmed_end(s).len() > 0 ==> !is_space(trimmed_end(s).last()),
    decreases s.len(),
{
    let kept = trimmed_end(s);
    if s.len() > 0 && is_space(s.last()) {
        lemma_trimmed_end(s.drop_last());
        assert(s.take(kept.len() as int) =~= s.drop_last().take(kept.len() as int));
        assert forall|i: int| 0 <= i < s.skip(kept.len() as int).len() implies is_space(
            #[trigger] s.skip(kept.len() as int)[i],
        ) by {
            if i < s.drop_last().skip(kept.len() as int).len() {
                assert(s.drop_last().skip(kept.len() as int)[i] == s.skip(kept.len() as int)[i]);
            }
        }
    } else {
        assert(s.take(s.len() as int) =~= s);
    }
}

proof fn lemma_trimmed_start(s: Seq<char>)
    ensures
        trimmed_start(s).len() <= s.len(),
        trimmed_start(s) == s.skip(s.len() - trimmed_start(s).len()),
        is_blank(s.take(s.len() - trimmed_start(s).len())),
        trimmed_start(s).len() > 0 ==> !is_space(trimmed_start(s)[0]),
    decreases s.len(),
{
    let kept = trimmed_start(s);
    if s.len() > 0 && is_space(s[0]) {
        lemma_trimmed_start(s.skip(1));
        let rest = s.skip(1);
        assert(s.skip(s.len() - kept.len()) =~= rest.skip(rest.len() - kept.len()));
        assert forall|i: int| 0 <= i < s.len() - kept.len() implies is_space(
            #[trigger] s.take(s.len() - kept.len())[i],
        ) by {
            if i > 0 {
                assert(rest.take(rest.len() - kept.len())[i - 1] == s[i]);
            }
        }
    } else {
        assert(s.skip(0) =~= s);
    }
}

/// What trimming takes away is white space before and behind, and nothing that is left starts or
/// ends with any.
pub proof fn law_trimming_takes_white_space_only(s: Seq<char>)
    ensures
        exists|at: int|
            0 <= at <= s.len() - trimmed(s).len() && trimmed(s) == s.subrange(
                at,
                at + trimmed(s).len(),
            ) && is_blank(#[trigger] s.take(at)) && is_blank(s.skip(at + trimmed(s).len())),
        trimmed(s).len() > 0 ==> !is_space(trimmed(s)[0]) && !is_space(trimmed(s).last()),
        is_blank(s) ==> trimmed(s).len() == 0,
{
    let started = trimmed_start(s);
    lemma_trimmed_start(s);
    lemma_trimmed_end(started);
    let at = s.len() - started.len();
    let kept = trimmed(s);
    assert(kept =~= s.subrange(at, at + kept.len()));
    assert(s.skip(at + kept.len()) =~= started.skip(kept.len() as int));
    assert(is_blank(s.take(at)));
    if kept.len() > 0 {
        assert(kept[0] == started[0]);
        assert(s[at] == kept[0]);
    }
}

proof fn lemma_joined_last(parts: Seq<Seq<char>>, separator: Seq<char>, more: Seq<char>)
    requires
        parts.len() > 0,
    ensures
        joined(parts.drop_last().push(parts.last() + more), separator) == joined(parts, separator)
            + more,
{
    let grown = parts.drop_last().push(parts.last() + more);
    assert(grown.drop_last() =~= parts.drop_last());
    assert(joined(grown, separator) =~= joined(parts, separator) + more);
}

/// The parts of a split text hold no separator, and joined with it they are the text again.
pub proof fn law_split_text_joins_again(s: Seq<char>, separator: char)
    ensures
        joined(split_on(s, separator), seq![separator]) == s,
        split_on(s, separator).len() > 0,
        forall|i: int, k: int|
            0 <= i < split_on(s, separator).len() && 0 <= k < split_on(s, separator)[i].len()
                ==> #[trigger] split_on(s, separator)[i][k] != separator,
    decreases s.len(),
{
    let now = split_on(s, separator);
    if s.len() == 0 {
        assert(joined(now, seq![separator]) =~= s);
    } else {
        let before = split_on(s.drop_last(), separator);
        law_split_text_joins_again(s.drop_last(), separator);
        assert(s =~= s.drop_last().push(s.last()));
        if s.last() == separator {
            assert(now.drop_last() =~= before);
            assert(joined(now, seq![separator]) =~= s);
        } else {
            assert(before.last().push(s.last()) =~= before.last() + seq![s.last()]);
            lemma_joined_last(before, seq![separator], seq![s.last()]);
            assert(s.drop_last() + seq![s.last()] =~= s);
        }
        assert forall|i: int, k: int|
            0 <= i < now.len() && 0 <= k < now[i].len() implies #[trigger] now[i][k]
            != separator by {
            if i < before.len() - 1 || (s.last() == separator && i < before.len()) {
                assert(now[i] == before[i]);
                assert(before[i][k] != separator);
            } else if s.last() != separator && k < before.last().len() {
                assert(before[before.len() - 1][k] != separator);
            }
        }
    }
}

/// Texts have one order: of two one comes first, and both do only where they are the same.
pub proof fn law_texts_have_one_order(a: Seq<char>, b: Seq<char>)
    ensures
        text_le(a, b) || text_le(b, a),
        text_le(a, b) && text_le(b, a) ==> a == b,
        text_le(a, a),
    decreases a.len() + b.len(),
{
    if a.len() > 0 && b.len() > 0 && a[0] == b[0] {
        law_texts_have_one_order(a.skip(1), b.skip(1));
        if text_le(a, b) && text_le(b, a) {
            assert(a =~= seq![a[0]] + a.skip(1));
            assert(b =~= seq![b[0]] + b.skip(1));
        }
    }
    if a.len() > 0 {
        law_texts_have_one_order(a.skip(1), Seq::empty());
    }
    if a.len() == 0 && b.len() == 0 {
        assert(a =~= b);
    }
}

/// Texts are ordered by the first character in which they differ, and a text comes before what it
/// begins.
pub proof fn law_texts_are_ordered_by_their_first_difference(
    common: Seq<char>,
    a: Seq<char>,
    b: Seq<char>,
)
    ensures
        text_le(common, common + a),
        a.len() > 0 && b.len() > 0 && a[0] < b[0] ==> text_le(common + a, common + b) && !text_le(
            common + b,
            common + a,
        ),
    decreases common.len(),
{
    if common.len() > 0 {
        law_texts_are_ordered_by_their_first_difference(common.skip(1), a, b);
        assert((common + a).skip(1) =~= common.skip(1) + a);
        assert((common + b).skip(1) =~= common.skip(1) + b);
    } else {
        assert(common + a =~= a);
        assert(common + b =~= b);
    }
}

/// A number that was written is read as itself.
pub proof fn law_written_number_reads_back(n: int)
    ensures
        0 <= n <= u64::MAX ==> u64_of(int_text(n)) == Some(n as u64),
        i64::MIN <= n <= i64::MAX ==> i64_of(int_text(n)) == Some(n as i64),
{
    let m: nat = if n < 0 {
        (-n) as nat
    } else {
        n as nat
    };
    lemma_decimal_denotes(m);
    let digits = decimal_text(m);
    assert(digits.len() > 0);
    assert(is_digit(digits[0]));
    if n < 0 {
        assert(int_text(n).skip(1) =~= digits);
    } else {
        assert(int_text(n) == digits);
    }
}

/// What comes before a text comes before whatever that text comes before.
pub proof fn law_text_order_goes_on(a: Seq<char>, b: Seq<char>, c: Seq<char>)
    requires
        text_le(a, b),
        text_le(b, c),
    ensures
        text_le(a, c),
    decreases a.len(),
{
    if a.len() > 0 && b.len() > 0 && c.len() > 0 && a[0] == b[0] && b[0] == c[0] {
        law_text_order_goes_on(a.skip(1), b.skip(1), c.skip(1));
    }
}

} // verus!

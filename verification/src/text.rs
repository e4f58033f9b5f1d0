//! Character-level building blocks: whitespace, trimming, splitting, whole-word
//! search and unsigned decimal numbers, each with its mathematical model over
//! `Seq<char>`.

use vstd::prelude::*;
use vstd::string::*;

verus! {

/// Whether `c` carries the Unicode `White_Space` property.
pub open spec fn is_whitespace(c: char) -> bool {
    let u = c as u32;
    ||| 0x09 <= u <= 0x0D
    ||| u == 0x20
    ||| u == 0x85
    ||| u == 0xA0
    ||| u == 0x1680
    ||| 0x2000 <= u <= 0x200A
    ||| u == 0x2028
    ||| u == 0x2029
    ||| u == 0x202F
    ||| u == 0x205F
    ||| u == 0x3000
}

/// Index of the first character at or after `from` that is not whitespace
/// (`s.len()` when there is none).
pub open spec fn skip_whitespace(s: Seq<char>, from: int) -> int
    decreases s.len() - from,
{
    if 0 <= from < s.len() && is_whitespace(s[from]) {
        skip_whitespace(s, from + 1)
    } else {
        from
    }
}

/// End of the text in `s[low..to]` once its trailing whitespace is dropped.
pub open spec fn skip_whitespace_back(s: Seq<char>, low: int, to: int) -> int
    decreases to - low,
{
    if low < to <= s.len() && is_whitespace(s[to - 1]) {
        skip_whitespace_back(s, low, to - 1)
    } else {
        to
    }
}

/// `s` without its leading and trailing whitespace.
pub open spec fn trimmed(s: Seq<char>) -> Seq<char> {
    let start = skip_whitespace(s, 0);
    s.subrange(start, skip_whitespace_back(s, start, s.len() as int))
}

/// Index of the first whitespace character at or after `from` (`s.len()` when
/// there is none).
pub open spec fn find_whitespace(s: Seq<char>, from: int) -> int
    decreases s.len() - from,
{
    if 0 <= from < s.len() && !is_whitespace(s[from]) {
        find_whitespace(s, from + 1)
    } else {
        from
    }
}

/// The part of `s` before its first whitespace character: all of `s` when it
/// holds none.
pub open spec fn head_word(s: Seq<char>) -> Seq<char> {
    s.subrange(0, find_whitespace(s, 0))
}

/// The part of `s` after its first whitespace character: empty when it holds
/// none.
pub open spec fn after_head_word(s: Seq<char>) -> Seq<char> {
    let cut = find_whitespace(s, 0);
    if cut < s.len() {
        s.subrange(cut + 1, s.len() as int)
    } else {
        Seq::empty()
    }
}

/// ASCII lower-casing; every other character is left alone.
pub open spec fn to_lower(c: char) -> char {
    if 'A' <= c <= 'Z' {
        ((c as u32) + 32) as char
    } else {
        c
    }
}

/// Characters that make up a word: ASCII letters, ASCII digits and `_`.
pub open spec fn is_word_char(c: char) -> bool {
    ||| 'a' <= c <= 'z'
    ||| 'A' <= c <= 'Z'
    ||| '0' <= c <= '9'
    ||| c == '_'
}

/// `token` is made of lower-case ASCII letters only.
pub open spec fn is_lower_token(token: Seq<char>) -> bool {
    forall|j: int| 0 <= j < token.len() ==> 'a' <= #[trigger] token[j] <= 'z'
}

/// `token` stands in `s` at index `at`, ASCII case ignored.
pub open spec fn matches_at(s: Seq<char>, at: int, token: Seq<char>) -> bool {
    &&& 0 <= at
    &&& at + token.len() <= s.len()
    &&& forall|j: int| 0 <= j < token.len() ==> to_lower(#[trigger] s[at + j]) == token[j]
}

/// `token` stands in `s` at index `at` as a whole word: no word character lies
/// directly before or after it.
pub open spec fn word_at(s: Seq<char>, at: int, token: Seq<char>) -> bool {
    &&& matches_at(s, at, token)
    &&& (at == 0 || !is_word_char(s[at - 1]))
    &&& (at + token.len() == s.len() || !is_word_char(s[at + token.len()]))
}

/// `token` occurs somewhere in `s` as a whole word, ASCII case ignored.
pub open spec fn contains_word(s: Seq<char>, token: Seq<char>) -> bool {
    exists|at: int| word_at(s, at, token)
}

/// `prefix` is how `s` begins.
pub open spec fn starts_with(s: Seq<char>, prefix: Seq<char>) -> bool {
    prefix.len() <= s.len() && s.subrange(0, prefix.len() as int) == prefix
}

/// Whether `c` is an ASCII decimal digit.
pub open spec fn is_digit(c: char) -> bool {
    '0' <= c <= '9'
}

/// The value of the digit `c`.
pub open spec fn digit_value(c: char) -> nat {
    ((c as u32) - ('0' as u32)) as nat
}

/// Whether `s` holds ASCII decimal digits only.
pub open spec fn all_digits(s: Seq<char>) -> bool {
    forall|i: int| 0 <= i < s.len() ==> is_digit(#[trigger] s[i])
}

/// The number that the decimal digits `s` write, most significant first.
pub open spec fn digits_value(s: Seq<char>) -> nat
    decreases s.len(),
{
    if s.len() == 0 {
        0
    } else {
        digits_value(s.drop_last()) * 10 + digit_value(s.last())
    }
}

/// `s` without the `+` that it may begin with.
pub open spec fn unsigned_digits(s: Seq<char>) -> Seq<char> {
    if s.len() > 0 && s[0] == '+' {
        s.drop_first()
    } else {
        s
    }
}

/// What an unsigned decimal number reads as: an optional `+`, then at least
/// one digit and nothing else, with a value of at most `max`.
pub open spec fn parse_unsigned(s: Seq<char>, max: nat) -> Option<nat> {
    let digits = unsigned_digits(s);
    if digits.len() > 0 && all_digits(digits) && digits_value(digits) <= max {
        Some(digits_value(digits))
    } else {
        None
    }
}

/// The character that writes the digit `d`.
pub open spec fn digit_char(d: nat) -> char {
    (('0' as u32) + d) as char
}

/// The decimal notation of `n`, without sign or leading zeros.
pub open spec fn decimal_text(n: nat) -> Seq<char>
    decreases n,
{
    if n < 10 {
        seq![digit_char(n)]
    } else {
        decimal_text(n / 10).push(digit_char(n % 10))
    }
}

/// What is skipped forwards is whitespace, and the skipping stops at the
/// first character that is not.
pub proof fn lemma_skip_whitespace(s: Seq<char>, from: int)
    requires
        0 <= from <= s.len(),
    ensures
        from <= skip_whitespace(s, from) <= s.len(),
        forall|i: int| from <= i < skip_whitespace(s, from) ==> is_whitespace(#[trigger] s[i]),
        skip_whitespace(s, from) < s.len() ==> !is_whitespace(s[skip_whitespace(s, from)]),
    decreases s.len() - from,
{
    if from < s.len() && is_whitespace(s[from]) {
        lemma_skip_whitespace(s, from + 1);
    }
}

/// What is skipped backwards is whitespace, and the skipping stops behind the
/// last character that is not.
pub proof fn lemma_skip_whitespace_back(s: Seq<char>, low: int, to: int)
    requires
        0 <= low <= to <= s.len(),
    ensures
        low <= skip_whitespace_back(s, low, to) <= to,
        forall|i: int| skip_whitespace_back(s, low, to) <= i < to ==> is_whitespace(#[trigger] s[i]),
        low < skip_whitespace_back(s, low, to) ==> !is_whitespace(
            s[skip_whitespace_back(s, low, to) - 1],
        ),
    decreases to - low,
{
    if low < to && is_whitespace(s[to - 1]) {
        lemma_skip_whitespace_back(s, low, to - 1);
    }
}

/// Trimming cuts off whitespace only, at both ends, and leaves text that
/// neither begins nor ends with whitespace.
pub proof fn lemma_trimmed(s: Seq<char>)
    ensures
        ({
            let start = skip_whitespace(s, 0);
            let end = skip_whitespace_back(s, start, s.len() as int);
            &&& 0 <= start <= end <= s.len()
            &&& trimmed(s) == s.subrange(start, end)
            &&& forall|i: int| 0 <= i < start ==> is_whitespace(#[trigger] s[i])
            &&& forall|i: int| end <= i < s.len() ==> is_whitespace(#[trigger] s[i])
            &&& trimmed(s).len() > 0 ==> !is_whitespace(trimmed(s).first()) && !is_whitespace(
                trimmed(s).last(),
            )
        }),
{
    let start = skip_whitespace(s, 0);
    lemma_skip_whitespace(s, 0);
    lemma_skip_whitespace_back(s, start, s.len() as int);
}

/// Everything before the first whitespace character is not whitespace.
pub proof fn lemma_find_whitespace(s: Seq<char>, from: int)
    requires
        0 <= from <= s.len(),
    ensures
        from <= find_whitespace(s, from) <= s.len(),
        forall|i: int| from <= i < find_whitespace(s, from) ==> !is_whitespace(#[trigger] s[i]),
        find_whitespace(s, from) < s.len() ==> is_whitespace(s[find_whitespace(s, from)]),
    decreases s.len() - from,
{
    if from < s.len() && !is_whitespace(s[from]) {
        lemma_find_whitespace(s, from + 1);
    }
}

/// A longer run of digits writes a number that is no smaller.
pub proof fn lemma_digits_value_prefix(s: Seq<char>, i: int)
    requires
        0 <= i <= s.len(),
    ensures
        digits_value(s.take(i)) <= digits_value(s),
    decreases s.len() - i,
{
    if i < s.len() {
        lemma_digits_value_prefix(s.drop_last(), i);
        assert(s.drop_last().take(i) =~= s.take(i));
    } else {
        assert(s.take(i) =~= s);
    }
}

/// The digits that `s` writes, followed by the digit `c`.
pub proof fn lemma_digits_value_push(s: Seq<char>, c: char)
    ensures
        digits_value(s.push(c)) == digits_value(s) * 10 + digit_value(c),
{
    assert(s.push(c).drop_last() =~= s);
}

/// The decimal notation of a number is made of digits, at least one.
pub proof fn lemma_decimal_text_digits(n: nat)
    ensures
        decimal_text(n).len() > 0,
        all_digits(decimal_text(n)),
        digits_value(decimal_text(n)) == n,
    decreases n,
{
    if n < 10 {
        lemma_digits_value_push(Seq::empty(), digit_char(n));
        assert(decimal_text(n) =~= Seq::<char>::empty().push(digit_char(n)));
    } else {
        lemma_decimal_text_digits(n / 10);
        lemma_digits_value_push(decimal_text(n / 10), digit_char(n % 10));
        let text = decimal_text(n);
        assert forall|i: int| 0 <= i < text.len() implies is_digit(#[trigger] text[i]) by {
            if i < text.len() - 1 {
                assert(text[i] == decimal_text(n / 10)[i]);
            }
        }
    }
}

/// A number written in decimal reads back as itself: what `decimal_string`
/// writes, `parse_u64` reads, as long as the number is within the bound of
/// the reader.
pub proof fn lemma_decimal_round_trip(n: nat, max: nat)
    requires
        n <= max,
    ensures
        parse_unsigned(decimal_text(n), max) == Some(n),
{
    lemma_decimal_text_digits(n);
    assert(is_digit(decimal_text(n)[0]));
}

/// Whether `c` is whitespace.
pub fn char_is_whitespace(c: char) -> (b: bool)
    ensures
        b == is_whitespace(c),
{
    let u: u32 = c as u32;
    (0x09 <= u && u <= 0x0D) || u == 0x20 || u == 0x85 || u == 0xA0 || u == 0x1680 || (0x2000 <= u
        && u <= 0x200A) || u == 0x2028 || u == 0x2029 || u == 0x202F || u == 0x205F || u == 0x3000
}

/// Whether `c` is a character of a word.
pub fn char_is_word(c: char) -> (b: bool)
    ensures
        b == is_word_char(c),
{
    (c >= 'a' && c <= 'z') || (c >= 'A' && c <= 'Z') || (c >= '0' && c <= '9') || c == '_'
}

/// The characters of `s`, one by one.
pub fn chars_of(s: &str) -> (chars: Vec<char>)
    ensures
        chars@ == s@,
{
    let mut chars: Vec<char> = Vec::new();
    for c in it: s.chars()
        invariant
            chars@ == it.seq().take(it.index() as int),
            it.seq() == s@,
    {
        chars.push(c);
    }
    chars
}

/// Where `trimmed` starts and ends in `chars`.
pub fn trim_bounds(chars: &Vec<char>) -> (bounds: (usize, usize))
    ensures
        bounds.0 == skip_whitespace(chars@, 0),
        bounds.1 == skip_whitespace_back(chars@, bounds.0 as int, chars@.len() as int),
        bounds.0 <= bounds.1 <= chars@.len(),
{
    let mut start: usize = 0;
    while start < chars.len() && char_is_whitespace(chars[start])
        invariant
            start <= chars@.len(),
            skip_whitespace(chars@, 0) == skip_whitespace(chars@, start as int),
        decreases chars@.len() - start,
    {
        start += 1;
    }
    let mut end: usize = chars.len();
    while start < end && char_is_whitespace(chars[end - 1])
        invariant
            start <= end <= chars@.len(),
            skip_whitespace_back(chars@, start as int, chars@.len() as int) == skip_whitespace_back(
                chars@,
                start as int,
                end as int,
            ),
        decreases end - start,
    {
        end -= 1;
    }
    (start, end)
}

/// Index of the first whitespace character of `chars[from..to]`, or `to`.
pub(crate) fn find_whitespace_in(chars: &Vec<char>, from: usize, to: usize) -> (cut: usize)
    requires
        from <= to <= chars@.len(),
    ensures
        from <= cut <= to,
        cut - from == find_whitespace(chars@.subrange(from as int, to as int), 0),
{
    let ghost part = chars@.subrange(from as int, to as int);
    let mut cut: usize = from;
    while cut < to && !char_is_whitespace(chars[cut])
        invariant
            from <= cut <= to <= chars@.len(),
            part == chars@.subrange(from as int, to as int),
            find_whitespace(part, 0) == find_whitespace(part, cut - from),
        decreases to - cut,
    {
        assert(part[cut - from] == chars@[cut as int]);
        cut += 1;
    }
    assert(cut < to ==> part[cut - from] == chars@[cut as int]);
    cut
}

/// Whether `token` stands in `chars` as a whole word, ASCII case ignored.
pub(crate) fn contains_word_in(chars: &Vec<char>, token: &Vec<char>) -> (found: bool)
    requires
        is_lower_token(token@),
        token@.len() > 0,
    ensures
        found == contains_word(chars@, token@),
{
    let n: usize = token.len();
    let len: usize = chars.len();
    if len < n {
        assert forall|at: int| !word_at(chars@, at, token@) by {}
        return false;
    }
    let last: usize = len - n;
    let mut at: usize = 0;
    while at <= last
        invariant
            at <= last + 1,
            len == chars@.len(),
            last == len - n,
            n == token@.len(),
            n > 0,
            is_lower_token(token@),
            forall|k: int| 0 <= k < at ==> !word_at(chars@, k, token@),
        decreases last + 1 - at,
    {
        let mut j: usize = 0;
        while j < n && same_letter(chars[at + j], token[j])
            invariant
                j <= n,
                n == token@.len(),
                len == chars@.len(),
                at + n <= len,
                is_lower_token(token@),
                forall|k: int| 0 <= k < j ==> to_lower(#[trigger] chars@[at + k]) == token@[k],
            decreases n - j,
        {
            j += 1;
        }
        if j == n {
            let open_before: bool = at == 0 || !char_is_word(chars[at - 1]);
            let open_after: bool = at + n == len || !char_is_word(chars[at + n]);
            assert(matches_at(chars@, at as int, token@));
            if open_before && open_after {
                assert(word_at(chars@, at as int, token@));
                return true;
            }
        } else {
            assert(to_lower(chars@[at + j]) != token@[j as int]);
            assert(!matches_at(chars@, at as int, token@));
        }
        at += 1;
    }
    assert forall|k: int| !word_at(chars@, k, token@) by {
        if 0 <= k && k + token@.len() <= chars@.len() {
            assert(k < at);
        }
    }
    false
}

/// Whether `c`, lower-cased, is the lower-case letter `letter`.
pub(crate) fn same_letter(c: char, letter: char) -> (b: bool)
    requires
        'a' <= letter <= 'z',
    ensures
        b == (to_lower(c) == letter),
{
    c == letter || (c >= 'A' && c <= 'Z' && (c as u32) + 32 == (letter as u32))
}

/// Whether `a` and `b` hold the same characters.
pub fn same_text(a: &str, b: &str) -> (same: bool)
    ensures
        same == (a@ == b@),
{
    let x = chars_of(a);
    let y = chars_of(b);
    if x.len() != y.len() {
        return false;
    }
    let mut i: usize = 0;
    while i < x.len()
        invariant
            i <= x@.len(),
            x@.len() == y@.len(),
            x@ == a@,
            y@ == b@,
            forall|k: int| 0 <= k < i ==> x@[k] == y@[k],
        decreases x@.len() - i,
    {
        if x[i] != y[i] {
            return false;
        }
        i += 1;
    }
    assert(x@ =~= y@);
    true
}

/// Whether `s` begins with `prefix`, character for character.
pub fn has_prefix(s: &Vec<char>, prefix: &Vec<char>) -> (b: bool)
    ensures
        b == starts_with(s@, prefix@),
{
    if prefix.len() > s.len() {
        return false;
    }
    let mut i: usize = 0;
    while i < prefix.len()
        invariant
            i <= prefix@.len() <= s@.len(),
            forall|k: int| 0 <= k < i ==> s@[k] == prefix@[k],
        decreases prefix@.len() - i,
    {
        if s[i] != prefix[i] {
            assert(s@.subrange(0, prefix@.len() as int)[i as int] != prefix@[i as int]);
            return false;
        }
        i += 1;
    }
    assert(s@.subrange(0, prefix@.len() as int) =~= prefix@);
    true
}

/// Reads an unsigned decimal number of at most 64 bits: an optional `+`, then
/// digits only.
pub fn parse_u64(s: &str) -> (r: Option<u64>)
    ensures
        r matches Some(n) ==> parse_unsigned(s@, u64::MAX as nat) == Some(n as nat),
        r is None ==> parse_unsigned(s@, u64::MAX as nat) is None,
{
    let chars = chars_of(s);
    let first: usize = if chars.len() > 0 && chars[0] == '+' {
        1
    } else {
        0
    };
    let ghost digits = chars@.subrange(first as int, chars@.len() as int);
    assert(digits =~= unsigned_digits(s@));
    if first == chars.len() {
        return None;
    }
    let mut value: u64 = 0;
    let mut i: usize = first;
    while i < chars.len()
        invariant
            first <= i <= chars@.len(),
            digits == chars@.subrange(first as int, chars@.len() as int),
            digits == unsigned_digits(s@),
            all_digits(digits.take(i - first)),
            value == digits_value(digits.take(i - first)),
        decreases chars@.len() - i,
    {
        let c = chars[i];
        let ghost seen = digits.take(i - first);
        let ghost next = digits.take(i - first + 1);
        proof {
            assert(digits[i - first] == c);
            assert(next.drop_last() =~= seen);
            assert(next.last() == c);
        }
        if !(c >= '0' && c <= '9') {
            assert(!is_digit(digits[i - first]));
            return None;
        }
        let d: u64 = ((c as u32) - ('0' as u32)) as u64;
        proof {
            lemma_digits_value_prefix(digits, i - first + 1);
            assert(digits_value(next) == value * 10 + d);
        }
        if value > (u64::MAX - d) / 10 {
            return None;
        }
        value = value * 10 + d;
        proof {
            assert forall|k: int| 0 <= k < next.len() implies is_digit(#[trigger] next[k]) by {
                if k < seen.len() {
                    assert(seen[k] == next[k]);
                }
            }
        }
        i += 1;
    }
    assert(digits.take(i - first) =~= digits);
    Some(value)
}

/// Reads an unsigned decimal number of at most 8 bits: an optional `+`, then
/// digits only.
pub fn parse_u8(s: &str) -> (r: Option<u8>)
    ensures
        r matches Some(n) ==> parse_unsigned(s@, u8::MAX as nat) == Some(n as nat),
        r is None ==> parse_unsigned(s@, u8::MAX as nat) is None,
{
    match parse_u64(s) {
        Some(n) => {
            if n <= 255 {
                Some(n as u8)
            } else {
                None
            }
        },
        None => None,
    }
}

/// The one-character text that writes the digit `d`.
pub(crate) fn digit_str(d: u64) -> (s: &'static str)
    requires
        d < 10,
    ensures
        s@ == seq![digit_char(d as nat)],
{
    proof {
        reveal_strlit("0");
        reveal_strlit("1");
        reveal_strlit("2");
        reveal_strlit("3");
        reveal_strlit("4");
        reveal_strlit("5");
        reveal_strlit("6");
        reveal_strlit("7");
        reveal_strlit("8");
        reveal_strlit("9");
    }
    let s = if d == 0 {
        "0"
    } else if d == 1 {
        "1"
    } else if d == 2 {
        "2"
    } else if d == 3 {
        "3"
    } else if d == 4 {
        "4"
    } else if d == 5 {
        "5"
    } else if d == 6 {
        "6"
    } else if d == 7 {
        "7"
    } else if d == 8 {
        "8"
    } else {
        "9"
    };
    assert(s@ =~= seq![digit_char(d as nat)]);
    s
}

/// Writes `n` in decimal.
pub fn decimal_string(n: u64) -> (s: String)
    ensures
        s@ == decimal_text(n as nat),
    decreases n,
{
    if n < 10 {
        String::from_str(digit_str(n))
    } else {
        let mut s = decimal_string(n / 10);
        s.append(digit_str(n % 10));
        assert(s@ =~= decimal_text((n / 10) as nat).push(digit_char((n % 10) as nat)));
        s
    }
}

} // verus!

//! Text as sequences of characters.
//!
//! Contracts in this crate speak of a string through its view, a `Seq<char>`.
//! The functions here move between `&str`, `String` and `Vec<char>` and
//! provide the few text operations the rest of the crate needs, each proved
//! against a definition over `Seq<char>`.

use vstd::prelude::*;

verus! {

/// `String::push` of the standard library appends exactly one character.
pub assume_specification[ String::push ](s: &mut String, c: char)
    ensures
        final(s)@ == old(s)@.push(c),
;

/// The characters with the Unicode `White_Space` property.
pub open spec fn is_space(c: char) -> bool {
    let u = c as u32;
    ||| 0x09 <= u <= 0x0D
    ||| u == 0x20
    ||| u == 0x85
    ||| u == 0xA0
    ||| u == 0x1680
    ||| 0x2000 <= u <= 0x200A
    ||| u == 0x2028
    ||| u == 0x2029
    ||| u == 0x202F
    ||| u == 0x205F
    ||| u == 0x3000
}

/// Whether `c` is white space.
pub fn char_is_space(c: char) -> (b: bool)
    ensures
        b == is_space(c),
{
    let u: u32 = c as u32;
    (0x09 <= u && u <= 0x0D) || u == 0x20 || u == 0x85 || u == 0xA0 || u == 0x1680 || (0x2000 <= u
        && u <= 0x200A) || u == 0x2028 || u == 0x2029 || u == 0x202F || u == 0x205F || u == 0x3000
}

/// The characters of a string slice, in order.
pub fn chars_of(s: &str) -> (out: Vec<char>)
    ensures
        out@ == s@,
{
    let mut out: Vec<char> = Vec::new();
    for c in it: s.chars()
        invariant
            it.seq() == s@,
            out@ == s@.take(it.index() as int),
    {
        out.push(c);
    }
    out
}

/// The string made of the given characters.
pub fn string_of(chars: &Vec<char>) -> (out: String)
    ensures
        out@ == chars@,
{
    let mut out = String::new();
    let mut i: usize = 0;
    while i < chars.len()
        invariant
            i <= chars.len(),
            out@ == chars@.take(i as int),
        decreases chars.len() - i,
    {
        out.push(chars[i]);
        i += 1;
    }
    out
}

/// Whether `a` and `b` hold the same characters.
pub fn same_text(a: &str, b: &str) -> (eq: bool)
    ensures
        eq == (a@ == b@),
{
    let x = chars_of(a);
    let y = chars_of(b);
    same_chars(&x, &y)
}

/// Whether two character vectors are equal.
pub fn same_chars(x: &Vec<char>, y: &Vec<char>) -> (eq: bool)
    ensures
        eq == (x@ == y@),
{
    if x.len() != y.len() {
        return false;
    }
    let mut i: usize = 0;
    while i < x.len()
        invariant
            i <= x.len(),
            x.len() == y.len(),
            x@.take(i as int) == y@.take(i as int),
        decreases x.len() - i,
    {
        if x[i] != y[i] {
            return false;
        }
        i += 1;
        assert(x@.take(i as int) =~= x@.take(i - 1).push(x@[i - 1]));
        assert(y@.take(i as int) =~= y@.take(i - 1).push(y@[i - 1]));
    }
    assert(x@ =~= x@.take(x.len() as int));
    assert(y@ =~= y@.take(y.len() as int));
    true
}

/// `a` followed by `b`.
pub fn join2(a: &str, b: &str) -> (out: String)
    ensures
        out@ == a@ + b@,
{
    let mut out = String::new();
    out.append(a);
    out.append(b);
    out
}

/// `a`, `b` and `c` in a row.
pub fn join3(a: &str, b: &str, c: &str) -> (out: String)
    ensures
        out@ == a@ + b@ + c@,
{
    let mut out = String::new();
    out.append(a);
    out.append(b);
    out.append(c);
    out
}

/// Whether every character of `s` is white space; true of the empty text.
pub open spec fn all_space(s: Seq<char>) -> bool {
    forall|i: int| 0 <= i < s.len() ==> is_space(#[trigger] s[i])
}

/// Whether nothing is left of `s` once surrounding white space is removed.
pub fn is_blank(s: &str) -> (blank: bool)
    ensures
        blank == all_space(s@),
{
    let v = chars_of(s);
    let mut i: usize = 0;
    while i < v.len()
        invariant
            i <= v.len(),
            v@ == s@,
            forall|k: int| 0 <= k < i ==> is_space(#[trigger] v@[k]),
        decreases v.len() - i,
    {
        if !char_is_space(v[i]) {
            return false;
        }
        i += 1;
    }
    true
}

/// Whether `pat` stands in `s` at position `i`.
pub open spec fn occurs_at(s: Seq<char>, pat: Seq<char>, i: int) -> bool {
    0 <= i && i + pat.len() <= s.len() && s.subrange(i, i + pat.len()) == pat
}

/// A text that is `head` followed by anything begins with `head`.
pub proof fn lemma_begins_with_head(head: Seq<char>, rest: Seq<char>)
    ensures
        occurs_at(head + rest, head, 0),
{
    assert((head + rest).subrange(0, head.len() as int) =~= head);
}

/// Whether `pat` stands somewhere in `s`.
pub open spec fn has_substring(s: Seq<char>, pat: Seq<char>) -> bool {
    exists|i: int| occurs_at(s, pat, i)
}

/// Whether `pat` stands in `s` at `at`.
fn matches_at(s: &Vec<char>, pat: &Vec<char>, at: usize) -> (hit: bool)
    requires
        at + pat.len() <= s.len(),
    ensures
        hit == occurs_at(s@, pat@, at as int),
{
    let mut j: usize = 0;
    while j < pat.len()
        invariant
            j <= pat.len(),
            at + pat.len() <= s.len(),
            forall|k: int| 0 <= k < j ==> s@[at + k] == pat@[k],
        decreases pat.len() - j,
    {
        if s[at + j] != pat[j] {
            assert(s@.subrange(at as int, at + pat.len())[j as int] == s@[at + j]);
            return false;
        }
        j += 1;
    }
    assert(s@.subrange(at as int, at + pat.len()) =~= pat@);
    true
}

/// Whether `pat` stands somewhere in `s`.
pub fn contains_chars(s: &Vec<char>, pat: &Vec<char>) -> (found: bool)
    ensures
        found == has_substring(s@, pat@),
{
    if pat.len() > s.len() {
        return false;
    }
    if pat.len() == 0 {
        assert(s@.subrange(0, 0) =~= pat@);
        assert(occurs_at(s@, pat@, 0));
        return true;
    }
    let last = s.len() - pat.len();
    let mut i: usize = 0;
    while i <= last
        invariant
            i <= last + 1,
            last == s.len() - pat.len(),
            pat.len() > 0,
            forall|k: int| 0 <= k < i ==> !occurs_at(s@, pat@, k),
        decreases last + 1 - i,
    {
        if matches_at(s, pat, i) {
            return true;
        }
        i += 1;
    }
    false
}

/// Whether `pat` stands somewhere in `s`.
pub fn contains(s: &str, pat: &str) -> (found: bool)
    ensures
        found == has_substring(s@, pat@),
{
    let a = chars_of(s);
    let b = chars_of(pat);
    contains_chars(&a, &b)
}

/// Whether `s` begins with `pat`.
pub fn starts_with(s: &str, pat: &str) -> (yes: bool)
    ensures
        yes == occurs_at(s@, pat@, 0),
{
    let a = chars_of(s);
    let b = chars_of(pat);
    if b.len() > a.len() {
        return false;
    }
    matches_at(&a, &b, 0)
}

/// The decimal digit of `d`, for `d` below ten.
pub open spec fn spec_digit(d: nat) -> char {
    if d == 0 {
        '0'
    } else if d == 1 {
        '1'
    } else if d == 2 {
        '2'
    } else if d == 3 {
        '3'
    } else if d == 4 {
        '4'
    } else if d == 5 {
        '5'
    } else if d == 6 {
        '6'
    } else if d == 7 {
        '7'
    } else if d == 8 {
        '8'
    } else {
        '9'
    }
}

/// `n` written in decimal, without sign or leading zeros.
pub open spec fn spec_decimal(n: nat) -> Seq<char>
    decreases n,
{
    if n < 10 {
        seq![spec_digit(n)]
    } else {
        spec_decimal(n / 10).push(spec_digit(n % 10))
    }
}

/// The character of a decimal digit.
fn digit(d: u64) -> (c: char)
    requires
        d < 10,
    ensures
        c == spec_digit(d as nat),
{
    if d == 0 {
        '0'
    } else if d == 1 {
        '1'
    } else if d == 2 {
        '2'
    } else if d == 3 {
        '3'
    } else if d == 4 {
        '4'
    } else if d == 5 {
        '5'
    } else if d == 6 {
        '6'
    } else if d == 7 {
        '7'
    } else if d == 8 {
        '8'
    } else {
        '9'
    }
}

/// Appends the decimal form of `n`.
fn push_decimal(n: u64, out: &mut String)
    ensures
        final(out)@ == old(out)@ + spec_decimal(n as nat),
    decreases n,
{
    if n >= 10 {
        push_decimal(n / 10, out);
    }
    out.push(digit(n % 10));
    assert(out@ =~= old(out)@ + spec_decimal(n as nat));
}

/// `n` written in decimal.
pub fn decimal(n: u64) -> (out: String)
    ensures
        out@ == spec_decimal(n as nat),
{
    let mut out = String::new();
    push_decimal(n, &mut out);
    assert(out@ =~= spec_decimal(n as nat));
    out
}

/// The lower-case hexadecimal digit of `d`, for `d` below sixteen.
pub open spec fn spec_hex_digit(d: nat) -> char {
    if d < 10 {
        spec_digit(d)
    } else if d == 10 {
        'a'
    } else if d == 11 {
        'b'
    } else if d == 12 {
        'c'
    } else if d == 13 {
        'd'
    } else if d == 14 {
        'e'
    } else {
        'f'
    }
}

/// The two hexadecimal digits of one byte.
pub open spec fn spec_hex_pair(b: u8) -> Seq<char> {
    seq![spec_hex_digit((b / 16) as nat), spec_hex_digit((b % 16) as nat)]
}

/// The first `n` bytes in lower-case hexadecimal, two digits each.
pub open spec fn spec_hex(bytes: Seq<u8>, n: int) -> Seq<char>
    decreases n,
{
    if n <= 0 {
        Seq::<char>::empty()
    } else {
        spec_hex(bytes, n - 1) + spec_hex_pair(bytes[n - 1])
    }
}

/// Hexadecimal text has two characters for each byte.
pub proof fn lemma_hex_len(bytes: Seq<u8>, n: int)
    requires
        0 <= n,
    ensures
        spec_hex(bytes, n).len() == 2 * n,
    decreases n,
{
    if n > 0 {
        lemma_hex_len(bytes, n - 1);
    }
}

/// The first `n` bytes as pairs of hexadecimal digits with a colon
/// between neighbours.
pub open spec fn spec_hex_colon(bytes: Seq<u8>, n: int) -> Seq<char>
    decreases n,
{
    if n <= 0 {
        Seq::<char>::empty()
    } else if n == 1 {
        spec_hex_pair(bytes[0])
    } else {
        spec_hex_colon(bytes, n - 1) + seq![':'] + spec_hex_pair(bytes[n - 1])
    }
}

/// The character of a hexadecimal digit, in lower case.
fn hex_digit(d: u8) -> (c: char)
    requires
        d < 16,
    ensures
        c == spec_hex_digit(d as nat),
{
    if d < 10 {
        digit(d as u64)
    } else if d == 10 {
        'a'
    } else if d == 11 {
        'b'
    } else if d == 12 {
        'c'
    } else if d == 13 {
        'd'
    } else if d == 14 {
        'e'
    } else {
        'f'
    }
}

/// The bytes as pairs of lower-case hexadecimal digits, colon-separated.
pub fn hex_colon(bytes: &Vec<u8>) -> (out: String)
    ensures
        out@ == spec_hex_colon(bytes@, bytes@.len() as int),
{
    let mut out = String::new();
    let mut i: usize = 0;
    while i < bytes.len()
        invariant
            i <= bytes.len(),
            out@ == spec_hex_colon(bytes@, i as int),
        decreases bytes.len() - i,
    {
        let ghost before = out@;
        if i > 0 {
            out.push(':');
        }
        let b = bytes[i];
        out.push(hex_digit(b / 16));
        out.push(hex_digit(b % 16));
        i += 1;
        assert(out@ =~= spec_hex_colon(bytes@, i as int));
    }
    out
}

/// Whether the character `c` occurs in `s`.
pub fn contains_char(s: &str, c: char) -> (found: bool)
    ensures
        found == s@.contains(c),
{
    let v = chars_of(s);
    let mut i: usize = 0;
    while i < v.len()
        invariant
            i <= v.len(),
            v@ == s@,
            forall|k: int| 0 <= k < i ==> v@[k] != c,
        decreases v.len() - i,
    {
        if v[i] == c {
            return true;
        }
        i += 1;
    }
    false
}

/// Index of the first character at or after `from` that is no white
/// space, or the length of `s`.
pub open spec fn spec_skip_spaces(s: Seq<char>, from: int) -> int
    decreases s.len() - from,
{
    if from < 0 || from >= s.len() {
        s.len() as int
    } else if !is_space(s[from]) {
        from
    } else {
        spec_skip_spaces(s, from + 1)
    }
}

/// Index of the first white space at or after `from`, or the length of
/// `s`.
pub open spec fn spec_skip_word(s: Seq<char>, from: int) -> int
    decreases s.len() - from,
{
    if from < 0 || from >= s.len() {
        s.len() as int
    } else if is_space(s[from]) {
        from
    } else {
        spec_skip_word(s, from + 1)
    }
}

/// Skipping white space stops within the text, at the first character from
/// `from` on that is no white space.
pub proof fn lemma_skip_spaces(s: Seq<char>, from: int)
    requires
        0 <= from <= s.len(),
    ensures
        from <= spec_skip_spaces(s, from) <= s.len(),
        spec_skip_spaces(s, from) < s.len() ==> !is_space(s[spec_skip_spaces(s, from)]),
        forall|k: int| from <= k < spec_skip_spaces(s, from) ==> is_space(#[trigger] s[k]),
    decreases s.len() - from,
{
    if from < s.len() && is_space(s[from]) {
        lemma_skip_spaces(s, from + 1);
    }
}

/// Skipping a word stops within the text, at the first white space from
/// `from` on.
pub proof fn lemma_skip_word(s: Seq<char>, from: int)
    requires
        0 <= from <= s.len(),
    ensures
        from <= spec_skip_word(s, from) <= s.len(),
        from < s.len() && !is_space(s[from]) ==> from < spec_skip_word(s, from),
        spec_skip_word(s, from) < s.len() ==> is_space(s[spec_skip_word(s, from)]),
        forall|k: int| from <= k < spec_skip_word(s, from) ==> !is_space(#[trigger] s[k]),
    decreases s.len() - from,
{
    if from < s.len() && !is_space(s[from]) {
        lemma_skip_word(s, from + 1);
    }
}

/// The words of `s` from position `from` on: the maximal runs of
/// characters that are no white space, in order.
pub open spec fn spec_words_from(s: Seq<char>, from: int) -> Seq<Seq<char>>
    decreases s.len() - from,
{
    let start = spec_skip_spaces(s, from);
    if from < 0 || start < from || start >= s.len() {
        Seq::<Seq<char>>::empty()
    } else {
        let end = spec_skip_word(s, start);
        if end <= start || end > s.len() {
            Seq::<Seq<char>>::empty()
        } else {
            seq![s.subrange(start, end)] + spec_words_from(s, end)
        }
    }
}

/// The words of `s`, as splitting on white space gives them.
pub open spec fn spec_words(s: Seq<char>) -> Seq<Seq<char>> {
    spec_words_from(s, 0)
}

/// The words of `s`.
pub fn words(s: &Vec<char>) -> (out: Vec<Vec<char>>)
    ensures
        out@.len() == spec_words(s@).len(),
        forall|k: int| 0 <= k < out@.len() ==> (#[trigger] out@[k])@ == spec_words(s@)[k],
{
    let mut out: Vec<Vec<char>> = Vec::new();
    let ghost mut done: Seq<Seq<char>> = Seq::empty();
    let mut i: usize = 0;
    loop
        invariant
            i <= s.len(),
            out@.len() == done.len(),
            forall|k: int| 0 <= k < out@.len() ==> (#[trigger] out@[k])@ == done[k],
            done + spec_words_from(s@, i as int) == spec_words(s@),
        ensures
            out@.len() == spec_words(s@).len(),
            forall|k: int| 0 <= k < out@.len() ==> (#[trigger] out@[k])@ == spec_words(s@)[k],
        decreases s.len() - i,
    {
        let ghost from = i as int;
        while i < s.len() && char_is_space(s[i])
            invariant
                from <= i <= s.len(),
                forall|k: int| from <= k < i ==> is_space(#[trigger] s@[k]),
                spec_skip_spaces(s@, i as int) == spec_skip_spaces(s@, from),
            decreases s.len() - i,
        {
            i += 1;
        }
        proof {
            lemma_skip_spaces(s@, i as int);
        }
        if i >= s.len() {
            assert(spec_words_from(s@, from) =~= Seq::<Seq<char>>::empty());
            assert(done =~= spec_words(s@));
            break;
        }
        let start = i;
        let mut word: Vec<char> = Vec::new();
        while i < s.len() && !char_is_space(s[i])
            invariant
                start <= i <= s.len(),
                word@ == s@.subrange(start as int, i as int),
                spec_skip_word(s@, i as int) == spec_skip_word(s@, start as int),
            decreases s.len() - i,
        {
            word.push(s[i]);
            i += 1;
            assert(word@ =~= s@.subrange(start as int, i as int));
        }
        proof {
            lemma_skip_word(s@, i as int);
            lemma_skip_word(s@, start as int);
            assert(spec_skip_word(s@, start as int) == i);
            assert(spec_words_from(s@, from) =~= seq![s@.subrange(start as int, i as int)]
                + spec_words_from(s@, i as int));
            assert((done.push(word@)) + spec_words_from(s@, i as int) =~= done + spec_words_from(
                s@,
                from,
            ));
            done = done.push(word@);
        }
        out.push(word);
    }
    out
}

/// Whether `c` is one of the ten decimal digits.
pub open spec fn is_digit(c: char) -> bool {
    '0' <= c <= '9'
}

/// The number that the first `n` characters of `s` spell in decimal.
pub open spec fn spec_digits_value(s: Seq<char>, n: int) -> nat
    decreases n,
{
    if n <= 0 {
        0
    } else {
        10 * spec_digits_value(s, n - 1) + (s[n - 1] as u32 - '0' as u32) as nat
    }
}

/// Whether every character is a decimal digit.
pub open spec fn all_digits(s: Seq<char>) -> bool {
    forall|i: int| 0 <= i < s.len() ==> is_digit(#[trigger] s[i])
}

/// The number that `s` spells, as the standard library parses a `u64`:
/// an optional plus sign, then one or more decimal digits and nothing
/// else, and a value that fits.
pub open spec fn spec_parse_u64(s: Seq<char>) -> Option<u64> {
    let digits = if s.len() > 0 && s[0] == '+' {
        s.skip(1)
    } else {
        s
    };
    if digits.len() == 0 || !all_digits(digits) || spec_digits_value(digits, digits.len() as int)
        > u64::MAX {
        None
    } else {
        Some(spec_digits_value(digits, digits.len() as int) as u64)
    }
}

/// The value of a longer prefix of digits is no smaller.
proof fn lemma_digits_value_grows(s: Seq<char>, i: int, n: int)
    requires
        0 <= i <= n <= s.len(),
        all_digits(s),
    ensures
        spec_digits_value(s, i) <= spec_digits_value(s, n),
    decreases n - i,
{
    if i < n {
        lemma_digits_value_grows(s, i, n - 1);
        assert(is_digit(s[n - 1]));
    }
}

/// Parses a `u64` written in decimal.
pub fn parse_u64(s: &Vec<char>) -> (value: Option<u64>)
    ensures
        value == spec_parse_u64(s@),
{
    let start: usize = if s.len() > 0 && s[0] == '+' {
        1
    } else {
        0
    };
    let ghost digits = if start == 1 {
        s@.skip(1)
    } else {
        s@
    };
    if start >= s.len() {
        return None;
    }
    let mut acc: u64 = 0;
    let mut i: usize = start;
    while i < s.len()
        invariant
            start <= i <= s.len(),
            start <= 1,
            (start == 1) == (s@.len() > 0 && s@[0] == '+'),
            digits == (if start == 1 {
                s@.skip(1)
            } else {
                s@
            }),
            digits.len() == s.len() - start,
            forall|k: int| 0 <= k < i - start ==> is_digit(#[trigger] digits[k]),
            acc == spec_digits_value(digits, i - start),
        decreases s.len() - i,
    {
        let c = s[i];
        assert(digits[i - start] == c);
        if !(c >= '0' && c <= '9') {
            assert(!is_digit(digits[i - start]));
            return None;
        }
        let d: u64 = (c as u32 - '0' as u32) as u64;
        let ghost next = 10 * spec_digits_value(digits, i - start) + d;
        assert(next == spec_digits_value(digits, i - start + 1));
        if acc > (u64::MAX - d) / 10 {
            proof {
                assert(10 * acc + d > u64::MAX);
                assert(next > u64::MAX);
                if all_digits(digits) {
                    lemma_digits_value_grows(digits, i - start + 1, digits.len() as int);
                }
            }
            return None;
        }
        acc = acc * 10 + d;
        i += 1;
    }
    Some(acc)
}

/// The end of `s` once trailing white space is cut, but no less than
/// `lo`: the least `hi` at or above `lo` with only white space from
/// `hi` on.
pub open spec fn spec_trim_end(s: Seq<char>, lo: int, hi: int) -> int
    decreases hi - lo,
{
    if hi <= lo || hi > s.len() || lo < 0 {
        lo
    } else if !is_space(s[hi - 1]) {
        hi
    } else {
        spec_trim_end(s, lo, hi - 1)
    }
}

/// `s` without the white space at its two ends.
pub open spec fn spec_trim(s: Seq<char>) -> Seq<char> {
    let start = spec_skip_spaces(s, 0);
    s.subrange(start, spec_trim_end(s, start, s.len() as int))
}

/// Trimming leaves nothing exactly of the texts that are blank, and what it
/// leaves neither starts nor ends with white space.
pub proof fn lemma_trim_is_tight(s: Seq<char>)
    ensures
        spec_trim(s).len() == 0 <==> all_space(s),
        spec_trim(s).len() > 0 ==> !is_space(spec_trim(s).first()) && !is_space(
            spec_trim(s).last(),
        ),
{
    lemma_skip_spaces(s, 0);
    let a = spec_skip_spaces(s, 0);
    lemma_trim_end(s, a, s.len() as int);
    let b = spec_trim_end(s, a, s.len() as int);
    if a < s.len() {
        assert(!is_space(s[a]));
        if b == a {
            assert(forall|k: int| a <= k < s.len() ==> is_space(#[trigger] s[k]));
        }
    }
}

/// Where trimming from the right stops between `lo` and `hi`.
pub proof fn lemma_trim_end(s: Seq<char>, lo: int, hi: int)
    requires
        0 <= lo <= hi <= s.len(),
    ensures
        lo <= spec_trim_end(s, lo, hi) <= hi,
        spec_trim_end(s, lo, hi) > lo ==> !is_space(s[spec_trim_end(s, lo, hi) - 1]),
        forall|k: int| spec_trim_end(s, lo, hi) <= k < hi ==> is_space(#[trigger] s[k]),
    decreases hi - lo,
{
    if hi > lo && is_space(s[hi - 1]) {
        lemma_trim_end(s, lo, hi - 1);
    }
}

/// `s` without the white space at its two ends.
pub fn trim_chars(s: &Vec<char>) -> (out: Vec<char>)
    ensures
        out@ == spec_trim(s@),
{
    let mut start: usize = 0;
    while start < s.len() && char_is_space(s[start])
        invariant
            start <= s.len(),
            spec_skip_spaces(s@, start as int) == spec_skip_spaces(s@, 0),
        decreases s.len() - start,
    {
        start += 1;
    }
    proof {
        lemma_skip_spaces(s@, start as int);
    }
    let mut end: usize = s.len();
    while end > start && char_is_space(s[end - 1])
        invariant
            start <= end <= s.len(),
            spec_trim_end(s@, start as int, end as int) == spec_trim_end(
                s@,
                start as int,
                s@.len() as int,
            ),
        decreases end - start,
    {
        end -= 1;
    }
    let mut out: Vec<char> = Vec::new();
    let mut i: usize = start;
    while i < end
        invariant
            start <= i <= end <= s.len(),
            out@ == s@.subrange(start as int, i as int),
        decreases end - i,
    {
        out.push(s[i]);
        i += 1;
        assert(out@ =~= s@.subrange(start as int, i as int));
    }
    out
}

/// `s` without the white space at its two ends.
pub fn trim(s: &str) -> (out: String)
    ensures
        out@ == spec_trim(s@),
{
    let v = chars_of(s);
    let t = trim_chars(&v);
    string_of(&t)
}

/// Index of the first `sep` at or after `from`, or the length of `s`.
pub open spec fn spec_find(s: Seq<char>, sep: char, from: int) -> int
    decreases s.len() - from,
{
    if from < 0 || from >= s.len() {
        s.len() as int
    } else if s[from] == sep {
        from
    } else {
        spec_find(s, sep, from + 1)
    }
}

/// The search stops within the text, at the first `sep` from `from` on.
pub proof fn lemma_find(s: Seq<char>, sep: char, from: int)
    requires
        0 <= from <= s.len(),
    ensures
        from <= spec_find(s, sep, from) <= s.len(),
        spec_find(s, sep, from) < s.len() ==> s[spec_find(s, sep, from)] == sep,
    decreases s.len() - from,
{
    if from < s.len() && s[from] != sep {
        lemma_find(s, sep, from + 1);
    }
}

/// The pieces of `s` from position `from` on, cut at every `sep`: one
/// more piece than there are separators, empty pieces included.
pub open spec fn spec_split_from(s: Seq<char>, sep: char, from: int) -> Seq<Seq<char>>
    decreases s.len() - from,
{
    let next = spec_find(s, sep, from);
    if from < 0 || from > s.len() || next < from || next > s.len() {
        Seq::<Seq<char>>::empty()
    } else if next >= s.len() {
        seq![s.subrange(from, s.len() as int)]
    } else {
        seq![s.subrange(from, next)] + spec_split_from(s, sep, next + 1)
    }
}

/// The pieces of `s` cut at every `sep`.
pub open spec fn spec_split(s: Seq<char>, sep: char) -> Seq<Seq<char>> {
    spec_split_from(s, sep, 0)
}

/// The pieces of `s` cut at every `sep`.
pub fn split(s: &Vec<char>, sep: char) -> (out: Vec<Vec<char>>)
    ensures
        out@.len() == spec_split(s@, sep).len(),
        forall|k: int| 0 <= k < out@.len() ==> (#[trigger] out@[k])@ == spec_split(s@, sep)[k],
{
    let mut out: Vec<Vec<char>> = Vec::new();
    let ghost mut done: Seq<Seq<char>> = Seq::empty();
    let mut i: usize = 0;
    loop
        invariant_except_break
            done + spec_split_from(s@, sep, i as int) == spec_split(s@, sep),
        invariant
            i <= s.len(),
            out@.len() == done.len(),
            forall|k: int| 0 <= k < out@.len() ==> (#[trigger] out@[k])@ == done[k],
        ensures
            done == spec_split(s@, sep),
        decreases s.len() - i,
    {
        let start = i;
        let mut piece: Vec<char> = Vec::new();
        while i < s.len() && s[i] != sep
            invariant
                start <= i <= s.len(),
                piece@ == s@.subrange(start as int, i as int),
                spec_find(s@, sep, i as int) == spec_find(s@, sep, start as int),
            decreases s.len() - i,
        {
            piece.push(s[i]);
            i += 1;
            assert(piece@ =~= s@.subrange(start as int, i as int));
        }
        proof {
            lemma_find(s@, sep, i as int);
            assert(spec_find(s@, sep, start as int) == i);
        }
        if i >= s.len() {
            proof {
                assert(spec_split_from(s@, sep, start as int) =~= seq![piece@]);
                assert(done.push(piece@) =~= done + spec_split_from(s@, sep, start as int));
                done = done.push(piece@);
            }
            out.push(piece);
            break;
        }
        proof {
            assert(spec_split_from(s@, sep, start as int) =~= seq![piece@] + spec_split_from(
                s@,
                sep,
                i + 1,
            ));
            assert(done.push(piece@) + spec_split_from(s@, sep, i + 1) =~= done + spec_split_from(
                s@,
                sep,
                start as int,
            ));
            done = done.push(piece@);
        }
        out.push(piece);
        i += 1;
    }
    out
}

/// `n` written in decimal, with a minus sign where it is negative.
pub open spec fn spec_decimal_signed(n: int) -> Seq<char> {
    if n < 0 {
        seq!['-'] + spec_decimal((-n) as nat)
    } else {
        spec_decimal(n as nat)
    }
}

/// `n` written in decimal.
pub fn decimal_signed(n: i64) -> (out: String)
    ensures
        out@ == spec_decimal_signed(n as int),
{
    if n >= 0 {
        decimal(n as u64)
    } else {
        let magnitude: u64 = ((-(n + 1)) as u64) + 1;
        let mut out = String::new();
        out.push('-');
        push_decimal(magnitude, &mut out);
        assert(out@ =~= spec_decimal_signed(n as int));
        out
    }
}

/// `s` without every leading repetition of `prefix`.
pub open spec fn spec_strip_prefixes(s: Seq<char>, prefix: Seq<char>) -> Seq<char>
    decreases s.len(),
{
    if prefix.len() > 0 && occurs_at(s, prefix, 0) {
        spec_strip_prefixes(s.skip(prefix.len() as int), prefix)
    } else {
        s
    }
}

/// `s` without every leading repetition of `prefix`.
pub fn strip_prefixes(s: &str, prefix: &str) -> (out: String)
    ensures
        out@ == spec_strip_prefixes(s@, prefix@),
{
    let v = chars_of(s);
    let p = chars_of(prefix);
    let mut start: usize = 0;
    assert(v@.skip(0) =~= v@);
    if p.len() > 0 {
        while p.len() <= v.len() - start && matches_at(&v, &p, start)
            invariant
                start <= v.len(),
                p.len() > 0,
                spec_strip_prefixes(v@.skip(start as int), p@) == spec_strip_prefixes(v@, p@),
            decreases v.len() - start,
        {
            proof {
                let rest = v@.skip(start as int);
                assert(rest.subrange(0, p@.len() as int) =~= v@.subrange(
                    start as int,
                    start + p@.len(),
                ));
                assert(occurs_at(rest, p@, 0));
                assert(rest.skip(p@.len() as int) =~= v@.skip(start + p@.len()));
            }
            start += p.len();
        }
        proof {
            let rest = v@.skip(start as int);
            if p@.len() <= rest.len() {
                assert(rest.subrange(0, p@.len() as int) =~= v@.subrange(
                    start as int,
                    start + p@.len(),
                ));
            }
            assert(!occurs_at(rest, p@, 0));
        }
    }
    let mut out: Vec<char> = Vec::new();
    let mut i: usize = start;
    while i < v.len()
        invariant
            start <= i <= v.len(),
            out@ == v@.subrange(start as int, i as int),
        decreases v.len() - i,
    {
        out.push(v[i]);
        i += 1;
        assert(out@ =~= v@.subrange(start as int, i as int));
    }
    assert(v@.subrange(start as int, v@.len() as int) =~= v@.skip(start as int));
    string_of(&out)
}

} // verus!

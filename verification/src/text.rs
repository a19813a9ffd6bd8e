//! Text primitives shared by the rest of the library: comparison, search,
//! trimming, decimal rendering, and the case operations of the standard
//! library.

use vstd::prelude::*;

verus! {

/// `needle` occurs in `hay` at offset `at`.
pub open spec fn occurs_at(hay: Seq<char>, needle: Seq<char>, at: int) -> bool {
    &&& 0 <= at
    &&& at + needle.len() <= hay.len()
    &&& hay.subrange(at, at + needle.len()) == needle
}

/// `needle` occurs somewhere in `hay`.
pub open spec fn occurs_in(hay: Seq<char>, needle: Seq<char>) -> bool {
    exists|at: int| occurs_at(hay, needle, at)
}

/// `s` ends with `suffix`.
pub open spec fn has_suffix(s: Seq<char>, suffix: Seq<char>) -> bool {
    occurs_at(s, suffix, s.len() - suffix.len())
}

/// What an optional text holds, as characters.
pub open spec fn text_of(value: Option<String>) -> Option<Seq<char>> {
    match value {
        Some(s) => Some(s@),
        None => None,
    }
}

/// The texts of a list, as characters.
pub open spec fn texts(list: Seq<String>) -> Seq<Seq<char>> {
    list.map_values(|s: String| s@)
}

/// The names of a list, as characters.
pub open spec fn names(list: Seq<&'static str>) -> Seq<Seq<char>> {
    list.map_values(|s: &'static str| s@)
}

/// What an optional borrowed text holds, as characters.
pub open spec fn opt_text(value: Option<&str>) -> Option<Seq<char>> {
    match value {
        Some(s) => Some(s@),
        None => None,
    }
}

/// The character that writes the digit `d`.
pub open spec fn digit_char(d: nat) -> char {
    if d == 0 {
        '0'
    } else if d == 1 {
        '1'
    } else if d == 2 {
        '2'
    } else if d == 3 {
        '3'
    } else if d == 4 {
        '4'
    } else if d == 5 {
        '5'
    } else if d == 6 {
        '6'
    } else if d == 7 {
        '7'
    } else if d == 8 {
        '8'
    } else {
        '9'
    }
}

/// The decimal numeral of `n`, without leading zeros.
pub open spec fn decimal_digits(n: nat) -> Seq<char>
    decreases n,
{
    if n < 10 {
        seq![digit_char(n)]
    } else {
        decimal_digits(n / 10).push(digit_char(n % 10))
    }
}

/// The digit that a character writes; 0 for a character that writes none.
pub open spec fn digit_value(c: char) -> nat {
    if c == '1' {
        1
    } else if c == '2' {
        2
    } else if c == '3' {
        3
    } else if c == '4' {
        4
    } else if c == '5' {
        5
    } else if c == '6' {
        6
    } else if c == '7' {
        7
    } else if c == '8' {
        8
    } else if c == '9' {
        9
    } else {
        0
    }
}

/// The number that a decimal numeral writes.
pub open spec fn numeral_value(numeral: Seq<char>) -> nat
    decreases numeral.len(),
{
    if numeral.len() == 0 {
        0
    } else {
        10 * numeral_value(numeral.drop_last()) + digit_value(numeral.last())
    }
}

/// The lowercase form of a text, as `str::to_lowercase` defines it.
pub uninterp spec fn lowercase_of(s: Seq<char>) -> Seq<char>;

/// The uppercase form of a text, as `str::to_uppercase` defines it.
pub uninterp spec fn uppercase_of(s: Seq<char>) -> Seq<char>;

/// A character is whitespace: it is one of the 25 characters that Unicode
/// gives the property `White_Space`. These are the tab, the line feed, the
/// vertical tab, the form feed and the carriage return (U+0009 to U+000D),
/// the space (U+0020), the next line (U+0085), the no-break space (U+00A0),
/// the Ogham space mark (U+1680), the spaces from the en quad to the hair
/// space (U+2000 to U+200A), the line and the paragraph separator (U+2028,
/// U+2029), the narrow no-break space (U+202F), the medium mathematical
/// space (U+205F) and the ideographic space (U+3000).
pub open spec fn white_space(c: char) -> bool {
    let n = c as u32;
    ||| 0x0009 <= n <= 0x000D
    ||| n == 0x0020
    ||| n == 0x0085
    ||| n == 0x00A0
    ||| n == 0x1680
    ||| 0x2000 <= n <= 0x200A
    ||| n == 0x2028
    ||| n == 0x2029
    ||| n == 0x202F
    ||| n == 0x205F
    ||| n == 0x3000
}

/// The offset of the first character of `s`, from `from` on, that is no
/// whitespace; the length of `s` where there is none.
pub open spec fn ink_start(s: Seq<char>, from: int) -> int
    decreases s.len() - from,
{
    if from < 0 || from >= s.len() {
        s.len() as int
    } else if !white_space(s[from]) {
        from
    } else {
        ink_start(s, from + 1)
    }
}

/// The offset right after the last character of `s`, before `upto`, that is
/// no whitespace; 0 where there is none.
pub open spec fn ink_end(s: Seq<char>, upto: int) -> int
    decreases upto,
{
    if upto <= 0 || upto > s.len() {
        0
    } else if !white_space(s[upto - 1]) {
        upto
    } else {
        ink_end(s, upto - 1)
    }
}

/// A text without the whitespace at its two ends: what stands from its
/// first to its last character that is no whitespace; nothing where all of
/// it is whitespace.
pub open spec fn trimmed_of(s: Seq<char>) -> Seq<char> {
    let start = ink_start(s, 0);
    let end = ink_end(s, s.len() as int);
    if start >= end {
        Seq::empty()
    } else {
        s.subrange(start, end)
    }
}

/// Calls `str::to_lowercase`. Trusted: the result is the Unicode lowercase
/// mapping of the argument, which this library names and does not define.
#[verifier::external_body]
pub(crate) fn lowercase(s: &str) -> (r: String)
    ensures
        r@ == lowercase_of(s@),
{
    s.to_lowercase()
}

/// Calls `str::to_uppercase`. Trusted: the result is the Unicode uppercase
/// mapping of the argument, which this library names and does not define.
#[verifier::external_body]
pub(crate) fn uppercase(s: &str) -> (r: String)
    ensures
        r@ == uppercase_of(s@),
{
    s.to_uppercase()
}

/// Whether a character is whitespace.
pub fn is_white_space(c: char) -> (white: bool)
    ensures
        white == white_space(c),
{
    let n = c as u32;
    (0x0009 <= n && n <= 0x000D) || n == 0x0020 || n == 0x0085 || n == 0x00A0 || n == 0x1680 || (
    0x2000 <= n && n <= 0x200A) || n == 0x2028 || n == 0x2029 || n == 0x202F || n == 0x205F || n
        == 0x3000
}

/// A text without the whitespace at its two ends.
pub fn trimmed(s: &str) -> (r: &str)
    ensures
        r@ == trimmed_of(s@),
{
    let chars = chars_of(s);
    let mut start: usize = 0;
    while start < chars.len() && is_white_space(chars[start])
        invariant
            chars@ == s@,
            start <= chars.len(),
            ink_start(s@, 0) == ink_start(s@, start as int),
        decreases chars.len() - start,
    {
        start += 1;
    }
    if start == chars.len() {
        proof {
            lemma_ink_end_bounds(s@, s@.len() as int);
        }
        return s.substring_char(0, 0);
    }
    let mut end: usize = chars.len();
    while is_white_space(chars[end - 1])
        invariant
            chars@ == s@,
            start < end <= chars.len(),
            !white_space(s@[start as int]),
            ink_end(s@, s@.len() as int) == ink_end(s@, end as int),
        decreases end,
    {
        end -= 1;
    }
    s.substring_char(start, end)
}

/// The end of the ink lies within the text looked at.
pub proof fn lemma_ink_end_bounds(s: Seq<char>, upto: int)
    requires
        0 <= upto <= s.len(),
    ensures
        0 <= ink_end(s, upto) <= upto,
        ink_end(s, upto) > 0 ==> !white_space(s[ink_end(s, upto) - 1]),
        forall|k: int| ink_end(s, upto) <= k < upto ==> white_space(s[k]),
    decreases upto,
{
    if upto > 0 && white_space(s[upto - 1]) {
        lemma_ink_end_bounds(s, upto - 1);
    }
}

/// The start of the ink lies within the text looked at.
pub proof fn lemma_ink_start_bounds(s: Seq<char>, from: int)
    requires
        0 <= from <= s.len(),
    ensures
        from <= ink_start(s, from) <= s.len(),
        ink_start(s, from) < s.len() ==> !white_space(s[ink_start(s, from)]),
        forall|k: int| from <= k < ink_start(s, from) ==> white_space(s[k]),
    decreases s.len() - from,
{
    if from < s.len() && white_space(s[from]) {
        lemma_ink_start_bounds(s, from + 1);
    }
}

/// Trimming takes whitespace away from the two ends and nothing else: the
/// text is some whitespace, then the trimmed text, then some whitespace,
/// and the trimmed text neither starts nor ends with whitespace.
pub proof fn trimming_takes_only_whitespace(s: Seq<char>)
    ensures
        exists|a: int, b: int|
            {
                &&& 0 <= a <= b <= s.len()
                &&& #[trigger] s.subrange(a, b) == trimmed_of(s)
                &&& forall|k: int| 0 <= k < a ==> white_space(s[k])
                &&& forall|k: int| b <= k < s.len() ==> white_space(s[k])
            },
        trimmed_of(s).len() > 0 ==> !white_space(trimmed_of(s).first()) && !white_space(
            trimmed_of(s).last(),
        ),
        forall|k: int| 0 <= k < s.len() && !white_space(s[k]) ==> trimmed_of(s).len() > 0,
{
    let start = ink_start(s, 0);
    let end = ink_end(s, s.len() as int);
    lemma_ink_start_bounds(s, 0);
    lemma_ink_end_bounds(s, s.len() as int);
    if start >= end {
        if start < s.len() {
            assert(!white_space(s[start]));
            assert(end <= start < s.len());
            assert(false);
        }
        assert(s.subrange(s.len() as int, s.len() as int) =~= Seq::<char>::empty());
    } else {
        assert(s.subrange(start, end).first() == s[start]);
        assert(s.subrange(start, end).last() == s[end - 1]);
    }
}

/// An answer to a yes-or-no question that says yes: it reads `y` once the
/// whitespace at its ends is gone and it is in lowercase.
pub open spec fn says_yes(answer: Seq<char>) -> bool {
    lowercase_of(trimmed_of(answer)) == "y"@
}

/// Whether an answer, already trimmed and in lowercase, says yes.
pub fn is_yes(normalized: &str) -> (yes: bool)
    ensures
        yes == (normalized@ == "y"@),
{
    same_text(normalized, "y")
}

/// Whether an answer to a yes-or-no question says yes. Anything else,
/// nothing included, says no.
pub fn confirmed(answer: &str) -> (yes: bool)
    ensures
        yes == says_yes(answer@),
{
    let normalized = lowercase(trimmed(answer));
    is_yes(normalized.as_str())
}

/// The characters of `s`, in order.
pub fn chars_of(s: &str) -> (v: Vec<char>)
    ensures
        v@ == s@,
{
    let mut v: Vec<char> = Vec::new();
    for c in it: s.chars()
        invariant
            it.seq() == s@,
            v@ =~= it.seq().take(it.index() as int),
    {
        v.push(c);
    }
    v
}

/// Whether two texts hold the same characters.
pub fn same_text(a: &str, b: &str) -> (same: bool)
    ensures
        same == (a@ == b@),
{
    let x = chars_of(a);
    let y = chars_of(b);
    if x.len() != y.len() {
        return false;
    }
    let mut i: usize = 0;
    while i < x.len()
        invariant
            x@ == a@,
            y@ == b@,
            x.len() == y.len(),
            i <= x.len(),
            forall|k: int| 0 <= k < i ==> x@[k] == y@[k],
        decreases x.len() - i,
    {
        if x[i] != y[i] {
            return false;
        }
        i += 1;
    }
    assert(x@ =~= y@);
    true
}

/// Whether `needle` stands in `hay` at offset `at`.
fn matches_at(hay: &Vec<char>, needle: &Vec<char>, at: usize) -> (hit: bool)
    requires
        at + needle.len() <= hay.len(),
    ensures
        hit == occurs_at(hay@, needle@, at as int),
{
    let mut k: usize = 0;
    while k < needle.len()
        invariant
            at + needle.len() <= hay.len(),
            k <= needle.len(),
            forall|j: int| 0 <= j < k ==> hay@[at + j] == needle@[j],
        decreases needle.len() - k,
    {
        if hay[at + k] != needle[k] {
            assert(hay@.subrange(at as int, at + needle.len())[k as int] != needle@[k as int]);
            return false;
        }
        k += 1;
    }
    assert(hay@.subrange(at as int, at + needle.len()) =~= needle@);
    true
}

/// Whether `needle` occurs in `hay`. The empty text occurs in every text.
pub fn contains(hay: &str, needle: &str) -> (found: bool)
    ensures
        found == occurs_in(hay@, needle@),
{
    let h = chars_of(hay);
    let n = chars_of(needle);
    if n.len() > h.len() {
        return false;
    }
    let last: usize = h.len() - n.len();
    let mut at: usize = 0;
    loop
        invariant
            h@ == hay@,
            n@ == needle@,
            n.len() <= h.len(),
            last == h.len() - n.len(),
            at <= last,
            forall|j: int| 0 <= j < at ==> !occurs_at(h@, n@, j),
        decreases last - at,
    {
        if matches_at(&h, &n, at) {
            return true;
        }
        if at == last {
            return false;
        }
        at += 1;
    }
}

/// Whether `s` ends with `suffix`.
pub fn ends_with(s: &str, suffix: &str) -> (ends: bool)
    ensures
        ends == has_suffix(s@, suffix@),
{
    let h = chars_of(s);
    let n = chars_of(suffix);
    if n.len() > h.len() {
        return false;
    }
    matches_at(&h, &n, h.len() - n.len())
}

/// The one-character text of a digit.
fn digit_text(d: u64) -> (t: &'static str)
    requires
        d < 10,
    ensures
        t@ == seq![digit_char(d as nat)],
{
    proof {
        reveal_strlit("0");
        reveal_strlit("1");
        reveal_strlit("2");
        reveal_strlit("3");
        reveal_strlit("4");
        reveal_strlit("5");
        reveal_strlit("6");
        reveal_strlit("7");
        reveal_strlit("8");
        reveal_strlit("9");
    }
    let t = if d == 0 {
        "0"
    } else if d == 1 {
        "1"
    } else if d == 2 {
        "2"
    } else if d == 3 {
        "3"
    } else if d == 4 {
        "4"
    } else if d == 5 {
        "5"
    } else if d == 6 {
        "6"
    } else if d == 7 {
        "7"
    } else if d == 8 {
        "8"
    } else {
        "9"
    };
    assert(t@ =~= seq![digit_char(d as nat)]);
    t
}

/// Appends the decimal numeral of `n` to `out`.
pub fn push_decimal(out: &mut String, n: u64)
    ensures
        final(out)@ == old(out)@ + decimal_digits(n as nat),
    decreases n,
{
    if n >= 10 {
        push_decimal(out, n / 10);
    }
    out.append(digit_text(n % 10));
    proof {
        let d = digit_char((n % 10) as nat);
        if n >= 10 {
            assert(old(out)@ + decimal_digits((n / 10) as nat) + seq![d] =~= old(out)@
                + decimal_digits((n / 10) as nat).push(d));
        }
    }
}

/// The decimal numeral of `n`.
pub fn decimal(n: u64) -> (text: String)
    ensures
        text@ == decimal_digits(n as nat),
{
    let mut text = String::new();
    push_decimal(&mut text, n);
    assert(Seq::<char>::empty() + decimal_digits(n as nat) =~= decimal_digits(n as nat));
    text
}

/// A numeral writes its number: read back, the decimal numeral of `n` is
/// `n`; it has a digit, and it starts with a zero only where `n` is zero.
pub proof fn numeral_reads_back(n: nat)
    ensures
        numeral_value(decimal_digits(n)) == n,
        decimal_digits(n).len() >= 1,
        decimal_digits(n)[0] == '0' ==> n == 0,
    decreases n,
{
    if n < 10 {
        assert(decimal_digits(n).drop_last() =~= Seq::<char>::empty());
        assert(numeral_value(Seq::<char>::empty()) == 0);
    } else {
        numeral_reads_back(n / 10);
        let head = decimal_digits(n / 10);
        assert(head.push(digit_char(n % 10)).drop_last() =~= head);
        assert(head.push(digit_char(n % 10))[0] == head[0]);
    }
}

} // verus!

//! Text helpers over sequences of characters.
//!
//! Every string in this crate is modelled by its view, a `Seq<char>`. The
//! functions here scan a string once into a `Vec<char>` and cut their results
//! out of the string by character indices, so that each contract can be
//! stated over the view alone.

use vstd::prelude::*;
use vstd::string::*;

verus! {

/// Whether `c` carries the Unicode `White_Space` property.
pub open spec fn is_white_space(c: char) -> bool {
    let n = c as u32;
    (0x09 <= n <= 0x0D) || n == 0x20 || n == 0x85 || n == 0xA0 || n == 0x1680 || (0x2000 <= n
        <= 0x200A) || n == 0x2028 || n == 0x2029 || n == 0x202F || n == 0x205F || n == 0x3000
}

/// Index of the first character at or after `i` that is not white space, or
/// the length of `s` if there is none.
pub open spec fn skip_space(s: Seq<char>, i: int) -> int
    decreases s.len() - i,
{
    if 0 <= i < s.len() && is_white_space(s[i]) {
        skip_space(s, i + 1)
    } else {
        i
    }
}

/// Index just past the last character before `j` that is not white space,
/// never going below `lo`.
pub open spec fn back_space(s: Seq<char>, lo: int, j: int) -> int
    decreases j,
{
    if 0 <= lo < j <= s.len() && is_white_space(s[j - 1]) {
        back_space(s, lo, j - 1)
    } else {
        j
    }
}

/// `s` without its leading white space.
pub open spec fn trimmed_start(s: Seq<char>) -> Seq<char> {
    s.subrange(skip_space(s, 0), s.len() as int)
}

/// `s` without its trailing white space.
pub open spec fn trimmed_end(s: Seq<char>) -> Seq<char> {
    s.subrange(0, back_space(s, 0, s.len() as int))
}

/// `s` without its leading and trailing white space.
pub open spec fn trimmed(s: Seq<char>) -> Seq<char> {
    let a = skip_space(s, 0);
    s.subrange(a, back_space(s, a, s.len() as int))
}

/// Index of the first line feed at or after `i`, or the length of `s`.
pub open spec fn line_end(s: Seq<char>, i: int) -> int
    decreases s.len() - i,
{
    if 0 <= i < s.len() && s[i] != '\n' {
        line_end(s, i + 1)
    } else {
        i
    }
}

/// `line` without one trailing carriage return.
pub open spec fn without_cr(line: Seq<char>) -> Seq<char> {
    if line.len() > 0 && line.last() == '\r' {
        line.drop_last()
    } else {
        line
    }
}

/// The lines of `s` from index `i` on. A line ends at a line feed, which is
/// dropped together with a carriage return directly before it. The last line
/// needs no line feed, and keeps a carriage return at its end.
pub open spec fn lines_from(s: Seq<char>, i: int) -> Seq<Seq<char>>
    decreases s.len() - i,
    via lines_from_decreases
{
    if 0 <= i < s.len() {
        let e = line_end(s, i);
        if e < s.len() {
            seq![without_cr(s.subrange(i, e))] + lines_from(s, e + 1)
        } else {
            seq![s.subrange(i, e)]
        }
    } else {
        Seq::empty()
    }
}

#[via_fn]
proof fn lines_from_decreases(s: Seq<char>, i: int) {
    if 0 <= i < s.len() {
        lemma_line_end_bounds(s, i);
    }
}

/// The lines of `s`.
pub open spec fn lines_of(s: Seq<char>) -> Seq<Seq<char>> {
    lines_from(s, 0)
}

/// `line_end` stays within the string and stops on a line feed.
pub proof fn lemma_line_end_bounds(s: Seq<char>, i: int)
    requires
        0 <= i <= s.len(),
    ensures
        i <= line_end(s, i) <= s.len(),
        line_end(s, i) < s.len() ==> s[line_end(s, i)] == '\n',
        forall|k: int| i <= k < line_end(s, i) ==> s[k] != '\n',
    decreases s.len() - i,
{
    if i < s.len() && s[i] != '\n' {
        lemma_line_end_bounds(s, i + 1);
    }
}

/// `skip_space` stays within the string and stops on a character that is not
/// white space.
pub proof fn lemma_skip_space_bounds(s: Seq<char>, i: int)
    requires
        0 <= i <= s.len(),
    ensures
        i <= skip_space(s, i) <= s.len(),
        skip_space(s, i) < s.len() ==> !is_white_space(s[skip_space(s, i)]),
        forall|k: int| i <= k < skip_space(s, i) ==> is_white_space(s[k]),
    decreases s.len() - i,
{
    if i < s.len() && is_white_space(s[i]) {
        lemma_skip_space_bounds(s, i + 1);
    }
}

/// `back_space` stays between `lo` and `j` and stops behind a character that
/// is not white space.
pub proof fn lemma_back_space_bounds(s: Seq<char>, lo: int, j: int)
    requires
        0 <= lo <= j <= s.len(),
    ensures
        lo <= back_space(s, lo, j) <= j,
        back_space(s, lo, j) > lo ==> !is_white_space(s[back_space(s, lo, j) - 1]),
        forall|k: int| back_space(s, lo, j) <= k < j ==> is_white_space(s[k]),
    decreases j,
{
    if lo < j && is_white_space(s[j - 1]) {
        lemma_back_space_bounds(s, lo, j - 1);
    }
}

/// Trimming leaves nothing to trim: the result neither starts nor ends with
/// white space, and trimming it again changes nothing.
pub proof fn law_trim_is_idempotent(s: Seq<char>)
    ensures
        trimmed(s).len() > 0 ==> !is_white_space(trimmed(s).first()) && !is_white_space(
            trimmed(s).last(),
        ),
        trimmed(trimmed(s)) == trimmed(s),
{
    let a = skip_space(s, 0);
    lemma_skip_space_bounds(s, 0);
    let b = back_space(s, a, s.len() as int);
    lemma_back_space_bounds(s, a, s.len() as int);
    let t = trimmed(s);
    if t.len() > 0 {
        assert(t.first() == s[a]);
        assert(t.last() == s[b - 1]);
        assert(skip_space(t, 0) == 0);
        assert(back_space(t, 0, t.len() as int) == t.len());
        assert(t.subrange(0, t.len() as int) == t);
    } else {
        assert(skip_space(t, 0) == 0);
        assert(back_space(t, 0, 0) == 0);
        assert(t.subrange(0, 0) == t);
    }
}

/// Tells whether `c` is white space.
pub fn is_whitespace(c: char) -> (b: bool)
    ensures
        b == is_white_space(c),
{
    let n: u32 = c as u32;
    (0x09 <= n && n <= 0x0D) || n == 0x20 || n == 0x85 || n == 0xA0 || n == 0x1680 || (0x2000
        <= n && n <= 0x200A) || n == 0x2028 || n == 0x2029 || n == 0x202F || n == 0x205F || n
        == 0x3000
}

/// The characters of `s`, in order.
pub fn chars_of(s: &str) -> (v: Vec<char>)
    ensures
        v@ == s@,
{
    let mut v: Vec<char> = Vec::new();
    for c in it: s.chars()
        invariant
            it.seq() == s@,
            v@ == it.seq().take(it.index()),
    {
        v.push(c);
    }
    v
}

/// Tells whether two strings hold the same characters.
pub fn same_text(a: &str, b: &str) -> (r: bool)
    ensures
        r == (a@ == b@),
{
    let x = chars_of(a);
    let y = chars_of(b);
    if x.len() != y.len() {
        return false;
    }
    let mut i: usize = 0;
    while i < x.len()
        invariant
            i <= x.len(),
            x.len() == y.len(),
            x@ == a@,
            y@ == b@,
            forall|k: int| 0 <= k < i ==> x@[k] == y@[k],
        decreases x.len() - i,
    {
        if x[i] != y[i] {
            return false;
        }
        i += 1;
    }
    assert(x@ =~= y@);
    true
}

/// Index of the first character of `v` at or after `from` that is not white
/// space.
pub fn first_non_space(v: &Vec<char>, from: usize) -> (i: usize)
    requires
        from <= v.len(),
    ensures
        i == skip_space(v@, from as int),
        from <= i <= v.len(),
{
    let mut i: usize = from;
    while i < v.len() && is_whitespace(v[i])
        invariant
            from <= i <= v.len(),
            skip_space(v@, from as int) == skip_space(v@, i as int),
        decreases v.len() - i,
    {
        i += 1;
    }
    i
}

/// Index just past the last character of `v` before `to` that is not white
/// space, never below `lo`.
pub fn last_non_space(v: &Vec<char>, lo: usize, to: usize) -> (j: usize)
    requires
        lo <= to <= v.len(),
    ensures
        j == back_space(v@, lo as int, to as int),
        lo <= j <= to,
{
    let mut j: usize = to;
    while j > lo && is_whitespace(v[j - 1])
        invariant
            lo <= j <= to,
            to <= v.len(),
            back_space(v@, lo as int, to as int) == back_space(v@, lo as int, j as int),
        decreases j,
    {
        j -= 1;
    }
    j
}

/// `s` without its leading and trailing white space.
pub fn trim(s: &str) -> (r: String)
    ensures
        r@ == trimmed(s@),
{
    let v = chars_of(s);
    let a = first_non_space(&v, 0);
    let b = last_non_space(&v, a, v.len());
    s.substring_char(a, b).to_owned()
}

/// `s` without its leading white space.
pub fn trim_start(s: &str) -> (r: String)
    ensures
        r@ == trimmed_start(s@),
{
    let v = chars_of(s);
    let a = first_non_space(&v, 0);
    s.substring_char(a, v.len()).to_owned()
}

/// `s` without its trailing white space.
pub fn trim_end(s: &str) -> (r: String)
    ensures
        r@ == trimmed_end(s@),
{
    let v = chars_of(s);
    let b = last_non_space(&v, 0, v.len());
    s.substring_char(0, b).to_owned()
}

/// The views of a sequence of strings.
pub open spec fn views(v: Seq<String>) -> Seq<Seq<char>> {
    v.map_values(|x: String| x@)
}

/// The lines of `s`, as `str::lines` yields them.
pub fn split_lines(s: &str) -> (out: Vec<String>)
    ensures
        views(out@) == lines_of(s@),
{
    let v = chars_of(s);
    let mut out: Vec<String> = Vec::new();
    let mut i: usize = 0;
    assert(views(out@) + lines_from(s@, 0) =~= lines_of(s@));
    while i < v.len()
        invariant
            i <= v.len(),
            v@ == s@,
            lines_of(s@) == views(out@) + lines_from(s@, i as int),
        decreases v.len() - i,
    {
        let mut e: usize = i;
        while e < v.len() && v[e] != '\n'
            invariant
                i <= e <= v.len(),
                line_end(v@, i as int) == line_end(v@, e as int),
            decreases v.len() - e,
        {
            e += 1;
        }
        let ghost before = views(out@);
        if e < v.len() {
            let stop: usize = if e > i && v[e - 1] == '\r' {
                e - 1
            } else {
                e
            };
            let line = s.substring_char(i, stop).to_owned();
            proof {
                let whole = s@.subrange(i as int, e as int);
                assert(whole.len() > 0 ==> whole.last() == s@[e - 1]);
                assert(line@ == without_cr(whole));
            }
            out.push(line);
            proof {
                assert(views(out@) =~= before.push(line@));
                assert(before + lines_from(s@, i as int) =~= views(out@) + lines_from(
                    s@,
                    e + 1,
                ));
            }
            i = e + 1;
        } else {
            let line = s.substring_char(i, e).to_owned();
            out.push(line);
            proof {
                assert(views(out@) =~= before.push(line@));
                assert(before + lines_from(s@, i as int) =~= views(out@) + lines_from(
                    s@,
                    e as int,
                ));
            }
            i = e;
        }
    }
    assert(lines_from(s@, i as int) =~= Seq::<Seq<char>>::empty());
    assert(views(out@) + Seq::<Seq<char>>::empty() =~= views(out@));
    out
}

/// The character of the decimal digit `d`.
pub open spec fn digit_char(d: nat) -> char {
    if d == 0 {
        '0'
    } else if d == 1 {
        '1'
    } else if d == 2 {
        '2'
    } else if d == 3 {
        '3'
    } else if d == 4 {
        '4'
    } else if d == 5 {
        '5'
    } else if d == 6 {
        '6'
    } else if d == 7 {
        '7'
    } else if d == 8 {
        '8'
    } else {
        '9'
    }
}

/// `n` in decimal digits, without leading zeros.
pub open spec fn decimal(n: nat) -> Seq<char>
    decreases n,
{
    if n < 10 {
        seq![digit_char(n)]
    } else {
        decimal(n / 10).push(digit_char(n % 10))
    }
}

/// The one-character string of the decimal digit `d`.
pub fn digit_str(d: u64) -> (r: &'static str)
    requires
        d < 10,
    ensures
        r@ == seq![digit_char(d as nat)],
{
    proof {
        reveal_strlit("0");
        reveal_strlit("1");
        reveal_strlit("2");
        reveal_strlit("3");
        reveal_strlit("4");
        reveal_strlit("5");
        reveal_strlit("6");
        reveal_strlit("7");
        reveal_strlit("8");
        reveal_strlit("9");
    }
    let r = if d == 0 {
        "0"
    } else if d == 1 {
        "1"
    } else if d == 2 {
        "2"
    } else if d == 3 {
        "3"
    } else if d == 4 {
        "4"
    } else if d == 5 {
        "5"
    } else if d == 6 {
        "6"
    } else if d == 7 {
        "7"
    } else if d == 8 {
        "8"
    } else {
        "9"
    };
    assert(r@ =~= seq![digit_char(d as nat)]);
    r
}

/// `n` in decimal digits, without leading zeros.
pub fn to_decimal(n: u64) -> (r: String)
    ensures
        r@ == decimal(n as nat),
    decreases n,
{
    if n < 10 {
        digit_str(n).to_owned()
    } else {
        let head = to_decimal(n / 10);
        let r = head.concat(digit_str(n % 10));
        assert(r@ =~= decimal(n as nat));
        r
    }
}

/// Whether `c` is one of the ten decimal digits.
pub open spec fn is_digit(c: char) -> bool {
    0x30 <= c as u32 <= 0x39
}

/// The value of the decimal digit `c`.
pub open spec fn digit_value(c: char) -> nat {
    (c as u32 - 0x30) as nat
}

/// Whether `s` holds decimal digits only.
pub open spec fn all_digits(s: Seq<char>) -> bool {
    forall|i: int| 0 <= i < s.len() ==> is_digit(#[trigger] s[i])
}

/// The number that the decimal digits `s` write.
pub open spec fn digits_value(s: Seq<char>) -> nat
    decreases s.len(),
{
    if s.len() == 0 {
        0
    } else {
        digits_value(s.drop_last()) * 10 + digit_value(s.last())
    }
}

/// The number that `s` writes, as `u64::from_str` reads it: one plus sign
/// may stand in front, at least one decimal digit follows and nothing else,
/// and the number fits into 64 bits.
pub open spec fn parsed_u64(s: Seq<char>) -> Option<u64> {
    let digits = unsigned_part(s);
    if digits.len() > 0 && all_digits(digits) && digits_value(digits) <= u64::MAX {
        Some(digits_value(digits) as u64)
    } else {
        None
    }
}

/// A number is at least as large as the one that its first `i` digits write.
pub proof fn lemma_digits_value_grows(s: Seq<char>, i: int)
    requires
        0 <= i <= s.len(),
    ensures
        digits_value(s.take(i)) <= digits_value(s),
    decreases s.len() - i,
{
    if i < s.len() {
        lemma_digits_value_grows(s, i + 1);
        assert(s.take(i + 1).drop_last() =~= s.take(i));
    } else {
        assert(s.take(i) =~= s);
    }
}

/// What is left of `s` without a plus sign in front.
pub open spec fn unsigned_part(s: Seq<char>) -> Seq<char> {
    if s.len() > 0 && s[0] == '+' {
        s.skip(1)
    } else {
        s
    }
}

/// The number that `s` writes, as `u64::from_str` reads it.
pub fn parse_u64(s: &str) -> (r: Option<u64>)
    ensures
        r == parsed_u64(s@),
{
    let v = chars_of(s);
    let start: usize = if v.len() > 0 && v[0] == '+' {
        1
    } else {
        0
    };
    let ghost digits = unsigned_part(s@);
    assert(digits =~= s@.skip(start as int));
    if v.len() == start {
        return None;
    }
    let mut value: u64 = 0;
    let mut i: usize = start;
    assert(digits.take(0) =~= Seq::<char>::empty());
    while i < v.len()
        invariant
            start <= i <= v.len(),
            v@ == s@,
            digits == unsigned_part(s@),
            digits == s@.skip(start as int),
            digits.len() > 0,
            all_digits(digits.take(i - start)),
            value == digits_value(digits.take(i - start)),
        decreases v.len() - i,
    {
        let c = v[i];
        let n: u32 = c as u32;
        assert(digits[i - start] == c);
        if n < 0x30 || n > 0x39 {
            assert(!is_digit(digits[i - start]));
            return None;
        }
        let d: u64 = (n - 0x30) as u64;
        proof {
            assert(digits.take(i - start + 1).drop_last() =~= digits.take(i - start));
            assert(digits.take(i - start + 1).last() == c);
            lemma_digits_value_grows(digits, i - start + 1);
            assert(digits_value(digits.take(i - start + 1)) == value * 10 + d);
            assert forall|k: int| 0 <= k < i - start + 1 implies is_digit(
                #[trigger] digits.take(i - start + 1)[k],
            ) by {
                if k < i - start {
                    assert(digits.take(i - start)[k] == digits.take(i - start + 1)[k]);
                }
            }
        }
        if value > (u64::MAX - d) / 10 {
            return None;
        }
        value = value * 10 + d;
        i += 1;
    }
    assert(digits.take(i - start) =~= digits);
    Some(value)
}

/// Whether `needle` stands in `hay` at index `i`.
pub open spec fn matches_at(hay: Seq<char>, needle: Seq<char>, i: int) -> bool {
    0 <= i && i + needle.len() <= hay.len() && hay.subrange(i, i + needle.len()) == needle
}

/// Index of the first place at or after `i` where `needle` stands in `hay`.
pub open spec fn find_from(hay: Seq<char>, needle: Seq<char>, i: int) -> Option<int>
    decreases hay.len() + 1 - i,
{
    if i < 0 || i + needle.len() > hay.len() {
        None
    } else if matches_at(hay, needle, i) {
        Some(i)
    } else {
        find_from(hay, needle, i + 1)
    }
}

/// Whether `needle` stands somewhere in `hay`.
pub open spec fn holds(hay: Seq<char>, needle: Seq<char>) -> bool {
    find_from(hay, needle, 0) is Some
}

/// `hay` from index `i` on with each `needle` replaced by `with`, the places
/// taken from the left and without overlap.
pub open spec fn replaced_from(hay: Seq<char>, needle: Seq<char>, with: Seq<char>, i: int) -> Seq<
    char,
>
    decreases hay.len() - i,
{
    if i < 0 || i >= hay.len() || needle.len() == 0 {
        Seq::empty()
    } else if matches_at(hay, needle, i) {
        with + replaced_from(hay, needle, with, i + needle.len())
    } else {
        seq![hay[i]] + replaced_from(hay, needle, with, i + 1)
    }
}

/// `hay` with each `needle` replaced by `with`, as `str::replace` does it
/// for a needle that is not empty.
pub open spec fn replaced(hay: Seq<char>, needle: Seq<char>, with: Seq<char>) -> Seq<char> {
    replaced_from(hay, needle, with, 0)
}

/// Index of the first `c` in `s` at or after `i`, or the length of `s`.
pub open spec fn index_of(s: Seq<char>, c: char, i: int) -> int
    decreases s.len() - i,
{
    if 0 <= i < s.len() && s[i] != c {
        index_of(s, c, i + 1)
    } else {
        i
    }
}

/// Index just behind the last `c` in the first `j` characters of `s`, or
/// zero if there is none.
pub open spec fn end_of_last(s: Seq<char>, c: char, j: int) -> int
    decreases j,
{
    if 0 < j <= s.len() && s[j - 1] != c {
        end_of_last(s, c, j - 1)
    } else {
        j
    }
}

/// Index of the first character of `s` at or after `i` that is not `c`.
pub open spec fn skip_char(s: Seq<char>, c: char, i: int) -> int
    decreases s.len() - i,
{
    if 0 <= i < s.len() && s[i] == c {
        skip_char(s, c, i + 1)
    } else {
        i
    }
}

/// Index just behind the last character of the first `j` of `s` that is not `c`.
pub open spec fn back_char(s: Seq<char>, c: char, j: int) -> int
    decreases j,
{
    if 0 < j <= s.len() && s[j - 1] == c {
        back_char(s, c, j - 1)
    } else {
        j
    }
}

/// `find_from` answers with a place where the needle stands, and there is
/// none before it.
pub proof fn lemma_find_from(hay: Seq<char>, needle: Seq<char>, i: int)
    requires
        0 <= i,
    ensures
        match find_from(hay, needle, i) {
            Some(at) => i <= at && matches_at(hay, needle, at) && forall|k: int|
                i <= k < at ==> !matches_at(hay, needle, k),
            None => forall|k: int| i <= k ==> !matches_at(hay, needle, k),
        },
    decreases hay.len() + 1 - i,
{
    if i + needle.len() <= hay.len() && !matches_at(hay, needle, i) {
        lemma_find_from(hay, needle, i + 1);
    }
}

/// Tells whether `needle` stands in `hay` at index `i`.
pub fn is_match_at(hay: &Vec<char>, needle: &Vec<char>, i: usize) -> (r: bool)
    ensures
        r == matches_at(hay@, needle@, i as int),
{
    if needle.len() > hay.len() || i > hay.len() - needle.len() {
        return false;
    }
    let mut k: usize = 0;
    while k < needle.len()
        invariant
            k <= needle@.len(),
            i + needle.len() <= hay.len(),
            forall|j: int| 0 <= j < k ==> hay@[i + j] == needle@[j],
        decreases needle@.len() - k,
    {
        if hay[i + k] != needle[k] {
            assert(hay@.subrange(i as int, i + needle@.len())[k as int] != needle@[k as int]);
            return false;
        }
        k += 1;
    }
    assert(hay@.subrange(i as int, i + needle@.len()) =~= needle@);
    true
}

/// Index of the first place at or after `from` where `needle` stands in `hay`.
pub fn find_in(hay: &Vec<char>, needle: &Vec<char>, from: usize) -> (r: Option<usize>)
    ensures
        match r {
            Some(at) => find_from(hay@, needle@, from as int) == Some(at as int),
            None => find_from(hay@, needle@, from as int) is None,
        },
{
    if needle.len() > hay.len() {
        return None;
    }
    let last = hay.len() - needle.len();
    let mut i: usize = from;
    while i <= last
        invariant
            from <= i,
            last == hay@.len() - needle@.len(),
            find_from(hay@, needle@, from as int) == find_from(hay@, needle@, i as int),
        decreases last + 1 - i,
    {
        if is_match_at(hay, needle, i) {
            return Some(i);
        }
        if i == last {
            assert(find_from(hay@, needle@, i + 1) is None);
            return None;
        }
        i += 1;
    }
    None
}

/// Tells whether `needle` stands somewhere in `hay`.
pub fn contains(hay: &str, needle: &str) -> (r: bool)
    ensures
        r == holds(hay@, needle@),
{
    let h = chars_of(hay);
    let n = chars_of(needle);
    find_in(&h, &n, 0).is_some()
}

/// `hay` with each `needle` replaced by `with`.
pub fn replace(hay: &str, needle: &str, with: &str) -> (r: String)
    requires
        needle@.len() > 0,
    ensures
        r@ == replaced(hay@, needle@, with@),
{
    let h = chars_of(hay);
    let n = chars_of(needle);
    let mut out = String::new();
    let mut run: usize = 0;
    let mut i: usize = 0;
    assert(hay@.subrange(0, 0) =~= Seq::<char>::empty());
    while i < h.len()
        invariant
            run <= i <= h.len(),
            h@ == hay@,
            n@ == needle@,
            needle@.len() > 0,
            replaced(hay@, needle@, with@) == out@ + hay@.subrange(run as int, i as int)
                + replaced_from(hay@, needle@, with@, i as int),
        decreases h@.len() - i,
    {
        if is_match_at(&h, &n, i) {
            let ghost before = out@;
            out.append(hay.substring_char(run, i));
            out.append(with);
            proof {
                assert(before + hay@.subrange(run as int, i as int) + (with@ + replaced_from(
                    hay@,
                    needle@,
                    with@,
                    i + needle@.len(),
                )) =~= out@ + hay@.subrange(i + n@.len(), i + n@.len()) + replaced_from(
                    hay@,
                    needle@,
                    with@,
                    i + needle@.len(),
                ));
            }
            i = i + n.len();
            run = i;
        } else {
            proof {
                assert(hay@.subrange(run as int, i as int) + (seq![hay@[i as int]]
                    + replaced_from(hay@, needle@, with@, i + 1)) =~= hay@.subrange(
                    run as int,
                    i + 1,
                ) + replaced_from(hay@, needle@, with@, i + 1));
                assert(out@ + (hay@.subrange(run as int, i as int) + (seq![hay@[i as int]]
                    + replaced_from(hay@, needle@, with@, i + 1))) =~= out@ + hay@.subrange(
                    run as int,
                    i as int,
                ) + (seq![hay@[i as int]] + replaced_from(hay@, needle@, with@, i + 1)));
            }
            i += 1;
        }
    }
    out.append(hay.substring_char(run, h.len()));
    assert(out@ =~= replaced(hay@, needle@, with@));
    out
}

/// Index of the first `c` in `v` at or after `from`, or the length of `v`.
pub fn position_of_char(v: &Vec<char>, c: char, from: usize) -> (r: usize)
    requires
        from <= v.len(),
    ensures
        r == index_of(v@, c, from as int),
        from <= r <= v.len(),
        r < v.len() ==> v@[r as int] == c,
{
    let mut i: usize = from;
    while i < v.len() && v[i] != c
        invariant
            from <= i <= v.len(),
            index_of(v@, c, from as int) == index_of(v@, c, i as int),
        decreases v.len() - i,
    {
        i += 1;
    }
    i
}

/// Index just behind the last `c` in the first `to` characters of `v`, or
/// zero if there is none.
pub fn end_of_last_char(v: &Vec<char>, c: char, to: usize) -> (r: usize)
    requires
        to <= v.len(),
    ensures
        r == end_of_last(v@, c, to as int),
        r <= to,
        r > 0 ==> v@[r - 1] == c,
{
    let mut j: usize = to;
    while j > 0 && v[j - 1] != c
        invariant
            j <= to <= v.len(),
            end_of_last(v@, c, to as int) == end_of_last(v@, c, j as int),
        decreases j,
    {
        j -= 1;
    }
    j
}

/// Index of the first character of `v` at or after `from` that is not `c`.
pub fn first_not_char(v: &Vec<char>, c: char, from: usize) -> (r: usize)
    requires
        from <= v.len(),
    ensures
        r == skip_char(v@, c, from as int),
        from <= r <= v.len(),
{
    let mut i: usize = from;
    while i < v.len() && v[i] == c
        invariant
            from <= i <= v.len(),
            skip_char(v@, c, from as int) == skip_char(v@, c, i as int),
        decreases v.len() - i,
    {
        i += 1;
    }
    i
}

/// Index just behind the last character of the first `to` of `v` that is
/// not `c`.
pub fn last_not_char(v: &Vec<char>, c: char, to: usize) -> (r: usize)
    requires
        to <= v.len(),
    ensures
        r == back_char(v@, c, to as int),
        r <= to,
{
    let mut j: usize = to;
    while j > 0 && v[j - 1] == c
        invariant
            j <= to <= v.len(),
            back_char(v@, c, to as int) == back_char(v@, c, j as int),
        decreases j,
    {
        j -= 1;
    }
    j
}

/// `n` in decimal digits, with a minus sign in front if it is negative.
pub open spec fn signed_decimal(n: int) -> Seq<char> {
    if n < 0 {
        "-"@ + decimal((-n) as nat)
    } else {
        decimal(n as nat)
    }
}

/// `n` in decimal digits, with a minus sign in front if it is negative.
pub fn to_signed_decimal(n: i64) -> (r: String)
    ensures
        r@ == signed_decimal(n as int),
{
    if n < 0 {
        let magnitude: u64 = ((-(n + 1)) as u64) + 1;
        let digits = to_decimal(magnitude);
        "-".to_owned().concat(digits.as_str())
    } else {
        to_decimal(n as u64)
    }
}

/// Index of the first character of the word that ends at `j`: the index
/// behind the last white space before `j`, or zero.
pub open spec fn word_start(s: Seq<char>, j: int) -> int
    decreases j,
{
    if 0 < j <= s.len() && !is_white_space(s[j - 1]) {
        word_start(s, j - 1)
    } else {
        j
    }
}

/// The last word of `s`, where words are what white space separates. Empty
/// if `s` holds white space only.
pub open spec fn last_word(s: Seq<char>) -> Seq<char> {
    let end = back_space(s, 0, s.len() as int);
    s.subrange(word_start(s, end), end)
}

/// The last word of `s`, if it holds one.
pub fn last_word_of(s: &str) -> (r: Option<String>)
    ensures
        match r {
            Some(word) => word@ == last_word(s@) && word@.len() > 0,
            None => last_word(s@).len() == 0,
        },
{
    let v = chars_of(s);
    let end = last_non_space(&v, 0, v.len());
    let mut start: usize = end;
    while start > 0 && !is_whitespace(v[start - 1])
        invariant
            start <= end <= v.len(),
            word_start(v@, end as int) == word_start(v@, start as int),
        decreases start,
    {
        start -= 1;
    }
    if start == end {
        None
    } else {
        Some(s.substring_char(start, end).to_owned())
    }
}

/// The number that `s` writes, as `u32::from_str` reads it.
pub open spec fn parsed_u32(s: Seq<char>) -> Option<u32> {
    match parsed_u64(s) {
        Some(n) => if n <= u32::MAX {
            Some(n as u32)
        } else {
            None
        },
        None => None,
    }
}

/// The number that `s` writes, as `u32::from_str` reads it.
pub fn parse_u32(s: &str) -> (r: Option<u32>)
    ensures
        r == parsed_u32(s@),
{
    match parse_u64(s) {
        Some(n) => if n <= u32::MAX as u64 {
            Some(n as u32)
        } else {
            None
        },
        None => None,
    }
}

} // verus!

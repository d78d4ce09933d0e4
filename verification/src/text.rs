//! Character-level text helpers shared by the parser and the flow:
//! line splitting, whitespace trimming, the two-space cut, substring
//! search, line-ending removal, and decimal index parsing.

use vstd::prelude::*;

verus! {

/// The whitespace characters that trimming removes.
pub open spec fn is_wspace(c: char) -> bool {
    c == ' ' || c == '\t' || c == '\r' || c == '\n'
}

/// `s` with its trailing newline removed, and a carriage return before
/// that newline removed as well: what remains of one console line once
/// its line ending is gone.
pub open spec fn spec_chomp(s: Seq<char>) -> Seq<char> {
    let t = if s.len() > 0 && s.last() == '\n' {
        s.drop_last()
    } else {
        s
    };
    if t.len() > 0 && t.last() == '\r' {
        t.drop_last()
    } else {
        t
    }
}

/// Removes the line ending from one line read from the console.
pub fn chomp_line(s: &str) -> (r: String)
    ensures
        r@ == spec_chomp(s@),
{
    let n = s.unicode_len();
    let end: usize = if n > 0 && s.get_char(n - 1) == '\n' {
        n - 1
    } else {
        n
    };
    let end2: usize = if end > 0 && s.get_char(end - 1) == '\r' {
        end - 1
    } else {
        end
    };
    let r = String::from_str(s.substring_char(0, end2));
    proof {
        assert(s@.subrange(0, end as int) =~= (if s@.len() > 0 && s@.last() == '\n' {
            s@.drop_last()
        } else {
            s@
        }));
        assert(s@.subrange(0, end2 as int) =~= spec_chomp(s@));
    }
    r
}

/// `s` without its leading whitespace.
pub open spec fn trim_front(s: Seq<char>) -> Seq<char>
    decreases s.len(),
{
    if s.len() > 0 && is_wspace(s[0]) {
        trim_front(s.skip(1))
    } else {
        s
    }
}

/// `s` without its trailing whitespace.
pub open spec fn trim_back(s: Seq<char>) -> Seq<char>
    decreases s.len(),
{
    if s.len() > 0 && is_wspace(s.last()) {
        trim_back(s.drop_last())
    } else {
        s
    }
}

/// `s` without leading and trailing whitespace.
pub open spec fn spec_trim(s: Seq<char>) -> Seq<char> {
    trim_back(trim_front(s))
}

/// Removes leading and trailing whitespace.
pub fn trim_str<'a>(s: &'a str) -> (r: &'a str)
    ensures
        r@ == spec_trim(s@),
{
    let n = s.unicode_len();
    let mut a: usize = 0;
    proof {
        assert(s@.skip(0) =~= s@);
    }
    while a < n && is_wspace_char(s.get_char(a))
        invariant
            0 <= a <= n,
            n == s@.len(),
            trim_front(s@) == trim_front(s@.skip(a as int)),
        decreases n - a,
    {
        proof {
            assert(s@.skip(a as int).skip(1) =~= s@.skip(a as int + 1));
        }
        a = a + 1;
    }
    proof {
        if a < n {
            assert(trim_front(s@.skip(a as int)) == s@.skip(a as int));
        } else {
            assert(s@.skip(a as int) =~= Seq::<char>::empty());
        }
        assert(trim_front(s@) == s@.subrange(a as int, n as int)) by {
            assert(s@.skip(a as int) =~= s@.subrange(a as int, n as int));
        }
    }
    let mut b: usize = n;
    while b > a && is_wspace_char(s.get_char(b - 1))
        invariant
            a <= b <= n,
            n == s@.len(),
            trim_front(s@) == s@.subrange(a as int, n as int),
            trim_back(s@.subrange(a as int, n as int)) == trim_back(
                s@.subrange(a as int, b as int),
            ),
        decreases b,
    {
        proof {
            assert(s@.subrange(a as int, b as int).drop_last() =~= s@.subrange(
                a as int,
                b as int - 1,
            ));
        }
        b = b - 1;
    }
    proof {
        if b > a {
            assert(trim_back(s@.subrange(a as int, b as int)) == s@.subrange(a as int, b as int));
        } else {
            assert(s@.subrange(a as int, b as int) =~= Seq::<char>::empty());
        }
    }
    s.substring_char(a, b)
}

/// Whether `c` is one of the whitespace characters that trimming removes.
pub fn is_wspace_char(c: char) -> (r: bool)
    ensures
        r == is_wspace(c),
{
    c == ' ' || c == '\t' || c == '\r' || c == '\n'
}

/// The length of the prefix of `s` that stops at the first run of two
/// consecutive spaces; `s.len()` when no such run exists.
pub open spec fn seg_end(s: Seq<char>) -> int
    decreases s.len(),
{
    if s.len() < 2 {
        s.len() as int
    } else if s[0] == ' ' && s[1] == ' ' {
        0
    } else {
        1 + seg_end(s.skip(1))
    }
}

/// The prefix of `s` before the first run of two consecutive spaces.
pub open spec fn first_segment(s: Seq<char>) -> Seq<char> {
    s.take(seg_end(s))
}

/// `seg_end` names the least position where two consecutive spaces start,
/// or the whole length when there is no such position.
pub proof fn lemma_seg_end(s: Seq<char>)
    ensures
        0 <= seg_end(s) <= s.len(),
        seg_end(s) < s.len() ==> seg_end(s) + 1 < s.len() && s[seg_end(s)] == ' ' && s[seg_end(s)
            + 1] == ' ',
        forall|i: int| 0 <= i < seg_end(s) && i + 1 < s.len() ==> !((#[trigger] s[i]) == ' ' && s[i + 1] == ' '),
    decreases s.len(),
{
    if s.len() < 2 {
    } else if s[0] == ' ' && s[1] == ' ' {
    } else {
        lemma_seg_end(s.skip(1));
        assert forall|i: int| 0 <= i < seg_end(s) && i + 1 < s.len() implies !((#[trigger] s[i]) == ' ' && s[i + 1] == ' ') by {
            if i > 0 {
                assert(s.skip(1)[i - 1] == s[i] && s.skip(1)[i] == s[i + 1]);
            }
        }
    }
}

/// Cuts `s` at the first run of two consecutive spaces, keeping the part
/// before the run.
pub fn cut_at_double_space<'a>(s: &'a str) -> (r: &'a str)
    ensures
        r@ == first_segment(s@),
{
    let n = s.unicode_len();
    let mut i: usize = 0;
    proof {
        assert(s@.skip(0) =~= s@);
    }
    while i < n && i + 1 < n
        invariant
            0 <= i <= n,
            n == s@.len(),
            seg_end(s@) == i + seg_end(s@.skip(i as int)),
            i + 1 < n ==> s@.skip(i as int).len() >= 2,
        decreases n - i,
    {
        if s.get_char(i) == ' ' && s.get_char(i + 1) == ' ' {
            proof {
                assert(s@.skip(i as int)[0] == ' ' && s@.skip(i as int)[1] == ' ');
                assert(seg_end(s@) == i);
                lemma_seg_end(s@);
            }
            return s.substring_char(0, i);
        }
        proof {
            assert(s@.skip(i as int)[0] == s@[i as int] && s@.skip(i as int)[1] == s@[i as int
                + 1]);
            assert(s@.skip(i as int).skip(1) =~= s@.skip(i as int + 1));
        }
        i = i + 1;
    }
    proof {
        assert(s@.skip(i as int).len() < 2);
        assert(seg_end(s@) == n);
        lemma_seg_end(s@);
        assert(s@.take(n as int) =~= s@);
    }
    s.substring_char(0, n)
}

/// Whether the characters of `pat` occur in `s` starting at position `k`.
pub open spec fn matches_at(s: Seq<char>, pat: Seq<char>, k: int) -> bool {
    &&& 0 <= k
    &&& k + pat.len() <= s.len()
    &&& forall|j: int| 0 <= j < pat.len() ==> s[k + j] == pat[j]
}

/// Whether `pat` occurs somewhere in `s`.
pub open spec fn contains_pat(s: Seq<char>, pat: Seq<char>) -> bool {
    exists|k: int| matches_at(s, pat, k)
}

/// Whether the characters of `pat` occur in `s` at position `k`.
fn match_at(s: &str, pat: &str, k: usize) -> (r: bool)
    requires
        k + pat@.len() <= s@.len() <= usize::MAX,
    ensures
        r == matches_at(s@, pat@, k as int),
{
    let m = pat.unicode_len();
    let mut j: usize = 0;
    while j < m
        invariant
            0 <= j <= m,
            m == pat@.len(),
            k + m <= s@.len() <= usize::MAX,
            forall|j2: int| 0 <= j2 < j ==> s@[k + j2] == pat@[j2],
        decreases m - j,
    {
        if s.get_char(k + j) != pat.get_char(j) {
            proof {
                assert(s@[k as int + j] != pat@[j as int]);
            }
            return false;
        }
        j = j + 1;
    }
    true
}

/// Whether `pat` occurs as a contiguous substring of `s`.
pub fn contains_pattern(s: &str, pat: &str) -> (r: bool)
    ensures
        r == contains_pat(s@, pat@),
{
    let n = s.unicode_len();
    let m = pat.unicode_len();
    if m > n {
        proof {
            assert(forall|k: int| !matches_at(s@, pat@, k));
        }
        return false;
    }
    let mut k: usize = 0;
    while k <= n - m
        invariant
            0 <= k <= n - m + 1,
            m <= n,
            n == s@.len(),
            m == pat@.len(),
            forall|k2: int| 0 <= k2 < k ==> !matches_at(s@, pat@, k2),
        decreases n - m + 1 - k,
    {
        if match_at(s, pat, k) {
            return true;
        }
        k = k + 1;
    }
    proof {
        assert forall|k2: int| !matches_at(s@, pat@, k2) by {
            if 0 <= k2 < k {
            } else {
                assert(!(0 <= k2 && k2 + pat@.len() <= s@.len()) || k2 >= k);
            }
        }
    }
    false
}

/// The numeric value of a digit character; 10 for a non-digit, so that
/// `digit_val(c) < 10` says "`c` is a decimal digit".
pub open spec fn digit_val(c: char) -> nat {
    if c == '0' {
        0
    } else if c == '1' {
        1
    } else if c == '2' {
        2
    } else if c == '3' {
        3
    } else if c == '4' {
        4
    } else if c == '5' {
        5
    } else if c == '6' {
        6
    } else if c == '7' {
        7
    } else if c == '8' {
        8
    } else if c == '9' {
        9
    } else {
        10
    }
}

/// Whether `c` is a decimal digit.
pub open spec fn is_digit(c: char) -> bool {
    digit_val(c) < 10
}

/// Whether every character of `s` is a decimal digit.
pub open spec fn all_digits(s: Seq<char>) -> bool {
    forall|i: int| 0 <= i < s.len() ==> is_digit(#[trigger] s[i])
}

/// The number that the digit string `s` denotes in decimal.
pub open spec fn digits_val(s: Seq<char>) -> nat
    decreases s.len(),
{
    if s.len() == 0 {
        0
    } else {
        digits_val(s.drop_last()) * 10 + digit_val(s.last())
    }
}

/// A digit string denotes at least what any of its prefixes denotes.
proof fn lemma_digits_val_prefix(s: Seq<char>, i: int)
    requires
        0 <= i <= s.len(),
    ensures
        digits_val(s.take(i)) <= digits_val(s),
    decreases s.len() - i,
{
    if i == s.len() {
        assert(s.take(i) =~= s);
    } else {
        assert(s.take(i + 1).drop_last() =~= s.take(i));
        assert(digits_val(s.take(i + 1)) == digits_val(s.take(i)) * 10 + digit_val(
            s.take(i + 1).last(),
        ));
        lemma_digits_val_prefix(s, i + 1);
    }
}

/// The numeric value of the digit character `c`; 10 when `c` is no digit.
fn digit_char_val(c: char) -> (r: usize)
    ensures
        r == digit_val(c),
{
    match c {
        '0' => 0,
        '1' => 1,
        '2' => 2,
        '3' => 3,
        '4' => 4,
        '5' => 5,
        '6' => 6,
        '7' => 7,
        '8' => 8,
        '9' => 9,
        _ => 10,
    }
}

/// Reads `s` as a decimal number.  Returns the number exactly when `s` is
/// a non-empty string of digits whose value fits in `usize`.
pub fn parse_index(s: &str) -> (r: Option<usize>)
    ensures
        match r {
            Some(n) => s@.len() > 0 && all_digits(s@) && n == digits_val(s@),
            None => s@.len() == 0 || !all_digits(s@) || digits_val(s@) > usize::MAX,
        },
{
    let n = s.unicode_len();
    if n == 0 {
        return None;
    }
    let mut acc: usize = 0;
    let mut i: usize = 0;
    proof {
        assert(s@.take(0) =~= Seq::<char>::empty());
    }
    while i < n
        invariant
            0 <= i <= n,
            n == s@.len(),
            forall|j: int| 0 <= j < i ==> is_digit(#[trigger] s@[j]),
            acc == digits_val(s@.take(i as int)),
        decreases n - i,
    {
        let d = digit_char_val(s.get_char(i));
        if d >= 10 {
            proof {
                assert(!is_digit(s@[i as int]));
            }
            return None;
        }
        proof {
            assert(s@.take(i as int + 1).drop_last() =~= s@.take(i as int));
            assert(s@.take(i as int + 1).last() == s@[i as int]);
        }
        let shifted = match acc.checked_mul(10) {
            Some(v) => v,
            None => {
                proof {
                    lemma_digits_val_prefix(s@, i as int + 1);
                }
                return None;
            },
        };
        acc = match shifted.checked_add(d) {
            Some(v) => v,
            None => {
                proof {
                    lemma_digits_val_prefix(s@, i as int + 1);
                }
                return None;
            },
        };
        i = i + 1;
    }
    proof {
        assert(s@.take(n as int) =~= s@);
    }
    Some(acc)
}

/// The lines of `text`, split on every newline character; splitting the
/// empty text gives one empty line, as splitting on a separator does.
pub open spec fn spec_split_lines(text: Seq<char>) -> Seq<Seq<char>>
    decreases text.len(),
{
    if text.len() == 0 {
        seq![Seq::<char>::empty()]
    } else if text[0] == '\n' {
        seq![Seq::<char>::empty()] + spec_split_lines(text.skip(1))
    } else {
        let rest = spec_split_lines(text.skip(1));
        seq![seq![text[0]] + rest[0]] + rest.skip(1)
    }
}

/// Splitting always yields at least one line.
pub proof fn lemma_split_lines_nonempty(text: Seq<char>)
    ensures
        spec_split_lines(text).len() >= 1,
    decreases text.len(),
{
    if text.len() == 0 {
    } else if text[0] == '\n' {
    } else {
        lemma_split_lines_nonempty(text.skip(1));
    }
}

/// Splitting text whose first newline stands at `k` yields the prefix
/// before `k` as the first line, then the lines of the rest.
proof fn lemma_split_lines_head(s: Seq<char>, k: int)
    requires
        0 <= k < s.len(),
        s[k] == '\n',
        forall|j: int| 0 <= j < k ==> s[j] != '\n',
    ensures
        spec_split_lines(s) == seq![s.take(k)] + spec_split_lines(s.skip(k + 1)),
    decreases k,
{
    if k == 0 {
        assert(s.take(0) =~= Seq::<char>::empty());
        assert(seq![s.take(0)] + spec_split_lines(s.skip(1)) =~~= seq![Seq::<char>::empty()]
            + spec_split_lines(s.skip(1)));
    } else {
        let s1 = s.skip(1);
        assert(s[0] != '\n');
        assert forall|j: int| 0 <= j < k - 1 implies s1[j] != '\n' by {
            assert(s1[j] == s[j + 1]);
        }
        assert(s1[k - 1] == s[k]);
        lemma_split_lines_head(s1, k - 1);
        let rest = spec_split_lines(s1);
        lemma_split_lines_nonempty(s1.skip(k));
        assert(rest[0] == s1.take(k - 1));
        assert(rest.skip(1) =~~= spec_split_lines(s1.skip(k)));
        assert(seq![s[0]] + s1.take(k - 1) =~= s.take(k));
        assert(s1.skip(k) =~= s.skip(k + 1));
        assert(spec_split_lines(s) =~~= seq![s.take(k)] + spec_split_lines(s.skip(k + 1)));
    }
}

/// Splitting text without a newline yields that text as the only line.
proof fn lemma_split_lines_whole(s: Seq<char>)
    requires
        forall|j: int| 0 <= j < s.len() ==> s[j] != '\n',
    ensures
        spec_split_lines(s) == seq![s],
    decreases s.len(),
{
    if s.len() == 0 {
        assert(s =~= Seq::<char>::empty());
    } else {
        let s1 = s.skip(1);
        assert forall|j: int| 0 <= j < s1.len() implies s1[j] != '\n' by {
            assert(s1[j] == s[j + 1]);
        }
        lemma_split_lines_whole(s1);
        assert(seq![s[0]] + s1 =~= s);
        assert(spec_split_lines(s) =~~= seq![s]);
    }
}

/// The views of a sequence of owned strings.
pub open spec fn views_of(lines: Seq<String>) -> Seq<Seq<char>> {
    lines.map_values(|l: String| l@)
}

/// Splits `text` into its lines, one owned string per line.
pub fn split_lines(text: &str) -> (r: Vec<String>)
    ensures
        views_of(r@) == spec_split_lines(text@),
{
    let n = text.unicode_len();
    let mut r: Vec<String> = Vec::new();
    let mut start: usize = 0;
    let mut i: usize = 0;
    proof {
        assert(text@.skip(0) =~= text@);
        assert(views_of(r@) =~~= Seq::<Seq<char>>::empty());
    }
    while i < n
        invariant
            0 <= start <= i <= n,
            n == text@.len(),
            forall|j: int| start <= j < i ==> text@[j] != '\n',
            spec_split_lines(text@) == views_of(r@) + spec_split_lines(text@.skip(start as int)),
        decreases n - i,
    {
        if text.get_char(i) == '\n' {
            let line = String::from_str(text.substring_char(start, i));
            proof {
                let tail = text@.skip(start as int);
                assert forall|j: int| 0 <= j < i - start implies tail[j] != '\n' by {
                    assert(tail[j] == text@[start + j]);
                }
                assert(tail[i - start] == text@[i as int]);
                lemma_split_lines_head(tail, i - start);
                assert(tail.take(i - start) =~= text@.subrange(start as int, i as int));
                assert(tail.skip(i - start + 1) =~= text@.skip(i as int + 1));
                assert(views_of(r@.push(line)) =~~= views_of(r@) + seq![line@]);
                assert(views_of(r@) + seq![line@] + spec_split_lines(text@.skip(i as int + 1))
                    =~~= views_of(r@) + (seq![tail.take(i - start)] + spec_split_lines(
                    tail.skip(i - start + 1),
                )));
            }
            r.push(line);
            start = i + 1;
        }
        i = i + 1;
    }
    let line = String::from_str(text.substring_char(start, n));
    proof {
        let tail = text@.skip(start as int);
        assert forall|j: int| 0 <= j < tail.len() implies tail[j] != '\n' by {
            assert(tail[j] == text@[start + j]);
        }
        lemma_split_lines_whole(tail);
        assert(tail =~= text@.subrange(start as int, n as int));
        assert(views_of(r@.push(line)) =~~= views_of(r@) + seq![line@]);
        assert(views_of(r@) + seq![line@] =~~= views_of(r@) + spec_split_lines(
            text@.skip(start as int),
        ));
    }
    r.push(line);
    r
}

} // verus!

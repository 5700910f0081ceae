//! Character-level text machinery.
//!
//! All parsing and formatting in this crate works over `Vec<char>` buffers,
//! whose view is the same `Seq<char>` that `&str` and `String` have. The
//! functions here convert between the two representations and provide the
//! searching, matching and number-rendering primitives the rest of the
//! library is specified with.

use vstd::prelude::*;

verus! {

/// Relies on `String::push`: appends the given character to the end of the
/// string.
pub assume_specification[ String::push ](s: &mut String, ch: char)
    ensures
        final(s)@ == old(s)@.push(ch),
;

/// The characters of `s`, in order, as an indexable buffer.
pub fn chars_vec(s: &str) -> (v: Vec<char>)
    ensures
        v@ == s@,
{
    let mut v: Vec<char> = Vec::new();
    for c in it: s.chars()
        invariant
            v@ == it.seq().take(it.index() as int),
    {
        v.push(c);
    }
    proof {
        assert(v@ =~= s@);
    }
    v
}

/// A `String` holding exactly the characters of `v`.
pub fn string_of_chars(v: &[char]) -> (s: String)
    ensures
        s@ == v@,
{
    let mut s = String::new();
    let n = v.len();
    let mut i: usize = 0;
    while i < n
        invariant
            n == v@.len(),
            i <= n,
            s@ == v@.take(i as int),
        decreases n - i,
    {
        s.push(v[i]);
        i = i + 1;
    }
    proof {
        assert(s@ =~= v@);
    }
    s
}

/// `pat` occurs in `hay` starting exactly at position `i`.
pub open spec fn match_at(hay: Seq<char>, pat: Seq<char>, i: int) -> bool {
    0 <= i && i + pat.len() <= hay.len() && hay.subrange(i, i + pat.len()) == pat
}

/// The position of the leftmost occurrence of `pat` in `hay` at or after
/// `from`, or `None` when there is none.
pub open spec fn first_match_from(hay: Seq<char>, pat: Seq<char>, from: int) -> Option<int>
    decreases hay.len() - from,
{
    if from < 0 || from + pat.len() > hay.len() {
        None
    } else if pat.len() == 0 {
        Some(from)
    } else if match_at(hay, pat, from) {
        Some(from)
    } else {
        first_match_from(hay, pat, from + 1)
    }
}

/// `pat` occurs somewhere in `hay`.
pub open spec fn has_sub(hay: Seq<char>, pat: Seq<char>) -> bool {
    first_match_from(hay, pat, 0) is Some
}

/// `hay` begins with `pat`.
pub open spec fn starts_with(hay: Seq<char>, pat: Seq<char>) -> bool {
    match_at(hay, pat, 0)
}

/// `hay` ends with `pat`.
pub open spec fn ends_with(hay: Seq<char>, pat: Seq<char>) -> bool {
    match_at(hay, pat, hay.len() - pat.len())
}

/// Whether `pat` occurs in `hay` starting exactly at `at`.
pub fn is_match_at(hay: &Vec<char>, pat: &Vec<char>, at: usize) -> (b: bool)
    requires
        at + pat@.len() <= hay@.len(),
    ensures
        b == match_at(hay@, pat@, at as int),
{
    let m = pat.len();
    let n = hay.len();
    let mut j: usize = 0;
    while j < m
        invariant
            n == hay@.len(),
            at + m <= n,
            m == pat@.len(),
            j <= m,
            forall|k: int| 0 <= k < j ==> hay@[at + k] == pat@[k],
        decreases m - j,
    {
        if hay[at + j] != pat[j] {
            proof {
                let s = hay@.subrange(at as int, at + m as int);
                assert(s[j as int] == hay@[at + j]);
                assert(s != pat@);
            }
            return false;
        }
        j = j + 1;
    }
    proof {
        assert(hay@.subrange(at as int, at + m as int) =~= pat@);
    }
    true
}

/// The leftmost occurrence of `pat` in `hay` at or after `from`.
pub fn find_from(hay: &Vec<char>, pat: &Vec<char>, from: usize) -> (r: Option<usize>)
    ensures
        r matches Some(i) ==> first_match_from(hay@, pat@, from as int) == Some(i as int),
        r is None ==> first_match_from(hay@, pat@, from as int) is None,
{
    let n = hay.len();
    let m = pat.len();
    if m > n || from > n - m {
        return None;
    }
    if m == 0 {
        return Some(from);
    }
    let mut i: usize = from;
    while i <= n - m
        invariant
            n == hay@.len(),
            m == pat@.len(),
            1 <= m <= n,
            from <= i,
            i <= n - m + 1,
            first_match_from(hay@, pat@, from as int) == first_match_from(hay@, pat@, i as int),
        decreases n - i,
    {
        if is_match_at(hay, pat, i) {
            return Some(i);
        }
        i = i + 1;
    }
    None
}

/// Whether `pat` occurs anywhere in `hay`.
pub fn contains_sub(hay: &Vec<char>, pat: &Vec<char>) -> (b: bool)
    ensures
        b == has_sub(hay@, pat@),
{
    find_from(hay, pat, 0).is_some()
}

/// Whether `hay` begins with `pat`.
pub fn starts_with_exec(hay: &Vec<char>, pat: &Vec<char>) -> (b: bool)
    ensures
        b == starts_with(hay@, pat@),
{
    if pat.len() > hay.len() {
        return false;
    }
    is_match_at(hay, pat, 0)
}

/// Whether `hay` ends with `pat`.
pub fn ends_with_exec(hay: &Vec<char>, pat: &Vec<char>) -> (b: bool)
    ensures
        b == ends_with(hay@, pat@),
{
    if pat.len() > hay.len() {
        return false;
    }
    is_match_at(hay, pat, hay.len() - pat.len())
}

pub proof fn lemma_first_match_bounds(hay: Seq<char>, pat: Seq<char>, from: int)
    ensures
        first_match_from(hay, pat, from) matches Some(i) ==> from <= i && 0 <= i && i + pat.len()
            <= hay.len(),
    decreases hay.len() - from,
{
    if !(from < 0 || from + pat.len() > hay.len()) && pat.len() != 0 && !match_at(hay, pat, from) {
        lemma_first_match_bounds(hay, pat, from + 1);
    }
}

/// A copy of the window `a..b` of `v`.
pub fn slice_range(v: &Vec<char>, a: usize, b: usize) -> (r: Vec<char>)
    requires
        a <= b <= v@.len(),
    ensures
        r@ == v@.subrange(a as int, b as int),
{
    let mut r: Vec<char> = Vec::new();
    let mut i: usize = a;
    while i < b
        invariant
            a <= i <= b <= v@.len(),
            r@ == v@.subrange(a as int, i as int),
        decreases b - i,
    {
        r.push(v[i]);
        proof {
            assert(v@.subrange(a as int, i + 1) =~= v@.subrange(a as int, i as int).push(
                v@[i as int],
            ));
        }
        i = i + 1;
    }
    r
}

/// The prefix of `h` up to (excluding) the first occurrence of `pat`, or
/// all of `h` when `pat` does not occur: the first piece of splitting `h`
/// on `pat`.
pub open spec fn up_to_first(h: Seq<char>, pat: Seq<char>) -> Seq<char> {
    match first_match_from(h, pat, 0) {
        Some(i) => h.take(i),
        None => h,
    }
}

/// What remains of `h` after the first occurrence of `pat`.
pub open spec fn past_first(h: Seq<char>, pat: Seq<char>) -> Seq<char>
    recommends
        has_sub(h, pat),
{
    match first_match_from(h, pat, 0) {
        Some(i) => h.subrange(i + pat.len(), h.len() as int),
        None => h,
    }
}

/// The second piece of splitting `h` on `pat`: the text between the first
/// and the second occurrence (or after the first, when it is the only one).
/// `None` when `pat` does not occur at all.
pub open spec fn second_piece(h: Seq<char>, pat: Seq<char>) -> Option<Seq<char>> {
    if has_sub(h, pat) {
        Some(up_to_first(past_first(h, pat), pat))
    } else {
        None
    }
}

/// The prefix of `v` up to the first occurrence of `pat`.
pub fn up_to_first_exec(v: &Vec<char>, pat: &Vec<char>) -> (r: Vec<char>)
    ensures
        r@ == up_to_first(v@, pat@),
{
    proof {
        lemma_first_match_bounds(v@, pat@, 0);
    }
    match find_from(v, pat, 0) {
        Some(i) => {
            let r = slice_range(v, 0, i);
            proof {
                assert(v@.subrange(0, i as int) =~= v@.take(i as int));
            }
            r
        },
        None => {
            let r = slice_range(v, 0, v.len());
            proof {
                assert(v@.subrange(0, v@.len() as int) =~= v@);
            }
            r
        },
    }
}

/// The second piece of splitting `v` on `pat`.
pub fn second_piece_exec(v: &Vec<char>, pat: &Vec<char>) -> (r: Option<Vec<char>>)
    ensures
        r matches Some(s) ==> second_piece(v@, pat@) == Some(s@),
        r is None ==> second_piece(v@, pat@) is None,
{
    proof {
        lemma_first_match_bounds(v@, pat@, 0);
    }
    let n = v.len();
    match find_from(v, pat, 0) {
        Some(i) => {
            let tail = slice_range(v, i + pat.len(), n);
            proof {
                assert(tail@ == past_first(v@, pat@));
            }
            Some(up_to_first_exec(&tail, pat))
        },
        None => None,
    }
}

/// Splitting `h` on the (non-empty) separator `pat`: the pieces between
/// consecutive occurrences, scanned from the left.
pub open spec fn split_pieces(h: Seq<char>, pat: Seq<char>) -> Seq<Seq<char>>
    decreases h.len(),
    when pat.len() >= 1
    via split_pieces_dec
{
    match first_match_from(h, pat, 0) {
        None => seq![h],
        Some(i) => seq![h.take(i)] + split_pieces(h.subrange(i + pat.len(), h.len() as int), pat),
    }
}

#[via_fn]
proof fn split_pieces_dec(h: Seq<char>, pat: Seq<char>) {
    lemma_first_match_bounds(h, pat, 0);
}

/// Searching a suffix is searching the whole from its start: occurrences
/// found at or after `k` in `h` are the occurrences of the suffix starting
/// at `pos`, shifted by `pos`.
pub proof fn lemma_first_match_in_suffix(h: Seq<char>, pat: Seq<char>, pos: int, k: int)
    requires
        0 <= pos <= k,
        pos <= h.len(),
    ensures
        first_match_from(h, pat, k) == (match first_match_from(
            h.subrange(pos, h.len() as int),
            pat,
            k - pos,
        ) {
            Some(j) => Some(j + pos),
            None => None::<int>,
        }),
    decreases h.len() - k,
{
    let s = h.subrange(pos, h.len() as int);
    if k + pat.len() > h.len() {
    } else {
        assert(h.subrange(k, k + pat.len() as int) =~= s.subrange(
            k - pos,
            k - pos + pat.len() as int,
        ));
        if pat.len() == 0 || match_at(h, pat, k) {
        } else {
            lemma_first_match_in_suffix(h, pat, pos, k + 1);
        }
    }
}

/// The index of the last occurrence of `c` in `s`, or -1 when `c` does not
/// occur.
pub open spec fn last_index_of(s: Seq<char>, c: char) -> int
    decreases s.len(),
{
    if s.len() == 0 {
        -1
    } else if s.last() == c {
        s.len() - 1
    } else {
        last_index_of(s.drop_last(), c)
    }
}

pub proof fn lemma_last_index_of_bounds(s: Seq<char>, c: char)
    ensures
        -1 <= last_index_of(s, c) < s.len(),
        last_index_of(s, c) >= 0 ==> s[last_index_of(s, c)] == c,
    decreases s.len(),
{
    if s.len() > 0 && s.last() != c {
        lemma_last_index_of_bounds(s.drop_last(), c);
    }
}

/// Everything after the last occurrence of `c` (the whole of `s` when `c`
/// does not occur).
pub open spec fn after_last(s: Seq<char>, c: char) -> Seq<char> {
    s.subrange(last_index_of(s, c) + 1, s.len() as int)
}

/// The index of the last occurrence of `c` in `v`.
pub fn rfind_char(v: &Vec<char>, c: char) -> (r: Option<usize>)
    ensures
        r matches Some(d) ==> last_index_of(v@, c) == d as int && d < v@.len(),
        r is None ==> last_index_of(v@, c) == -1,
{
    let n = v.len();
    proof {
        assert(v@.take(n as int) =~= v@);
    }
    let mut i: usize = n;
    while i > 0
        invariant
            n == v@.len(),
            i <= n,
            last_index_of(v@, c) == last_index_of(v@.take(i as int), c),
        decreases i,
    {
        if v[i - 1] == c {
            proof {
                assert(v@.take(i as int).last() == v@[i - 1]);
            }
            return Some(i - 1);
        }
        proof {
            assert(v@.take(i as int).drop_last() =~= v@.take(i - 1));
        }
        i = i - 1;
    }
    proof {
        assert(v@.take(0) =~= Seq::<char>::empty());
    }
    None
}

/// ASCII whitespace, as it appears in tool output.
pub open spec fn is_space(c: char) -> bool {
    c == ' ' || c == '\t' || c == '\n' || c == '\r'
}

/// The first index at or after `i` holding a non-space character, or the
/// length of `s` when only spaces remain.
pub open spec fn skip_spaces(s: Seq<char>, i: int) -> int
    decreases s.len() - i,
{
    if i < 0 || i >= s.len() {
        s.len() as int
    } else if is_space(s[i]) {
        skip_spaces(s, i + 1)
    } else {
        i
    }
}

/// The end bound at or before `j` after dropping trailing spaces.
pub open spec fn drop_spaces_end(s: Seq<char>, j: int) -> int
    decreases j,
{
    if j <= 0 || j > s.len() {
        0
    } else if is_space(s[j - 1]) {
        drop_spaces_end(s, j - 1)
    } else {
        j
    }
}

/// `s` with leading and trailing ASCII whitespace removed.
pub open spec fn trimmed(s: Seq<char>) -> Seq<char> {
    let a = skip_spaces(s, 0);
    let b = drop_spaces_end(s, s.len() as int);
    if a <= b {
        s.subrange(a, b)
    } else {
        Seq::empty()
    }
}

proof fn lemma_skip_spaces_all(s: Seq<char>, i: int)
    requires
        0 <= i <= s.len(),
    ensures
        i <= skip_spaces(s, i) <= s.len(),
        forall|k: int| i <= k < skip_spaces(s, i) ==> is_space(#[trigger] s[k]),
    decreases s.len() - i,
{
    if i < s.len() && is_space(s[i]) {
        lemma_skip_spaces_all(s, i + 1);
    }
}

proof fn lemma_drop_spaces_all(s: Seq<char>, j: int)
    requires
        0 <= j <= s.len(),
        forall|k: int| 0 <= k < j ==> is_space(#[trigger] s[k]),
    ensures
        drop_spaces_end(s, j) == 0,
    decreases j,
{
    if j > 0 {
        lemma_drop_spaces_all(s, j - 1);
    }
}

/// Whether `c` is ASCII whitespace.
fn is_space_exec(c: char) -> (b: bool)
    ensures
        b == is_space(c),
{
    c == ' ' || c == '\t' || c == '\n' || c == '\r'
}

/// The window of `v` that remains after trimming ASCII whitespace at both
/// ends.
pub fn trim_bounds(v: &Vec<char>) -> (r: (usize, usize))
    ensures
        r.0 <= r.1 <= v@.len(),
        v@.subrange(r.0 as int, r.1 as int) == trimmed(v@),
{
    let n = v.len();
    let mut a: usize = 0;
    while a < n && is_space_exec(v[a])
        invariant
            n == v@.len(),
            a <= n,
            skip_spaces(v@, 0) == skip_spaces(v@, a as int),
        decreases n - a,
    {
        a = a + 1;
    }
    proof {
        assert(skip_spaces(v@, 0) == a as int);
    }
    if a == n {
        proof {
            lemma_skip_spaces_all(v@, 0);
            lemma_drop_spaces_all(v@, n as int);
            assert(v@.subrange(n as int, n as int) =~= trimmed(v@));
        }
        return (n, n);
    }
    let mut b: usize = n;
    while b > a && is_space_exec(v[b - 1])
        invariant
            n == v@.len(),
            a < b <= n,
            a < n,
            !is_space(v@[a as int]),
            drop_spaces_end(v@, n as int) == drop_spaces_end(v@, b as int),
        decreases b,
    {
        b = b - 1;
    }
    proof {
        assert(drop_spaces_end(v@, n as int) == b as int);
    }
    (a, b)
}

/// ASCII lowercasing of one character; everything outside `A`..`Z` is kept.
pub open spec fn lower_char(c: char) -> char {
    if 65 <= c as u32 <= 90 {
        ((c as u8) + 32) as char
    } else {
        c
    }
}

/// ASCII lowercasing of a character sequence.
pub open spec fn lower(s: Seq<char>) -> Seq<char> {
    s.map_values(|c: char| lower_char(c))
}

/// Lowercase one character (ASCII range only).
pub fn lower_char_exec(c: char) -> (r: char)
    ensures
        r == lower_char(c),
{
    let u = c as u32;
    if 65 <= u && u <= 90 {
        ((c as u8) + 32) as char
    } else {
        c
    }
}

/// Lowercase a character buffer (ASCII range only).
pub fn lower_exec(v: &Vec<char>) -> (r: Vec<char>)
    ensures
        r@ == lower(v@),
{
    let n = v.len();
    let mut r: Vec<char> = Vec::new();
    let mut i: usize = 0;
    while i < n
        invariant
            n == v@.len(),
            i <= n,
            r@ == lower(v@.take(i as int)),
        decreases n - i,
    {
        r.push(lower_char_exec(v[i]));
        proof {
            assert(v@.take(i + 1).drop_last() =~= v@.take(i as int));
            assert(lower(v@.take(i + 1)) =~= lower(v@.take(i as int)).push(lower_char(v@[i as int])));
        }
        i = i + 1;
    }
    proof {
        assert(v@.take(n as int) =~= v@);
    }
    r
}

/// The decimal digit character for `d` (`0`..`9`).
pub open spec fn dec_digit(d: int) -> char {
    ((48 + d) as u8) as char
}

/// The decimal representation of a non-negative number, most significant
/// digit first, with no leading zeroes (`0` is rendered as "0").
pub open spec fn dec_rep(n: int) -> Seq<char>
    decreases n,
{
    if n < 10 {
        seq![dec_digit(if n >= 0 { n } else { 0 })]
    } else {
        dec_rep(n / 10).push(dec_digit(n % 10))
    }
}

/// Append the decimal rendering of `n` to `out`.
pub fn push_dec(out: &mut Vec<char>, n: usize)
    ensures
        final(out)@ == old(out)@ + dec_rep(n as int),
    decreases n,
{
    if n >= 10 {
        push_dec(out, n / 10);
        let d = n % 10;
        out.push((48u8 + d as u8) as char);
        proof {
            assert(final(out)@ =~= old(out)@ + dec_rep(n as int));
        }
    } else {
        out.push((48u8 + n as u8) as char);
        proof {
            assert(final(out)@ =~= old(out)@ + dec_rep(n as int));
        }
    }
}

/// Whether `c` is a decimal digit.
pub open spec fn is_digit(c: char) -> bool {
    48 <= c as u32 <= 57
}

/// The numeric value of a digit character.
pub open spec fn digit_val(c: char) -> int {
    c as u32 - 48
}

/// Every character in `s` is a decimal digit.
pub open spec fn all_digits(s: Seq<char>) -> bool {
    forall|i: int| 0 <= i < s.len() ==> is_digit(#[trigger] s[i])
}

/// The numeric value of a digit string (0 for the empty string).
pub open spec fn dec_val(s: Seq<char>) -> int
    decreases s.len(),
{
    if s.len() == 0 {
        0
    } else {
        dec_val(s.drop_last()) * 10 + digit_val(s.last())
    }
}

proof fn lemma_dec_val_nonneg(s: Seq<char>)
    requires
        all_digits(s),
    ensures
        dec_val(s) >= 0,
    decreases s.len(),
{
    if s.len() > 0 {
        assert(all_digits(s.drop_last()));
        lemma_dec_val_nonneg(s.drop_last());
    }
}

proof fn lemma_dec_val_take_le(s: Seq<char>, i: int)
    requires
        all_digits(s),
        0 <= i <= s.len(),
    ensures
        dec_val(s.take(i)) <= dec_val(s),
    decreases s.len() - i,
{
    if i == s.len() {
        assert(s.take(i) =~= s);
    } else {
        lemma_dec_val_take_le(s, i + 1);
        assert(s.take(i + 1).drop_last() =~= s.take(i));
        assert(all_digits(s.take(i)));
        lemma_dec_val_nonneg(s.take(i));
        assert(dec_val(s.take(i + 1)) == dec_val(s.take(i)) * 10 + digit_val(s[i]));
    }
}

/// Whether the window `start..end` of `v` is a non-empty digit string whose
/// value fits in `usize`; if so, its value.
pub fn parse_usize(v: &Vec<char>, start: usize, end: usize) -> (r: Option<usize>)
    requires
        start <= end <= v@.len(),
    ensures
        r matches Some(k) ==> {
            &&& end > start
            &&& all_digits(v@.subrange(start as int, end as int))
            &&& dec_val(v@.subrange(start as int, end as int)) == k as int
        },
        r is None ==> {
            ||| end == start
            ||| !all_digits(v@.subrange(start as int, end as int))
            ||| dec_val(v@.subrange(start as int, end as int)) > usize::MAX
        },
{
    let ghost w = v@.subrange(start as int, end as int);
    if end == start {
        return None;
    }
    let mut i: usize = start;
    while i < end
        invariant
            start <= i <= end <= v@.len(),
            w == v@.subrange(start as int, end as int),
            forall|k: int| start <= k < i ==> is_digit(#[trigger] v@[k]),
        decreases end - i,
    {
        let u = v[i] as u32;
        if u < 48 || u > 57 {
            proof {
                assert(w[i - start] == v@[i as int]);
                assert(!all_digits(w));
            }
            return None;
        }
        i = i + 1;
    }
    proof {
        assert forall|k: int| 0 <= k < w.len() implies is_digit(#[trigger] w[k]) by {
            assert(w[k] == v@[start + k]);
        }
    }
    let mut acc: usize = 0;
    let mut j: usize = start;
    while j < end
        invariant
            start <= j <= end <= v@.len(),
            w == v@.subrange(start as int, end as int),
            all_digits(w),
            acc as int == dec_val(w.take(j - start)),
        decreases end - j,
    {
        proof {
            assert(w[j - start] == v@[j as int]);
            assert(is_digit(w[j - start]));
        }
        let d = v[j] as u32 - 48;
        let step = acc.checked_mul(10);
        match step {
            None => {
                proof {
                    assert(w.take(j - start + 1).drop_last() =~= w.take(j - start));
                    assert(dec_val(w.take(j - start + 1)) > usize::MAX);
                    lemma_dec_val_take_le(w, j - start + 1);
                }
                return None;
            },
            Some(mul) => {
                let sum = mul.checked_add(d as usize);
                match sum {
                    None => {
                        proof {
                            assert(w.take(j - start + 1).drop_last() =~= w.take(j - start));
                            assert(dec_val(w.take(j - start + 1)) > usize::MAX);
                            lemma_dec_val_take_le(w, j - start + 1);
                        }
                        return None;
                    },
                    Some(next) => {
                        proof {
                            assert(w.take(j - start + 1).drop_last() =~= w.take(j - start));
                            assert(dec_val(w.take(j - start + 1)) == acc * 10 + digit_val(w[j - start]));
                        }
                        acc = next;
                    },
                }
            },
        }
        j = j + 1;
    }
    proof {
        assert(w.take(end - start) =~= w);
    }
    Some(acc)
}

} // verus!

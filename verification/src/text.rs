//! Character-level string utilities: substring containment, searching,
//! whitespace trimming and line splitting, each with an exact specification
//! over the `Seq<char>` view of the text.

use vstd::prelude::*;

verus! {

/// `pat` occurs in `s` starting at index `i`.
pub open spec fn matches_at(s: Seq<char>, pat: Seq<char>, i: int) -> bool {
    0 <= i && i + pat.len() <= s.len() && s.subrange(i, i + pat.len() as int) == pat
}

/// `pat` occurs somewhere in `s` as a contiguous run of characters.
pub open spec fn contains_seq(s: Seq<char>, pat: Seq<char>) -> bool {
    exists|i: int| matches_at(s, pat, i)
}

/// `c` occurs in `s`.
pub open spec fn contains_char(s: Seq<char>, c: char) -> bool {
    exists|i: int| 0 <= i < s.len() && s[i] == c
}

/// Whether `pat` occurs in `s` starting exactly at index `i`.
pub fn match_at(s: &str, pat: &str, i: usize) -> (r: bool)
    requires
        i + pat@.len() <= s@.len(),
    ensures
        r == matches_at(s@, pat@, i as int),
{
    let slen = s.unicode_len();
    let plen = pat.unicode_len();
    let mut j: usize = 0;
    while j < plen
        invariant
            0 <= j <= plen,
            plen == pat@.len(),
            slen == s@.len(),
            i + plen <= slen,
            forall|k: int| 0 <= k < j ==> s@[i + k] == pat@[k],
        decreases plen - j,
    {
        if s.get_char(i + j) != pat.get_char(j) {
            assert(s@.subrange(i as int, i + plen as int)[j as int] != pat@[j as int]);
            return false;
        }
        j = j + 1;
    }
    assert(s@.subrange(i as int, i + plen as int) =~= pat@);
    true
}

/// Whether `pat` occurs anywhere in `s` as a contiguous substring.
pub fn contains_sub(s: &str, pat: &str) -> (r: bool)
    ensures
        r == contains_seq(s@, pat@),
{
    let slen = s.unicode_len();
    let plen = pat.unicode_len();
    if plen > slen {
        assert(!contains_seq(s@, pat@));
        return false;
    }
    if plen == 0 {
        assert(s@.subrange(0, 0) =~= pat@);
        assert(matches_at(s@, pat@, 0));
        return true;
    }
    let last = slen - plen;
    let mut i: usize = 0;
    while i <= last
        invariant
            slen == s@.len(),
            plen == pat@.len(),
            1 <= plen <= slen,
            last == slen - plen,
            0 <= i <= last + 1,
            forall|k: int| 0 <= k < i ==> !matches_at(s@, pat@, k),
        decreases last + 1 - i,
    {
        if match_at(s, pat, i) {
            return true;
        }
        i = i + 1;
    }
    assert forall|k: int| !matches_at(s@, pat@, k) by {
        if 0 <= k && k + pat@.len() <= s@.len() {
            assert(k < i);
        }
    }
    false
}

/// Whether the character `c` occurs in `s`.
pub fn contains_ch(s: &str, c: char) -> (r: bool)
    ensures
        r == contains_char(s@, c),
{
    let slen = s.unicode_len();
    let mut i: usize = 0;
    while i < slen
        invariant
            slen == s@.len(),
            0 <= i <= slen,
            forall|k: int| 0 <= k < i ==> s@[k] != c,
        decreases slen - i,
    {
        if s.get_char(i) == c {
            return true;
        }
        i = i + 1;
    }
    false
}

/// Index of the first occurrence of `c` in `s`, or `s.len()` if absent.
pub open spec fn first_index_of(s: Seq<char>, c: char) -> int
    decreases s.len(),
{
    if s.len() == 0 {
        0
    } else if s[0] == c {
        0
    } else {
        1 + first_index_of(s.skip(1), c)
    }
}

/// `first_index_of` is in range, lands on `c`, and nothing before it is `c`.
pub proof fn lemma_first_index_of(s: Seq<char>, c: char)
    ensures
        0 <= first_index_of(s, c) <= s.len(),
        first_index_of(s, c) < s.len() ==> s[first_index_of(s, c)] == c,
        forall|k: int| 0 <= k < first_index_of(s, c) ==> s[k] != c,
    decreases s.len(),
{
    if s.len() > 0 && s[0] != c {
        lemma_first_index_of(s.skip(1), c);
        assert forall|k: int| 0 <= k < first_index_of(s, c) implies s[k] != c by {
            if k > 0 {
                assert(s.skip(1)[k - 1] != c);
            }
        }
    }
}

/// A position with no `c` before it and `c` at it (or the end, with no `c`
/// anywhere) is exactly `first_index_of`.
pub proof fn lemma_first_index_is(s: Seq<char>, c: char, k: int)
    requires
        0 <= k <= s.len(),
        forall|j: int| 0 <= j < k ==> s[j] != c,
        k < s.len() ==> s[k] == c,
    ensures
        first_index_of(s, c) == k,
    decreases k,
{
    if k == 0 {
    } else {
        assert(s[0] != c);
        lemma_first_index_is(s.skip(1), c, k - 1);
    }
}

/// Index of the first occurrence of `c`, or the length if `c` is absent.
pub fn find_ch(s: &str, c: char) -> (r: usize)
    ensures
        r == first_index_of(s@, c),
{
    let slen = s.unicode_len();
    let mut i: usize = 0;
    while i < slen
        invariant
            slen == s@.len(),
            0 <= i <= slen,
            forall|k: int| 0 <= k < i ==> s@[k] != c,
        decreases slen - i,
    {
        if s.get_char(i) == c {
            proof {
                lemma_first_index_is(s@, c, i as int);
            }
            return i;
        }
        i = i + 1;
    }
    proof {
        lemma_first_index_is(s@, c, slen as int);
    }
    slen
}

/// The characters `str::trim` and `str::split_whitespace` treat as
/// whitespace.
pub open spec fn is_ws(c: char) -> bool {
    let u = c as u32;
    u == 0x20 || (0x09 <= u && u <= 0x0D) || u == 0x85 || u == 0xA0 || u == 0x1680 || (0x2000
        <= u && u <= 0x200A) || u == 0x2028 || u == 0x2029 || u == 0x202F || u == 0x205F || u
        == 0x3000
}

/// Executable test for [`is_ws`].
pub fn is_ws_char(c: char) -> (r: bool)
    ensures
        r == is_ws(c),
{
    let u = c as u32;
    u == 0x20 || (0x09 <= u && u <= 0x0D) || u == 0x85 || u == 0xA0 || u == 0x1680 || (0x2000 <= u
        && u <= 0x200A) || u == 0x2028 || u == 0x2029 || u == 0x202F || u == 0x205F || u == 0x3000
}

/// `s` without its leading whitespace.
pub open spec fn trim_start_s(s: Seq<char>) -> Seq<char>
    decreases s.len(),
{
    if s.len() > 0 && is_ws(s[0]) {
        trim_start_s(s.skip(1))
    } else {
        s
    }
}

/// `s` without its trailing whitespace.
pub open spec fn trim_end_s(s: Seq<char>) -> Seq<char>
    decreases s.len(),
{
    if s.len() > 0 && is_ws(s[s.len() - 1]) {
        trim_end_s(s.take(s.len() - 1))
    } else {
        s
    }
}

/// `s` without leading and trailing whitespace, as `str::trim` leaves it.
pub open spec fn trim_s(s: Seq<char>) -> Seq<char> {
    trim_end_s(trim_start_s(s))
}

/// When the first `a` characters are whitespace and the next one is not (or
/// the string ends), trimming the start drops exactly those `a` characters.
pub proof fn lemma_trim_start_at(s: Seq<char>, a: int)
    requires
        0 <= a <= s.len(),
        forall|j: int| 0 <= j < a ==> is_ws(s[j]),
        a < s.len() ==> !is_ws(s[a]),
    ensures
        trim_start_s(s) == s.skip(a),
    decreases a,
{
    if a == 0 {
        assert(s.skip(0) =~= s);
    } else {
        lemma_trim_start_at(s.skip(1), a - 1);
        assert(s.skip(1).skip(a - 1) =~= s.skip(a));
    }
}

/// When everything after index `b` is whitespace and `s[b]` is not (or `b`
/// is `-1` and all of `s` is whitespace), trimming the end keeps `b + 1`
/// characters.
pub proof fn lemma_trim_end_at(s: Seq<char>, b: int)
    requires
        -1 <= b < s.len(),
        forall|j: int| b < j < s.len() ==> is_ws(s[j]),
        b >= 0 ==> !is_ws(s[b]),
    ensures
        trim_end_s(s) == s.take(b + 1),
    decreases s.len() - b,
{
    if b + 1 == s.len() {
        assert(s.take(b + 1) =~= s);
    } else {
        assert(is_ws(s[s.len() - 1]));
        lemma_trim_end_at(s.take(s.len() - 1), b);
        assert(s.take(s.len() - 1).take(b + 1) =~= s.take(b + 1));
    }
}

/// Trimming never lengthens a string.
pub proof fn lemma_trim_len(s: Seq<char>)
    ensures
        trim_start_s(s).len() <= s.len(),
        trim_end_s(s).len() <= s.len(),
        trim_s(s).len() <= s.len(),
{
    lemma_trim_start_len(s);
    lemma_trim_end_len(s);
    lemma_trim_end_len(trim_start_s(s));
}

proof fn lemma_trim_start_len(s: Seq<char>)
    ensures
        trim_start_s(s).len() <= s.len(),
    decreases s.len(),
{
    if s.len() > 0 && is_ws(s[0]) {
        lemma_trim_start_len(s.skip(1));
    }
}

proof fn lemma_trim_end_len(s: Seq<char>)
    ensures
        trim_end_s(s).len() <= s.len(),
    decreases s.len(),
{
    if s.len() > 0 && is_ws(s[s.len() - 1]) {
        lemma_trim_end_len(s.take(s.len() - 1));
    }
}

/// `str::trim`, with its specification over the character view.
pub fn trim_str(s: &str) -> (r: String)
    ensures
        r@ == trim_s(s@),
{
    let slen = s.unicode_len();
    let mut a: usize = 0;
    while a < slen && is_ws_char(s.get_char(a))
        invariant
            slen == s@.len(),
            0 <= a <= slen,
            forall|j: int| 0 <= j < a ==> is_ws(s@[j]),
        decreases slen - a,
    {
        a = a + 1;
    }
    if a == slen {
        proof {
            lemma_trim_start_at(s@, a as int);
            assert(s@.skip(a as int) =~= Seq::<char>::empty());
        }
        return String::new();
    }
    let mut b: usize = slen - 1;
    while b > a && is_ws_char(s.get_char(b))
        invariant
            slen == s@.len(),
            0 <= a <= b < slen,
            !is_ws(s@[a as int]),
            forall|j: int| b < j < slen ==> is_ws(s@[j]),
        decreases b,
    {
        b = b - 1;
    }
    proof {
        lemma_trim_start_at(s@, a as int);
        lemma_trim_end_at(s@.skip(a as int), b - a);
        assert(s@.skip(a as int).take(b - a + 1) =~= s@.subrange(a as int, b + 1));
    }
    s.substring_char(a, b + 1).to_owned()
}

/// The lines of `s`, as `str::lines` yields them: split at `'\n'`, with a
/// `'\r'` immediately before the split dropped, and no final empty line when
/// the text ends in a line break.
pub open spec fn split_lines(s: Seq<char>) -> Seq<Seq<char>>
    decreases s.len(),
{
    if s.len() == 0 {
        Seq::empty()
    } else {
        let i = first_index_of(s, '\n');
        if 0 <= i && i < s.len() {
            let line = if i > 0 && s[i - 1] == '\r' {
                s.take(i - 1)
            } else {
                s.take(i)
            };
            seq![line] + split_lines(s.skip(i + 1))
        } else {
            seq![s]
        }
    }
}

/// The views of the strings in `v`.
pub open spec fn views_of(v: Seq<String>) -> Seq<Seq<char>> {
    v.map_values(|l: String| l@)
}

/// Split `s` into its lines, as `str::lines` does.
pub fn split_lines_str(s: &str) -> (v: Vec<String>)
    ensures
        views_of(v@) == split_lines(s@),
{
    let slen = s.unicode_len();
    let mut v: Vec<String> = Vec::new();
    let mut start: usize = 0;
    let mut i: usize = 0;
    proof {
        assert(s@.skip(0) =~= s@);
        assert(views_of(v@) + split_lines(s@) =~= split_lines(s@));
    }
    while i < slen
        invariant
            slen == s@.len(),
            0 <= start <= i <= slen,
            forall|k: int| start <= k < i ==> s@[k] != '\n',
            split_lines(s@) == views_of(v@) + split_lines(s@.skip(start as int)),
        decreases slen - i,
    {
        if s.get_char(i) == '\n' {
            let ghost rest = s@.skip(start as int);
            proof {
                lemma_first_index_is(rest, '\n', i - start);
            }
            let line_end = if i > start && s.get_char(i - 1) == '\r' {
                i - 1
            } else {
                i
            };
            let line = s.substring_char(start, line_end).to_owned();
            proof {
                assert(rest.take(i - start) =~= s@.subrange(start as int, i as int));
                if i > start && s@[i - 1] == '\r' {
                    assert(rest.take(i - start - 1) =~= s@.subrange(
                        start as int,
                        i - 1,
                    ));
                }
                assert(rest.skip(i - start + 1) =~= s@.skip(i + 1));
                assert(views_of(v@.push(line)) =~= views_of(v@) + seq![line@]);
                assert((views_of(v@) + seq![line@]) + split_lines(s@.skip(i + 1)) =~= views_of(
                    v@,
                ) + (seq![line@] + split_lines(s@.skip(i + 1))));
            }
            v.push(line);
            start = i + 1;
        }
        i = i + 1;
    }
    proof {
        let rest = s@.skip(start as int);
        lemma_first_index_is(rest, '\n', slen - start);
        if start < slen {
            assert(rest =~= s@.subrange(start as int, slen as int));
        } else {
            assert(rest =~= Seq::<char>::empty());
            assert(views_of(v@) + split_lines(rest) =~= views_of(v@));
        }
    }
    if start < slen {
        let line = s.substring_char(start, slen).to_owned();
        proof {
            assert(views_of(v@.push(line)) =~= views_of(v@) + seq![line@]);
            assert(views_of(v@) + split_lines(s@.skip(start as int)) =~= views_of(v@.push(
                line,
            )));
        }
        v.push(line);
    }
    v
}

/// The two strings hold the same characters.
pub fn str_eq(a: &str, b: &str) -> (r: bool)
    ensures
        r == (a@ == b@),
{
    let alen = a.unicode_len();
    let blen = b.unicode_len();
    if alen != blen {
        return false;
    }
    let mut i: usize = 0;
    while i < alen
        invariant
            alen == a@.len(),
            alen == b@.len(),
            0 <= i <= alen,
            forall|k: int| 0 <= k < i ==> a@[k] == b@[k],
        decreases alen - i,
    {
        if a.get_char(i) != b.get_char(i) {
            return false;
        }
        i = i + 1;
    }
    assert(a@ =~= b@);
    true
}

} // verus!

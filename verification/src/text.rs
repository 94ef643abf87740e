//! Verified text utilities over character sequences.
//!
//! The crate's parsing and argument-building logic works on `Vec<char>`
//! values whose views are `Seq<char>`; every executable helper here is pinned
//! to a spec function of the same name, so callers can reason about text
//! purely at the `Seq<char>` level.

use vstd::prelude::*;

verus! {

/// The characters with the Unicode `White_Space` property, the set that
/// `str::trim` removes.
pub open spec fn is_space(c: char) -> bool {
    c == '\u{0009}' || c == '\u{000A}' || c == '\u{000B}' || c == '\u{000C}' || c == '\u{000D}'
        || c == '\u{0020}' || c == '\u{0085}' || c == '\u{00A0}' || c == '\u{1680}'
        || c == '\u{2000}' || c == '\u{2001}' || c == '\u{2002}' || c == '\u{2003}'
        || c == '\u{2004}' || c == '\u{2005}' || c == '\u{2006}' || c == '\u{2007}'
        || c == '\u{2008}' || c == '\u{2009}' || c == '\u{200A}' || c == '\u{2028}'
        || c == '\u{2029}' || c == '\u{202F}' || c == '\u{205F}' || c == '\u{3000}'
}

/// Executable test for [`is_space`].
pub fn is_space_char(c: char) -> (r: bool)
    ensures
        r == is_space(c),
{
    c == '\u{0009}' || c == '\u{000A}' || c == '\u{000B}' || c == '\u{000C}' || c == '\u{000D}'
        || c == '\u{0020}' || c == '\u{0085}' || c == '\u{00A0}' || c == '\u{1680}'
        || c == '\u{2000}' || c == '\u{2001}' || c == '\u{2002}' || c == '\u{2003}'
        || c == '\u{2004}' || c == '\u{2005}' || c == '\u{2006}' || c == '\u{2007}'
        || c == '\u{2008}' || c == '\u{2009}' || c == '\u{200A}' || c == '\u{2028}'
        || c == '\u{2029}' || c == '\u{202F}' || c == '\u{205F}' || c == '\u{3000}'
}

/// `s` with leading whitespace removed.
pub open spec fn spec_trim_start(s: Seq<char>) -> Seq<char>
    decreases s.len(),
{
    if s.len() > 0 && is_space(s[0]) {
        spec_trim_start(s.subrange(1, s.len() as int))
    } else {
        s
    }
}

/// `s` with trailing whitespace removed.
pub open spec fn spec_trim_end(s: Seq<char>) -> Seq<char>
    decreases s.len(),
{
    if s.len() > 0 && is_space(s[s.len() - 1]) {
        spec_trim_end(s.subrange(0, s.len() - 1))
    } else {
        s
    }
}

/// `s` with whitespace removed from both ends, as `str::trim` does.
pub open spec fn spec_trim(s: Seq<char>) -> Seq<char> {
    spec_trim_end(spec_trim_start(s))
}

/// The pattern `pat` occurs in `s` starting at index `i`.
pub open spec fn match_at(s: Seq<char>, pat: Seq<char>, i: int) -> bool {
    0 <= i && i + pat.len() <= s.len() && s.subrange(i, i + pat.len()) == pat
}

/// The first index `>= i` at which `pat` occurs in `s`, if any.
pub open spec fn first_match_from(s: Seq<char>, pat: Seq<char>, i: int) -> Option<int>
    decreases s.len() - i,
{
    if i + pat.len() > s.len() {
        None
    } else if match_at(s, pat, i) {
        Some(i)
    } else if i + pat.len() == s.len() {
        None
    } else {
        first_match_from(s, pat, i + 1)
    }
}

/// An empty pattern matches at every in-range position.
pub proof fn lemma_empty_pat_matches(s: Seq<char>, i: int)
    requires
        0 <= i <= s.len(),
    ensures
        match_at(s, Seq::<char>::empty(), i),
{
    assert(s.subrange(i, i) =~= Seq::<char>::empty());
}

/// The first index at which `pat` occurs in `s`, as `str::find` reports it.
pub open spec fn spec_find(s: Seq<char>, pat: Seq<char>) -> Option<int> {
    first_match_from(s, pat, 0)
}

/// The last index `<= i` at which `pat` occurs in `s`, if any.
pub open spec fn last_match_until(s: Seq<char>, pat: Seq<char>, i: int) -> Option<int>
    decreases i + 1,
{
    if i < 0 {
        None
    } else if match_at(s, pat, i) {
        Some(i)
    } else {
        last_match_until(s, pat, i - 1)
    }
}

/// The last index at which `pat` occurs in `s`, as `str::rfind` reports it.
pub open spec fn spec_rfind(s: Seq<char>, pat: Seq<char>) -> Option<int> {
    last_match_until(s, pat, s.len() - pat.len())
}

/// `pat` occurs somewhere in `s`.
pub open spec fn spec_contains(s: Seq<char>, pat: Seq<char>) -> bool {
    spec_find(s, pat) is Some
}

/// `s` starts with `pat`.
pub open spec fn spec_starts_with(s: Seq<char>, pat: Seq<char>) -> bool {
    match_at(s, pat, 0)
}

proof fn lemma_first_match_props(s: Seq<char>, pat: Seq<char>, i: int)
    requires
        0 <= i,
    ensures
        match first_match_from(s, pat, i) {
            Some(j) => match_at(s, pat, j) && i <= j && forall|k: int|
                i <= k < j ==> !match_at(s, pat, k),
            None => forall|k: int| i <= k ==> !match_at(s, pat, k),
        },
    decreases s.len() - i,
{
    if i + pat.len() > s.len() {
    } else if match_at(s, pat, i) {
    } else if i + pat.len() == s.len() {
    } else {
        lemma_first_match_props(s, pat, i + 1);
    }
}

proof fn lemma_last_match_props(s: Seq<char>, pat: Seq<char>, i: int)
    ensures
        match last_match_until(s, pat, i) {
            Some(j) => match_at(s, pat, j) && j <= i && forall|k: int|
                j < k <= i ==> !match_at(s, pat, k),
            None => forall|k: int| k <= i ==> !match_at(s, pat, k),
        },
    decreases i + 1,
{
    if i < 0 {
    } else if match_at(s, pat, i) {
    } else {
        lemma_last_match_props(s, pat, i - 1);
    }
}

/// The first and last occurrence of a pattern, characterized without
/// recursion: used by callers that state where a marker sits in a line.
pub proof fn lemma_find_characterization(s: Seq<char>, pat: Seq<char>)
    ensures
        match spec_find(s, pat) {
            Some(j) => match_at(s, pat, j) && forall|k: int| 0 <= k < j ==> !match_at(s, pat, k),
            None => forall|k: int| !match_at(s, pat, k),
        },
        match spec_rfind(s, pat) {
            Some(j) => match_at(s, pat, j) && forall|k: int| j < k ==> !match_at(s, pat, k),
            None => forall|k: int| !match_at(s, pat, k),
        },
{
    lemma_first_match_props(s, pat, 0);
    lemma_last_match_props(s, pat, s.len() - pat.len());
    assert forall|k: int| match_at(s, pat, k) implies k <= s.len() - pat.len() by {}
}

/// Converts a string slice to the vector of its characters.
pub fn str_chars(s: &str) -> (r: Vec<char>)
    ensures
        r@ == s@,
{
    let n: usize = s.unicode_len();
    let mut r: Vec<char> = Vec::new();
    let mut i: usize = 0;
    while i < n
        invariant
            i <= n,
            n == s@.len(),
            r@ == s@.subrange(0, i as int),
        decreases n - i,
    {
        r.push(s.get_char(i));
        i = i + 1;
        proof {
            assert(r@ =~= s@.subrange(0, i as int));
        }
    }
    proof {
        assert(r@ =~= s@);
    }
    r
}

/// Appends one character to a string.  Relies on `String::push`, which the
/// standard library documents as appending the given `char` to the end.
#[verifier::external_body]
fn push_char(s: &mut String, c: char)
    ensures
        final(s)@ == old(s)@.push(c),
{
    s.push(c);
}

/// Builds a string from a vector of characters.
pub fn chars_string(v: &Vec<char>) -> (r: String)
    ensures
        r@ == v@,
{
    let mut r = String::new();
    let mut i: usize = 0;
    while i < v.len()
        invariant
            i <= v@.len(),
            r@ == v@.subrange(0, i as int),
        decreases v@.len() - i,
    {
        push_char(&mut r, v[i]);
        i = i + 1;
        proof {
            assert(r@ =~= v@.subrange(0, i as int));
        }
    }
    proof {
        assert(r@ =~= v@);
    }
    r
}

/// Copies the characters of `v` in the index range `[from, to)`.
pub fn subvec(v: &Vec<char>, from: usize, to: usize) -> (r: Vec<char>)
    requires
        from <= to <= v@.len(),
    ensures
        r@ == v@.subrange(from as int, to as int),
{
    let mut r: Vec<char> = Vec::new();
    let mut i: usize = from;
    while i < to
        invariant
            from <= i <= to <= v@.len(),
            r@ == v@.subrange(from as int, i as int),
        decreases to - i,
    {
        r.push(v[i]);
        i = i + 1;
        proof {
            assert(r@ =~= v@.subrange(from as int, i as int));
        }
    }
    r
}

/// Removes leading whitespace.
pub fn trim_start(v: &Vec<char>) -> (r: Vec<char>)
    ensures
        r@ == spec_trim_start(v@),
{
    let mut i: usize = 0;
    proof {
        assert(v@.subrange(0, v@.len() as int) =~= v@);
    }
    while i < v.len() && is_space_char(v[i])
        invariant
            i <= v@.len(),
            spec_trim_start(v@) == spec_trim_start(v@.subrange(i as int, v@.len() as int)),
        decreases v@.len() - i,
    {
        proof {
            assert(v@.subrange(i as int, v@.len() as int).subrange(
                1,
                v@.len() - i as int,
            ) =~= v@.subrange(i + 1, v@.len() as int));
        }
        i = i + 1;
    }
    let r = subvec(v, i, v.len());
    proof {
        if i < v@.len() {
            assert(!is_space(v@.subrange(i as int, v@.len() as int)[0]));
        }
        assert(spec_trim_start(v@.subrange(i as int, v@.len() as int)) == v@.subrange(
            i as int,
            v@.len() as int,
        ));
    }
    r
}

/// Removes trailing whitespace.
pub fn trim_end(v: &Vec<char>) -> (r: Vec<char>)
    ensures
        r@ == spec_trim_end(v@),
{
    let mut j: usize = v.len();
    proof {
        assert(v@.subrange(0, v@.len() as int) =~= v@);
    }
    while j > 0 && is_space_char(v[j - 1])
        invariant
            j <= v@.len(),
            spec_trim_end(v@) == spec_trim_end(v@.subrange(0, j as int)),
        decreases j,
    {
        proof {
            assert(v@.subrange(0, j as int).subrange(0, j - 1int) =~= v@.subrange(0, j - 1int));
        }
        j = j - 1;
    }
    let r = subvec(v, 0, j);
    proof {
        if j > 0 {
            assert(!is_space(v@.subrange(0, j as int)[j - 1int]));
        }
        assert(spec_trim_end(v@.subrange(0, j as int)) == v@.subrange(0, j as int));
    }
    r
}

/// Removes whitespace from both ends, as `str::trim` does.
pub fn trim(v: &Vec<char>) -> (r: Vec<char>)
    ensures
        r@ == spec_trim(v@),
{
    let t = trim_start(v);
    trim_end(&t)
}

/// Compares two character vectors for equality of contents.
pub fn chars_eq(a: &Vec<char>, b: &Vec<char>) -> (r: bool)
    ensures
        r == (a@ == b@),
{
    if a.len() != b.len() {
        proof {
            assert(a@.len() != b@.len());
        }
        return false;
    }
    let mut i: usize = 0;
    while i < a.len()
        invariant
            i <= a@.len(),
            a@.len() == b@.len(),
            forall|k: int| 0 <= k < i ==> a@[k] == b@[k],
        decreases a@.len() - i,
    {
        if a[i] != b[i] {
            return false;
        }
        i = i + 1;
    }
    proof {
        assert(a@ =~= b@);
    }
    true
}

/// `pat` occurs in `v` starting at `i`, decided executably.
fn matches_at(v: &Vec<char>, pat: &Vec<char>, i: usize) -> (r: bool)
    requires
        i + pat@.len() <= v@.len(),
    ensures
        r == match_at(v@, pat@, i as int),
{
    let n: usize = v.len();
    let mut k: usize = 0;
    while k < pat.len()
        invariant
            k <= pat@.len(),
            i + pat@.len() <= v@.len(),
            n == v@.len(),
            forall|m: int| 0 <= m < k ==> v@[i + m] == pat@[m],
        decreases pat@.len() - k,
    {
        if v[i + k] != pat[k] {
            proof {
                assert(v@.subrange(i as int, i + pat@.len())[k as int] == v@[i + k]);
            }
            return false;
        }
        k = k + 1;
    }
    proof {
        assert(v@.subrange(i as int, i + pat@.len()) =~= pat@);
    }
    true
}

/// The first occurrence of `pat` in `v`, as `str::find` reports it.
pub fn find(v: &Vec<char>, pat: &Vec<char>) -> (r: Option<usize>)
    ensures
        match r {
            Some(i) => spec_find(v@, pat@) == Some(i as int) && match_at(v@, pat@, i as int),
            None => spec_find(v@, pat@) is None,
        },
{
    proof {
        lemma_first_match_props(v@, pat@, 0);
    }
    let n: usize = v.len();
    let m: usize = pat.len();
    if m > n {
        return None;
    }
    if m == 0 {
        proof {
            lemma_empty_pat_matches(v@, 0);
            assert(pat@ =~= Seq::<char>::empty());
        }
        return Some(0);
    }
    let mut i: usize = 0;
    while i <= n - m
        invariant
            0 < m <= n,
            n == v@.len(),
            m == pat@.len(),
            i <= n - m + 1,
            first_match_from(v@, pat@, 0) == first_match_from(v@, pat@, i as int),
        decreases n - i,
    {
        if matches_at(v, pat, i) {
            return Some(i);
        }
        i = i + 1;
    }
    None
}

/// The last occurrence of `pat` in `v`, as `str::rfind` reports it.
pub fn rfind(v: &Vec<char>, pat: &Vec<char>) -> (r: Option<usize>)
    ensures
        match r {
            Some(i) => spec_rfind(v@, pat@) == Some(i as int) && match_at(v@, pat@, i as int),
            None => spec_rfind(v@, pat@) is None,
        },
{
    let n: usize = v.len();
    let m: usize = pat.len();
    if m > n {
        return None;
    }
    let mut i: usize = n - m;
    loop
        invariant
            m <= n,
            n == v@.len(),
            m == pat@.len(),
            i <= n - m,
            spec_rfind(v@, pat@) == last_match_until(v@, pat@, i as int),
        decreases i,
    {
        if matches_at(v, pat, i) {
            return Some(i);
        }
        if i == 0 {
            proof {
                assert(last_match_until(v@, pat@, -1) is None);
            }
            return None;
        }
        i = i - 1;
    }
}

/// `pat` occurs somewhere in `v`.
pub fn contains(v: &Vec<char>, pat: &Vec<char>) -> (r: bool)
    ensures
        r == spec_contains(v@, pat@),
{
    find(v, pat).is_some()
}

/// `v` starts with `pat`.
pub fn starts_with(v: &Vec<char>, pat: &Vec<char>) -> (r: bool)
    ensures
        r == spec_starts_with(v@, pat@),
{
    if pat.len() > v.len() {
        return false;
    }
    matches_at(v, pat, 0)
}

/// The ASCII-lowercase counterpart of a character, as
/// `char::to_ascii_lowercase` computes it.
pub open spec fn lower_char(c: char) -> char {
    if 'A' <= c && c <= 'Z' {
        (((c as u8) + 32) as char)
    } else {
        c
    }
}

/// `s` with ASCII upper-case letters lowered, as `str::to_ascii_lowercase`.
pub open spec fn spec_lower(s: Seq<char>) -> Seq<char> {
    Seq::new(s.len(), |i: int| lower_char(s[i]))
}

/// ASCII-lowercases every character of `v`.
pub fn to_ascii_lowercase(v: &Vec<char>) -> (r: Vec<char>)
    ensures
        r@ == spec_lower(v@),
{
    let mut r: Vec<char> = Vec::new();
    let mut i: usize = 0;
    while i < v.len()
        invariant
            i <= v@.len(),
            r@ =~= spec_lower(v@).subrange(0, i as int),
        decreases v@.len() - i,
    {
        let c = v[i];
        if 'A' <= c && c <= 'Z' {
            r.push(((c as u8) + 32) as char);
        } else {
            r.push(c);
        }
        i = i + 1;
    }
    proof {
        assert(r@ =~= spec_lower(v@));
    }
    r
}

/// `s` with every leading copy of `pat` removed, as
/// `str::trim_start_matches` computes it.
pub open spec fn spec_strip_all(s: Seq<char>, pat: Seq<char>) -> Seq<char>
    decreases s.len(),
{
    if pat.len() > 0 && spec_starts_with(s, pat) {
        spec_strip_all(s.subrange(pat.len() as int, s.len() as int), pat)
    } else {
        s
    }
}

/// Removes every leading copy of `pat` from `v`.
pub fn strip_prefix_all(v: &Vec<char>, pat: &Vec<char>) -> (r: Vec<char>)
    ensures
        r@ == spec_strip_all(v@, pat@),
{
    let mut cur = subvec(v, 0, v.len());
    proof {
        assert(cur@ =~= v@);
    }
    while pat.len() > 0 && starts_with(&cur, pat)
        invariant
            spec_strip_all(v@, pat@) == spec_strip_all(cur@, pat@),
        decreases cur@.len(),
    {
        let next = subvec(&cur, pat.len(), cur.len());
        proof {
            assert(next@ =~= cur@.subrange(pat@.len() as int, cur@.len() as int));
        }
        cur = next;
    }
    cur
}

/// `s` with every trailing copy of the character `c` removed, as
/// `str::trim_end_matches` computes it with a char pattern.
pub open spec fn spec_trim_end_char(s: Seq<char>, c: char) -> Seq<char>
    decreases s.len(),
{
    if s.len() > 0 && s[s.len() - 1] == c {
        spec_trim_end_char(s.subrange(0, s.len() - 1), c)
    } else {
        s
    }
}

/// Removes every trailing copy of `c` from `v`.
pub fn trim_end_char(v: &Vec<char>, c: char) -> (r: Vec<char>)
    ensures
        r@ == spec_trim_end_char(v@, c),
{
    let mut j: usize = v.len();
    proof {
        assert(v@.subrange(0, v@.len() as int) =~= v@);
    }
    while j > 0 && v[j - 1] == c
        invariant
            j <= v@.len(),
            spec_trim_end_char(v@, c) == spec_trim_end_char(v@.subrange(0, j as int), c),
        decreases j,
    {
        proof {
            assert(v@.subrange(0, j as int).subrange(0, j - 1int) =~= v@.subrange(0, j - 1int));
        }
        j = j - 1;
    }
    let r = subvec(v, 0, j);
    proof {
        if j > 0 {
            assert(v@.subrange(0, j as int)[j - 1int] != c);
        }
        assert(spec_trim_end_char(v@.subrange(0, j as int), c) == v@.subrange(0, j as int));
    }
    r
}

/// The prefix of `s` up to (not including) its first whitespace character.
pub open spec fn spec_until_space(s: Seq<char>) -> Seq<char>
    decreases s.len(),
{
    if s.len() > 0 && !is_space(s[0]) {
        seq![s[0]] + spec_until_space(s.subrange(1, s.len() as int))
    } else {
        Seq::empty()
    }
}

/// The first whitespace-delimited token of `s`, as
/// `str::split_whitespace().next()` yields it; empty when `s` is all
/// whitespace.
pub open spec fn spec_first_token(s: Seq<char>) -> Seq<char> {
    spec_until_space(spec_trim_start(s))
}

/// Extracts the first whitespace-delimited token of `v`.
pub fn first_token(v: &Vec<char>) -> (r: Vec<char>)
    ensures
        r@ == spec_first_token(v@),
{
    let t = trim_start(v);
    let mut r: Vec<char> = Vec::new();
    let mut i: usize = 0;
    while i < t.len() && !is_space_char(t[i])
        invariant
            i <= t@.len(),
            forall|k: int| 0 <= k < i ==> !is_space(t@[k]),
            r@ =~= t@.subrange(0, i as int),
        decreases t@.len() - i,
    {
        r.push(t[i]);
        i = i + 1;
    }
    proof {
        lemma_until_space_prefix(t@, i as int);
        assert(r@ =~= t@.subrange(0, i as int));
    }
    r
}

proof fn lemma_until_space_prefix(s: Seq<char>, i: int)
    requires
        0 <= i <= s.len(),
        forall|k: int| 0 <= k < i ==> !is_space(s[k]),
        i < s.len() ==> is_space(s[i]),
    ensures
        spec_until_space(s) == s.subrange(0, i),
    decreases s.len(),
{
    if s.len() > 0 && !is_space(s[0]) {
        assert(i > 0);
        lemma_until_space_prefix(s.subrange(1, s.len() as int), i - 1);
        assert(s.subrange(1, s.len() as int).subrange(0, i - 1) =~= s.subrange(1, i));
        assert(spec_until_space(s) =~= s.subrange(0, i));
    } else {
        assert(i == 0);
        assert(s.subrange(0, 0) =~= Seq::<char>::empty());
    }
}

/// The pieces of `s` between occurrences of the separator `c`, as
/// `str::split` yields them: empty pieces are kept.
pub open spec fn spec_split_char(s: Seq<char>, c: char) -> Seq<Seq<char>>
    decreases s.len(),
{
    match spec_find(s, seq![c]) {
        Some(i) => {
            if 0 <= i < s.len() {
                seq![s.subrange(0, i)] + spec_split_char(s.subrange(i + 1, s.len() as int), c)
            } else {
                seq![s]
            }
        },
        None => seq![s],
    }
}

/// Splits `v` at every occurrence of `c`, keeping empty pieces.
pub fn split_char(v: &Vec<char>, c: char) -> (r: Vec<Vec<char>>)
    ensures
        r@.len() == spec_split_char(v@, c).len(),
        forall|i: int| 0 <= i < r@.len() ==> r@[i]@ == spec_split_char(v@, c)[i],
{
    let mut sep: Vec<char> = Vec::new();
    sep.push(c);
    proof {
        assert(sep@ =~= seq![c]);
    }
    let mut parts: Vec<Vec<char>> = Vec::new();
    let ghost mut acc: Seq<Seq<char>> = Seq::empty();
    let mut pos: usize = 0;
    proof {
        assert(v@.subrange(0, v@.len() as int) =~= v@);
        assert(acc + spec_split_char(v@, c) =~= spec_split_char(v@, c));
    }
    loop
        invariant
            pos <= v@.len(),
            sep@ == seq![c],
            acc.len() == parts@.len(),
            forall|k: int| 0 <= k < acc.len() ==> acc[k] == parts@[k]@,
            spec_split_char(v@, c) == acc + spec_split_char(
                v@.subrange(pos as int, v@.len() as int),
                c,
            ),
        decreases v@.len() - pos,
    {
        let ghost rest_seq = v@.subrange(pos as int, v@.len() as int);
        let rest = subvec(v, pos, v.len());
        let found = find(&rest, &sep);
        match found {
            Some(i) => {
                proof {
                    lemma_find_characterization(rest_seq, seq![c]);
                }
                let piece = subvec(v, pos, pos + i);
                proof {
                    assert(piece@ =~= rest_seq.subrange(0, i as int));
                    assert(rest_seq.subrange(i + 1, rest_seq.len() as int) =~= v@.subrange(
                        pos + i + 1,
                        v@.len() as int,
                    ));
                    assert(spec_split_char(rest_seq, c) == seq![piece@] + spec_split_char(
                        v@.subrange(pos + i + 1, v@.len() as int),
                        c,
                    ));
                    acc = acc.push(piece@);
                    assert((acc.drop_last() + (seq![piece@] + spec_split_char(
                        v@.subrange(pos + i + 1, v@.len() as int),
                        c,
                    ))) =~= acc + spec_split_char(v@.subrange(pos + i + 1, v@.len() as int), c));
                }
                parts.push(piece);
                pos = pos + i + 1;
            },
            None => {
                proof {
                    assert(spec_split_char(rest_seq, c) == seq![rest_seq]);
                    acc = acc.push(rest_seq);
                    assert(acc.drop_last() + seq![rest_seq] =~= acc);
                }
                parts.push(rest);
                return parts;
            },
        }
    }
}

/// The lines of `s` joined with a single newline character, as
/// `[String]::join("\n")` builds them.
pub open spec fn spec_join_nl(parts: Seq<Seq<char>>) -> Seq<char>
    decreases parts.len(),
{
    if parts.len() == 0 {
        Seq::empty()
    } else if parts.len() == 1 {
        parts[0]
    } else {
        parts[0] + seq!['\n'] + spec_join_nl(parts.subrange(1, parts.len() as int))
    }
}

/// Appends all characters of `src` to `dst`.
pub fn push_all(dst: &mut Vec<char>, src: &Vec<char>)
    ensures
        final(dst)@ == old(dst)@ + src@,
{
    let mut i: usize = 0;
    while i < src.len()
        invariant
            i <= src@.len(),
            dst@ =~= old(dst)@ + src@.subrange(0, i as int),
        decreases src@.len() - i,
    {
        dst.push(src[i]);
        i = i + 1;
    }
    proof {
        assert(old(dst)@ + src@.subrange(0, src@.len() as int) =~= old(dst)@ + src@);
    }
}

/// Joins the given strings with single newline characters.
pub fn join_lines(parts: &Vec<String>) -> (r: Vec<char>)
    ensures
        r@ == spec_join_nl(parts.deep_view()),
{
    let mut r: Vec<char> = Vec::new();
    if parts.len() == 0 {
        return r;
    }
    let first = str_chars(parts[0].as_str());
    push_all(&mut r, &first);
    let mut i: usize = 1;
    proof {
        assert(parts.deep_view().subrange(0, 1) =~= seq![parts@[0]@]);
        lemma_join_nl_prefix(parts.deep_view(), 1);
        assert(spec_join_nl(parts.deep_view().subrange(0, 1)) == parts@[0]@);
    }
    while i < parts.len()
        invariant
            1 <= i <= parts@.len(),
            r@ =~= spec_join_nl(parts.deep_view().subrange(0, i as int)),
        decreases parts@.len() - i,
    {
        r.push('\n');
        let piece = str_chars(parts[i].as_str());
        push_all(&mut r, &piece);
        proof {
            lemma_join_nl_snoc(parts.deep_view(), i as int);
        }
        i = i + 1;
    }
    proof {
        assert(parts.deep_view().subrange(0, parts@.len() as int) =~= parts.deep_view());
    }
    r
}

proof fn lemma_join_nl_prefix(parts: Seq<Seq<char>>, i: int)
    requires
        1 <= i <= parts.len(),
    ensures
        spec_join_nl(parts.subrange(0, i)) == if i == 1 {
            parts[0]
        } else {
            spec_join_nl(parts.subrange(0, i - 1)) + seq!['\n'] + parts[i - 1]
        },
    decreases i,
{
    if i == 1 {
        assert(parts.subrange(0, 1) =~= seq![parts[0]]);
    } else {
        lemma_join_nl_tail_snoc(parts.subrange(0, i));
        assert(parts.subrange(0, i).subrange(0, i - 1) =~= parts.subrange(0, i - 1));
    }
}

proof fn lemma_join_nl_tail_snoc(parts: Seq<Seq<char>>)
    requires
        parts.len() >= 2,
    ensures
        spec_join_nl(parts) == spec_join_nl(parts.subrange(0, parts.len() - 1)) + seq!['\n']
            + parts[parts.len() - 1],
    decreases parts.len(),
{
    if parts.len() == 2 {
        assert(parts.subrange(1, 2) =~= seq![parts[1]]);
        assert(parts.subrange(0, 1) =~= seq![parts[0]]);
        assert(spec_join_nl(parts.subrange(1, 2)) == parts[1]);
        assert(spec_join_nl(parts.subrange(0, 1)) == parts[0]);
    } else {
        let t = parts.subrange(1, parts.len() as int);
        lemma_join_nl_tail_snoc(t);
        assert(t.subrange(0, t.len() - 1) =~= parts.subrange(0, parts.len() - 1).subrange(
            1,
            parts.len() - 1,
        ));
        let p = parts.subrange(0, parts.len() - 1);
        assert(p.len() >= 2);
        assert(spec_join_nl(p) == p[0] + seq!['\n'] + spec_join_nl(p.subrange(1, p.len() as int)));
        assert(t[t.len() - 1] == parts[parts.len() - 1]);
        assert(spec_join_nl(t) == spec_join_nl(t.subrange(0, t.len() - 1)) + seq!['\n']
            + parts[parts.len() - 1]);
    }
}

proof fn lemma_join_nl_snoc(parts: Seq<Seq<char>>, i: int)
    requires
        1 <= i < parts.len(),
    ensures
        spec_join_nl(parts.subrange(0, i + 1)) == spec_join_nl(parts.subrange(0, i)) + seq!['\n']
            + parts[i],
{
    lemma_join_nl_prefix(parts, i + 1);
}

/// `c` is a decimal digit.
pub open spec fn is_dec_digit(c: char) -> bool {
    '0' <= c && c <= '9'
}

/// Every character of `s` is a decimal digit.
pub open spec fn all_digits(s: Seq<char>) -> bool {
    forall|i: int| 0 <= i < s.len() ==> is_dec_digit(s[i])
}

/// `s` without leading zero digits.
pub open spec fn spec_strip_zeros(s: Seq<char>) -> Seq<char>
    decreases s.len(),
{
    if s.len() > 0 && s[0] == '0' {
        spec_strip_zeros(s.subrange(1, s.len() as int))
    } else {
        s
    }
}

/// The number a string of decimal digits denotes, most significant digit
/// first.
pub open spec fn dec_value(digits: Seq<char>) -> int
    decreases digits.len(),
{
    if digits.len() == 0 {
        0
    } else {
        dec_value(digits.subrange(0, digits.len() - 1)) * 10 + (digits[digits.len() - 1] as int
            - 48)
    }
}

/// Ten to the power `n`.
pub open spec fn pow10(n: nat) -> int
    decreases n,
{
    if n == 0 {
        1
    } else {
        10 * pow10((n - 1) as nat)
    }
}

/// Powers of ten are positive.
pub proof fn lemma_pow10_positive(n: nat)
    ensures
        pow10(n) >= 1,
    decreases n,
{
    if n > 0 {
        lemma_pow10_positive((n - 1) as nat);
    }
}

/// Powers of ten grow with the exponent.
pub proof fn lemma_pow10_mono(m: nat, n: nat)
    requires
        m <= n,
    ensures
        pow10(m) <= pow10(n),
    decreases n,
{
    if m < n {
        lemma_pow10_mono(m, (n - 1) as nat);
        lemma_pow10_positive((n - 1) as nat);
    }
}

/// A digit string's value is non-negative and below ten to its length.
pub proof fn lemma_dec_value_bounds(digits: Seq<char>)
    requires
        all_digits(digits),
    ensures
        0 <= dec_value(digits) < pow10(digits.len() as nat),
    decreases digits.len(),
{
    if digits.len() > 0 {
        let front = digits.subrange(0, digits.len() - 1);
        assert(all_digits(front));
        lemma_dec_value_bounds(front);
    }
}

/// A digit string that does not start with a zero is at least ten to one
/// less than its length.
pub proof fn lemma_dec_value_lower(digits: Seq<char>)
    requires
        all_digits(digits),
        digits.len() > 0,
        digits[0] != '0',
    ensures
        dec_value(digits) >= pow10((digits.len() - 1) as nat),
    decreases digits.len(),
{
    assert(is_dec_digit(digits[0]));
    assert(is_dec_digit(digits[digits.len() - 1]));
    if digits.len() == 1 {
        reveal_with_fuel(dec_value, 2);
        assert(digits.subrange(0, 0) =~= Seq::<char>::empty());
        assert(dec_value(digits) == digits[0] as int - 48);
    } else {
        let front = digits.subrange(0, digits.len() - 1);
        assert(all_digits(front));
        assert(front[0] == digits[0]);
        lemma_dec_value_lower(front);
        assert(pow10((digits.len() - 1) as nat) == 10 * pow10((digits.len() - 2) as nat));
        assert(dec_value(digits) == dec_value(front) * 10 + (digits[digits.len() - 1] as int
            - 48));
    }
}

/// A leading zero does not change a digit string's value.
pub proof fn lemma_dec_value_zero_head(digits: Seq<char>)
    requires
        digits.len() > 0,
        digits[0] == '0',
    ensures
        dec_value(digits) == dec_value(digits.subrange(1, digits.len() as int)),
    decreases digits.len(),
{
    if digits.len() == 1 {
        reveal_with_fuel(dec_value, 2);
        assert(digits.subrange(1, 1) =~= Seq::<char>::empty());
        assert(digits.subrange(0, 0) =~= Seq::<char>::empty());
        assert(dec_value(digits) == digits[0] as int - 48);
    } else {
        let front = digits.subrange(0, digits.len() - 1);
        let tail = digits.subrange(1, digits.len() as int);
        assert(front[0] == digits[0]);
        lemma_dec_value_zero_head(front);
        assert(front.subrange(1, front.len() as int) =~= tail.subrange(0, tail.len() - 1));
        assert(tail[tail.len() - 1] == digits[digits.len() - 1]);
        assert(dec_value(digits) == dec_value(front) * 10 + (digits[digits.len() - 1] as int
            - 48));
        assert(dec_value(tail) == dec_value(tail.subrange(0, tail.len() - 1)) * 10 + (
        tail[tail.len() - 1] as int - 48));
    }
}

/// Leading zeros do not change a digit string's value.
pub proof fn lemma_dec_value_strip_zeros(digits: Seq<char>)
    ensures
        dec_value(digits) == dec_value(spec_strip_zeros(digits)),
    decreases digits.len(),
{
    if digits.len() > 0 && digits[0] == '0' {
        lemma_dec_value_zero_head(digits);
        lemma_dec_value_strip_zeros(digits.subrange(1, digits.len() as int));
    }
}

/// The decimal digit character for `d`.
pub open spec fn digit_char(d: int) -> char {
    ((48 + d) as u8) as char
}

/// The decimal numeral for `n`, most significant digit first.
pub open spec fn spec_dec(n: nat) -> Seq<char>
    decreases n,
{
    if n < 10 {
        seq![digit_char(n as int)]
    } else {
        spec_dec(n / 10) + seq![digit_char((n % 10) as int)]
    }
}

/// Formats `n` in decimal.
pub fn u64_to_dec(n: u64) -> (r: Vec<char>)
    ensures
        r@ == spec_dec(n as nat),
{
    let mut digits: Vec<char> = Vec::new();
    let mut m: u64 = n;
    loop
        invariant
            spec_dec(n as nat) =~= spec_dec(m as nat) + digits@,
        decreases m,
    {
        let d = (m % 10) as u8;
        let c = ((48 + d) as u8) as char;
        if m < 10 {
            let mut r: Vec<char> = Vec::new();
            r.push(c);
            let mut i: usize = 0;
            while i < digits.len()
                invariant
                    i <= digits@.len(),
                    r@ =~= seq![digit_char(m as int)] + digits@.subrange(0, i as int),
                decreases digits@.len() - i,
            {
                r.push(digits[i]);
                i = i + 1;
            }
            proof {
                assert(r@ =~= spec_dec(m as nat) + digits@);
            }
            return r;
        }
        let next = m / 10;
        proof {
            assert(spec_dec(m as nat) == spec_dec((m / 10) as nat) + seq![
                digit_char((m % 10) as int),
            ]);
            assert(spec_dec((m / 10) as nat) + (seq![digit_char((m % 10) as int)] + digits@)
                =~= spec_dec(m as nat) + digits@);
        }
        let mut nd: Vec<char> = Vec::new();
        nd.push(c);
        push_all(&mut nd, &digits);
        digits = nd;
        m = next;
    }
}

} // verus!

//! Exclude patterns: `*` stands for any run of characters within one path
//! component, `**` for any run of characters across components, `?` for one
//! character other than a separator; every other character stands for itself.
use crate::paths::{normal_components, normal_components_of, views};
use vstd::prelude::*;
use vstd::string::*;

verus! {

/// Whether the pattern `p` from position `i` matches the text `s` from position `j`.
pub open spec fn glob_at(p: Seq<char>, s: Seq<char>, i: int, j: int) -> bool
    decreases (p.len() - i) + (s.len() - j),
{
    if i < 0 || j < 0 || i > p.len() || j > s.len() {
        false
    } else if i == p.len() {
        j == s.len()
    } else if p[i] == '*' && i + 1 < p.len() && p[i + 1] == '*' {
        glob_at(p, s, i + 2, j) || (j < s.len() && glob_at(p, s, i, j + 1))
    } else if p[i] == '*' {
        glob_at(p, s, i + 1, j) || (j < s.len() && s[j] != '/' && glob_at(p, s, i, j + 1))
    } else if p[i] == '?' {
        j < s.len() && s[j] != '/' && glob_at(p, s, i + 1, j + 1)
    } else {
        j < s.len() && s[j] == p[i] && glob_at(p, s, i + 1, j + 1)
    }
}

/// Whether the whole pattern `p` matches the whole text `s`.
pub open spec fn glob_matches(p: Seq<char>, s: Seq<char>) -> bool {
    glob_at(p, s, 0, 0)
}

/// Whether `p` has no wildcard from position `i` on.
pub open spec fn literal_from(p: Seq<char>, i: int) -> bool {
    forall|k: int| i <= k < p.len() ==> p[k] != '*' && p[k] != '?'
}

proof fn lemma_literal_at(p: Seq<char>, s: Seq<char>, i: int, j: int)
    requires
        0 <= i <= p.len(),
        0 <= j <= s.len(),
        literal_from(p, i),
    ensures
        glob_at(p, s, i, j) == (p.skip(i) == s.skip(j)),
    decreases p.len() - i,
{
    if i == p.len() {
        if j < s.len() {
            assert(p.skip(i).len() == 0 && s.skip(j).len() > 0);
        } else {
            assert(p.skip(i) =~= s.skip(j));
        }
    } else {
        assert(p[i] != '*' && p[i] != '?');
        if j < s.len() {
            lemma_literal_at(p, s, i + 1, j + 1);
            if p.skip(i) == s.skip(j) {
                assert(p.skip(i)[0] == s.skip(j)[0]);
                assert(p.skip(i + 1) =~= p.skip(i).drop_first());
                assert(s.skip(j + 1) =~= s.skip(j).drop_first());
            } else if s[j] == p[i] && p.skip(i + 1) == s.skip(j + 1) {
                assert(p.skip(i).len() == s.skip(j).len());
                assert forall|k: int| 0 <= k < p.skip(i).len() implies p.skip(i)[k] == s.skip(j)[k] by {
                    if k > 0 {
                        assert(p.skip(i)[k] == p.skip(i + 1)[k - 1]);
                        assert(s.skip(j)[k] == s.skip(j + 1)[k - 1]);
                    }
                }
                assert(p.skip(i) =~= s.skip(j));
            }
        } else {
            assert(p.skip(i).len() > 0 && s.skip(j).len() == 0);
        }
    }
}

/// A pattern without wildcards matches exactly the text it spells.
pub proof fn lemma_literal_pattern(p: Seq<char>, s: Seq<char>)
    requires
        literal_from(p, 0),
    ensures
        glob_matches(p, s) == (p == s),
{
    lemma_literal_at(p, s, 0, 0);
    assert(p.skip(0) =~= p);
    assert(s.skip(0) =~= s);
}

proof fn lemma_double_star_at(s: Seq<char>, j: int)
    requires
        0 <= j <= s.len(),
    ensures
        glob_at(seq!['*', '*'], s, 0, j),
    decreases s.len() - j,
{
    let p = seq!['*', '*'];
    if j < s.len() {
        lemma_double_star_at(s, j + 1);
    } else {
        assert(glob_at(p, s, 2, j));
    }
}

/// The pattern `**` matches every text.
pub proof fn lemma_double_star_matches_all(s: Seq<char>)
    ensures
        glob_matches(seq!['*', '*'], s),
{
    lemma_double_star_at(s, 0);
}

/// Whether `x` holds no path separator.
pub open spec fn no_separator(x: Seq<char>) -> bool {
    forall|k: int| 0 <= k < x.len() ==> x[k] != '/'
}

proof fn lemma_glob_shift(a: Seq<char>, q: Seq<char>, x: Seq<char>, t: Seq<char>, i: int, j: int)
    requires
        0 <= i <= q.len(),
        0 <= j <= t.len(),
    ensures
        glob_at(a + q, x + t, i + a.len(), j + x.len()) == glob_at(q, t, i, j),
    decreases (q.len() - i) + (t.len() - j),
{
    let p = a + q;
    let s = x + t;
    let pi = i + a.len();
    let sj = j + x.len();
    if i < q.len() {
        assert(p[pi] == q[i]);
        if i + 1 < q.len() {
            assert(p[pi + 1] == q[i + 1]);
        }
        if j < t.len() {
            assert(s[sj] == t[j]);
            lemma_glob_shift(a, q, x, t, i, j + 1);
            lemma_glob_shift(a, q, x, t, i + 1, j + 1);
        }
        lemma_glob_shift(a, q, x, t, i + 1, j);
        if i + 2 <= q.len() {
            lemma_glob_shift(a, q, x, t, i + 2, j);
        }
        assert((pi + 1) + 0 == (i + 1) + a.len());
    }
}

proof fn lemma_star_consumes(q: Seq<char>, x: Seq<char>, t: Seq<char>, j: int)
    requires
        0 <= j <= x.len(),
        no_separator(x),
        q.len() == 0 || q[0] != '*',
        glob_at(seq!['*'] + q, x + t, 1, x.len() as int),
    ensures
        glob_at(seq!['*'] + q, x + t, 0, j),
    decreases x.len() - j,
{
    let p = seq!['*'] + q;
    let s = x + t;
    assert(p[0] == '*');
    if q.len() > 0 {
        assert(p[1] == q[0]);
    }
    if j < x.len() {
        assert(s[j] == x[j]);
        lemma_star_consumes(q, x, t, j + 1);
    }
}

/// A single `*` stands for any run of characters without a separator: when
/// the rest of the pattern `q` matches `t`, the pattern `*` + `q` matches
/// `x` + `t` for every `x` without a separator (a `*` that stopped early,
/// say at a character that also begins `q`, breaks this).
pub proof fn lemma_star_matches_any_run(q: Seq<char>, x: Seq<char>, t: Seq<char>)
    requires
        no_separator(x),
        q.len() == 0 || q[0] != '*',
        glob_matches(q, t),
    ensures
        glob_matches(seq!['*'] + q, x + t),
{
    lemma_glob_shift(seq!['*'], q, x, t, 0, 0);
    lemma_star_consumes(q, x, t, 0);
}

proof fn lemma_star_splits(q: Seq<char>, s: Seq<char>, j: int)
    requires
        0 <= j <= s.len(),
        q.len() == 0 || q[0] != '*',
        glob_at(seq!['*'] + q, s, 0, j),
    ensures
        exists|k: int|
            j <= k <= s.len() && no_separator(s.subrange(j, k)) && #[trigger] glob_at(seq!['*'] + q, s, 1, k),
    decreases s.len() - j,
{
    let p = seq!['*'] + q;
    assert(p[0] == '*');
    if q.len() > 0 {
        assert(p[1] == q[0]);
    }
    if glob_at(p, s, 1, j) {
        assert(no_separator(s.subrange(j, j)));
    } else {
        lemma_star_splits(q, s, j + 1);
        let k = choose|k: int| j + 1 <= k <= s.len() && no_separator(s.subrange(j + 1, k)) && #[trigger] glob_at(p, s, 1, k);
        assert forall|m: int| 0 <= m < s.subrange(j, k).len() implies s.subrange(j, k)[m] != '/' by {
            if m > 0 {
                assert(s.subrange(j, k)[m] == s.subrange(j + 1, k)[m - 1]);
            }
        }
    }
}

/// A pattern `*` followed by literal text `q` matches exactly the texts that
/// end in `q` and hold no separator before it: `*.tmp` matches every file
/// name ending in `.tmp`, however many dots come before, and nothing in
/// another directory.
pub proof fn lemma_star_literal_suffix(q: Seq<char>, s: Seq<char>)
    requires
        literal_from(q, 0),
    ensures
        glob_matches(seq!['*'] + q, s) <==> (q.len() <= s.len() && s.skip(s.len() - q.len()) == q && no_separator(
            s.take(s.len() - q.len()),
        )),
{
    let p = seq!['*'] + q;
    assert(q.len() == 0 || q[0] != '*');
    assert(literal_from(p, 1));
    assert(p.skip(1) =~= q);
    if q.len() <= s.len() && s.skip(s.len() - q.len()) == q && no_separator(s.take(s.len() - q.len())) {
        let x = s.take(s.len() - q.len());
        assert(x + q =~= s);
        lemma_literal_pattern(q, q);
        lemma_star_matches_any_run(q, x, q);
    }
    if glob_matches(p, s) {
        lemma_star_splits(q, s, 0);
        let k = choose|k: int| 0 <= k <= s.len() && no_separator(s.subrange(0, k)) && #[trigger] glob_at(p, s, 1, k);
        lemma_literal_at(p, s, 1, k);
        assert(s.skip(k) == q);
        assert(k == s.len() - q.len());
        assert(s.take(k) =~= s.subrange(0, k));
    }
}

proof fn lemma_double_star_consumes(q: Seq<char>, x: Seq<char>, t: Seq<char>, j: int)
    requires
        0 <= j <= x.len(),
        glob_at(seq!['*', '*'] + q, x + t, 2, x.len() as int),
    ensures
        glob_at(seq!['*', '*'] + q, x + t, 0, j),
    decreases x.len() - j,
{
    let p = seq!['*', '*'] + q;
    assert(p[0] == '*' && p[1] == '*');
    if j < x.len() {
        lemma_double_star_consumes(q, x, t, j + 1);
    }
}

/// `**` stands for any run of characters, separators included: when the rest
/// of the pattern `q` matches `t`, the pattern `**` + `q` matches `x` + `t`
/// for every `x`.
pub proof fn lemma_double_star_matches_any_run(q: Seq<char>, x: Seq<char>, t: Seq<char>)
    requires
        glob_matches(q, t),
    ensures
        glob_matches(seq!['*', '*'] + q, x + t),
{
    lemma_glob_shift(seq!['*', '*'], q, x, t, 0, 0);
    lemma_double_star_consumes(q, x, t, 0);
}

/// `?` matches exactly one character, and never a separator.
pub proof fn lemma_question_mark(s: Seq<char>)
    ensures
        glob_matches(seq!['?'], s) <==> (s.len() == 1 && s[0] != '/'),
{
    let p = seq!['?'];
    assert(p[0] == '?');
    if s.len() >= 1 {
        assert(glob_at(p, s, 1, 1) == (1 == s.len()));
    }
}

/// A pattern excludes a file when it matches the file's path relative to the
/// watch root, and also when it matches just the file's name.
pub proof fn lemma_path_or_name_excludes(pattern: Seq<char>, rel: Seq<char>)
    ensures
        glob_matches(pattern, rel) ==> excludes(pattern, rel),
        glob_matches(pattern, file_name(rel)) ==> excludes(pattern, rel),
        excludes(pattern, rel) ==> (glob_matches(pattern, rel) || glob_matches(pattern, file_name(rel))),
{
}

/// The exclusion found is the first pattern that excludes the file: it
/// excludes it and no earlier pattern does; when none is found, no pattern
/// excludes it.
pub proof fn lemma_first_exclusion_is_first(ps: Seq<Seq<char>>, rel: Seq<char>)
    ensures
        first_exclusion(ps, rel) matches Some(k) ==> (0 <= k < ps.len() && excludes(ps[k], rel) && forall|j: int|
            0 <= j < k ==> !excludes(#[trigger] ps[j], rel)),
        first_exclusion(ps, rel) is None ==> forall|j: int| 0 <= j < ps.len() ==> !excludes(#[trigger] ps[j], rel),
    decreases ps.len(),
{
    if ps.len() > 0 {
        let t = ps.drop_last();
        lemma_first_exclusion_is_first(t, rel);
        match first_exclusion(t, rel) {
            Some(k) => {
                assert(t[k] == ps[k]);
                assert forall|j: int| 0 <= j < k implies !excludes(#[trigger] ps[j], rel) by {
                    assert(t[j] == ps[j]);
                }
            },
            None => {
                assert forall|j: int| 0 <= j < t.len() implies !excludes(#[trigger] ps[j], rel) by {
                    assert(t[j] == ps[j]);
                }
            },
        }
    }
}

/// The last named component of a relative path, or the path itself when it
/// names none.
pub open spec fn file_name(rel: Seq<char>) -> Seq<char> {
    let c = normal_components(rel);
    if c.len() > 0 {
        c.last()
    } else {
        rel
    }
}

/// Whether `pattern` excludes the file at `rel` (relative to the watch
/// root): it matches the whole relative path, or the file's name.
pub open spec fn excludes(pattern: Seq<char>, rel: Seq<char>) -> bool {
    glob_matches(pattern, rel) || glob_matches(pattern, file_name(rel))
}

/// The first of `patterns` that excludes `rel`, if any.
pub open spec fn first_exclusion(patterns: Seq<Seq<char>>, rel: Seq<char>) -> Option<int>
    decreases patterns.len(),
{
    if patterns.len() == 0 {
        None
    } else {
        match first_exclusion(patterns.drop_last(), rel) {
            Some(k) => Some(k),
            None => if excludes(patterns.last(), rel) {
                Some(patterns.len() - 1)
            } else {
                None
            },
        }
    }
}

/// Whether `pattern` matches the whole of `text`.
pub fn glob_match(pattern: &str, text: &str) -> (b: bool)
    ensures
        b == glob_matches(pattern@, text@),
{
    let m = pattern.unicode_len();
    let n = text.unicode_len();
    let ghost p = pattern@;
    let ghost s = text@;
    // For the row of pattern position `i`, `next[k]` says whether the pattern
    // from `i` matches the text from `k` (for `k < n`), and `next_end` the same
    // for the end of the text. `after` and `after_end` hold the row `i + 1`.
    let mut next: Vec<bool> = Vec::new();
    let mut after: Vec<bool> = Vec::new();
    let mut j: usize = 0;
    while j < n
        invariant
            n == s.len(),
            m == p.len(),
            s == text@,
            p == pattern@,
            j <= n,
            next@.len() == j,
            after@.len() == j,
            forall|k: int| 0 <= k < j ==> next@[k] == glob_at(p, s, m as int, k),
        decreases n - j,
    {
        next.push(false);
        after.push(false);
        j = j + 1;
    }
    let mut next_end = true;
    let mut after_end = false;
    let mut i: usize = m;
    while i > 0
        invariant
            n == s.len(),
            m == p.len(),
            s == text@,
            p == pattern@,
            i <= m,
            next@.len() == n,
            after@.len() == n,
            forall|k: int| 0 <= k < n ==> next@[k] == glob_at(p, s, i as int, k),
            next_end == glob_at(p, s, i as int, n as int),
            i + 1 <= m ==> (forall|k: int| 0 <= k < n ==> after@[k] == glob_at(p, s, i + 1, k)),
            i + 1 <= m ==> after_end == glob_at(p, s, i + 1, n as int),
        decreases i,
    {
        let r = i - 1;
        let c = pattern.get_char(r);
        let double = c == '*' && r + 1 < m && pattern.get_char(r + 1) == '*';
        let row_end = if double {
            after_end
        } else if c == '*' {
            next_end
        } else {
            false
        };
        assert(row_end == glob_at(p, s, r as int, n as int));
        let mut row: Vec<bool> = Vec::new();
        let mut x: usize = 0;
        while x < n
            invariant
                x <= n,
                row@.len() == x,
            decreases n - x,
        {
            row.push(false);
            x = x + 1;
        }
        // Fill the row from the end of the text backwards.
        let mut y: usize = n;
        while y > 0
            invariant
                n == s.len(),
                m == p.len(),
                s == text@,
                p == pattern@,
                r < m,
                c == p[r as int],
                double == (p[r as int] == '*' && r + 1 < m && p[r + 1] == '*'),
                y <= n,
                row@.len() == n,
                next@.len() == n,
                after@.len() == n,
                forall|k: int| 0 <= k < n ==> next@[k] == glob_at(p, s, r + 1, k),
                next_end == glob_at(p, s, r + 1, n as int),
                r + 2 <= m ==> (forall|k: int| 0 <= k < n ==> after@[k] == glob_at(p, s, r + 2, k)),
                r + 2 <= m ==> after_end == glob_at(p, s, r + 2, n as int),
                row_end == glob_at(p, s, r as int, n as int),
                forall|k: int| y <= k < n ==> row@[k] == glob_at(p, s, r as int, k),
            decreases y,
        {
            let q = y - 1;
            let here = if q + 1 < n { row[q + 1] } else { row_end };
            let ahead = if q + 1 < n { next[q + 1] } else { next_end };
            let v = if double {
                after[q] || here
            } else if c == '*' {
                next[q] || (text.get_char(q) != '/' && here)
            } else if c == '?' {
                text.get_char(q) != '/' && ahead
            } else {
                text.get_char(q) == c && ahead
            };
            assert(v == glob_at(p, s, r as int, q as int));
            row.set(q, v);
            y = q;
        }
        after = next;
        after_end = next_end;
        next = row;
        next_end = row_end;
        i = r;
    }
    if n > 0 {
        next[0]
    } else {
        next_end
    }
}

/// The last named component of `rel`, or `rel` itself when it names none.
pub fn file_name_of(rel: &str) -> (r: String)
    ensures
        r@ == file_name(rel@),
{
    let c = normal_components_of(rel);
    if c.len() > 0 {
        let k = c.len() - 1;
        let name = c[k].clone();
        assert(views(c@)[k as int] == name@);
        name
    } else {
        String::from_str(rel)
    }
}

/// Whether `pattern` excludes the file at `rel`.
pub fn pattern_excludes(pattern: &str, rel: &str) -> (b: bool)
    ensures
        b == excludes(pattern@, rel@),
{
    if glob_match(pattern, rel) {
        return true;
    }
    let name = file_name_of(rel);
    glob_match(pattern, name.as_str())
}

/// The position of the first of `patterns` that excludes `rel`, if any.
pub fn find_exclusion(patterns: &Vec<String>, rel: &str) -> (r: Option<usize>)
    ensures
        r matches Some(k) ==> k < patterns@.len() && first_exclusion(views(patterns@), rel@) == Some(k as int),
        r is None ==> first_exclusion(views(patterns@), rel@) is None,
{
    let mut i: usize = 0;
    while i < patterns.len()
        invariant
            i <= patterns@.len(),
            first_exclusion(views(patterns@).take(i as int), rel@) is None,
        decreases patterns.len() - i,
    {
        let ghost t = views(patterns@).take(i as int);
        let ghost t1 = views(patterns@).take(i + 1);
        proof {
            assert(t1.drop_last() =~= t);
            assert(t1.last() == patterns@[i as int]@);
        }
        if pattern_excludes(patterns[i].as_str(), rel) {
            proof {
                lemma_first_exclusion_prefix(views(patterns@), rel@, i + 1);
            }
            return Some(i);
        }
        i = i + 1;
    }
    assert(views(patterns@).take(patterns@.len() as int) =~= views(patterns@));
    None
}

proof fn lemma_first_exclusion_prefix(ps: Seq<Seq<char>>, rel: Seq<char>, k: int)
    requires
        0 <= k <= ps.len(),
        first_exclusion(ps.take(k), rel) is Some,
    ensures
        first_exclusion(ps, rel) == first_exclusion(ps.take(k), rel),
    decreases ps.len(),
{
    if k < ps.len() {
        assert(ps.drop_last().take(k) =~= ps.take(k));
        lemma_first_exclusion_prefix(ps.drop_last(), rel, k);
    } else {
        assert(ps.take(k) =~= ps);
    }
}

} // verus!

//! Unix path arithmetic on text: components, joining, prefix stripping and
//! parents, with the same component rules as the platform's path type.
use vstd::prelude::*;
use vstd::string::*;

verus! {

/// The text of each string in `v`.
pub open spec fn views(v: Seq<String>) -> Seq<Seq<char>> {
    v.map_values(|x: String| x@)
}

/// The one-character segment `.`, which names the current directory.
pub open spec fn cur_dir() -> Seq<char> {
    seq!['.']
}

/// The segment `..`, which names the parent directory.
pub open spec fn parent_dir() -> Seq<char> {
    seq!['.', '.']
}

/// The marker component that stands for the root directory.
pub open spec fn root_dir() -> Seq<char> {
    seq!['/']
}

/// Adds a finished segment to the normal components: empty segments (repeated
/// separators) and `.` segments are not components.
pub open spec fn keep_segment(comps: Seq<Seq<char>>, seg: Seq<char>) -> Seq<Seq<char>> {
    if seg.len() == 0 || seg == cur_dir() {
        comps
    } else {
        comps.push(seg)
    }
}

/// Scans `s` from the state `st` (finished components, unfinished segment).
pub open spec fn scan_from(st: (Seq<Seq<char>>, Seq<char>), s: Seq<char>) -> (Seq<Seq<char>>, Seq<char>)
    decreases s.len(),
{
    if s.len() == 0 {
        st
    } else {
        let prev = scan_from(st, s.drop_last());
        if s.last() == '/' {
            (keep_segment(prev.0, prev.1), Seq::<char>::empty())
        } else {
            (prev.0, prev.1.push(s.last()))
        }
    }
}

/// The scanning state after reading all of `s`.
pub open spec fn scan(s: Seq<char>) -> (Seq<Seq<char>>, Seq<char>) {
    scan_from((Seq::<Seq<char>>::empty(), Seq::<char>::empty()), s)
}

/// The named components of `s`: its `/`-separated segments without empty and
/// `.` segments.
pub open spec fn normal_components(s: Seq<char>) -> Seq<Seq<char>> {
    keep_segment(scan(s).0, scan(s).1)
}

/// A path is absolute when it starts at the root.
pub open spec fn is_absolute(s: Seq<char>) -> bool {
    s.len() > 0 && s[0] == '/'
}

/// A relative path whose first segment is `.` keeps that segment as a component.
pub open spec fn starts_with_cur_dir(s: Seq<char>) -> bool {
    (s.len() == 1 && s[0] == '.') || (s.len() >= 2 && s[0] == '.' && s[1] == '/')
}

/// The leading component that is not a name: the root, or the current directory.
pub open spec fn lead(s: Seq<char>) -> Seq<Seq<char>> {
    if is_absolute(s) {
        seq![root_dir()]
    } else if starts_with_cur_dir(s) {
        seq![cur_dir()]
    } else {
        Seq::<Seq<char>>::empty()
    }
}

/// All components of `s`, in order.
pub open spec fn components(s: Seq<char>) -> Seq<Seq<char>> {
    lead(s) + normal_components(s)
}

/// Whether `s` names a parent directory anywhere.
pub open spec fn has_parent_dir(s: Seq<char>) -> bool {
    normal_components(s).contains(parent_dir())
}

/// Components joined by single separators.
pub open spec fn join_all(cs: Seq<Seq<char>>) -> Seq<char>
    decreases cs.len(),
{
    if cs.len() == 0 {
        Seq::<char>::empty()
    } else if cs.len() == 1 {
        cs[0]
    } else {
        join_all(cs.drop_last()) + seq!['/'] + cs.last()
    }
}

/// The text of a component list: a leading root is written as one `/`.
pub open spec fn render(cs: Seq<Seq<char>>) -> Seq<char> {
    if cs.len() > 0 && cs[0] == root_dir() {
        seq!['/'] + join_all(cs.drop_first())
    } else {
        join_all(cs)
    }
}

/// `rel` appended to `base`: an absolute `rel` replaces `base`; otherwise one
/// separator is put between them unless `base` is empty or already ends in one.
pub open spec fn join(base: Seq<char>, rel: Seq<char>) -> Seq<char> {
    if is_absolute(rel) {
        rel
    } else if base.len() == 0 || base.last() == '/' {
        base + rel
    } else {
        base + seq!['/'] + rel
    }
}

/// What is left of `path` after the components of `base`, if `base`'s
/// components begin `path`'s.
pub open spec fn strip_prefix(path: Seq<char>, base: Seq<char>) -> Option<Seq<char>> {
    let cp = components(path);
    let cb = components(base);
    if cb.is_prefix_of(cp) {
        Some(render(cp.skip(cb.len() as int)))
    } else {
        None
    }
}

/// The path without its last component; none for the root and the empty path.
pub open spec fn parent(s: Seq<char>) -> Option<Seq<char>> {
    let c = components(s);
    if c.len() == 0 || c.last() == root_dir() {
        None
    } else {
        Some(render(c.drop_last()))
    }
}

// ------------------------------------------------------------------
// Lemmas on scanning.

proof fn lemma_scan_from_concat(st: (Seq<Seq<char>>, Seq<char>), x: Seq<char>, y: Seq<char>)
    ensures
        scan_from(st, x + y) == scan_from(scan_from(st, x), y),
    decreases y.len(),
{
    if y.len() == 0 {
        assert(x + y =~= x);
    } else {
        assert((x + y).drop_last() =~= x + y.drop_last());
        assert((x + y).last() == y.last());
        lemma_scan_from_concat(st, x, y.drop_last());
    }
}

proof fn lemma_scan_from_comps(c: Seq<Seq<char>>, y: Seq<char>)
    ensures
        scan_from((c, Seq::<char>::empty()), y).0 == c + scan(y).0,
        scan_from((c, Seq::<char>::empty()), y).1 == scan(y).1,
    decreases y.len(),
{
    if y.len() == 0 {
        assert(c + Seq::<Seq<char>>::empty() =~= c);
    } else {
        lemma_scan_from_comps(c, y.drop_last());
        let p = scan(y.drop_last());
        if p.1.len() == 0 || p.1 == cur_dir() {
        } else {
            assert((c + p.0).push(p.1) =~= c + p.0.push(p.1));
        }
    }
}

/// The components named in `a` followed by a separator and `b` are those of
/// `a` followed by those of `b`.
proof fn lemma_normal_components_sep(a: Seq<char>, b: Seq<char>)
    ensures
        normal_components(a + seq!['/'] + b) == normal_components(a) + normal_components(b),
{
    let e = (Seq::<Seq<char>>::empty(), Seq::<char>::empty());
    lemma_scan_from_concat(e, a + seq!['/'], b);
    lemma_scan_from_concat(e, a, seq!['/']);
    assert(seq!['/'].drop_last() =~= Seq::<char>::empty());
    assert(scan_from(scan(a), Seq::<char>::empty()) == scan(a));
    let na = normal_components(a);
    assert(scan(a + seq!['/']) == (na, Seq::<char>::empty()));
    lemma_scan_from_comps(na, b);
    let sb = scan(b);
    if sb.1.len() == 0 || sb.1 == cur_dir() {
    } else {
        assert((na + sb.0).push(sb.1) =~= na + sb.0.push(sb.1));
    }
}

proof fn lemma_take_step(s: Seq<char>, i: int)
    requires
        0 <= i < s.len(),
    ensures
        s.take(i + 1).drop_last() == s.take(i),
        s.take(i + 1).last() == s[i],
{
    assert(s.take(i + 1).drop_last() =~= s.take(i));
}

/// Joining a relative path without parent segments onto a non-empty base
/// keeps the base's components as a prefix and adds exactly the named
/// components of the relative path.
pub proof fn lemma_join_components(base: Seq<char>, rel: Seq<char>)
    requires
        base.len() > 0,
        !is_absolute(rel),
    ensures
        components(join(base, rel)) == components(base) + normal_components(rel),
{
    let j = join(base, rel);
    if base.last() == '/' {
        let a = base.drop_last();
        assert(base =~= a + seq!['/']);
        assert(j =~= a + seq!['/'] + rel);
        lemma_normal_components_sep(a, rel);
        lemma_normal_components_sep(a, Seq::<char>::empty());
        assert(a + seq!['/'] + Seq::<char>::empty() =~= base);
        assert(normal_components(Seq::<char>::empty()) =~= Seq::<Seq<char>>::empty());
        assert(normal_components(a) + Seq::<Seq<char>>::empty() =~= normal_components(a));
    } else {
        assert(j =~= base + seq!['/'] + rel);
        lemma_normal_components_sep(base, rel);
    }
    assert(j[0] == base[0]);
    if is_absolute(base) {
    } else if base.len() >= 2 {
        assert(j[1] == base[1]);
    } else {
        assert(j =~= base + seq!['/'] + rel);
        assert(j[1] == '/');
    }
    assert(lead(j) == lead(base));
    assert(components(j) =~= components(base) + normal_components(rel));
}


/// A path joined below a non-empty base gives back, when the base is stripped
/// again, exactly the named components of the joined part.
pub proof fn lemma_strip_prefix_of_join(base: Seq<char>, rel: Seq<char>)
    requires
        base.len() > 0,
        !is_absolute(rel),
    ensures
        strip_prefix(join(base, rel), base) == Some(render(normal_components(rel))),
{
    lemma_join_components(base, rel);
    let cb = components(base);
    let cp = components(join(base, rel));
    assert(cp.subrange(0, cb.len() as int) =~= cb);
    assert(cp.skip(cb.len() as int) =~= normal_components(rel));
}


/// A component that scanning produces: non-empty, without separators, and
/// not `.`.
pub open spec fn good_component(c: Seq<char>) -> bool {
    c.len() > 0 && !c.contains('/') && c != cur_dir()
}

/// Every component of `cs` is one that scanning produces.
pub open spec fn all_good(cs: Seq<Seq<char>>) -> bool {
    forall|i: int| 0 <= i < cs.len() ==> good_component(#[trigger] cs[i])
}

proof fn lemma_keep_good(comps: Seq<Seq<char>>, seg: Seq<char>)
    requires
        all_good(comps),
        !seg.contains('/'),
    ensures
        all_good(keep_segment(comps, seg)),
{
    if !(seg.len() == 0 || seg == cur_dir()) {
        let t = comps.push(seg);
        assert forall|i: int| 0 <= i < t.len() implies good_component(#[trigger] t[i]) by {
            if i < comps.len() {
                assert(t[i] == comps[i]);
            }
        }
    }
}

proof fn lemma_scan_good(s: Seq<char>)
    ensures
        all_good(scan(s).0),
        !scan(s).1.contains('/'),
    decreases s.len(),
{
    if s.len() > 0 {
        lemma_scan_good(s.drop_last());
        let p = scan(s.drop_last());
        if s.last() == '/' {
            lemma_keep_good(p.0, p.1);
        } else {
            let c = p.1.push(s.last());
            assert forall|i: int| 0 <= i < c.len() implies c[i] != '/' by {
                if i < p.1.len() {
                    assert(c[i] == p.1[i]);
                }
            }
        }
    } else {
        assert(scan(s).1 =~= Seq::<char>::empty());
    }
}

/// The named components of any path are non-empty names without separators.
pub proof fn lemma_normal_components_good(s: Seq<char>)
    ensures
        all_good(normal_components(s)),
{
    lemma_scan_good(s);
    lemma_keep_good(scan(s).0, scan(s).1);
}

proof fn lemma_scan_plain(s: Seq<char>)
    requires
        !s.contains('/'),
    ensures
        scan(s) == (Seq::<Seq<char>>::empty(), s),
    decreases s.len(),
{
    if s.len() > 0 {
        assert(!s.drop_last().contains('/')) by {
            if s.drop_last().contains('/') {
                let i = choose|i: int| 0 <= i < s.drop_last().len() && s.drop_last()[i] == '/';
                assert(s[i] == '/');
            }
        }
        lemma_scan_plain(s.drop_last());
        assert(s[s.len() - 1] != '/');
        assert(s.drop_last().push(s.last()) =~= s);
    } else {
        assert(s =~= Seq::<char>::empty());
    }
}

proof fn lemma_join_all_first(cs: Seq<Seq<char>>)
    requires
        cs.len() > 0,
        all_good(cs),
    ensures
        join_all(cs).len() > 0,
        join_all(cs)[0] == cs[0][0],
    decreases cs.len(),
{
    assert(good_component(cs[0]));
    if cs.len() > 1 {
        let init = cs.drop_last();
        assert forall|i: int| 0 <= i < init.len() implies good_component(#[trigger] init[i]) by {
            assert(init[i] == cs[i]);
        }
        lemma_join_all_first(init);
        assert(init[0] == cs[0]);
    }
}

/// Writing good components with single separators and reading the result
/// back gives the same components; the text is relative.
pub proof fn lemma_join_all_roundtrip(cs: Seq<Seq<char>>)
    requires
        all_good(cs),
    ensures
        normal_components(join_all(cs)) == cs,
        render(cs) == join_all(cs),
        !is_absolute(join_all(cs)),
    decreases cs.len(),
{
    if cs.len() == 0 {
        lemma_scan_plain(Seq::<char>::empty());
        assert(normal_components(join_all(cs)) =~= cs);
    } else {
        assert(good_component(cs[0]));
        assert(cs[0] != root_dir()) by {
            assert(root_dir().contains('/')) by {
                assert(root_dir()[0] == '/');
            }
        }
        lemma_join_all_first(cs);
        assert(cs[0].contains(cs[0][0]));
        if cs.len() == 1 {
            lemma_scan_plain(cs[0]);
            assert(normal_components(cs[0]) =~= seq![cs[0]]);
            assert(cs =~= seq![cs[0]]);
        } else {
            let init = cs.drop_last();
            assert forall|i: int| 0 <= i < init.len() implies good_component(#[trigger] init[i]) by {
                assert(init[i] == cs[i]);
            }
            lemma_join_all_roundtrip(init);
            let last = cs.last();
            assert(good_component(cs[cs.len() - 1]));
            lemma_normal_components_sep(join_all(init), last);
            lemma_scan_plain(last);
            assert(normal_components(last) =~= seq![last]);
            assert(init + seq![last] =~= cs);
        }
    }
}

// ------------------------------------------------------------------
// Executable path operations.

fn push_segment(comps: &mut Vec<String>, seg: &str)
    ensures
        views(final(comps)@) == keep_segment(views(old(comps)@), seg@),
{
    let n = seg.unicode_len();
    if n == 0 {
        return;
    }
    if n == 1 && seg.get_char(0) == '.' {
        assert(seg@ =~= cur_dir());
        return;
    }
    assert(seg@ != cur_dir());
    comps.push(String::from_str(seg));
    assert(views(comps@) =~= views(old(comps)@).push(seg@));
}

/// The named components of `s`.
pub fn normal_components_of(s: &str) -> (r: Vec<String>)
    ensures
        views(r@) == normal_components(s@),
{
    let n = s.unicode_len();
    let mut comps: Vec<String> = Vec::new();
    let mut start: usize = 0;
    let mut i: usize = 0;
    proof {
        assert(s@.take(0) =~= Seq::<char>::empty());
        assert(views(comps@) =~= Seq::<Seq<char>>::empty());
        assert(s@.subrange(0, 0) =~= Seq::<char>::empty());
    }
    while i < n
        invariant
            n == s@.len(),
            start <= i <= n,
            views(comps@) == scan(s@.take(i as int)).0,
            s@.subrange(start as int, i as int) == scan(s@.take(i as int)).1,
        decreases n - i,
    {
        let c = s.get_char(i);
        proof {
            lemma_take_step(s@, i as int);
        }
        if c == '/' {
            let seg = s.substring_char(start, i);
            push_segment(&mut comps, seg);
            start = i + 1;
            assert(s@.subrange(start as int, (i + 1) as int) =~= Seq::<char>::empty());
        } else {
            assert(s@.subrange(start as int, (i + 1) as int) =~= s@.subrange(start as int, i as int).push(c));
        }
        i = i + 1;
    }
    let seg = s.substring_char(start, n);
    assert(s@.take(n as int) =~= s@);
    push_segment(&mut comps, seg);
    comps
}

/// Whether `s` is absolute.
pub fn path_is_absolute(s: &str) -> (b: bool)
    ensures
        b == is_absolute(s@),
{
    s.unicode_len() > 0 && s.get_char(0) == '/'
}

fn lead_of(s: &str) -> (r: Vec<String>)
    ensures
        views(r@) == lead(s@),
{
    let n = s.unicode_len();
    let mut r: Vec<String> = Vec::new();
    proof {
        reveal_strlit("/");
        reveal_strlit(".");
    }
    if n > 0 && s.get_char(0) == '/' {
        r.push(String::from_str("/"));
        assert(r@[0]@ =~= root_dir());
        assert(views(r@) =~= seq![root_dir()]);
    } else if (n == 1 && s.get_char(0) == '.') || (n >= 2 && s.get_char(0) == '.' && s.get_char(1) == '/') {
        r.push(String::from_str("."));
        assert(r@[0]@ =~= cur_dir());
        assert(views(r@) =~= seq![cur_dir()]);
    } else {
        assert(views(r@) =~= Seq::<Seq<char>>::empty());
    }
    r
}

/// All components of `s`.
pub fn components_of(s: &str) -> (r: Vec<String>)
    ensures
        views(r@) == components(s@),
{
    let mut r = lead_of(s);
    let mut rest = normal_components_of(s);
    let ghost r0 = r@;
    let ghost rest0 = rest@;
    r.append(&mut rest);
    assert(r@ =~= r0 + rest0);
    assert(views(r@) =~= views(r0) + views(rest0));
    r
}

/// Whether some named component of `s` is `..`.
pub fn path_has_parent_dir(s: &str) -> (b: bool)
    ensures
        b == has_parent_dir(s@),
{
    let comps = normal_components_of(s);
    let dots = String::from_str("..");
    proof {
        reveal_strlit("..");
    }
    let mut i: usize = 0;
    while i < comps.len()
        invariant
            i <= comps.len(),
            views(comps@) == normal_components(s@),
            dots@ == parent_dir(),
            forall|j: int| 0 <= j < i ==> views(comps@)[j] != parent_dir(),
        decreases comps.len() - i,
    {
        if comps[i] == dots {
            assert(views(comps@)[i as int] == parent_dir());
            return true;
        }
        i = i + 1;
    }
    false
}

/// The components `cs[k..]` rendered as text.
fn render_from(cs: &Vec<String>, k: usize) -> (r: String)
    requires
        k <= cs.len(),
    ensures
        r@ == render(views(cs@).skip(k as int)),
{
    let ghost rest = views(cs@).skip(k as int);
    let mut out = String::new();
    let mut i: usize = k;
    proof {
        reveal_strlit("/");
    }
    if k < cs.len() && cs[k].as_str().unicode_len() == 1 && cs[k].as_str().get_char(0) == '/' {
        assert(cs[k as int]@ =~= root_dir());
        out.append("/");
        i = k + 1;
    } else {
        assert(k < cs.len() ==> cs[k as int]@ != root_dir());
    }
    let start = i;
    let ghost body = views(cs@).skip(start as int);
    proof {
        if k < cs.len() && cs[k as int]@ == root_dir() {
            assert(rest.drop_first() =~= body);
        } else {
            assert(rest =~= body);
        }
        assert(body.take(0) =~= Seq::<Seq<char>>::empty());
    }
    let ghost pre = out@;
    while i < cs.len()
        invariant
            start <= i <= cs.len(),
            body == views(cs@).skip(start as int),
            out@ == pre + join_all(body.take(i - start)),
        decreases cs.len() - i,
    {
        let ghost t = body.take(i - start);
        let ghost t1 = body.take(i - start + 1);
        proof {
            reveal_strlit("/");
            assert(t1.drop_last() =~= t);
            assert(t1.last() == cs@[i as int]@);
        }
        if i > start {
            out.append("/");
        } else {
            assert(t =~= Seq::<Seq<char>>::empty());
        }
        out.append(cs[i].as_str());
        proof {
            if i > start {
                assert(out@ =~= pre + (join_all(t) + seq!['/'] + cs@[i as int]@));
            } else {
                assert(out@ =~= pre + join_all(t1));
            }
        }
        i = i + 1;
    }
    assert(body.take(cs.len() - start) =~= body);
    proof {
        if k < cs.len() && cs[k as int]@ == root_dir() {
        } else {
            assert(pre =~= Seq::<char>::empty());
            assert(out@ =~= join_all(body));
        }
    }
    out
}

/// `rel` appended to `base` as a path.
pub fn path_join(base: &str, rel: &str) -> (r: String)
    ensures
        r@ == join(base@, rel@),
{
    proof {
        reveal_strlit("/");
    }
    if path_is_absolute(rel) {
        return String::from_str(rel);
    }
    let n = base.unicode_len();
    let mut out = String::from_str(base);
    if n > 0 && base.get_char(n - 1) != '/' {
        out.append("/");
    }
    out.append(rel);
    out
}

/// What is left of `path` below `base`, if `base` is a prefix of it by components.
pub fn path_strip_prefix(path: &str, base: &str) -> (r: Option<String>)
    ensures
        r matches Some(t) ==> strip_prefix(path@, base@) == Some(t@),
        r is None ==> strip_prefix(path@, base@) is None,
{
    let cp = components_of(path);
    let cb = components_of(base);
    if cb.len() > cp.len() {
        return None;
    }
    let mut i: usize = 0;
    while i < cb.len()
        invariant
            i <= cb.len() <= cp.len(),
            views(cb@) == components(base@),
            views(cp@) == components(path@),
            forall|j: int| 0 <= j < i ==> views(cb@)[j] == views(cp@)[j],
        decreases cb.len() - i,
    {
        if !(cb[i] == cp[i]) {
            assert(views(cb@)[i as int] != views(cp@)[i as int]);
            proof {
                let sub = views(cp@).subrange(0, views(cb@).len() as int);
                assert(sub[i as int] == views(cp@)[i as int]);
                if views(cb@).is_prefix_of(views(cp@)) {
                    assert(views(cb@) =~= sub);
                    assert(views(cb@)[i as int] == sub[i as int]);
                }
                assert(!components(base@).is_prefix_of(components(path@)));
                assert(strip_prefix(path@, base@) is None);
            }
            return None;
        }
        i = i + 1;
    }
    assert(views(cb@) =~= views(cp@).subrange(0, views(cb@).len() as int));
    let r = render_from(&cp, cb.len());
    Some(r)
}

/// The parent of `s`, if it has one.
pub fn path_parent(s: &str) -> (r: Option<String>)
    ensures
        r matches Some(t) ==> parent(s@) == Some(t@),
        r is None ==> parent(s@) is None,
{
    let mut c = components_of(s);
    let n = c.len();
    if n == 0 {
        return None;
    }
    if c[n - 1].as_str().unicode_len() == 1 && c[n - 1].as_str().get_char(0) == '/' {
        assert(views(c@).last() =~= root_dir());
        return None;
    }
    assert(views(c@).last() != root_dir());
    let ghost v = views(c@);
    c.pop();
    assert(views(c@) =~= v.drop_last());
    assert(views(c@).skip(0) =~= views(c@));
    Some(render_from(&c, 0))
}

} // verus!

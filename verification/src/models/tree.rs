//! The tree picture of a codebase: every directory with its subdirectories
//! and files, drawn with branch lines, subdirectories first and each group
//! in name order.

use vstd::prelude::*;

use crate::paths::{last_index_of, lemma_last_index_of, rfind_char, vec_views};
use crate::text::copy_range;

verus! {

/// The part of a path before its last `/` (empty when it has none).
pub open spec fn parent_of(s: Seq<char>) -> Seq<char> {
    match last_index_of(s, '/') {
        Some(i) => s.take(i),
        None => Seq::empty(),
    }
}

/// The part of a path after its last `/` (the whole path when it has none).
pub open spec fn base_name(s: Seq<char>) -> Seq<char> {
    match last_index_of(s, '/') {
        Some(i) => s.skip(i + 1),
        None => s,
    }
}

/// Whether `a` comes before `b` in the order of character codes (the order
/// of `String`'s comparison).
pub open spec fn lex_lt(a: Seq<char>, b: Seq<char>) -> bool
    decreases a.len(),
{
    if a.len() == 0 {
        b.len() > 0
    } else if b.len() == 0 {
        false
    } else if a[0] != b[0] {
        a[0] < b[0]
    } else {
        lex_lt(a.drop_first(), b.drop_first())
    }
}

/// No text comes before itself, and of two texts at most one comes first.
pub proof fn lemma_lex_asym(a: Seq<char>, b: Seq<char>)
    ensures
        lex_lt(a, b) ==> !lex_lt(b, a),
    decreases a.len(),
{
    if a.len() > 0 && b.len() > 0 && a[0] == b[0] {
        lemma_lex_asym(a.drop_first(), b.drop_first());
    }
}

/// Character-code order on texts is transitive.
pub proof fn lemma_lex_trans(a: Seq<char>, b: Seq<char>, c: Seq<char>)
    requires
        lex_lt(a, b),
        lex_lt(b, c),
    ensures
        lex_lt(a, c),
    decreases a.len(),
{
    if a.len() > 0 && b.len() > 0 && c.len() > 0 && a[0] == b[0] && b[0] == c[0] {
        lemma_lex_trans(a.drop_first(), b.drop_first(), c.drop_first());
    }
}

/// Of two different texts one comes before the other.
pub proof fn lemma_lex_total(a: Seq<char>, b: Seq<char>)
    requires
        a != b,
    ensures
        lex_lt(a, b) || lex_lt(b, a),
    decreases a.len(),
{
    if a.len() > 0 && b.len() > 0 && a[0] == b[0] {
        if a.drop_first() == b.drop_first() {
            assert(a =~= seq![a[0]] + a.drop_first());
            assert(b =~= seq![b[0]] + b.drop_first());
        }
        lemma_lex_total(a.drop_first(), b.drop_first());
    } else if a.len() == 0 && b.len() == 0 {
        assert(a =~= b);
    }
}

/// Inserts `e` after every entry whose key does not come after its own.
pub open spec fn insert_by_name(s: Seq<(Seq<char>, Seq<char>)>, e: (Seq<char>, Seq<char>)) -> Seq<(Seq<char>, Seq<char>)>
    decreases s.len(),
{
    if s.len() == 0 {
        seq![e]
    } else if !lex_lt(e.0, s.last().0) {
        s.push(e)
    } else {
        insert_by_name(s.drop_last(), e).push(s.last())
    }
}

/// The entries sorted by key (a stable insertion sort).
pub open spec fn sort_by_name(s: Seq<(Seq<char>, Seq<char>)>) -> Seq<(Seq<char>, Seq<char>)>
    decreases s.len(),
{
    if s.len() == 0 {
        Seq::empty()
    } else {
        insert_by_name(sort_by_name(s.drop_last()), s.last())
    }
}

/// The parent of a path, computed.
pub fn parent_chars(s: &[char]) -> (r: Vec<char>)
    ensures
        r@ == parent_of(s@),
{
    match rfind_char(s, '/') {
        Some(i) => {
            let r = copy_range(s, 0, i);
            proof {
                assert(r@ =~= s@.take(i as int));
            }
            r
        },
        None => Vec::new(),
    }
}

/// The base name of a path, computed.
pub fn base_name_chars(s: &[char]) -> (r: Vec<char>)
    ensures
        r@ == base_name(s@),
{
    match rfind_char(s, '/') {
        Some(i) => {
            let n = s.len();
            let r = copy_range(s, i + 1, n);
            proof {
                assert(r@ =~= s@.skip(i + 1));
            }
            r
        },
        None => crate::paths::copy_all(s),
    }
}

/// Whether `a` comes before `b` in character-code order.
pub fn lex_less(a: &[char], b: &[char]) -> (r: bool)
    ensures
        r == lex_lt(a@, b@),
{
    let mut i: usize = 0;
    proof {
        assert(a@.skip(0) =~= a@);
        assert(b@.skip(0) =~= b@);
    }
    while i < a.len() && i < b.len() && a[i] == b[i]
        invariant
            0 <= i <= a@.len(),
            i <= b@.len(),
            lex_lt(a@, b@) == lex_lt(a@.skip(i as int), b@.skip(i as int)),
        decreases a.len() - i,
    {
        proof {
            assert(a@.skip(i as int).drop_first() =~= a@.skip(i + 1));
            assert(b@.skip(i as int).drop_first() =~= b@.skip(i + 1));
        }
        i = i + 1;
    }
    if i == a.len() {
        i < b.len()
    } else if i == b.len() {
        false
    } else {
        proof {
            assert(a@.skip(i as int)[0] == a@[i as int]);
            assert(b@.skip(i as int)[0] == b@[i as int]);
        }
        a[i] < b[i]
    }
}

/// The models of named entries.
pub open spec fn entry_views(v: Seq<(Vec<char>, Vec<char>)>) -> Seq<(Seq<char>, Seq<char>)> {
    v.map_values(|e: (Vec<char>, Vec<char>)| (e.0@, e.1@))
}

proof fn lemma_insert_name_split(
    s: Seq<(Seq<char>, Seq<char>)>,
    e: (Seq<char>, Seq<char>),
    p: int,
)
    requires
        0 <= p <= s.len(),
        forall|k: int| p <= k < s.len() ==> lex_lt(e.0, #[trigger] s[k].0),
        p == 0 || !lex_lt(e.0, s[p - 1].0),
    ensures
        insert_by_name(s, e) == s.take(p).push(e) + s.skip(p),
    decreases s.len(),
{
    if s.len() == 0 {
        assert(s.take(p).push(e) + s.skip(p) =~= seq![e]);
    } else if p == s.len() {
        assert(s.take(p) =~= s);
        assert(s.skip(p) =~= Seq::<(Seq<char>, Seq<char>)>::empty());
        assert(s.take(p).push(e) + s.skip(p) =~= s.push(e));
    } else {
        assert(lex_lt(e.0, s[s.len() - 1].0));
        let t = s.drop_last();
        assert forall|k: int| p <= k < t.len() implies lex_lt(e.0, #[trigger] t[k].0) by {
            assert(t[k] == s[k]);
        }
        lemma_insert_name_split(t, e, p);
        assert(t.take(p) =~= s.take(p));
        assert(t.skip(p).push(s.last()) =~= s.skip(p));
        assert(t.take(p).push(e) + t.skip(p).push(s.last()) =~= (s.take(p).push(e) + s.skip(p)));
    }
}

fn insert_named(v: Vec<(Vec<char>, Vec<char>)>, e: (Vec<char>, Vec<char>)) -> (r: Vec<(Vec<char>, Vec<char>)>)
    ensures
        entry_views(r@) == insert_by_name(entry_views(v@), (e.0@, e.1@)),
{
    let ghost s = entry_views(v@);
    let ghost em = (e.0@, e.1@);
    let mut p: usize = v.len();
    while p > 0 && lex_less(&e.0, &v[p - 1].0)
        invariant
            0 <= p <= v@.len(),
            s == entry_views(v@),
            em == (e.0@, e.1@),
            forall|k: int| p <= k < s.len() ==> lex_lt(em.0, #[trigger] s[k].0),
        decreases p,
    {
        p = p - 1;
    }
    proof {
        lemma_insert_name_split(s, em, p as int);
    }
    let mut r: Vec<(Vec<char>, Vec<char>)> = Vec::new();
    let mut v = v;
    let mut tail = v.split_off(p);
    let ghost vv = v@;
    let ghost tv = tail@;
    proof {
        assert(entry_views(vv) =~= s.take(p as int));
        assert(entry_views(tv) =~= s.skip(p as int));
    }
    r.append(&mut v);
    r.push(e);
    r.append(&mut tail);
    proof {
        assert(r@ =~= vv.push(e) + tv);
        assert(entry_views(r@) =~= s.take(p as int).push(em) + s.skip(p as int));
    }
    r
}

/// Sorts named entries by name (stable).
pub fn sort_named(v: &Vec<(Vec<char>, Vec<char>)>) -> (r: Vec<(Vec<char>, Vec<char>)>)
    ensures
        entry_views(r@) == sort_by_name(entry_views(v@)),
{
    let ghost all = entry_views(v@);
    let mut r: Vec<(Vec<char>, Vec<char>)> = Vec::new();
    let mut j: usize = 0;
    while j < v.len()
        invariant
            0 <= j <= v@.len(),
            all == entry_views(v@),
            entry_views(r@) == sort_by_name(all.take(j as int)),
        decreases v.len() - j,
    {
        let e = (crate::paths::copy_all(&v[j].0), crate::paths::copy_all(&v[j].1));
        proof {
            assert((e.0@, e.1@) == all[j as int]);
            assert(all.take(j + 1).drop_last() =~= all.take(j as int));
            assert(all.take(j + 1).last() == all[j as int]);
        }
        r = insert_named(r, e);
        j = j + 1;
    }
    proof {
        assert(all.take(v@.len() as int) =~= all);
    }
    r
}

/// The directories a path lies in, as given by its first `k` characters:
/// its text before each `/`.
pub open spec fn slash_prefixes(p: Seq<char>, k: nat) -> Seq<Seq<char>>
    decreases k,
{
    if k == 0 || k > p.len() {
        Seq::empty()
    } else {
        slash_prefixes(p, (k - 1) as nat) + if p[k - 1] == '/' {
            seq![p.take(k - 1)]
        } else {
            Seq::empty()
        }
    }
}

/// The directories the paths lie in, path by path.
pub open spec fn path_dirs(paths: Seq<Seq<char>>) -> Seq<Seq<char>>
    decreases paths.len(),
{
    if paths.len() == 0 {
        Seq::empty()
    } else {
        path_dirs(paths.drop_last()) + slash_prefixes(paths.last(), paths.last().len())
    }
}

/// The non-empty texts, in order.
pub open spec fn nonempty_texts(s: Seq<Seq<char>>) -> Seq<Seq<char>>
    decreases s.len(),
{
    if s.len() == 0 {
        Seq::empty()
    } else if s.last().len() > 0 {
        nonempty_texts(s.drop_last()).push(s.last())
    } else {
        nonempty_texts(s.drop_last())
    }
}

/// The texts with repeats left out, each kept where it first occurs.
pub open spec fn dedup(s: Seq<Seq<char>>) -> Seq<Seq<char>>
    decreases s.len(),
{
    if s.len() == 0 {
        Seq::empty()
    } else if dedup(s.drop_last()).contains(s.last()) {
        dedup(s.drop_last())
    } else {
        dedup(s.drop_last()).push(s.last())
    }
}

/// Every directory of the tree: those the files lie in, and those found on
/// disk, each once.
pub open spec fn tree_dirs(paths: Seq<Seq<char>>, walk: Seq<Seq<char>>) -> Seq<Seq<char>> {
    dedup(path_dirs(paths) + nonempty_texts(walk))
}

/// The longest length among the directories.
pub open spec fn max_len(ds: Seq<Seq<char>>) -> nat
    decreases ds.len(),
{
    if ds.len() == 0 {
        0
    } else if ds.last().len() > max_len(ds.drop_last()) {
        ds.last().len()
    } else {
        max_len(ds.drop_last())
    }
}

/// The subdirectories of `dir`, each with its name.
pub open spec fn child_dir_entries(ds: Seq<Seq<char>>, dir: Seq<char>) -> Seq<(Seq<char>, Seq<char>)>
    decreases ds.len(),
{
    if ds.len() == 0 {
        Seq::empty()
    } else if parent_of(ds.last()) == dir {
        child_dir_entries(ds.drop_last(), dir).push((base_name(ds.last()), ds.last()))
    } else {
        child_dir_entries(ds.drop_last(), dir)
    }
}

/// The files directly in `dir` (with a non-empty name), each by its name.
pub open spec fn child_file_entries(paths: Seq<Seq<char>>, dir: Seq<char>) -> Seq<(Seq<char>, Seq<char>)>
    decreases paths.len(),
{
    if paths.len() == 0 {
        Seq::empty()
    } else if parent_of(paths.last()) == dir && base_name(paths.last()).len() > 0 {
        child_file_entries(paths.drop_last(), dir).push(
            (base_name(paths.last()), base_name(paths.last())),
        )
    } else {
        child_file_entries(paths.drop_last(), dir)
    }
}

/// The branch drawn before an entry.
pub open spec fn branch(last: bool) -> Seq<char> {
    if last {
        "└── "@
    } else {
        "├── "@
    }
}

/// What is drawn below an entry's children.
pub open spec fn child_indent(last: bool) -> Seq<char> {
    if last {
        "    "@
    } else {
        "│   "@
    }
}

/// How a directory is labelled: `.` for the root, otherwise its name.
pub open spec fn dir_label(dir: Seq<char>) -> Seq<char> {
    if dir.len() == 0 {
        "."@
    } else {
        base_name(dir)
    }
}

/// The sorted subdirectories of `dir`.
pub open spec fn sorted_dirs(ds: Seq<Seq<char>>, dir: Seq<char>) -> Seq<(Seq<char>, Seq<char>)> {
    sort_by_name(child_dir_entries(ds, dir))
}

/// The sorted files of `dir`.
pub open spec fn sorted_files(paths: Seq<Seq<char>>, dir: Seq<char>) -> Seq<(Seq<char>, Seq<char>)> {
    sort_by_name(child_file_entries(paths, dir))
}

/// A directory drawn with everything below it: its label line, then its
/// subdirectories and then its files, each group in name order, the last
/// entry with a closing branch. A subdirectory is drawn when it is longer
/// than its parent and no longer than `bound` (which every subdirectory
/// is when `bound` is the longest directory and no directory is empty).
pub open spec fn render_dir(
    ds: Seq<Seq<char>>,
    paths: Seq<Seq<char>>,
    bound: int,
    dir: Seq<char>,
    prefix: Seq<char>,
    is_last: bool,
) -> Seq<char>
    decreases bound - dir.len(), 1int, 0int,
{
    prefix + branch(is_last) + dir_label(dir) + "/\n"@ + render_entries(
        ds,
        paths,
        bound,
        dir,
        prefix + child_indent(is_last),
        0,
    )
}

/// The entries of `dir` from the `i`-th on.
pub open spec fn render_entries(
    ds: Seq<Seq<char>>,
    paths: Seq<Seq<char>>,
    bound: int,
    dir: Seq<char>,
    cp: Seq<char>,
    i: int,
) -> Seq<char>
    decreases bound - dir.len(), 0int, sorted_dirs(ds, dir).len() + sorted_files(paths, dir).len() - i,
{
    let de = sorted_dirs(ds, dir);
    let fe = sorted_files(paths, dir);
    let n = de.len() + fe.len();
    if i < 0 || i >= n {
        Seq::empty()
    } else {
        let last = i == n - 1;
        (if i < de.len() {
            let c = de[i].1;
            if dir.len() < c.len() && c.len() <= bound {
                render_dir(ds, paths, bound, c, cp, last)
            } else {
                Seq::empty()
            }
        } else {
            cp + branch(last) + fe[i - de.len()].0 + "\n"@
        }) + render_entries(ds, paths, bound, dir, cp, i + 1)
    }
}

/// The tree of a codebase from its files and the directories found on disk.
pub open spec fn tree_spec(paths: Seq<Seq<char>>, walk: Seq<Seq<char>>) -> Seq<char> {
    let ds = tree_dirs(paths, walk);
    render_dir(ds, paths, max_len(ds) as int, Seq::empty(), Seq::empty(), true)
}

fn contains_text(v: &Vec<Vec<char>>, s: &Vec<char>) -> (r: bool)
    ensures
        r == vec_views(v@).contains(s@),
{
    let mut i: usize = 0;
    while i < v.len()
        invariant
            0 <= i <= v@.len(),
            forall|j: int| 0 <= j < i ==> v@[j]@ != s@,
        decreases v.len() - i,
    {
        if crate::paths::chars_eq(&v[i], s) {
            proof {
                assert(vec_views(v@)[i as int] == s@);
            }
            return true;
        }
        i = i + 1;
    }
    proof {
        if vec_views(v@).contains(s@) {
            let j = choose|j: int| 0 <= j < vec_views(v@).len() && vec_views(v@)[j] == s@;
            assert(v@[j]@ == s@);
        }
    }
    false
}

fn push_unique(v: &mut Vec<Vec<char>>, s: Vec<char>)
    ensures
        vec_views(final(v)@) == if vec_views(old(v)@).contains(s@) {
            vec_views(old(v)@)
        } else {
            vec_views(old(v)@).push(s@)
        },
{
    if !contains_text(v, &s) {
        proof {
            assert(vec_views(v@.push(s)) =~= vec_views(v@).push(s@));
        }
        v.push(s);
    }
}

/// Collects every directory of the tree, each once.
pub fn collect_dirs(paths: &Vec<Vec<char>>, walk: &Vec<Vec<char>>) -> (r: Vec<Vec<char>>)
    ensures
        vec_views(r@) == tree_dirs(vec_views(paths@), vec_views(walk@)),
{
    let ghost ps = vec_views(paths@);
    let ghost ws = vec_views(walk@);
    let mut r: Vec<Vec<char>> = Vec::new();
    let mut i: usize = 0;
    while i < paths.len()
        invariant
            0 <= i <= paths@.len(),
            ps == vec_views(paths@),
            vec_views(r@) == dedup(path_dirs(ps.take(i as int))),
        decreases paths.len() - i,
    {
        let p = &paths[i];
        let ghost before = path_dirs(ps.take(i as int));
        proof {
            assert(ps.take(i + 1).drop_last() =~= ps.take(i as int));
            assert(ps.take(i + 1).last() == p@);
            assert(before + slash_prefixes(p@, 0) =~= before);
        }
        let mut k: usize = 0;
        while k < p.len()
            invariant
                0 <= k <= p@.len(),
                vec_views(r@) == dedup(before + slash_prefixes(p@, k as nat)),
            decreases p.len() - k,
        {
            if p[k] == '/' {
                let d = copy_range(p, 0, k);
                proof {
                    assert(d@ =~= p@.take(k as int));
                    assert(before + slash_prefixes(p@, (k + 1) as nat) =~= (before + slash_prefixes(
                        p@,
                        k as nat,
                    )).push(p@.take(k as int)));
                    let t = (before + slash_prefixes(p@, (k + 1) as nat));
                    assert(t.drop_last() =~= before + slash_prefixes(p@, k as nat));
                }
                push_unique(&mut r, d);
            } else {
                proof {
                    assert(before + slash_prefixes(p@, (k + 1) as nat) =~= before + slash_prefixes(
                        p@,
                        k as nat,
                    ));
                }
            }
            k = k + 1;
        }
        proof {
            assert(path_dirs(ps.take(i + 1)) == before + slash_prefixes(p@, p@.len()));
        }
        i = i + 1;
    }
    proof {
        assert(ps.take(paths@.len() as int) =~= ps);
    }
    let ghost pd = path_dirs(ps);
    let mut j: usize = 0;
    proof {
        assert(pd + nonempty_texts(ws.take(0)) =~= pd);
    }
    while j < walk.len()
        invariant
            0 <= j <= walk@.len(),
            ws == vec_views(walk@),
            pd == path_dirs(ps),
            vec_views(r@) == dedup(pd + nonempty_texts(ws.take(j as int))),
        decreases walk.len() - j,
    {
        let w = &walk[j];
        proof {
            assert(ws.take(j + 1).drop_last() =~= ws.take(j as int));
            assert(ws.take(j + 1).last() == w@);
        }
        if w.len() > 0 {
            proof {
                let t = pd + nonempty_texts(ws.take(j + 1));
                assert(t =~= (pd + nonempty_texts(ws.take(j as int))).push(w@));
                assert(t.drop_last() =~= pd + nonempty_texts(ws.take(j as int)));
            }
            push_unique(&mut r, crate::paths::copy_all(w));
        } else {
            proof {
                assert(pd + nonempty_texts(ws.take(j + 1)) =~= pd + nonempty_texts(ws.take(j as int)));
            }
        }
        j = j + 1;
    }
    proof {
        assert(ws.take(walk@.len() as int) =~= ws);
    }
    r
}

/// The longest length among the directories, computed.
pub fn longest(ds: &Vec<Vec<char>>) -> (r: usize)
    ensures
        r == max_len(vec_views(ds@)),
{
    let ghost v = vec_views(ds@);
    let mut m: usize = 0;
    let mut i: usize = 0;
    while i < ds.len()
        invariant
            0 <= i <= ds@.len(),
            v == vec_views(ds@),
            m == max_len(v.take(i as int)),
        decreases ds.len() - i,
    {
        proof {
            assert(v.take(i + 1).drop_last() =~= v.take(i as int));
            assert(v.take(i + 1).last() == ds@[i as int]@);
        }
        if ds[i].len() > m {
            m = ds[i].len();
        }
        i = i + 1;
    }
    proof {
        assert(v.take(ds@.len() as int) =~= v);
    }
    m
}

fn dir_entries(ds: &Vec<Vec<char>>, dir: &Vec<char>) -> (r: Vec<(Vec<char>, Vec<char>)>)
    ensures
        entry_views(r@) == child_dir_entries(vec_views(ds@), dir@),
{
    let ghost v = vec_views(ds@);
    let mut r: Vec<(Vec<char>, Vec<char>)> = Vec::new();
    let mut i: usize = 0;
    while i < ds.len()
        invariant
            0 <= i <= ds@.len(),
            v == vec_views(ds@),
            entry_views(r@) == child_dir_entries(v.take(i as int), dir@),
        decreases ds.len() - i,
    {
        proof {
            assert(v.take(i + 1).drop_last() =~= v.take(i as int));
            assert(v.take(i + 1).last() == ds@[i as int]@);
        }
        let par = parent_chars(&ds[i]);
        if crate::paths::chars_eq(&par, dir) {
            let e = (base_name_chars(&ds[i]), crate::paths::copy_all(&ds[i]));
            proof {
                assert(entry_views(r@.push(e)) =~= entry_views(r@).push((e.0@, e.1@)));
            }
            r.push(e);
        }
        i = i + 1;
    }
    proof {
        assert(v.take(ds@.len() as int) =~= v);
    }
    r
}

fn file_entries(paths: &Vec<Vec<char>>, dir: &Vec<char>) -> (r: Vec<(Vec<char>, Vec<char>)>)
    ensures
        entry_views(r@) == child_file_entries(vec_views(paths@), dir@),
{
    let ghost v = vec_views(paths@);
    let mut r: Vec<(Vec<char>, Vec<char>)> = Vec::new();
    let mut i: usize = 0;
    while i < paths.len()
        invariant
            0 <= i <= paths@.len(),
            v == vec_views(paths@),
            entry_views(r@) == child_file_entries(v.take(i as int), dir@),
        decreases paths.len() - i,
    {
        proof {
            assert(v.take(i + 1).drop_last() =~= v.take(i as int));
            assert(v.take(i + 1).last() == paths@[i as int]@);
        }
        let par = parent_chars(&paths[i]);
        let name = base_name_chars(&paths[i]);
        if crate::paths::chars_eq(&par, dir) && name.len() > 0 {
            let e = (crate::paths::copy_all(&name), name);
            proof {
                assert(entry_views(r@.push(e)) =~= entry_views(r@).push((e.0@, e.1@)));
            }
            r.push(e);
        }
        i = i + 1;
    }
    proof {
        assert(v.take(paths@.len() as int) =~= v);
    }
    r
}

fn push_text(out: &mut Vec<char>, s: &str)
    ensures
        final(out)@ == old(out)@ + s@,
{
    let c = crate::text::chars_of(s);
    push_chars(out, &c);
}

fn push_chars(out: &mut Vec<char>, c: &[char])
    ensures
        final(out)@ == old(out)@ + c@,
{
    let mut i: usize = 0;
    let ghost start = out@;
    while i < c.len()
        invariant
            0 <= i <= c@.len(),
            out@ == start + c@.take(i as int),
        decreases c.len() - i,
    {
        out.push(c[i]);
        proof {
            assert(start + c@.take(i + 1) =~= (start + c@.take(i as int)).push(c@[i as int]));
        }
        i = i + 1;
    }
    proof {
        assert(c@.take(c@.len() as int) =~= c@);
    }
}

fn push_branch(out: &mut Vec<char>, last: bool)
    ensures
        final(out)@ == old(out)@ + branch(last),
{
    if last {
        push_text(out, "└── ");
    } else {
        push_text(out, "├── ");
    }
}

/// Draws `dir` and everything below it onto `out`.
fn render_dir_into(
    ds: &Vec<Vec<char>>,
    paths: &Vec<Vec<char>>,
    bound: usize,
    dir: &Vec<char>,
    prefix: &Vec<char>,
    is_last: bool,
    out: &mut Vec<char>,
)
    ensures
        final(out)@ == old(out)@ + render_dir(
            vec_views(ds@),
            vec_views(paths@),
            bound as int,
            dir@,
            prefix@,
            is_last,
        ),
    decreases bound - dir@.len(),
{
    let ghost dsv = vec_views(ds@);
    let ghost psv = vec_views(paths@);
    push_chars(out, prefix);
    push_branch(out, is_last);
    if dir.len() == 0 {
        push_text(out, ".");
    } else {
        let name = base_name_chars(dir);
        push_chars(out, &name);
    }
    push_text(out, "/\n");
    let mut cp = crate::paths::copy_all(prefix);
    if is_last {
        push_text(&mut cp, "    ");
    } else {
        push_text(&mut cp, "│   ");
    }
    let de = sort_named(&dir_entries(ds, dir));
    let fe = sort_named(&file_entries(paths, dir));
    let nd = de.len();
    let nf = fe.len();
    let ghost n = nd + nf;
    let ghost start = out@;
    proof {
        assert(start == old(out)@ + prefix@ + branch(is_last) + dir_label(dir@) + "/\n"@);
    }
    let mut i: usize = 0;
    while i < nd
        invariant
            0 <= i <= nd,
            nd == de@.len(),
            nf == fe@.len(),
            n == nd + nf,
            dsv == vec_views(ds@),
            psv == vec_views(paths@),
            entry_views(de@) == sorted_dirs(dsv, dir@),
            entry_views(fe@) == sorted_files(psv, dir@),
            cp@ == prefix@ + child_indent(is_last),
            out@ + render_entries(dsv, psv, bound as int, dir@, cp@, i as int) == start
                + render_entries(dsv, psv, bound as int, dir@, cp@, 0),
        decreases nd - i,
    {
        let last = i + 1 == nd && nf == 0;
        let ghost before = out@;
        let c = &de[i].1;
        proof {
            assert(entry_views(de@)[i as int].1 == c@);
        }
        if dir.len() < c.len() && c.len() <= bound {
            render_dir_into(ds, paths, bound, c, &cp, last, out);
        }
        proof {
            let rest = render_entries(dsv, psv, bound as int, dir@, cp@, i + 1);
            assert(render_entries(dsv, psv, bound as int, dir@, cp@, i as int) == out@.skip(
                before.len() as int,
            ) + rest);
            assert(out@ =~= before + out@.skip(before.len() as int));
            assert(out@ + rest =~= before + (out@.skip(before.len() as int) + rest));
        }
        i = i + 1;
    }
    let mut j: usize = 0;
    while j < nf
        invariant
            0 <= j <= nf,
            nd == de@.len(),
            nf == fe@.len(),
            n == nd + nf,
            dsv == vec_views(ds@),
            psv == vec_views(paths@),
            entry_views(de@) == sorted_dirs(dsv, dir@),
            entry_views(fe@) == sorted_files(psv, dir@),
            cp@ == prefix@ + child_indent(is_last),
            out@ + render_entries(dsv, psv, bound as int, dir@, cp@, nd + j) == start
                + render_entries(dsv, psv, bound as int, dir@, cp@, 0),
        decreases nf - j,
    {
        let last = j + 1 == nf;
        let ghost before = out@;
        push_chars(out, &cp);
        push_branch(out, last);
        proof {
            assert(entry_views(fe@)[j as int].0 == fe@[j as int].0@);
        }
        push_chars(out, &fe[j].0);
        push_text(out, "\n");
        proof {
            let rest = render_entries(dsv, psv, bound as int, dir@, cp@, nd + j + 1);
            assert(render_entries(dsv, psv, bound as int, dir@, cp@, nd + j) == out@.skip(
                before.len() as int,
            ) + rest);
            assert(out@ =~= before + out@.skip(before.len() as int));
            assert(out@ + rest =~= before + (out@.skip(before.len() as int) + rest));
        }
        j = j + 1;
    }
    proof {
        assert(render_entries(dsv, psv, bound as int, dir@, cp@, n) =~= Seq::<char>::empty());
        assert(out@ =~= start + render_entries(dsv, psv, bound as int, dir@, cp@, 0));
    }
}

/// Draws the tree of a codebase from its files and the directories found
/// on disk.
pub fn render_tree(paths: &Vec<Vec<char>>, walk: &Vec<Vec<char>>) -> (r: Vec<char>)
    ensures
        r@ == tree_spec(vec_views(paths@), vec_views(walk@)),
{
    let ds = collect_dirs(paths, walk);
    let bound = longest(&ds);
    let mut out: Vec<char> = Vec::new();
    let root: Vec<char> = Vec::new();
    let prefix: Vec<char> = Vec::new();
    render_dir_into(&ds, paths, bound, &root, &prefix, true, &mut out);
    proof {
        assert(root@ =~= Seq::<char>::empty());
        assert(out@ =~= tree_spec(vec_views(paths@), vec_views(walk@)));
    }
    out
}

/// Entries in ascending order of name.
pub open spec fn names_sorted(s: Seq<(Seq<char>, Seq<char>)>) -> bool {
    forall|i: int, j: int| #![trigger s[i], s[j]] 0 <= i < j < s.len() ==> !lex_lt(s[j].0, s[i].0)
}

proof fn lemma_lex_le_trans(a: Seq<char>, b: Seq<char>, c: Seq<char>)
    requires
        !lex_lt(b, a),
        !lex_lt(c, b),
    ensures
        !lex_lt(c, a),
{
    if lex_lt(c, a) {
        if a == b {
        } else {
            lemma_lex_total(a, b);
            lemma_lex_trans(c, a, b);
        }
    }
}

proof fn lemma_insert_by_name(s: Seq<(Seq<char>, Seq<char>)>, e: (Seq<char>, Seq<char>))
    requires
        names_sorted(s),
    ensures
        names_sorted(insert_by_name(s, e)),
        insert_by_name(s, e).to_multiset() == s.to_multiset().insert(e),
        forall|k: int|
            0 <= k < insert_by_name(s, e).len() ==> #[trigger] insert_by_name(s, e)[k] == e
                || s.contains(insert_by_name(s, e)[k]),
    decreases s.len(),
{
    let t = insert_by_name(s, e);
    if s.len() == 0 {
        assert(t =~= seq![e]);
        vstd::seq_lib::to_multiset_build(s, e);
        assert(seq![e] =~= s.push(e));
    } else if !lex_lt(e.0, s.last().0) {
        assert(t == s.push(e));
        vstd::seq_lib::to_multiset_build(s, e);
        assert forall|i: int, j: int| #![trigger t[i], t[j]] 0 <= i < j < t.len() implies !lex_lt(t[j].0, t[i].0) by {
            if j == s.len() {
                if i < s.len() - 1 {
                    assert(!lex_lt(s[s.len() - 1].0, s[i].0));
                    lemma_lex_le_trans(s[i].0, s.last().0, e.0);
                }
            } else {
                assert(t[i] == s[i] && t[j] == s[j]);
            }
        }
        assert forall|k: int| 0 <= k < t.len() implies #[trigger] t[k] == e || s.contains(t[k]) by {
            if k < s.len() {
                assert(t[k] == s[k]);
            }
        }
    } else {
        let s2 = s.drop_last();
        let u = insert_by_name(s2, e);
        assert(names_sorted(s2)) by {
            assert forall|i: int, j: int| #![trigger s2[i], s2[j]] 0 <= i < j < s2.len() implies !lex_lt(s2[j].0, s2[i].0) by {
                assert(s2[i] == s[i] && s2[j] == s[j]);
            }
        }
        lemma_insert_by_name(s2, e);
        assert(t == u.push(s.last()));
        lemma_lex_asym(e.0, s.last().0);
        assert forall|i: int, j: int| #![trigger t[i], t[j]] 0 <= i < j < t.len() implies !lex_lt(t[j].0, t[i].0) by {
            if j == u.len() {
                assert(t[i] == u[i]);
                assert(t[j] == s.last());
                if u[i] != e {
                    assert(s2.contains(u[i]));
                    let m = choose|m: int| 0 <= m < s2.len() && s2[m] == u[i];
                    assert(s[m] == s2[m]);
                    assert(s[s.len() - 1] == s.last());
                    assert(!lex_lt(s[s.len() - 1].0, s[m].0));
                }
            } else {
                assert(t[i] == u[i] && t[j] == u[j]);
            }
        }
        vstd::seq_lib::to_multiset_build(u, s.last());
        vstd::seq_lib::to_multiset_build(s2, s.last());
        assert(s2.push(s.last()) =~= s);
        assert(t.to_multiset() =~= s.to_multiset().insert(e));
        assert forall|k: int| 0 <= k < t.len() implies #[trigger] t[k] == e || s.contains(t[k]) by {
            if k < u.len() {
                assert(t[k] == u[k]);
                if u[k] != e {
                    assert(s2.contains(u[k]));
                    let m = choose|m: int| 0 <= m < s2.len() && s2[m] == u[k];
                    assert(s[m] == s2[m]);
                }
            } else {
                assert(t[k] == s[s.len() - 1]);
            }
        }
    }
}

proof fn lemma_sort_by_name(s: Seq<(Seq<char>, Seq<char>)>)
    ensures
        names_sorted(sort_by_name(s)),
        sort_by_name(s).to_multiset() == s.to_multiset(),
    decreases s.len(),
{
    if s.len() == 0 {
        assert(sort_by_name(s) =~= s);
    } else {
        lemma_sort_by_name(s.drop_last());
        lemma_insert_by_name(sort_by_name(s.drop_last()), s.last());
        vstd::seq_lib::to_multiset_build(s.drop_last(), s.last());
        assert(s.drop_last().push(s.last()) =~= s);
    }
}

/// In the tree every directory lists its subdirectories in ascending order
/// of name, then its files in ascending order of name, each group holding
/// exactly the directory's subdirectories and files.
pub proof fn law_tree_entries_in_name_order(ds: Seq<Seq<char>>, paths: Seq<Seq<char>>, dir: Seq<char>)
    ensures
        names_sorted(sorted_dirs(ds, dir)),
        sorted_dirs(ds, dir).to_multiset() == child_dir_entries(ds, dir).to_multiset(),
        names_sorted(sorted_files(paths, dir)),
        sorted_files(paths, dir).to_multiset() == child_file_entries(paths, dir).to_multiset(),
{
    lemma_sort_by_name(child_dir_entries(ds, dir));
    lemma_sort_by_name(child_file_entries(paths, dir));
}

/// Entry `i` of a directory is drawn before the entries after it: while
/// `i` is below the number of subdirectories it is the `i`-th subdirectory
/// in name order (drawn with everything below it), and after the
/// subdirectories come the files in name order, one line each.
pub proof fn law_tree_draws_directories_then_files(
    ds: Seq<Seq<char>>,
    paths: Seq<Seq<char>>,
    bound: int,
    dir: Seq<char>,
    cp: Seq<char>,
    i: int,
)
    requires
        0 <= i < sorted_dirs(ds, dir).len() + sorted_files(paths, dir).len(),
    ensures
        i < sorted_dirs(ds, dir).len() ==> render_entries(ds, paths, bound, dir, cp, i) == (if dir.len()
            < sorted_dirs(ds, dir)[i].1.len() && sorted_dirs(ds, dir)[i].1.len() <= bound {
            render_dir(
                ds,
                paths,
                bound,
                sorted_dirs(ds, dir)[i].1,
                cp,
                i == sorted_dirs(ds, dir).len() + sorted_files(paths, dir).len() - 1,
            )
        } else {
            Seq::empty()
        }) + render_entries(ds, paths, bound, dir, cp, i + 1),
        i >= sorted_dirs(ds, dir).len() ==> render_entries(ds, paths, bound, dir, cp, i) == cp
            + branch(i == sorted_dirs(ds, dir).len() + sorted_files(paths, dir).len() - 1)
            + sorted_files(paths, dir)[i - sorted_dirs(ds, dir).len()].0 + "\n"@ + render_entries(
            ds,
            paths,
            bound,
            dir,
            cp,
            i + 1,
        ),
{
}

} // verus!

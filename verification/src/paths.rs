//! A model of relative, `/`-separated paths: the components, the file name
//! and the extension that `std::path::Path` reports for them.

use vstd::prelude::*;

use crate::text::{find_seq, lemma_find_from, occurs_at};

verus! {

/// The pieces of `s` between occurrences of `c` (`str::split`).
pub open spec fn split_seq(s: Seq<char>, c: char) -> Seq<Seq<char>>
    decreases s.len(),
{
    match find_seq(s, seq![c]) {
        Some(i) => if 0 <= i < s.len() {
            seq![s.take(i)] + split_seq(s.skip(i + 1), c)
        } else {
            seq![s]
        },
        None => seq![s],
    }
}

/// The views of a sequence of character vectors.
pub open spec fn vec_views(v: Seq<Vec<char>>) -> Seq<Seq<char>> {
    v.map_values(|x: Vec<char>| x@)
}

/// The views of a sequence of strings.
pub open spec fn string_views(v: Seq<String>) -> Seq<Seq<char>> {
    v.map_values(|x: String| x@)
}

/// The first occurrence of `c` in `s` is at `k` when `s[k] == c` and no
/// earlier character is `c`.
pub proof fn lemma_find_char(s: Seq<char>, c: char, k: int)
    requires
        0 <= k <= s.len(),
        forall|j: int| 0 <= j < k ==> s[j] != c,
    ensures
        k < s.len() && s[k] == c ==> find_seq(s, seq![c]) == Some(k),
        k == s.len() ==> find_seq(s, seq![c]) is None,
{
    lemma_find_from(s, seq![c], 0);
    assert forall|j: int| 0 <= j < k implies !occurs_at(s, seq![c], j) by {
        if occurs_at(s, seq![c], j) {
            assert(s.subrange(j, j + 1)[0] == s[j]);
        }
    }
    if k < s.len() && s[k] == c {
        assert(s.subrange(k, k + 1) =~= seq![c]);
        assert(occurs_at(s, seq![c], k));
    }
}

/// Splits `s` at each occurrence of `c`.
pub fn split_chars(s: &[char], c: char) -> (r: Vec<Vec<char>>)
    ensures
        vec_views(r@) == split_seq(s@, c),
{
    let mut out: Vec<Vec<char>> = Vec::new();
    let mut start: usize = 0;
    let mut piece: Vec<char> = Vec::new();
    let mut i: usize = 0;
    proof {
        assert(s@.skip(0) =~= s@);
        assert(vec_views(out@) + split_seq(s@, c) =~= split_seq(s@, c));
    }
    while i < s.len()
        invariant
            start <= i <= s@.len(),
            piece@ == s@.subrange(start as int, i as int),
            forall|j: int| start <= j < i ==> s@[j] != c,
            split_seq(s@, c) == vec_views(out@) + split_seq(s@.skip(start as int), c),
        decreases s.len() - i,
    {
        let ghost rest = s@.skip(start as int);
        if s[i] == c {
            proof {
                assert forall|j: int| 0 <= j < i - start implies rest[j] != c by {
                    assert(rest[j] == s@[start + j]);
                }
                lemma_find_char(rest, c, i - start);
                assert(rest.take(i - start) =~= piece@);
                assert(rest.skip(i - start + 1) =~= s@.skip(i + 1));
                assert(vec_views(out@.push(piece)) =~= vec_views(out@).push(piece@));
                assert(vec_views(out@).push(piece@) + split_seq(s@.skip(i + 1), c)
                    =~= vec_views(out@) + (seq![piece@] + split_seq(s@.skip(i + 1), c)));
            }
            out.push(piece);
            piece = Vec::new();
            start = i + 1;
        } else {
            piece.push(s[i]);
            proof {
                assert(s@.subrange(start as int, i + 1) =~= s@.subrange(start as int, i as int).push(
                    s@[i as int],
                ));
            }
        }
        i = i + 1;
    }
    proof {
        let rest = s@.skip(start as int);
        assert forall|j: int| 0 <= j < rest.len() implies rest[j] != c by {
            assert(rest[j] == s@[start + j]);
        }
        lemma_find_char(rest, c, rest.len() as int);
        assert(rest =~= piece@);
        assert(vec_views(out@.push(piece)) =~= vec_views(out@) + seq![piece@]);
    }
    out.push(piece);
    out
}

/// The empty piece, the current directory `.` and the parent `..` are not names.
pub open spec fn is_normal_component(p: Seq<char>) -> bool {
    &&& p != Seq::<char>::empty()
    &&& p != seq!['.']
    &&& p != seq!['.', '.']
}

/// The last piece that is neither empty nor `.`.
pub open spec fn last_significant(pieces: Seq<Seq<char>>) -> Option<Seq<char>>
    decreases pieces.len(),
{
    if pieces.len() == 0 {
        None
    } else if pieces.last() == Seq::<char>::empty() || pieces.last() == seq!['.'] {
        last_significant(pieces.drop_last())
    } else {
        Some(pieces.last())
    }
}

/// The final component of a path, unless it is `..` (`Path::file_name`).
pub open spec fn file_name_spec(path: Seq<char>) -> Option<Seq<char>> {
    match last_significant(split_seq(path, '/')) {
        Some(p) => if p == seq!['.', '.'] {
            None
        } else {
            Some(p)
        },
        None => None,
    }
}

/// The index of the last `c` in `s`.
pub open spec fn last_index_of(s: Seq<char>, c: char) -> Option<int>
    decreases s.len(),
{
    if s.len() == 0 {
        None
    } else if s.last() == c {
        Some(s.len() - 1)
    } else {
        last_index_of(s.drop_last(), c)
    }
}

/// The extension of a file name: the text after its last `.`, when that dot
/// is not the first character (`Path::extension`).
pub open spec fn name_extension(name: Seq<char>) -> Option<Seq<char>> {
    match last_index_of(name, '.') {
        Some(i) => if i == 0 {
            None
        } else {
            Some(name.skip(i + 1))
        },
        None => None,
    }
}

/// The extension of the file name of a path.
pub open spec fn extension_spec(path: Seq<char>) -> Option<Seq<char>> {
    match file_name_spec(path) {
        Some(name) => name_extension(name),
        None => None,
    }
}

/// What `last_index_of` gives.
pub proof fn lemma_last_index_of(s: Seq<char>, c: char)
    ensures
        last_index_of(s, c) matches Some(i) ==> 0 <= i < s.len() && s[i] == c && forall|j: int|
            i < j < s.len() ==> s[j] != c,
        last_index_of(s, c) is None ==> forall|j: int| 0 <= j < s.len() ==> s[j] != c,
    decreases s.len(),
{
    if s.len() > 0 && s.last() != c {
        lemma_last_index_of(s.drop_last(), c);
        assert forall|j: int| 0 <= j < s.len() - 1 implies s[j] == s.drop_last()[j] by {}
    }
}

/// The index of the last `c` in `s`.
pub fn rfind_char(s: &[char], c: char) -> (r: Option<usize>)
    ensures
        r matches Some(i) ==> last_index_of(s@, c) == Some(i as int) && i < s@.len(),
        r is None ==> last_index_of(s@, c) is None,
{
    let mut i = s.len();
    proof {
        assert(s@.take(s@.len() as int) =~= s@);
    }
    while i > 0
        invariant
            i <= s@.len(),
            last_index_of(s@, c) == last_index_of(s@.take(i as int), c),
        decreases i,
    {
        proof {
            assert(s@.take(i as int).drop_last() =~= s@.take(i - 1));
        }
        if s[i - 1] == c {
            return Some(i - 1);
        }
        i = i - 1;
    }
    None
}

/// Whether two character slices are equal.
pub fn chars_eq(a: &[char], b: &[char]) -> (r: bool)
    ensures
        r == (a@ == b@),
{
    if a.len() != b.len() {
        return false;
    }
    let r = crate::text::matches_at(a, b, 0);
    proof {
        assert(a@.subrange(0, b@.len() as int) =~= a@);
    }
    r
}

/// Whether `p` is a name component.
pub fn is_normal(p: &[char]) -> (r: bool)
    ensures
        r == is_normal_component(p@),
{
    let r = !(p.len() == 0 || (p.len() == 1 && p[0] == '.') || (p.len() == 2 && p[0] == '.'
        && p[1] == '.'));
    proof {
        if p@.len() == 1 && p@[0] == '.' {
            assert(p@ =~= seq!['.']);
        }
        if p@.len() == 2 && p@[0] == '.' && p@[1] == '.' {
            assert(p@ =~= seq!['.', '.']);
        }
        if p@.len() == 0 {
            assert(p@ =~= Seq::<char>::empty());
        }
    }
    r
}

/// The final component of a path.
pub fn file_name(path: &[char]) -> (r: Option<Vec<char>>)
    ensures
        match r {
            Some(v) => file_name_spec(path@) == Some(v@),
            None => file_name_spec(path@) is None,
        },
{
    let pieces = split_chars(path, '/');
    let ghost views = vec_views(pieces@);
    let mut i = pieces.len();
    proof {
        assert(views.take(views.len() as int) =~= views);
    }
    while i > 0
        invariant
            i <= pieces@.len(),
            views == vec_views(pieces@),
            views == split_seq(path@, '/'),
            last_significant(views) == last_significant(views.take(i as int)),
        decreases i,
    {
        proof {
            assert(views.take(i as int).drop_last() =~= views.take(i - 1));
            assert(views.take(i as int).last() == pieces@[i - 1]@);
        }
        let p = &pieces[i - 1];
        let empty_or_dot = p.len() == 0 || (p.len() == 1 && p[0] == '.');
        proof {
            if p@.len() == 1 && p@[0] == '.' {
                assert(p@ =~= seq!['.']);
            }
            if p@.len() == 0 {
                assert(p@ =~= Seq::<char>::empty());
            }
            if p@ == seq!['.'] {
                assert(p@[0] == '.');
            }
        }
        if !empty_or_dot {
            let dotdot = p.len() == 2 && p[0] == '.' && p[1] == '.';
            proof {
                if dotdot {
                    assert(p@ =~= seq!['.', '.']);
                }
                if p@ == seq!['.', '.'] {
                    assert(p@[0] == '.' && p@[1] == '.');
                }
            }
            if dotdot {
                return None;
            }
            return Some(copy_all(p));
        }
        i = i - 1;
    }
    None
}

/// A copy of `s`.
pub fn copy_all(s: &[char]) -> (r: Vec<char>)
    ensures
        r@ == s@,
{
    let r = crate::text::copy_range(s, 0, s.len());
    proof {
        assert(s@.subrange(0, s@.len() as int) =~= s@);
    }
    r
}

/// The extension of a file name.
pub fn extension_of_name(name: &[char]) -> (r: Option<Vec<char>>)
    ensures
        match r {
            Some(v) => name_extension(name@) == Some(v@),
            None => name_extension(name@) is None,
        },
{
    proof {
        lemma_last_index_of(name@, '.');
    }
    match rfind_char(name, '.') {
        Some(i) => {
            if i == 0 || i >= name.len() {
                None
            } else {
                proof {
                    let li = last_index_of(name@, '.');
                    assert(li == Some(i as int));
                    lemma_last_index_of(name@, '.');
                    assert(li->0 < name@.len());
                }
                Some(crate::text::copy_range(name, i + 1, name.len()))
            }
        },
        None => None,
    }
}

/// The extension of the file name of a path.
pub fn extension(path: &[char]) -> (r: Option<Vec<char>>)
    ensures
        match r {
            Some(v) => extension_spec(path@) == Some(v@),
            None => extension_spec(path@) is None,
        },
{
    match file_name(path) {
        Some(name) => extension_of_name(&name),
        None => None,
    }
}

/// The index of the first `c` in `s`, or the length of `s` when there is none.
pub open spec fn first_index_of(s: Seq<char>, c: char) -> int {
    match find_seq(s, seq![c]) {
        Some(i) => i,
        None => s.len() as int,
    }
}

/// What `first_index_of` gives.
pub proof fn lemma_first_index_of(s: Seq<char>, c: char)
    ensures
        0 <= first_index_of(s, c) <= s.len(),
        first_index_of(s, c) < s.len() ==> s[first_index_of(s, c)] == c,
        forall|j: int| 0 <= j < first_index_of(s, c) ==> s[j] != c,
{
    lemma_find_from(s, seq![c], 0);
    assert forall|j: int| 0 <= j < s.len() && s[j] == c implies occurs_at(s, seq![c], j) by {
        assert(s.subrange(j, j + 1) =~= seq![c]);
    }
    if let Some(i) = find_seq(s, seq![c]) {
        assert(s.subrange(i, i + 1)[0] == s[i]);
    }
}

/// Splitting at a separator distributes over joining with that separator.
pub proof fn lemma_split_join(a: Seq<char>, b: Seq<char>, c: char)
    ensures
        split_seq(a + seq![c] + b, c) == split_seq(a, c) + split_seq(b, c),
    decreases a.len(),
{
    let s = a + seq![c] + b;
    lemma_first_index_of(a, c);
    let k = first_index_of(a, c);
    assert forall|j: int| 0 <= j < k implies s[j] != c by {
        assert(s[j] == a[j]);
    }
    assert(s[k] == c) by {
        if k < a.len() {
            assert(s[k] == a[k]);
        }
    }
    lemma_find_char(s, c, k);
    lemma_find_char(a, c, k);
    if k == a.len() {
        assert(s.take(k) =~= a);
        assert(s.skip(k + 1) =~= b);
    } else {
        let a2 = a.skip(k + 1);
        lemma_split_join(a2, b, c);
        assert(s.take(k) =~= a.take(k));
        assert(s.skip(k + 1) =~= a2 + seq![c] + b);
        assert(seq![a.take(k)] + (split_seq(a2, c) + split_seq(b, c)) =~= (seq![a.take(k)]
            + split_seq(a2, c)) + split_seq(b, c));
    }
}


/// A piece without one trailing carriage return.
pub open spec fn strip_cr(p: Seq<char>) -> Seq<char> {
    if p.len() > 0 && p.last() == '\r' {
        p.drop_last()
    } else {
        p
    }
}

/// The lines of a text (`str::lines`): split at `\n`, each line that ended
/// in `\n` without a trailing `\r`, and no empty last line after a final
/// line break.
pub open spec fn lines_seq(s: Seq<char>) -> Seq<Seq<char>> {
    let ps = split_seq(s, '\n');
    let init = ps.drop_last().map_values(|p: Seq<char>| strip_cr(p));
    if ps.last().len() == 0 {
        init
    } else {
        init.push(ps.last())
    }
}

/// Splitting always gives at least one piece.
pub proof fn lemma_split_nonempty(s: Seq<char>, c: char)
    ensures
        split_seq(s, c).len() >= 1,
{
    match find_seq(s, seq![c]) {
        Some(i) => {},
        None => {},
    }
}

/// The lines of a text.
pub fn text_lines(s: &[char]) -> (r: Vec<Vec<char>>)
    ensures
        vec_views(r@) == lines_seq(s@),
{
    let pieces = split_chars(s, '\n');
    let ghost ps = vec_views(pieces@);
    proof {
        lemma_split_nonempty(s@, '\n');
    }
    let n = pieces.len();
    let mut r: Vec<Vec<char>> = Vec::new();
    let mut i: usize = 0;
    while i + 1 < n
        invariant
            0 <= i < n,
            n == pieces@.len(),
            ps == vec_views(pieces@),
            vec_views(r@) == ps.take(i as int).map_values(|p: Seq<char>| strip_cr(p)),
        decreases n - i,
    {
        let p = &pieces[i];
        let m = p.len();
        let q = if m > 0 && p[m - 1] == '\r' {
            copy_all_but_last(p)
        } else {
            copy_all(p)
        };
        proof {
            assert(ps[i as int] == p@);
            assert(q@ == strip_cr(p@));
            let lhs = vec_views(r@.push(q));
            let rhs = ps.take(i + 1).map_values(|p: Seq<char>| strip_cr(p));
            assert(vec_views(r@).len() == r@.len());
            assert(r@.len() == i);
            assert(ps.len() == n);
            assert(lhs.len() == rhs.len());
            assert forall|k: int| 0 <= k < lhs.len() implies lhs[k] == rhs[k] by {
                if k < i {
                    assert(lhs[k] == vec_views(r@)[k]);
                    assert(vec_views(r@)[k] == ps.take(i as int).map_values(|p: Seq<char>| strip_cr(p))[k]);
                } else {
                    assert(lhs[k] == q@);
                }
            }
            assert(lhs =~= rhs);
        }
        r.push(q);
        i = i + 1;
    }
    proof {
        assert(ps.take(i as int) =~= ps.drop_last());
        assert(ps.last() == pieces@[n - 1]@);
    }
    if pieces[n - 1].len() > 0 {
        let last = copy_all(&pieces[n - 1]);
        proof {
            assert(vec_views(r@.push(last)) =~= vec_views(r@).push(last@));
        }
        r.push(last);
    }
    r
}

fn copy_all_but_last(s: &[char]) -> (r: Vec<char>)
    requires
        s@.len() > 0,
    ensures
        r@ == s@.drop_last(),
{
    let r = crate::text::copy_range(s, 0, s.len() - 1);
    proof {
        assert(r@ =~= s@.drop_last());
    }
    r
}

} // verus!

//! Regular-expression searches through the `regex` crate.
//!
//! Each search compiles its pattern with `regex::Regex::new`; a pattern that
//! does not compile finds nothing. All patterns this library passes are
//! fixed strings that compile.

use vstd::prelude::*;

use crate::text::opt_view;

verus! {

/// Whether `regex::Regex::new` accepts `pattern`.
pub uninterp spec fn regex_valid(pattern: Seq<char>) -> bool;

/// What `Regex::captures` gives for the compiled `pattern` on `text`: `None`
/// when there is no match, otherwise the text of capture group `group` of the
/// leftmost match (`None` when that group took no part in the match).
pub uninterp spec fn regex_first_captures(
    pattern: Seq<char>,
    text: Seq<char>,
    group: nat,
) -> Option<Option<Seq<char>>>;

/// Capture group `group` of each successive non-overlapping match of
/// `Regex::captures_iter`, in order (`None` where the group took no part).
pub uninterp spec fn regex_all_captures(
    pattern: Seq<char>,
    text: Seq<char>,
    group: nat,
) -> Seq<Option<Seq<char>>>;

/// What `Regex::is_match` answers for the compiled `pattern` on `text`.
pub uninterp spec fn regex_is_match(pattern: Seq<char>, text: Seq<char>) -> bool;

/// What `Regex::find` gives for the compiled `pattern` on `text`: the text of
/// the leftmost match.
pub uninterp spec fn regex_find(pattern: Seq<char>, text: Seq<char>) -> Option<Seq<char>>;

/// The captures a search reports: none when the pattern does not compile.
pub open spec fn first_caps(pattern: Seq<char>, text: Seq<char>, group: nat) -> Option<
    Option<Seq<char>>,
> {
    if regex_valid(pattern) {
        regex_first_captures(pattern, text, group)
    } else {
        None
    }
}

/// Capture group `group` of the last match: `None` when there is no match
/// or the pattern does not compile.
pub open spec fn last_caps(pattern: Seq<char>, text: Seq<char>, group: nat) -> Option<
    Option<Seq<char>>,
> {
    if regex_valid(pattern) && regex_all_captures(pattern, text, group).len() > 0 {
        Some(regex_all_captures(pattern, text, group).last())
    } else {
        None
    }
}

/// The texts among optional group texts, in order.
pub open spec fn present(s: Seq<Option<Seq<char>>>) -> Seq<Seq<char>>
    decreases s.len(),
{
    if s.len() == 0 {
        Seq::empty()
    } else {
        match s.last() {
            Some(t) => present(s.drop_last()).push(t),
            None => present(s.drop_last()),
        }
    }
}

/// All group texts a search reports, skipping matches where the group took
/// no part: none when the pattern does not compile.
pub open spec fn all_caps(pattern: Seq<char>, text: Seq<char>, group: nat) -> Seq<Seq<char>> {
    if regex_valid(pattern) {
        present(regex_all_captures(pattern, text, group))
    } else {
        Seq::empty()
    }
}

/// Whether a search matches: never when the pattern does not compile.
pub open spec fn matches_re(pattern: Seq<char>, text: Seq<char>) -> bool {
    regex_valid(pattern) && regex_is_match(pattern, text)
}

/// The leftmost match text: none when the pattern does not compile.
pub open spec fn find_re(pattern: Seq<char>, text: Seq<char>) -> Option<Seq<char>> {
    if regex_valid(pattern) {
        regex_find(pattern, text)
    } else {
        None
    }
}

/// The view of optional captures.
pub open spec fn caps_view(r: Option<Option<String>>) -> Option<Option<Seq<char>>> {
    match r {
        Some(g) => Some(opt_view(g)),
        None => None,
    }
}

/// `Regex::new(pattern)` then `captures(text)` and `get(group)`. The
/// contract claims that the outcome depends on the three arguments alone;
/// what the regex engine matches is left to the `regex` crate.
#[verifier::external_body]
pub(crate) fn first_captures(pattern: &str, text: &str, group: usize) -> (r: Option<Option<String>>)
    ensures
        regex_valid(pattern@) ==> caps_view(r) == regex_first_captures(
            pattern@,
            text@,
            group as nat,
        ),
        !regex_valid(pattern@) ==> r is None,
{
    match regex::Regex::new(pattern) {
        Ok(re) => re.captures(text).map(|c| c.get(group).map(|m| m.as_str().to_string())),
        Err(_) => None,
    }
}

/// `Regex::new(pattern)` then `captures_iter(text)`, giving group `group`
/// of each match. Only the dependence on the arguments is claimed.
#[verifier::external_body]
fn each_match_group(pattern: &str, text: &str, group: usize) -> (r: Vec<Option<String>>)
    ensures
        regex_valid(pattern@) ==> r@.map_values(|o: Option<String>| opt_view(o))
            == regex_all_captures(pattern@, text@, group as nat),
        !regex_valid(pattern@) ==> r@.len() == 0,
{
    match regex::Regex::new(pattern) {
        Ok(re) => re.captures_iter(text).map(|c| c.get(group).map(|m| m.as_str().to_string())).collect(),
        Err(_) => Vec::new(),
    }
}

/// The texts of capture group `group` over all matches of `pattern` in
/// `text`, skipping matches where the group took no part.
pub(crate) fn all_captures(pattern: &str, text: &str, group: usize) -> (r: Vec<String>)
    ensures
        r@.map_values(|s: String| s@) == all_caps(pattern@, text@, group as nat),
{
    let groups = each_match_group(pattern, text, group);
    let ghost gv = groups@.map_values(|o: Option<String>| opt_view(o));
    let mut r: Vec<String> = Vec::new();
    let mut i: usize = 0;
    while i < groups.len()
        invariant
            0 <= i <= groups@.len(),
            gv == groups@.map_values(|o: Option<String>| opt_view(o)),
            r@.map_values(|s: String| s@) == present(gv.take(i as int)),
        decreases groups.len() - i,
    {
        proof {
            assert(gv.take(i + 1).drop_last() =~= gv.take(i as int));
            assert(gv.take(i + 1).last() == gv[i as int]);
        }
        match &groups[i] {
            Some(t) => {
                let t2 = t.clone();
                proof {
                    assert(r@.push(t2).map_values(|s: String| s@) =~= r@.map_values(|s: String| s@).push(t2@));
                }
                r.push(t2);
            },
            None => {},
        }
        i = i + 1;
    }
    proof {
        assert(gv.take(groups@.len() as int) =~= gv);
        if !regex_valid(pattern@) {
            assert(gv.len() == 0);
            assert(gv =~= Seq::<Option<Seq<char>>>::empty());
        }
    }
    r
}

/// Capture group `group` of the last match of `pattern` in `text`: `None`
/// when there is no match.
pub(crate) fn last_captures(pattern: &str, text: &str, group: usize) -> (r: Option<Option<String>>)
    ensures
        caps_view(r) == last_caps(pattern@, text@, group as nat),
{
    let mut groups = each_match_group(pattern, text, group);
    let ghost gv = groups@.map_values(|o: Option<String>| opt_view(o));
    match groups.pop() {
        Some(g) => {
            proof {
                assert(gv.last() == opt_view(g));
            }
            Some(g)
        },
        None => None,
    }
}

/// `Regex::new(pattern)` then `is_match(text)`; `false` when the pattern
/// does not compile. Only the dependence on the arguments is claimed.
#[verifier::external_body]
pub(crate) fn is_match(pattern: &str, text: &str) -> (r: bool)
    ensures
        r == (regex_valid(pattern@) && regex_is_match(pattern@, text@)),
{
    match regex::Regex::new(pattern) {
        Ok(re) => re.is_match(text),
        Err(_) => false,
    }
}

/// `Regex::new(pattern)` then `find(text)`. Only the dependence on the
/// arguments is claimed.
#[verifier::external_body]
pub(crate) fn find_match(pattern: &str, text: &str) -> (r: Option<String>)
    ensures
        regex_valid(pattern@) ==> opt_view(r) == regex_find(pattern@, text@),
        !regex_valid(pattern@) ==> r is None,
{
    match regex::Regex::new(pattern) {
        Ok(re) => re.find(text).map(|m| m.as_str().to_string()),
        Err(_) => None,
    }
}

} // verus!

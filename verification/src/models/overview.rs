//! The overview of a problem: the reasoning gathered from every stage, and
//! the markdown document written from it.

use vstd::prelude::*;

use crate::collections::OrderedMap;
use crate::text::chars_of;

verus! {

/// Represents a collection of reasoning information for each pipeline stage
#[derive(Debug, Clone)]
pub struct OverviewData {
    /// Problem ID this overview relates to
    pub problem_id: String,
    /// Problem statement
    pub problem_statement: String,
    /// Reasoning for file selection stage
    pub file_selection_reasoning: Option<String>,
    /// Reasoning for relevance stage with file paths as keys
    pub relevance_reasoning: OrderedMap<String>,
    /// Reasoning for file ranking
    pub ranking_reasoning: Option<String>,
    /// Reasoning for setup script generation
    pub setup_script_reasoning: Option<String>,
    /// Reasoning for lint script generation
    pub lint_script_reasoning: Option<String>,
    /// Reasoning for test script generation
    pub test_script_reasoning: Option<String>,
    /// Reasoning for single test script generation
    pub single_test_script_reasoning: Option<String>,
    /// Reasoning for Dockerfile generation
    pub dockerfile_reasoning: Option<String>,
    /// Reasoning for any Dockerfile error fixes, by attempt
    pub dockerfile_error_reasoning: OrderedMap<String>,
    /// Reasoning for any test script error fixes, by attempt
    pub test_script_error_reasoning: OrderedMap<String>,
    /// Metadata about the generation process
    pub metadata: OrderedMap<String>,
}

/// The current time in RFC 3339 form (`chrono::Utc::now().to_rfc3339()`).
/// Which time it is depends on the clock; what holds of every outcome is
/// that the UTC offset is written as `+00:00` at the end.
#[verifier::external_body]
fn now_rfc3339() -> (r: String)
    ensures
        crate::text::ends_with_seq(r@, "+00:00"@),
{
    chrono::Utc::now().to_rfc3339()
}

impl OverviewData {
    /// Create a new empty OverviewData structure
    pub fn new(problem_id: &str, problem_statement: &str) -> (r: Self)
        ensures
            r.problem_id@ == problem_id@,
            r.problem_statement@ == problem_statement@,
            r.file_selection_reasoning is None,
            r.relevance_reasoning.entries@.len() == 0,
            r.ranking_reasoning is None,
            r.setup_script_reasoning is None,
            r.lint_script_reasoning is None,
            r.test_script_reasoning is None,
            r.single_test_script_reasoning is None,
            r.dockerfile_reasoning is None,
            r.dockerfile_error_reasoning.entries@.len() == 0,
            r.test_script_error_reasoning.entries@.len() == 0,
            r.metadata.entries@.len() == 1,
            r.metadata.entries@[0].0@ == "created_at"@,
            crate::text::ends_with_seq(r.metadata.entries@[0].1@, "+00:00"@),
    {
        let mut metadata = OrderedMap::new();
        metadata.insert("created_at".to_string(), now_rfc3339());
        Self {
            problem_id: problem_id.to_string(),
            problem_statement: problem_statement.to_string(),
            file_selection_reasoning: None,
            relevance_reasoning: OrderedMap::new(),
            ranking_reasoning: None,
            setup_script_reasoning: None,
            lint_script_reasoning: None,
            test_script_reasoning: None,
            single_test_script_reasoning: None,
            dockerfile_reasoning: None,
            dockerfile_error_reasoning: OrderedMap::new(),
            test_script_error_reasoning: OrderedMap::new(),
            metadata,
        }
    }
}

/// Whether every character is an ASCII digit.
pub open spec fn all_digits(s: Seq<char>) -> bool {
    forall|i: int| 0 <= i < s.len() ==> '0' <= #[trigger] s[i] && s[i] <= '9'
}

/// The number the decimal digits spell.
pub open spec fn digits_value(s: Seq<char>) -> nat
    decreases s.len(),
{
    if s.len() == 0 {
        0
    } else {
        digits_value(s.drop_last()) * 10 + ((s.last() as nat) - ('0' as nat)) as nat
    }
}

/// What `str::parse::<usize>` gives: an optional `+`, then one or more
/// ASCII digits whose value fits in `usize`.
pub open spec fn parse_usize_spec(s: Seq<char>) -> Option<nat> {
    let body = if s.len() > 0 && s[0] == '+' {
        s.skip(1)
    } else {
        s
    };
    if body.len() > 0 && all_digits(body) && digits_value(body) <= usize::MAX {
        Some(digits_value(body))
    } else {
        None
    }
}

/// The number an attempt is ordered by: its parsed value, or 0 when it does
/// not parse.
pub open spec fn attempt_key(s: Seq<char>) -> nat {
    match parse_usize_spec(s) {
        Some(v) => v,
        None => 0,
    }
}

proof fn lemma_digits_value_grows(s: Seq<char>, i: int, j: int)
    requires
        0 <= i <= j <= s.len(),
        all_digits(s),
    ensures
        digits_value(s.take(i)) <= digits_value(s.take(j)),
    decreases j - i,
{
    if i < j {
        lemma_digits_value_grows(s, i, j - 1);
        assert(s.take(j).drop_last() =~= s.take(j - 1));
        assert(s.take(j).last() == s[j - 1]);
    }
}

/// Parses a decimal number as `str::parse::<usize>` does.
pub fn parse_usize(s: &str) -> (r: Option<usize>)
    ensures
        match r {
            Some(v) => parse_usize_spec(s@) == Some(v as nat),
            None => parse_usize_spec(s@) is None,
        },
{
    let c = chars_of(s);
    let n = c.len();
    let start: usize = if n > 0 && c[0] == '+' { 1 } else { 0 };
    let ghost body = if s@.len() > 0 && s@[0] == '+' { s@.skip(1) } else { s@ };
    proof {
        assert(body =~= c@.skip(start as int));
    }
    if start >= n {
        return None;
    }
    let mut v: usize = 0;
    let mut i: usize = start;
    while i < n
        invariant
            start <= i <= n,
            n == c@.len(),
            c@ == s@,
            body == c@.skip(start as int),
            body == (if s@.len() > 0 && s@[0] == '+' { s@.skip(1) } else { s@ }),
            all_digits(body.take(i - start)),
            v as nat == digits_value(body.take(i - start)),
        decreases n - i,
    {
        let ch = c[i];
        proof {
            assert(body.take(i + 1 - start).drop_last() =~= body.take(i - start));
            assert(body.take(i + 1 - start).last() == ch);
        }
        if ch < '0' || ch > '9' {
            proof {
                assert(body[i - start] == ch);
                assert(!all_digits(body));
                assert(parse_usize_spec(s@) is None);
            }
            return None;
        }
        let d: u32 = (ch as u32) - ('0' as u32);
        proof {
            assert(all_digits(body.take(i + 1 - start)));
        }
        let step = v.checked_mul(10);
        let w = match step {
            Some(m) => m.checked_add(d as usize),
            None => None,
        };
        match w {
            Some(nv) => {
                v = nv;
            },
            None => {
                proof {
                    let k = (i + 1 - start) as int;
                    assert(digits_value(body.take(k)) == digits_value(body.take(k - 1)) * 10
                        + ((ch as nat) - ('0' as nat)) as nat);
                    assert(digits_value(body.take(k)) > usize::MAX);
                    if all_digits(body) {
                        lemma_digits_value_grows(body, k, body.len() as int);
                        assert(body.take(body.len() as int) =~= body);
                    }
                    assert(parse_usize_spec(s@) is None);
                }
                return None;
            },
        }
        i = i + 1;
    }
    proof {
        assert(body.take(n - start) =~= body);
    }
    Some(v)
}

/// An attempt entry with the number it is ordered by.
pub struct KeyedAttempt {
    pub key: usize,
    pub attempt: String,
    pub reasoning: String,
}

/// Inserts `e` after every entry whose key is not greater than its own,
/// scanning from the back (one step of a stable insertion sort).
pub open spec fn insert_by_key(s: Seq<(nat, Seq<char>, Seq<char>)>, e: (nat, Seq<char>, Seq<char>)) -> Seq<(nat, Seq<char>, Seq<char>)>
    decreases s.len(),
{
    if s.len() == 0 {
        seq![e]
    } else if s.last().0 <= e.0 {
        s.push(e)
    } else {
        insert_by_key(s.drop_last(), e).push(s.last())
    }
}

/// The entries sorted by key, equal keys kept in their order.
pub open spec fn sort_by_key(s: Seq<(nat, Seq<char>, Seq<char>)>) -> Seq<(nat, Seq<char>, Seq<char>)>
    decreases s.len(),
{
    if s.len() == 0 {
        Seq::empty()
    } else {
        insert_by_key(sort_by_key(s.drop_last()), s.last())
    }
}

/// The attempts of a map with their keys, in the map's order.
pub open spec fn keyed(entries: Seq<(String, String)>) -> Seq<(nat, Seq<char>, Seq<char>)> {
    entries.map_values(|e: (String, String)| (attempt_key(e.0@), e.0@, e.1@))
}

/// The models of keyed attempts.
pub open spec fn keyed_models(v: Seq<KeyedAttempt>) -> Seq<(nat, Seq<char>, Seq<char>)> {
    v.map_values(|k: KeyedAttempt| (k.key as nat, k.attempt@, k.reasoning@))
}

proof fn lemma_insert_split(s: Seq<(nat, Seq<char>, Seq<char>)>, e: (nat, Seq<char>, Seq<char>), p: int)
    requires
        0 <= p <= s.len(),
        forall|k: int| p <= k < s.len() ==> #[trigger] s[k].0 > e.0,
        p == 0 || s[p - 1].0 <= e.0,
    ensures
        insert_by_key(s, e) == s.take(p).push(e) + s.skip(p),
    decreases s.len(),
{
    if s.len() == 0 {
        assert(s.take(p).push(e) + s.skip(p) =~= seq![e]);
    } else if p == s.len() {
        assert(s.take(p) =~= s);
        assert(s.skip(p) =~= Seq::<(nat, Seq<char>, Seq<char>)>::empty());
        assert(s.take(p).push(e) + s.skip(p) =~= s.push(e));
    } else {
        assert(s.last().0 > e.0);
        let t = s.drop_last();
        assert forall|k: int| p <= k < t.len() implies #[trigger] t[k].0 > e.0 by {
            assert(t[k] == s[k]);
        }
        lemma_insert_split(t, e, p);
        assert(t.take(p) =~= s.take(p));
        assert(t.skip(p).push(s.last()) =~= s.skip(p));
        assert(t.take(p).push(e) + t.skip(p).push(s.last()) =~= (s.take(p).push(e) + s.skip(p)));
    }
}

fn insert_keyed(v: Vec<KeyedAttempt>, e: KeyedAttempt) -> (r: Vec<KeyedAttempt>)
    ensures
        keyed_models(r@) == insert_by_key(keyed_models(v@), (e.key as nat, e.attempt@, e.reasoning@)),
{
    let ghost s = keyed_models(v@);
    let ghost em = (e.key as nat, e.attempt@, e.reasoning@);
    let mut p: usize = v.len();
    while p > 0 && v[p - 1].key > e.key
        invariant
            0 <= p <= v@.len(),
            s == keyed_models(v@),
            em == (e.key as nat, e.attempt@, e.reasoning@),
            forall|k: int| p <= k < s.len() ==> #[trigger] s[k].0 > em.0,
        decreases p,
    {
        p = p - 1;
    }
    proof {
        lemma_insert_split(s, em, p as int);
    }
    let mut r: Vec<KeyedAttempt> = Vec::new();
    let mut v = v;
    let mut tail: Vec<KeyedAttempt> = v.split_off(p);
    let ghost vv = v@;
    let ghost tv = tail@;
    proof {
        assert(keyed_models(vv) =~= s.take(p as int));
        assert(keyed_models(tv) =~= s.skip(p as int));
    }
    r.append(&mut v);
    r.push(e);
    r.append(&mut tail);
    proof {
        assert(r@ =~= vv.push(e) + tv);
        assert(keyed_models(r@) =~= s.take(p as int).push(em) + s.skip(p as int));
    }
    r
}

fn sorted_attempts(m: &OrderedMap<String>) -> (r: Vec<KeyedAttempt>)
    ensures
        keyed_models(r@) == sort_by_key(keyed(m.entries@)),
{
    let ghost all = keyed(m.entries@);
    let mut r: Vec<KeyedAttempt> = Vec::new();
    let mut i: usize = 0;
    while i < m.entries.len()
        invariant
            0 <= i <= m.entries@.len(),
            all == keyed(m.entries@),
            keyed_models(r@) == sort_by_key(all.take(i as int)),
        decreases m.entries.len() - i,
    {
        let entry = &m.entries[i];
        let key = match parse_usize(entry.0.as_str()) {
            Some(k) => k,
            None => 0,
        };
        let e = KeyedAttempt { key, attempt: entry.0.clone(), reasoning: entry.1.clone() };
        proof {
            assert(all.take(i + 1).drop_last() =~= all.take(i as int));
            assert(all.take(i + 1).last() == all[i as int]);
        }
        r = insert_keyed(r, e);
        i = i + 1;
    }
    proof {
        assert(all.take(m.entries@.len() as int) =~= all);
    }
    r
}

/// A markdown section: its heading, then the text.
pub open spec fn section(heading: Seq<char>, text: Seq<char>) -> Seq<char> {
    heading + text + "\n\n"@
}

/// An optional section: present only when there is text.
pub open spec fn opt_section(heading: Seq<char>, text: Option<String>) -> Seq<char> {
    match text {
        Some(t) => section(heading, t@),
        None => Seq::empty(),
    }
}

/// The per-file relevance entries, each under its path.
pub open spec fn relevance_entries(entries: Seq<(String, String)>) -> Seq<char>
    decreases entries.len(),
{
    if entries.len() == 0 {
        Seq::empty()
    } else {
        relevance_entries(entries.drop_last()) + section(
            "### "@ + entries.last().0@ + "\n\n"@,
            entries.last().1@,
        )
    }
}

/// The attempts, each under its number.
pub open spec fn attempt_entries(attempts: Seq<(nat, Seq<char>, Seq<char>)>) -> Seq<char>
    decreases attempts.len(),
{
    if attempts.len() == 0 {
        Seq::empty()
    } else {
        attempt_entries(attempts.drop_last()) + section(
            "### Attempt "@ + attempts.last().1 + "\n\n"@,
            attempts.last().2,
        )
    }
}

/// A section of attempts, sorted by number; absent when there are none.
pub open spec fn attempts_section(heading: Seq<char>, m: OrderedMap<String>) -> Seq<char> {
    if m.entries@.len() == 0 {
        Seq::empty()
    } else {
        heading + attempt_entries(sort_by_key(keyed(m.entries@)))
    }
}

/// The markdown overview document.
pub open spec fn markdown_spec(o: OverviewData) -> Seq<char> {
    "# Project Overview for "@ + o.problem_id@ + "\n\n"@ + "## Problem Statement\n\n"@
        + o.problem_statement@ + "\n\n"@ + opt_section(
        "## File Selection Strategy\n\n"@,
        o.file_selection_reasoning,
    ) + (if o.relevance_reasoning.entries@.len() == 0 {
        Seq::empty()
    } else {
        "## File Relevance Analysis\n\n"@ + relevance_entries(o.relevance_reasoning.entries@)
    }) + opt_section("## File Ranking Strategy\n\n"@, o.ranking_reasoning)
        + "## Scripts Generation\n\n"@ + opt_section(
        "### Setup Script\n\n"@,
        o.setup_script_reasoning,
    ) + opt_section("### Lint Script\n\n"@, o.lint_script_reasoning) + opt_section(
        "### Test Script\n\n"@,
        o.test_script_reasoning,
    ) + opt_section("### Single Test Script\n\n"@, o.single_test_script_reasoning)
        + opt_section("## Dockerfile Generation\n\n"@, o.dockerfile_reasoning)
        + attempts_section("## Dockerfile Error Fixes\n\n"@, o.dockerfile_error_reasoning)
        + attempts_section("## Test Script Error Fixes\n\n"@, o.test_script_error_reasoning)
}

fn push_opt_section(md: &mut String, heading: &str, text: &Option<String>)
    ensures
        final(md)@ == old(md)@ + opt_section(heading@, *text),
{
    match text {
        Some(t) => {
            md.append(heading);
            md.append(t.as_str());
            md.append("\n\n");
        },
        None => {},
    }
}

fn push_attempts(md: &mut String, heading: &str, m: &OrderedMap<String>)
    ensures
        final(md)@ == old(md)@ + attempts_section(heading@, *m),
{
    if m.entries.len() == 0 {
        return;
    }
    md.append(heading);
    let attempts = sorted_attempts(m);
    let ghost sorted = keyed_models(attempts@);
    let ghost start = md@;
    let mut i: usize = 0;
    while i < attempts.len()
        invariant
            0 <= i <= attempts@.len(),
            sorted == keyed_models(attempts@),
            md@ == start + attempt_entries(sorted.take(i as int)),
        decreases attempts.len() - i,
    {
        md.append("### Attempt ");
        md.append(attempts[i].attempt.as_str());
        md.append("\n\n");
        md.append(attempts[i].reasoning.as_str());
        md.append("\n\n");
        proof {
            assert(sorted.take(i + 1).drop_last() =~= sorted.take(i as int));
            assert(sorted.take(i + 1).last() == sorted[i as int]);
            assert(md@ =~= start + attempt_entries(sorted.take(i + 1)));
        }
        i = i + 1;
    }
    proof {
        assert(sorted.take(attempts@.len() as int) =~= sorted);
    }
}

impl OverviewData {
    /// Generate a markdown overview document with full detail
    pub fn to_markdown(&self) -> (md: String)
        ensures
            md@ == markdown_spec(*self),
    {
        let mut md = "# Project Overview for ".to_string();
        md.append(self.problem_id.as_str());
        md.append("\n\n");
        md.append("## Problem Statement\n\n");
        md.append(self.problem_statement.as_str());
        md.append("\n\n");
        push_opt_section(&mut md, "## File Selection Strategy\n\n", &self.file_selection_reasoning);
        let n = self.relevance_reasoning.entries.len();
        if n > 0 {
            md.append("## File Relevance Analysis\n\n");
            let ghost start = md@;
            let ghost es = self.relevance_reasoning.entries@;
            let mut i: usize = 0;
            while i < n
                invariant
                    0 <= i <= n,
                    n == es.len(),
                    es == self.relevance_reasoning.entries@,
                    md@ == start + relevance_entries(es.take(i as int)),
                decreases n - i,
            {
                let entry = &self.relevance_reasoning.entries[i];
                md.append("### ");
                md.append(entry.0.as_str());
                md.append("\n\n");
                md.append(entry.1.as_str());
                md.append("\n\n");
                proof {
                    assert(es.take(i + 1).drop_last() =~= es.take(i as int));
                    assert(es.take(i + 1).last() == es[i as int]);
                    assert(md@ =~= start + relevance_entries(es.take(i + 1)));
                }
                i = i + 1;
            }
            proof {
                assert(es.take(n as int) =~= es);
            }
        }
        push_opt_section(&mut md, "## File Ranking Strategy\n\n", &self.ranking_reasoning);
        md.append("## Scripts Generation\n\n");
        push_opt_section(&mut md, "### Setup Script\n\n", &self.setup_script_reasoning);
        push_opt_section(&mut md, "### Lint Script\n\n", &self.lint_script_reasoning);
        push_opt_section(&mut md, "### Test Script\n\n", &self.test_script_reasoning);
        push_opt_section(&mut md, "### Single Test Script\n\n", &self.single_test_script_reasoning);
        push_opt_section(&mut md, "## Dockerfile Generation\n\n", &self.dockerfile_reasoning);
        push_attempts(&mut md, "## Dockerfile Error Fixes\n\n", &self.dockerfile_error_reasoning);
        push_attempts(&mut md, "## Test Script Error Fixes\n\n", &self.test_script_error_reasoning);
        proof {
            assert(md@ =~= markdown_spec(*self));
        }
        md
    }
}

proof fn lemma_digit_value(k: nat)
    requires
        k < 10,
    ensures
        '0' <= crate::text::digit_char(k) <= '9',
        ((crate::text::digit_char(k) as nat) - ('0' as nat)) as nat == k,
{
    assert(('0' as nat) == 48);
    assert(('1' as nat) == 49);
    assert(('2' as nat) == 50);
    assert(('3' as nat) == 51);
    assert(('4' as nat) == 52);
    assert(('5' as nat) == 53);
    assert(('6' as nat) == 54);
    assert(('7' as nat) == 55);
    assert(('8' as nat) == 56);
    assert(('9' as nat) == 57);
}

proof fn lemma_decimal_digits(n: nat)
    ensures
        all_digits(crate::text::decimal_seq(n)),
        digits_value(crate::text::decimal_seq(n)) == n,
        crate::text::decimal_seq(n).len() > 0,
        crate::text::decimal_seq(n)[0] != '+',
    decreases n,
{
    let d = crate::text::decimal_seq(n);
    if n < 10 {
        lemma_digit_value(n);
        assert(d == seq![crate::text::digit_char(n)]);
        assert(d.drop_last() =~= Seq::<char>::empty());
        assert(d.last() == crate::text::digit_char(n));
        assert(digits_value(d) == digits_value(d.drop_last()) * 10 + ((d.last() as nat) - ('0' as nat)) as nat);
        assert(digits_value(d.drop_last()) == 0);
    } else {
        lemma_digit_value(n % 10);
        lemma_decimal_digits(n / 10);
        let p = crate::text::decimal_seq(n / 10);
        assert(d == p.push(crate::text::digit_char(n % 10)));
        assert(d.drop_last() =~= p);
        assert(d[0] == p[0]);
        assert(d.last() == crate::text::digit_char(n % 10));
        assert(digits_value(d) == digits_value(p) * 10 + ((d.last() as nat) - ('0' as nat)) as nat);
        assert(n == (n / 10) * 10 + n % 10);
    }
}

/// An attempt number written in decimal (as the repair steps write it into
/// a reasoning file's name) is read back as the same number, so the
/// overview orders attempts by the numbers they were written with.
pub proof fn law_attempt_number_round_trip(n: nat)
    requires
        n <= usize::MAX,
    ensures
        parse_usize_spec(crate::text::decimal_seq(n)) == Some(n),
        attempt_key(crate::text::decimal_seq(n)) == n,
{
    lemma_decimal_digits(n);
}

} // verus!

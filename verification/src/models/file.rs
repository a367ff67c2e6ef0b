//! Files of a codebase and the file patterns the language model selects.

use vstd::prelude::*;

use crate::bindings::glob_calls::{glob_match, glob_pattern_matches, glob_pattern_valid};
use crate::paths::{chars_eq, last_index_of, lemma_last_index_of, rfind_char, string_views};
use crate::text::{
    chars_of, contains, contains_seq, ends_with_seq, starts_with, starts_with_seq, string_of,
};

verus! {

/// Represents a file in the codebase
#[derive(Debug, Clone)]
pub struct CodebaseFile {
    /// Path to the file, relative to the codebase root
    pub path: String,
    /// Content of the file
    pub content: String,
}

/// Whether the last `/` of a path comes after index `i`.
pub open spec fn slash_after(path: Seq<char>, i: int) -> bool {
    match last_index_of(path, '/') {
        Some(j) => j > i,
        None => false,
    }
}

/// The extension of a path: the text after the last `.` of its final
/// component. A path has none when it has no `.`, when its last `.` lies in
/// a directory name, or when that `.` begins the final component (a hidden
/// file such as `.bashrc`).
pub open spec fn extension_piece(path: Seq<char>) -> Option<Seq<char>> {
    match last_index_of(path, '.') {
        None => None,
        Some(i) => if i == 0 || path[i - 1] == '/' || slash_after(path, i) {
            None
        } else {
            Some(path.skip(i + 1))
        },
    }
}

impl CodebaseFile {
    /// Create a new codebase file
    pub fn new(path: String, content: String) -> (r: Self)
        ensures
            r.path == path,
            r.content == content,
    {
        Self { path, content }
    }

    /// Get the file extension (see `extension_piece`): `None` for a file
    /// such as `Makefile` that has none.
    pub fn extension(&self) -> (r: Option<&str>)
        ensures
            match r {
                Some(e) => extension_piece(self.path@) == Some(e@),
                None => extension_piece(self.path@) is None,
            },
    {
        let p = chars_of(self.path.as_str());
        proof {
            lemma_last_index_of(self.path@, '.');
            lemma_last_index_of(self.path@, '/');
        }
        match rfind_char(&p, '.') {
            None => None,
            Some(i) => {
                assert(i < p@.len());
                if i == 0 || p[i - 1] == '/' {
                    return None;
                }
                match rfind_char(&p, '/') {
                    Some(j) => {
                        if j > i {
                            return None;
                        }
                    },
                    None => {},
                }
                let start: usize = i + 1;
                Some(self.path.as_str().substring_char(start, p.len()))
            },
        }
    }

    /// Check if the file is a Python file
    pub fn is_python(&self) -> (r: bool)
        ensures
            r == (extension_piece(self.path@) == Some(seq!['p', 'y'])),
    {
        let e = self.extension();
        match e {
            Some(s) => {
                let c = chars_of(s);
                let py = vec!['p', 'y'];
                chars_eq(&c, &py)
            },
            None => false,
        }
    }
}

/// Represents a file pattern selection returned by the LLM
#[derive(Debug, Clone)]
pub struct FilePatternSelection {
    /// The list of file patterns to include
    pub patterns: Vec<String>,
}

/// The text without one leading `./`.
pub open spec fn strip_dot_slash(s: Seq<char>) -> Seq<char> {
    if starts_with_seq(s, seq!['.', '/']) {
        s.skip(2)
    } else {
        s
    }
}

/// A normalized pattern selects a normalized path when it is the same path,
/// when it names a directory (ends with `/`) that the path lies in, or when
/// it holds `*` and matches the path as a glob pattern.
pub open spec fn pattern_selects(pattern: Seq<char>, path: Seq<char>) -> bool {
    ||| pattern == path
    ||| (ends_with_seq(pattern, seq!['/']) && starts_with_seq(path, pattern))
    ||| (contains_seq(pattern, seq!['*']) && glob_pattern_valid(pattern) && glob_pattern_matches(
        pattern,
        path,
    ))
}

/// Some pattern selects the path, both without a leading `./`.
pub open spec fn selection_matches(patterns: Seq<Seq<char>>, path: Seq<char>) -> bool {
    exists|i: int|
        0 <= i < patterns.len() && pattern_selects(
            strip_dot_slash(#[trigger] patterns[i]),
            strip_dot_slash(path),
        )
}

/// Removes one leading `./`.
fn strip_dot_slash_chars(s: Vec<char>) -> (r: Vec<char>)
    ensures
        r@ == strip_dot_slash(s@),
{
    let ds = vec!['.', '/'];
    proof {
        assert(ds@ =~= seq!['.', '/']);
    }
    if starts_with(&s, &ds) {
        crate::text::copy_range(&s, 2, s.len())
    } else {
        s
    }
}

/// Whether a normalized pattern selects a normalized path.
fn selects(pattern: &Vec<char>, path: &Vec<char>) -> (r: bool)
    ensures
        r == pattern_selects(pattern@, path@),
{
    if chars_eq(pattern, path) {
        return true;
    }
    let slash = vec!['/'];
    proof {
        assert(slash@ =~= seq!['/']);
    }
    if crate::text::ends_with(pattern, &slash) && starts_with(path, pattern) {
        return true;
    }
    let star = vec!['*'];
    proof {
        assert(star@ =~= seq!['*']);
    }
    if contains(pattern, &star) {
        let ps = string_of(pattern);
        let fs = string_of(path);
        match glob_match(ps.as_str(), fs.as_str()) {
            Some(b) => b,
            None => false,
        }
    } else {
        false
    }
}

impl FilePatternSelection {
    /// Create a new file pattern selection
    pub fn new(patterns: Vec<String>) -> (r: Self)
        ensures
            r.patterns == patterns,
    {
        Self { patterns }
    }

    /// Check if a file path matches any of the patterns
    pub fn matches(&self, file_path: &str) -> (r: bool)
        ensures
            r == selection_matches(string_views(self.patterns@), file_path@),
    {
        let path = strip_dot_slash_chars(chars_of(file_path));
        let mut i: usize = 0;
        while i < self.patterns.len()
            invariant
                0 <= i <= self.patterns@.len(),
                path@ == strip_dot_slash(file_path@),
                forall|j: int|
                    0 <= j < i ==> !pattern_selects(
                        strip_dot_slash(self.patterns@[j]@),
                        strip_dot_slash(file_path@),
                    ),
            decreases self.patterns.len() - i,
        {
            let pat = strip_dot_slash_chars(chars_of(self.patterns[i].as_str()));
            if selects(&pat, &path) {
                proof {
                    assert(string_views(self.patterns@)[i as int] == self.patterns@[i as int]@);
                }
                return true;
            }
            i = i + 1;
        }
        proof {
            if selection_matches(string_views(self.patterns@), file_path@) {
                let j = choose|j: int|
                    0 <= j < string_views(self.patterns@).len() && pattern_selects(
                        strip_dot_slash(#[trigger] string_views(self.patterns@)[j]),
                        strip_dot_slash(file_path@),
                    );
                assert(string_views(self.patterns@)[j] == self.patterns@[j]@);
            }
        }
        false
    }
}

/// A leading `./` does not change which patterns select a path: `./x` is
/// selected exactly when `x` is (for an `x` that does not itself start with
/// `./`).
pub proof fn law_leading_dot_slash_ignored(patterns: Seq<Seq<char>>, x: Seq<char>)
    requires
        !starts_with_seq(x, seq!['.', '/']),
    ensures
        selection_matches(patterns, seq!['.', '/'] + x) == selection_matches(patterns, x),
{
    let dx = seq!['.', '/'] + x;
    assert(dx.subrange(0, 2) =~= seq!['.', '/']);
    assert(dx.skip(2) =~= x);
    assert(strip_dot_slash(dx) == x);
    assert(strip_dot_slash(x) == x);
}

} // verus!

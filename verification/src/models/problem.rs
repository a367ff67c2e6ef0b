//! A problem to work on: its statement, its codebase, which entries of the
//! codebase are left out, and the tree picture of what remains.

use vstd::prelude::*;

use crate::collections::OrderedMap;
use crate::models::exclusion::{
    excluded_by_directory, excluded_by_extension, excluded_by_filename, ExclusionConfig,
};
use crate::models::file::CodebaseFile;
use crate::models::tree::{render_tree, tree_spec};
use crate::paths::{file_name, file_name_spec, vec_views};
use crate::text::{chars_of, starts_with_seq, string_of, texts};

verus! {

/// What the `ignore` crate answers for `.gitignore` lines: the matcher built
/// by `GitignoreBuilder::new(root)` and `add_line(None, line)` for each
/// line, then `build()`, asked `matched_path_or_any_parents(path, is_dir)
/// .is_ignore()`; `None` when a line or the build is refused.
pub uninterp spec fn gitignore_match(
    root: Seq<char>,
    lines: Seq<Seq<char>>,
    path: Seq<char>,
    is_dir: bool,
) -> Option<bool>;

/// The codebase root as a path prefix: without one trailing `/`.
pub open spec fn trimmed_root(root: Seq<char>) -> Seq<char> {
    if root.len() > 1 && root.last() == '/' {
        root.drop_last()
    } else {
        root
    }
}

/// Whether `path` lies below the root: it starts with the root and `/`, and
/// what follows does not start with `/` again.
pub open spec fn under_root(root: Seq<char>, path: Seq<char>) -> bool {
    let r = trimmed_root(root);
    &&& starts_with_seq(path, r.push('/'))
    &&& !starts_with_seq(path.skip(r.len() as int + 1), seq!['/'])
}

/// `GitignoreBuilder::new(root)`, `add_line(None, line)` for each of the
/// `.gitignore` lines and `build()`, then
/// `matched_path_or_any_parents(path, is_dir).is_ignore()`: whether the
/// entry or one of its parent directories is ignored. `None` when a line or
/// the build is refused. The path must lie below the root (the crate panics
/// otherwise).
#[verifier::external_body]
fn gitignore_ignores(root: &str, lines: &Vec<String>, path: &str, is_dir: bool) -> (r: Option<bool>)
    requires
        under_root(root@, path@),
    ensures
        r == gitignore_match(root@, texts(lines@), path@, is_dir),
{
    let mut builder = ignore::gitignore::GitignoreBuilder::new(root);
    for line in lines {
        if builder.add_line(None, line).is_err() {
            return None;
        }
    }
    builder.build().ok().map(|g| g.matched_path_or_any_parents(path, is_dir).is_ignore())
}

/// Represents a problem from the SWE-bench dataset
#[derive(Debug, Clone)]
pub struct SWEBenchProblem {
    /// Unique identifier for the problem
    pub id: String,
    /// The problem statement (usually a GitHub issue)
    pub problem_statement: String,
    /// Additional metadata about the problem
    pub metadata: OrderedMap<String>,
    /// Files of the codebase read so far
    pub file_cache: OrderedMap<CodebaseFile>,
    /// Codebase root path
    pub codebase_path: Option<String>,
    /// Exclusion config
    pub exclusion_config: ExclusionConfig,
    /// The files of the codebase, relative to its root
    pub cached_paths: Vec<String>,
    /// The lines of the `.gitignore` file at the codebase root, when one was
    /// read
    pub gitignore_lines: Option<Vec<String>>,
}

/// The name an entry is listed under: the final component of its path, or
/// the whole path when it has none.
pub open spec fn entry_name(path: Seq<char>) -> Seq<char> {
    match file_name_spec(path) {
        Some(n) => n,
        None => path,
    }
}

/// Whether an entry is hidden: its name starts with `.`.
pub open spec fn is_hidden(path: Seq<char>) -> bool {
    starts_with_seq(entry_name(path), seq!['.'])
}

/// The path of an entry relative to the codebase root: what follows the
/// root and `/` for an entry below it, empty for the root itself, and the
/// path unchanged otherwise (or when no root is set).
pub open spec fn relative_path(root: Option<String>, path: Seq<char>) -> Seq<char> {
    match root {
        Some(r) => if under_root(r@, path) {
            path.skip(trimmed_root(r@).len() as int + 1)
        } else if path == trimmed_root(r@) {
            Seq::empty()
        } else {
            path
        },
        None => path,
    }
}

/// Whether the `.gitignore` lines ignore an entry below the root.
pub open spec fn ignored_by_gitignore(p: SWEBenchProblem, path: Seq<char>, is_dir: bool) -> bool {
    match (p.codebase_path, p.gitignore_lines) {
        (Some(root), Some(lines)) => under_root(root@, path) && gitignore_match(
            root@,
            texts(lines@),
            path,
            is_dir,
        ) == Some(true),
        _ => false,
    }
}

/// Whether the exclusion lists leave out a path.
pub open spec fn excluded_by_config(c: ExclusionConfig, path: Seq<char>) -> bool {
    excluded_by_extension(c.extensions(), path) || excluded_by_filename(c.files(), path)
        || excluded_by_directory(c.directories(), path)
}

fn trim_root(root: &Vec<char>) -> (r: Vec<char>)
    ensures
        r@ == trimmed_root(root@),
{
    if root.len() > 1 && root[root.len() - 1] == '/' {
        crate::text::copy_range(root, 0, root.len() - 1)
    } else {
        crate::paths::copy_all(root)
    }
}

impl SWEBenchProblem {
    /// Create a new SWE-bench problem
    pub fn new(id: String, problem_statement: String) -> (r: Self)
        ensures
            r.id == id,
            r.problem_statement == problem_statement,
            r.metadata.entries@.len() == 0,
            r.file_cache.entries@.len() == 0,
            r.codebase_path is None,
            r.exclusion_config.extensions() == crate::models::exclusion::default_extensions_to_skip(),
            r.exclusion_config.files() == crate::models::exclusion::default_files_to_skip(),
            r.exclusion_config.directories()
                == crate::models::exclusion::default_directories_to_skip(),
            r.cached_paths@.len() == 0,
            r.gitignore_lines is None,
    {
        Self {
            id,
            problem_statement,
            metadata: OrderedMap::new(),
            file_cache: OrderedMap::new(),
            codebase_path: None,
            exclusion_config: ExclusionConfig::default(),
            cached_paths: Vec::new(),
            gitignore_lines: None,
        }
    }

    /// Set the codebase path
    pub fn with_codebase_path(self, path: &str) -> (r: Self)
        ensures
            r.codebase_path matches Some(p) && p@ == path@,
            r.id == self.id,
            r.problem_statement == self.problem_statement,
            r.exclusion_config == self.exclusion_config,
            r.cached_paths == self.cached_paths,
    {
        let mut s = self;
        s.codebase_path = Some(path.to_string());
        s
    }

    /// Set exclusion config
    pub fn with_exclusion_config(self, config: ExclusionConfig) -> (r: Self)
        ensures
            r.exclusion_config == config,
            r.id == self.id,
            r.problem_statement == self.problem_statement,
            r.codebase_path == self.codebase_path,
            r.cached_paths == self.cached_paths,
    {
        let mut s = self;
        s.exclusion_config = config;
        s
    }

    /// The codebase root, when one is set.
    pub fn get_codebase_path(&self) -> (r: Option<&String>)
        ensures
            r == match &self.codebase_path {
                Some(p) => Some(p),
                None => None::<&String>,
            },
    {
        match &self.codebase_path {
            Some(p) => Some(p),
            None => None,
        }
    }

    /// Records the files found by a scan of the codebase.
    pub fn set_scanned_paths(&mut self, paths: Vec<String>)
        ensures
            final(self).cached_paths == paths,
            final(self).id == old(self).id,
            final(self).codebase_path == old(self).codebase_path,
            final(self).exclusion_config == old(self).exclusion_config,
    {
        self.cached_paths = paths;
    }

    /// Get all file paths in the codebase
    pub fn all_file_paths(&self) -> (r: Vec<String>)
        ensures
            texts(r@) == texts(self.cached_paths@),
    {
        let mut r: Vec<String> = Vec::new();
        let mut i: usize = 0;
        while i < self.cached_paths.len()
            invariant
                0 <= i <= self.cached_paths@.len(),
                texts(r@) == texts(self.cached_paths@.take(i as int)),
            decreases self.cached_paths.len() - i,
        {
            let p = self.cached_paths[i].clone();
            proof {
                assert(texts(self.cached_paths@.take(i + 1)) =~= texts(self.cached_paths@.take(i as int)).push(p@));
                assert(texts(r@.push(p)) =~= texts(r@).push(p@));
            }
            r.push(p);
            i = i + 1;
        }
        proof {
            assert(self.cached_paths@.take(self.cached_paths@.len() as int) =~= self.cached_paths@);
        }
        r
    }

    /// Whether an entry of the codebase is left out: when the exclusion
    /// lists name it, when it is hidden, or when the `.gitignore` patterns
    /// ignore it or one of its parents. The lists and the hidden rule look
    /// at the path relative to the codebase root, so the directories above
    /// the codebase play no part.
    pub fn should_exclude(&self, path: &str, is_dir: bool) -> (r: bool)
        ensures
            r == (excluded_by_config(self.exclusion_config, relative_path(self.codebase_path, path@))
                || is_hidden(relative_path(self.codebase_path, path@))
                || ignored_by_gitignore(*self, path@, is_dir)),
    {
        let p = chars_of(path);
        let (rel, below) = match &self.codebase_path {
            Some(root) => {
                let rc = chars_of(root.as_str());
                let rr = trim_root(&rc);
                let mut prefix = crate::paths::copy_all(&rr);
                prefix.push('/');
                let n = prefix.len();
                let below = if crate::text::starts_with(&p, &prefix) {
                    let rest_slash = p.len() > n && p[n] == '/';
                    proof {
                        let rest = p@.skip(n as int);
                        if rest.len() > 0 {
                            assert(rest[0] == p@[n as int]);
                        }
                        if starts_with_seq(rest, seq!['/']) {
                            assert(rest.subrange(0, 1) =~= seq!['/']);
                            assert(rest.subrange(0, 1)[0] == rest[0]);
                        }
                        if rest.len() > 0 && rest[0] == '/' {
                            assert(rest.subrange(0, 1) =~= seq!['/']);
                        }
                    }
                    !rest_slash
                } else {
                    false
                };
                proof {
                    assert(prefix@ == trimmed_root(root@).push('/'));
                    assert(below == under_root(root@, path@));
                }
                if below {
                    (string_of(&crate::text::copy_range(&p, n, p.len())), true)
                } else if crate::paths::chars_eq(&p, &rr) {
                    (String::new(), false)
                } else {
                    (path.to_string(), false)
                }
            },
            None => (path.to_string(), false),
        };
        proof {
            assert(rel@ =~= relative_path(self.codebase_path, path@));
        }
        if self.exclusion_config.should_exclude(rel.as_str()) {
            return true;
        }
        let rp = chars_of(rel.as_str());
        let name = match file_name(&rp) {
            Some(nm) => nm,
            None => rp,
        };
        let hidden = name.len() > 0 && name[0] == '.';
        proof {
            assert(name@ == entry_name(rel@));
            if name@.len() > 0 {
                assert(name@.subrange(0, 1) =~= seq![name@[0]]);
                if name@[0] == '.' {
                    assert(name@.subrange(0, 1) =~= seq!['.']);
                }
            }
            if starts_with_seq(name@, seq!['.']) {
                assert(name@.subrange(0, 1)[0] == name@[0]);
                assert(seq!['.'][0] == '.');
            }
            assert(is_hidden(rel@) == hidden);
        }
        if hidden {
            return true;
        }
        match (&self.codebase_path, &self.gitignore_lines) {
            (Some(root), Some(lines)) => {
                if below {
                    match gitignore_ignores(root.as_str(), lines, path, is_dir) {
                        Some(true) => true,
                        _ => false,
                    }
                } else {
                    false
                }
            },
            _ => false,
        }
    }

    /// Generate a tree-like representation of the codebase, from the files
    /// of the scan and the directories found on disk (those not left out);
    /// empty when no codebase is set.
    pub fn generate_tree(&self, disk_dirs: &Vec<String>) -> (r: String)
        requires
            forall|i: int|
                0 <= i < self.cached_paths@.len() ==> !starts_with_seq(
                    #[trigger] self.cached_paths@[i]@,
                    seq!['/'],
                ),
        ensures
            self.codebase_path is None ==> r@.len() == 0,
            self.codebase_path is Some ==> r@ == tree_spec(
                texts(self.cached_paths@),
                texts(disk_dirs@),
            ),
    {
        if self.codebase_path.is_none() {
            return String::new();
        }
        let paths = char_lists(&self.cached_paths);
        let walk = char_lists(disk_dirs);
        let out = render_tree(&paths, &walk);
        string_of(&out)
    }

    /// The file of the codebase read earlier under `path`, if any.
    pub fn cached_file(&self, path: &str) -> (r: Option<&CodebaseFile>)
        ensures
            match r {
                Some(f) => self.file_cache.view_map().contains_key(path@)
                    && self.file_cache.view_map()[path@] == *f,
                None => !self.file_cache.view_map().contains_key(path@),
            },
    {
        self.file_cache.get(path)
    }

    /// Keeps a file read from the codebase under `path`.
    pub fn cache_file(&mut self, path: &str, content: String)
        ensures
            final(self).file_cache.view_map().contains_key(path@),
            final(self).file_cache.view_map()[path@].path@ == path@,
            final(self).file_cache.view_map()[path@].content == content,
            final(self).file_cache.view_map().remove(path@) == old(self).file_cache.view_map().remove(
                path@,
            ),
            final(self).id == old(self).id,
            final(self).codebase_path == old(self).codebase_path,
            final(self).cached_paths == old(self).cached_paths,
    {
        let f = CodebaseFile::new(path.to_string(), content);
        self.file_cache.insert(path.to_string(), f);
    }
}

fn char_lists(v: &Vec<String>) -> (r: Vec<Vec<char>>)
    ensures
        vec_views(r@) == texts(v@),
{
    let mut r: Vec<Vec<char>> = Vec::new();
    let mut i: usize = 0;
    while i < v.len()
        invariant
            0 <= i <= v@.len(),
            vec_views(r@) == texts(v@.take(i as int)),
        decreases v.len() - i,
    {
        let c = chars_of(v[i].as_str());
        proof {
            assert(texts(v@.take(i + 1)) =~= texts(v@.take(i as int)).push(v@[i as int]@));
            assert(vec_views(r@.push(c)) =~= vec_views(r@).push(c@));
        }
        r.push(c);
        i = i + 1;
    }
    proof {
        assert(v@.take(v@.len() as int) =~= v@);
    }
    r
}

} // verus!

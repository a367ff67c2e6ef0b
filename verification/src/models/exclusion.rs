//! Exclusion rules: which files of a codebase are skipped by extension, by
//! file name, or because they sit under a skipped directory.

use vstd::prelude::*;

use crate::paths::{
    chars_eq, lemma_split_join, extension, extension_spec, file_name, file_name_spec, is_normal,
    is_normal_component, split_chars, split_seq, string_views, vec_views,
};
use crate::text::{chars_of, ends_with, ends_with_seq};

verus! {

/// Config structure for exclusion patterns
#[derive(Debug, Clone)]
pub struct ExclusionConfig {
    /// File extensions to skip
    pub extensions_to_skip: Vec<String>,
    /// Files to skip
    pub files_to_skip: Vec<String>,
    /// Directories to skip
    pub directories_to_skip: Vec<String>,
}

/// The extensions skipped by default.
pub open spec fn default_extensions_to_skip() -> Seq<Seq<char>> {
    seq![
        ".png"@,
        ".jpg"@,
        ".jpeg"@,
        ".gif"@,
        ".bmp"@,
        ".tif"@,
        ".tiff"@,
        ".ico"@,
        ".svg"@,
        ".webp"@,
        ".heic"@,
        ".mp3"@,
        ".wav"@,
        ".wma"@,
        ".ogg"@,
        ".flac"@,
        ".m4a"@,
        ".aac"@,
        ".midi"@,
        ".mid"@,
        ".mp4"@,
        ".avi"@,
        ".mkv"@,
        ".mov"@,
        ".wmv"@,
        ".m4v"@,
        ".3gp"@,
        ".3g2"@,
        ".rm"@,
        ".swf"@,
        ".flv"@,
        ".webm"@,
        ".mpg"@,
        ".mpeg"@,
        ".otf"@,
        ".ttf"@,
        ".pdf"@,
        ".doc"@,
        ".docx"@,
        ".xls"@,
        ".xlsx"@,
        ".ppt"@,
        ".pptx"@,
        ".rtf"@,
        ".odt"@,
        ".ods"@,
        ".odp"@,
        ".iso"@,
        ".bin"@,
        ".tar"@,
        ".zip"@,
        ".7z"@,
        ".gz"@,
        ".rar"@,
        ".bz2"@,
        ".xz"@,
        ".min.js"@,
        ".min.js.map"@,
        ".js.map"@,
        ".min.css"@,
        ".min.css.map"@,
        ".tfstate"@,
        ".tfstate.backup"@,
        ".parquet"@,
        ".pyc"@,
        ".pub"@,
        ".pem"@,
        ".lock"@,
        ".sqlite"@,
        ".db"@,
        ".env"@,
        ".log"@,
        ".class"@,
        ".dll"@,
        ".exe"@,
        ".psd"@,
        ".ai"@,
        ".sketch"@,
        ".stl"@,
        ".obj"@,
        ".dwg"@,
        ".bak"@,
        ".old"@,
        ".tmp"@,
    ]
}

/// The file names skipped by default.
pub open spec fn default_files_to_skip() -> Seq<Seq<char>> {
    seq![
        "pnpm-lock.yaml"@,
        "package-lock.json"@,
        ".DS_Store"@,
        ".gitignore"@,
        "bun.lockb"@,
        "npm-debug.log"@,
        "yarn-error.log"@,
        "Thumbs.db"@,
        "Gemfile.lock"@,
    ]
}

/// The directories skipped by default.
pub open spec fn default_directories_to_skip() -> Seq<Seq<char>> {
    seq![
        ".git"@,
        "node_modules"@,
        ".vscode"@,
        ".idea"@,
        "assets"@,
        "dist"@,
        "build"@,
        "coverage"@,
        "tmp"@,
        "temp"@,
        ".next"@,
        ".nuxt"@,
        ".cache"@,
    ]
}

/// A path with an extension is excluded by extension when `.` followed by
/// its extension is listed, or when its file name ends with any listed
/// extension (so multi-part ones such as `.js.map`, `.tfstate.backup` or
/// `.min.js` count too).
pub open spec fn excluded_by_extension(exts: Seq<Seq<char>>, path: Seq<char>) -> bool {
    match extension_spec(path) {
        Some(ext) => {
            ||| exts.contains(seq!['.'] + ext)
            ||| exists|k: int|
                0 <= k < exts.len() && ends_with_seq(file_name_spec(path)->0, #[trigger] exts[k])
        },
        None => false,
    }
}

/// A path is excluded by file name when its file name is listed.
pub open spec fn excluded_by_filename(files: Seq<Seq<char>>, path: Seq<char>) -> bool {
    match file_name_spec(path) {
        Some(name) => files.contains(name),
        None => false,
    }
}

/// A path is excluded by directory when one of its name components (the
/// names of the path and of all its ancestors) is listed.
pub open spec fn excluded_by_directory(dirs: Seq<Seq<char>>, path: Seq<char>) -> bool {
    exists|i: int|
        0 <= i < split_seq(path, '/').len() && is_normal_component(split_seq(path, '/')[i])
            && dirs.contains(#[trigger] split_seq(path, '/')[i])
}

/// Whether the listed strings hold `item`.
pub fn list_contains(list: &Vec<String>, item: &[char]) -> (r: bool)
    ensures
        r == string_views(list@).contains(item@),
{
    let mut i: usize = 0;
    while i < list.len()
        invariant
            0 <= i <= list@.len(),
            forall|j: int| 0 <= j < i ==> list@[j]@ != item@,
        decreases list.len() - i,
    {
        let c = chars_of(list[i].as_str());
        if chars_eq(&c, item) {
            proof {
                assert(string_views(list@)[i as int] == item@);
            }
            return true;
        }
        i = i + 1;
    }
    proof {
        if string_views(list@).contains(item@) {
            let j = choose|j: int| 0 <= j < string_views(list@).len() && string_views(list@)[j] == item@;
            assert(list@[j]@ == item@);
        }
    }
    false
}

impl ExclusionConfig {
    /// The listed extensions.
    pub open spec fn extensions(&self) -> Seq<Seq<char>> {
        string_views(self.extensions_to_skip@)
    }

    /// The listed file names.
    pub open spec fn files(&self) -> Seq<Seq<char>> {
        string_views(self.files_to_skip@)
    }

    /// The listed directories.
    pub open spec fn directories(&self) -> Seq<Seq<char>> {
        string_views(self.directories_to_skip@)
    }

    /// Check if a file should be excluded based on its extension
    pub fn should_exclude_by_extension(&self, path: &str) -> (r: bool)
        ensures
            r == excluded_by_extension(self.extensions(), path@),
    {
        let p = chars_of(path);
        match extension(&p) {
            Some(ext) => {
                let mut full_ext: Vec<char> = Vec::new();
                full_ext.push('.');
                let mut j: usize = 0;
                while j < ext.len()
                    invariant
                        0 <= j <= ext@.len(),
                        full_ext@ == seq!['.'] + ext@.take(j as int),
                    decreases ext.len() - j,
                {
                    full_ext.push(ext[j]);
                    proof {
                        assert(ext@.take(j + 1) =~= ext@.take(j as int).push(ext@[j as int]));
                        assert(seq!['.'] + ext@.take(j + 1) =~= (seq!['.'] + ext@.take(
                            j as int,
                        )).push(ext@[j as int]));
                    }
                    j = j + 1;
                }
                proof {
                    assert(ext@.take(ext@.len() as int) =~= ext@);
                }
                if list_contains(&self.extensions_to_skip, &full_ext) {
                    return true;
                }
                let name = match file_name(&p) {
                    Some(n) => n,
                    None => {
                        return false;
                    },
                };
                let ghost ext_view = ext@;
                let mut k: usize = 0;
                while k < self.extensions_to_skip.len()
                    invariant
                        0 <= k <= self.extensions_to_skip@.len(),
                        file_name_spec(path@) == Some(name@),
                        extension_spec(path@) == Some(ext_view),
                        forall|m: int|
                            0 <= m < k ==> !ends_with_seq(name@, self.extensions()[m]),
                    decreases self.extensions_to_skip.len() - k,
                {
                    let pat = chars_of(self.extensions_to_skip[k].as_str());
                    if ends_with(&name, &pat) {
                        proof {
                            assert(self.extensions()[k as int] == pat@);
                            assert(file_name_spec(path@)->0 == name@);
                            let kk = k as int;
                            assert(0 <= kk < self.extensions().len() && ends_with_seq(file_name_spec(path@)->0, self.extensions()[kk]));
                            assert(extension_spec(path@) is Some);
                        }
                        return true;
                    }
                    k = k + 1;
                }
                false
            },
            None => false,
        }
    }

    /// Check if a file should be excluded based on its filename
    pub fn should_exclude_by_filename(&self, path: &str) -> (r: bool)
        ensures
            r == excluded_by_filename(self.files(), path@),
    {
        let p = chars_of(path);
        match file_name(&p) {
            Some(name) => list_contains(&self.files_to_skip, &name),
            None => false,
        }
    }

    /// Check if a path should be excluded based on its parent directories
    pub fn should_exclude_by_directory(&self, path: &str) -> (r: bool)
        ensures
            r == excluded_by_directory(self.directories(), path@),
    {
        let p = chars_of(path);
        let pieces = split_chars(&p, '/');
        let ghost views = vec_views(pieces@);
        let mut i: usize = 0;
        while i < pieces.len()
            invariant
                0 <= i <= pieces@.len(),
                views == vec_views(pieces@),
                views == split_seq(path@, '/'),
                forall|j: int|
                    0 <= j < i ==> !(is_normal_component(views[j]) && self.directories().contains(
                        views[j],
                    )),
            decreases pieces.len() - i,
        {
            if is_normal(&pieces[i]) && list_contains(&self.directories_to_skip, &pieces[i]) {
                proof {
                    assert(views[i as int] == pieces@[i as int]@);
                }
                return true;
            }
            proof {
                assert(views[i as int] == pieces@[i as int]@);
            }
            i = i + 1;
        }
        false
    }

    /// Check if a path should be excluded for any reason
    pub fn should_exclude(&self, path: &str) -> (r: bool)
        ensures
            r == (excluded_by_extension(self.extensions(), path@) || excluded_by_filename(
                self.files(),
                path@,
            ) || excluded_by_directory(self.directories(), path@)),
    {
        self.should_exclude_by_extension(path) || self.should_exclude_by_filename(path)
            || self.should_exclude_by_directory(path)
    }
}

/// Everything inside an excluded directory is excluded: when some component
/// of `dir` is a skipped directory, every path `dir/rest` is excluded too.
pub proof fn law_excluded_directory_covers_contents(
    dirs: Seq<Seq<char>>,
    dir: Seq<char>,
    rest: Seq<char>,
)
    requires
        excluded_by_directory(dirs, dir),
    ensures
        excluded_by_directory(dirs, dir + seq!['/'] + rest),
{
    lemma_split_join(dir, rest, '/');
    let i = choose|i: int|
        0 <= i < split_seq(dir, '/').len() && is_normal_component(split_seq(dir, '/')[i])
            && dirs.contains(#[trigger] split_seq(dir, '/')[i]);
    assert(split_seq(dir + seq!['/'] + rest, '/')[i] == split_seq(dir, '/')[i]);
}

impl Default for ExclusionConfig {
    fn default() -> (r: Self)
        ensures
            r.extensions() == default_extensions_to_skip(),
            r.files() == default_files_to_skip(),
            r.directories() == default_directories_to_skip(),
    {
        let mut extensions_to_skip: Vec<String> = Vec::new();
        extensions_to_skip.push(".png".to_string());
        extensions_to_skip.push(".jpg".to_string());
        extensions_to_skip.push(".jpeg".to_string());
        extensions_to_skip.push(".gif".to_string());
        extensions_to_skip.push(".bmp".to_string());
        extensions_to_skip.push(".tif".to_string());
        extensions_to_skip.push(".tiff".to_string());
        extensions_to_skip.push(".ico".to_string());
        extensions_to_skip.push(".svg".to_string());
        extensions_to_skip.push(".webp".to_string());
        extensions_to_skip.push(".heic".to_string());
        extensions_to_skip.push(".mp3".to_string());
        extensions_to_skip.push(".wav".to_string());
        extensions_to_skip.push(".wma".to_string());
        extensions_to_skip.push(".ogg".to_string());
        extensions_to_skip.push(".flac".to_string());
        extensions_to_skip.push(".m4a".to_string());
        extensions_to_skip.push(".aac".to_string());
        extensions_to_skip.push(".midi".to_string());
        extensions_to_skip.push(".mid".to_string());
        extensions_to_skip.push(".mp4".to_string());
        extensions_to_skip.push(".avi".to_string());
        extensions_to_skip.push(".mkv".to_string());
        extensions_to_skip.push(".mov".to_string());
        extensions_to_skip.push(".wmv".to_string());
        extensions_to_skip.push(".m4v".to_string());
        extensions_to_skip.push(".3gp".to_string());
        extensions_to_skip.push(".3g2".to_string());
        extensions_to_skip.push(".rm".to_string());
        extensions_to_skip.push(".swf".to_string());
        extensions_to_skip.push(".flv".to_string());
        extensions_to_skip.push(".webm".to_string());
        extensions_to_skip.push(".mpg".to_string());
        extensions_to_skip.push(".mpeg".to_string());
        extensions_to_skip.push(".otf".to_string());
        extensions_to_skip.push(".ttf".to_string());
        extensions_to_skip.push(".pdf".to_string());
        extensions_to_skip.push(".doc".to_string());
        extensions_to_skip.push(".docx".to_string());
        extensions_to_skip.push(".xls".to_string());
        extensions_to_skip.push(".xlsx".to_string());
        extensions_to_skip.push(".ppt".to_string());
        extensions_to_skip.push(".pptx".to_string());
        extensions_to_skip.push(".rtf".to_string());
        extensions_to_skip.push(".odt".to_string());
        extensions_to_skip.push(".ods".to_string());
        extensions_to_skip.push(".odp".to_string());
        extensions_to_skip.push(".iso".to_string());
        extensions_to_skip.push(".bin".to_string());
        extensions_to_skip.push(".tar".to_string());
        extensions_to_skip.push(".zip".to_string());
        extensions_to_skip.push(".7z".to_string());
        extensions_to_skip.push(".gz".to_string());
        extensions_to_skip.push(".rar".to_string());
        extensions_to_skip.push(".bz2".to_string());
        extensions_to_skip.push(".xz".to_string());
        extensions_to_skip.push(".min.js".to_string());
        extensions_to_skip.push(".min.js.map".to_string());
        extensions_to_skip.push(".js.map".to_string());
        extensions_to_skip.push(".min.css".to_string());
        extensions_to_skip.push(".min.css.map".to_string());
        extensions_to_skip.push(".tfstate".to_string());
        extensions_to_skip.push(".tfstate.backup".to_string());
        extensions_to_skip.push(".parquet".to_string());
        extensions_to_skip.push(".pyc".to_string());
        extensions_to_skip.push(".pub".to_string());
        extensions_to_skip.push(".pem".to_string());
        extensions_to_skip.push(".lock".to_string());
        extensions_to_skip.push(".sqlite".to_string());
        extensions_to_skip.push(".db".to_string());
        extensions_to_skip.push(".env".to_string());
        extensions_to_skip.push(".log".to_string());
        extensions_to_skip.push(".class".to_string());
        extensions_to_skip.push(".dll".to_string());
        extensions_to_skip.push(".exe".to_string());
        extensions_to_skip.push(".psd".to_string());
        extensions_to_skip.push(".ai".to_string());
        extensions_to_skip.push(".sketch".to_string());
        extensions_to_skip.push(".stl".to_string());
        extensions_to_skip.push(".obj".to_string());
        extensions_to_skip.push(".dwg".to_string());
        extensions_to_skip.push(".bak".to_string());
        extensions_to_skip.push(".old".to_string());
        extensions_to_skip.push(".tmp".to_string());
        let mut files_to_skip: Vec<String> = Vec::new();
        files_to_skip.push("pnpm-lock.yaml".to_string());
        files_to_skip.push("package-lock.json".to_string());
        files_to_skip.push(".DS_Store".to_string());
        files_to_skip.push(".gitignore".to_string());
        files_to_skip.push("bun.lockb".to_string());
        files_to_skip.push("npm-debug.log".to_string());
        files_to_skip.push("yarn-error.log".to_string());
        files_to_skip.push("Thumbs.db".to_string());
        files_to_skip.push("Gemfile.lock".to_string());
        let mut directories_to_skip: Vec<String> = Vec::new();
        directories_to_skip.push(".git".to_string());
        directories_to_skip.push("node_modules".to_string());
        directories_to_skip.push(".vscode".to_string());
        directories_to_skip.push(".idea".to_string());
        directories_to_skip.push("assets".to_string());
        directories_to_skip.push("dist".to_string());
        directories_to_skip.push("build".to_string());
        directories_to_skip.push("coverage".to_string());
        directories_to_skip.push("tmp".to_string());
        directories_to_skip.push("temp".to_string());
        directories_to_skip.push(".next".to_string());
        directories_to_skip.push(".nuxt".to_string());
        directories_to_skip.push(".cache".to_string());
        let r = ExclusionConfig { extensions_to_skip, files_to_skip, directories_to_skip };
        proof {
            assert(r.extensions() =~= default_extensions_to_skip());
            assert(r.files() =~= default_files_to_skip());
            assert(r.directories() =~= default_directories_to_skip());
        }
        r
    }
}

} // verus!

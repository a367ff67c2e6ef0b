use engine_builder::models::file::CodebaseFile;
use engine_builder::models::exclusion::ExclusionConfig;
use engine_builder::models::problem::SWEBenchProblem;

#[test]
fn test_problem_new() {
    let id = "test_problem_1".to_string();
    let statement = "This is a test problem".to_string();

    let problem = SWEBenchProblem::new(id.clone(), statement.clone());

    assert_eq!(problem.id, id);
    assert_eq!(problem.problem_statement, statement);
    assert!(problem.metadata.is_empty());
}

#[test]
fn test_problem_with_codebase_path() {
    let problem = SWEBenchProblem::new("test_id".to_string(), "test statement".to_string())
        .with_codebase_path("/test/path");

    assert!(problem.get_codebase_path().is_some());
    assert_eq!(problem.get_codebase_path().unwrap(), "/test/path");
}

#[test]
fn test_problem_with_exclusion_config() {
    let config = ExclusionConfig::default();
    let problem = SWEBenchProblem::new("test_id".to_string(), "test statement".to_string())
        .with_exclusion_config(config);

    assert!(problem.exclusion_config.files_to_skip.len() > 0);
}

fn problem_with(paths: &[&str]) -> SWEBenchProblem {
    let mut p = SWEBenchProblem::new("t".to_string(), "s".to_string()).with_codebase_path("/repo");
    p.set_scanned_paths(paths.iter().map(|s| s.to_string()).collect());
    p
}

#[test]
fn tree_lists_directories_first_then_files_by_name() {
    let p = problem_with(&["src/main.rs", "README.md", "src/lib.rs", "Cargo.toml", "src/util/mod.rs"]);
    let tree = p.generate_tree(&Vec::new());
    let expected = "└── ./\n    ├── src/\n    │   ├── util/\n    │   │   └── mod.rs\n    │   ├── lib.rs\n    │   └── main.rs\n    ├── Cargo.toml\n    └── README.md\n";
    assert_eq!(tree, expected);
}

#[test]
fn tree_includes_empty_directories_found_on_disk() {
    let p = problem_with(&["a.txt"]);
    let tree = p.generate_tree(&vec!["empty".to_string(), "".to_string(), "empty/inner".to_string()]);
    assert_eq!(tree, "└── ./\n    ├── empty/\n    │   └── inner/\n    └── a.txt\n");
}

#[test]
fn tree_is_empty_without_a_codebase() {
    let p = SWEBenchProblem::new("t".to_string(), "s".to_string());
    assert_eq!(p.generate_tree(&Vec::new()), "");
}

#[test]
fn all_file_paths_returns_the_scan() {
    let p = problem_with(&["x/y.rs", "z.rs"]);
    assert_eq!(p.all_file_paths(), vec!["x/y.rs".to_string(), "z.rs".to_string()]);
}

#[test]
fn exclusion_rules_for_entries() {
    let p = problem_with(&[]);
    assert!(p.should_exclude("/repo/.hidden", false));
    assert!(p.should_exclude("/repo/node_modules/x.js", false));
    assert!(p.should_exclude("/repo/img/logo.png", false));
    assert!(!p.should_exclude("/repo/src/main.rs", false));
}

#[test]
fn files_read_once_are_kept() {
    let mut p = problem_with(&["a.rs"]);
    assert!(p.cached_file("a.rs").is_none());
    p.cache_file("a.rs", "fn main() {}".to_string());
    let f = p.cached_file("a.rs").unwrap();
    assert_eq!(f.path, "a.rs");
    assert_eq!(f.content, "fn main() {}");
    p.cache_file("a.rs", "changed".to_string());
    assert_eq!(p.cached_file("a.rs").unwrap().content, "changed");
}

#[test]
fn codebase_file_extension_and_python() {
    let f = CodebaseFile::new("src/app/main.py".to_string(), String::new());
    assert_eq!(f.extension(), Some("py"));
    assert!(f.is_python());
    let g = CodebaseFile::new("lib/archive.tar.gz".to_string(), String::new());
    assert_eq!(g.extension(), Some("gz"));
    assert!(!g.is_python());
    let h = CodebaseFile::new("Makefile".to_string(), String::new());
    assert_eq!(h.extension(), None);
    let hidden = CodebaseFile::new("conf/.bashrc".to_string(), String::new());
    assert_eq!(hidden.extension(), None);
    let dotted_dir = CodebaseFile::new("pkg.v2/README".to_string(), String::new());
    assert_eq!(dotted_dir.extension(), None);
    assert!(!h.is_python());
}

#[test]
fn multi_part_extensions_are_excluded() {
    let c = ExclusionConfig::default();
    assert!(c.should_exclude_by_extension("web/app.js.map"));
    assert!(c.should_exclude_by_extension("infra/prod.tfstate.backup"));
    assert!(c.should_exclude_by_extension("static/app.min.js"));
    assert!(c.should_exclude_by_extension("img/logo.png"));
    assert!(!c.should_exclude_by_extension("src/app.js"));
    assert!(!c.should_exclude_by_extension("Makefile"));
}

#[test]
fn rules_look_below_the_codebase_root() {
    let p = SWEBenchProblem::new("p".to_string(), "s".to_string()).with_codebase_path("/tmp/build/proj");
    assert!(!p.should_exclude("/tmp/build/proj/src/main.rs", false));
    assert!(!p.should_exclude("/tmp/build/proj", true));
    assert!(p.should_exclude("/tmp/build/proj/build/out.o", false));
    assert!(p.should_exclude("/tmp/build/proj/.git", true));
    assert!(p.should_exclude("/tmp/build/proj/.git/config", false));
    let q = SWEBenchProblem::new("p".to_string(), "s".to_string()).with_codebase_path("/tmp/build/proj/");
    assert!(!q.should_exclude("/tmp/build/proj/src/main.rs", false));
}

#[test]
fn gitignore_lines_exclude_entries_and_their_contents() {
    let mut p = SWEBenchProblem::new("p".to_string(), "s".to_string()).with_codebase_path("/work/repo");
    p.gitignore_lines = Some(vec!["target/".to_string(), "node_modules/".to_string(), "*.log".to_string()]);
    assert!(p.should_exclude("/work/repo/target", true));
    assert!(p.should_exclude("/work/repo/target/debug/app", false));
    assert!(p.should_exclude("/work/repo/application.log", false));
    assert!(!p.should_exclude("/work/repo/src/main.rs", false));
    assert!(!p.should_exclude("/work/repo/README.md", false));
}

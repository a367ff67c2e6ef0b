use std::collections::HashSet;

use engine_builder::models::exclusion::ExclusionConfig;

struct MockDirEntry {
    path: String,
    is_dir: bool,
}

impl MockDirEntry {
    fn new(path: String, is_dir: bool) -> Self {
        MockDirEntry { path, is_dir }
    }
}

#[test]
fn test_git_directory_excluded_in_file_scan() {
    let root_path = "/mock/codebase";
    let join = |p: &str| format!("{}/{}", root_path, p);

    let mock_entries = vec![
        MockDirEntry::new(join("src"), true),
        MockDirEntry::new(join("src/main.rs"), false),
        MockDirEntry::new(join("docs"), true),
        MockDirEntry::new(join("docs/README.md"), false),
        MockDirEntry::new(join(".git"), true),
        MockDirEntry::new(join(".git/config"), false),
        MockDirEntry::new(join(".git/HEAD"), false),
        MockDirEntry::new(join(".git/objects"), true),
        MockDirEntry::new(join(".git/objects/somehash"), false),
    ];

    let exclusion_config = ExclusionConfig::default();

    let filtered_files: Vec<String> = mock_entries
        .iter()
        .filter(|entry| !entry.is_dir)
        .filter(|entry| !exclusion_config.should_exclude(&entry.path))
        .filter_map(|entry| entry.path.strip_prefix(&format!("{}/", root_path)).map(|s| s.to_string()))
        .collect();

    let file_paths_set: HashSet<String> = filtered_files.into_iter().collect();

    assert!(file_paths_set.contains("src/main.rs"), "src/main.rs should be included");
    assert!(file_paths_set.contains("docs/README.md"), "docs/README.md should be included");

    assert!(!file_paths_set.contains(".git/config"), ".git/config should be excluded");
    assert!(!file_paths_set.contains(".git/HEAD"), ".git/HEAD should be excluded");
    assert!(!file_paths_set.contains(".git/objects/somehash"), ".git/objects/somehash should be excluded");

    for path in &file_paths_set {
        assert!(!path.starts_with(".git/"), "No file should start with .git/");
    }
}

#[test]
fn excluded_directory_covers_nested_files() {
    let config = ExclusionConfig::default();
    assert!(config.should_exclude_by_directory("target/debug/build/x.o"));
    assert!(config.should_exclude_by_directory("a/b/node_modules/c/d.js"));
    assert!(!config.should_exclude_by_directory("src/targets/x.rs"));
}

use emergency_backup::config::BackupConfig;
use emergency_backup::rules::{
    dir_rule_matches, extension_of, file_rule_matches, has_ext, path_ends_with, path_eq,
    rules_from_config, split_components, BackupRule,
};
use emergency_backup::walker::{walk, EntryKind, FileMeta, FsEntry, SourceTree};

fn path(parts: &[&str]) -> Vec<String> {
    parts.iter().map(|s| s.to_string()).collect()
}

fn file(parts: &[&str]) -> FsEntry {
    FsEntry { rel: path(parts), kind: EntryKind::File(FileMeta { size: 1, mtime: 1 }) }
}

fn dir(parts: &[&str]) -> FsEntry {
    FsEntry { rel: path(parts), kind: EntryKind::Dir }
}

#[test]
fn extension_of_takes_the_part_after_the_last_dot() {
    assert_eq!(extension_of("foo.txt"), Some("txt".to_string()));
    assert_eq!(extension_of("a.b.c"), Some("c".to_string()));
    assert_eq!(extension_of("foo."), Some(String::new()));
}

#[test]
fn extension_of_ignores_a_leading_dot() {
    assert_eq!(extension_of(".gitignore"), None);
    assert_eq!(extension_of("foo"), None);
    assert_eq!(extension_of(""), None);
}

#[test]
fn has_ext_compares_the_extension_exactly() {
    assert!(has_ext("notes.log", "log"));
    assert!(!has_ext("notes.log", "txt"));
    assert!(!has_ext("log", "log"));
}

#[test]
fn split_components_drops_separators() {
    assert_eq!(split_components("/home/user"), path(&["home", "user"]));
    assert_eq!(split_components("a/b"), path(&["a", "b"]));
    assert_eq!(split_components("a//b/"), path(&["a", "b"]));
    assert_eq!(split_components(""), path(&[]));
}

#[test]
fn rules_from_config_classifies_each_entry() {
    let mut c = BackupConfig::new();
    c.excluded_extensions = path(&["log"]);
    c.excluded_directories = path(&["/tmp/x", "a/b", "node_modules"]);
    let rules = rules_from_config(&c);
    assert_eq!(
        rules,
        vec![
            BackupRule::ExcludeExtension { ext: "log".to_string() },
            BackupRule::ExcludeDirAbsolute { path: path(&["tmp", "x"]) },
            BackupRule::ExcludeDirSuffix { suffix: path(&["a", "b"]) },
            BackupRule::ExcludeDirName { name: "node_modules".to_string() },
        ]
    );
}

#[test]
fn directory_rules_never_match_files_and_vice_versa() {
    let ext_rule = BackupRule::ExcludeExtension { ext: "log".to_string() };
    let name_rule = BackupRule::ExcludeDirName { name: "b.log".to_string() };
    assert!(file_rule_matches(&ext_rule, "b.log"));
    assert!(!dir_rule_matches(&ext_rule, &path(&["x", "b.log"])));
    assert!(dir_rule_matches(&name_rule, &path(&["x", "b.log"])));
    assert!(!file_rule_matches(&name_rule, "b.log"));
}

#[test]
fn dir_rule_forms_match_as_specified() {
    let abs = BackupRule::ExcludeDirAbsolute { path: path(&["tmp", "x"]) };
    assert!(dir_rule_matches(&abs, &path(&["tmp", "x"])));
    assert!(!dir_rule_matches(&abs, &path(&["home", "tmp", "x"])));

    let suffix = BackupRule::ExcludeDirSuffix { suffix: path(&["a", "b"]) };
    assert!(dir_rule_matches(&suffix, &path(&["x", "a", "b"])));
    assert!(!dir_rule_matches(&suffix, &path(&["a", "x", "b"])));

    let name = BackupRule::ExcludeDirName { name: "node_modules".to_string() };
    assert!(dir_rule_matches(&name, &path(&["p", "node_modules"])));
    assert!(!dir_rule_matches(&name, &path(&["node_modules", "p"])));
}

#[test]
fn path_helpers_compare_componentwise() {
    assert!(path_eq(&path(&["a", "b"]), &path(&["a", "b"])));
    assert!(!path_eq(&path(&["a", "b"]), &path(&["a", "c"])));
    assert!(!path_eq(&path(&["a"]), &path(&["a", "b"])));
    assert!(path_ends_with(&path(&["x", "a", "b"]), &path(&["a", "b"])));
    assert!(!path_ends_with(&path(&["b"]), &path(&["a", "b"])));
}

#[test]
fn walk_prunes_excluded_directories_whole() {
    let tree = SourceTree {
        root: path(&["src"]),
        entries: vec![
            file(&["a.txt"]),
            dir(&["skipdir"]),
            file(&["skipdir", "c.txt"]),
            dir(&["sub"]),
            file(&["sub", "d.txt"]),
        ],
    };
    let rules = vec![BackupRule::ExcludeDirName { name: "skipdir".to_string() }];
    let result = walk(&tree, &rules, true);
    assert_eq!(result, vec![file(&["a.txt"]), file(&["sub", "d.txt"])]);
}

#[test]
fn walk_keeps_truly_empty_dirs_only_when_dropping_is_off() {
    let tree = SourceTree {
        root: path(&["src"]),
        entries: vec![dir(&["empty"]), dir(&["full"]), file(&["full", "f.txt"])],
    };
    let rules: Vec<BackupRule> = vec![];
    assert_eq!(walk(&tree, &rules, false), vec![dir(&["empty"]), file(&["full", "f.txt"])]);
    assert_eq!(walk(&tree, &rules, true), vec![file(&["full", "f.txt"])]);
}

#[test]
fn walk_is_order_stable_and_repeatable() {
    let tree = SourceTree {
        root: path(&["src"]),
        entries: vec![file(&["b.txt"]), file(&["a.txt"]), file(&["c.log"])],
    };
    let rules = vec![BackupRule::ExcludeExtension { ext: "log".to_string() }];
    let first = walk(&tree, &rules, true);
    let second = walk(&tree, &rules, true);
    assert_eq!(first, vec![file(&["b.txt"]), file(&["a.txt"])]);
    assert_eq!(first, second);
}

#[test]
fn walk_applies_absolute_rule_against_the_rooted_path() {
    let tree = SourceTree {
        root: path(&["home", "user", "data"]),
        entries: vec![dir(&["cache"]), file(&["cache", "x.bin"]), file(&["keep.bin"])],
    };
    let rules = vec![
        BackupRule::ExcludeDirAbsolute { path: path(&["home", "user", "data", "cache"]) },
    ];
    assert_eq!(walk(&tree, &rules, true), vec![file(&["keep.bin"])]);
}

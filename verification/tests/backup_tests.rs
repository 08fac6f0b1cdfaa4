use emergency_backup::backup::{
    collect_io_errors, lookup_dst, BackupPlan, Backupper, BackupperError, DstFile, DstState,
    PlannedCopy, SourceScan,
};
use emergency_backup::config::BackupConfig;
use emergency_backup::stats::BackupStats;
use emergency_backup::walker::{EntryKind, FileMeta, FsEntry, SourceTree};

fn path(parts: &[&str]) -> Vec<String> {
    parts.iter().map(|s| s.to_string()).collect()
}

fn file(parts: &[&str], size: u64, mtime: u64) -> FsEntry {
    FsEntry { rel: path(parts), kind: EntryKind::File(FileMeta { size, mtime }) }
}

fn dir(parts: &[&str]) -> FsEntry {
    FsEntry { rel: path(parts), kind: EntryKind::Dir }
}

fn config(source: &str, destination: &str, exts: &[&str], dirs: &[&str]) -> BackupConfig {
    let mut c = BackupConfig::new();
    c.source = source.to_string();
    c.destination = destination.to_string();
    c.excluded_extensions = exts.iter().map(|s| s.to_string()).collect();
    c.excluded_directories = dirs.iter().map(|s| s.to_string()).collect();
    c
}

fn sample_tree() -> SourceTree {
    SourceTree {
        root: path(&["src"]),
        entries: vec![
            file(&["a.txt"], 10, 5),
            dir(&["sub"]),
            file(&["sub", "b.log"], 5, 3),
        ],
    }
}

#[test]
fn pass_copies_filtered_file_into_empty_destination() {
    // source tree {a.txt (10 bytes), sub/b.log (5 bytes)}, extension
    // rule excludes "log", destination empty
    let mut b = Backupper::new(config("/src", "/dst", &["log"], &[]));
    let scan = SourceScan::Tree(sample_tree());
    let dst = DstState { files: vec![] };
    let plan = b.perform_backup(&scan, &dst).unwrap();
    let expected = BackupPlan {
        copies: vec![PlannedCopy { rel: path(&["a.txt"]), meta: FileMeta { size: 10, mtime: 5 } }],
    };
    assert_eq!(plan, expected);
    assert_eq!(b.stats().added_size, 10);
    assert_eq!(b.stats().removed_size, 0);
    assert!(!b.stats().overflow);
}

#[test]
fn walk_result_holds_the_unexcluded_file_only() {
    let b = Backupper::new(config("/src", "/dst", &["log"], &[]));
    let files = b.get_target_files(&sample_tree());
    assert_eq!(files, vec![file(&["a.txt"], 10, 5)]);
}

#[test]
fn copy_if_diffs_copies_when_sizes_differ() {
    // destination has a.txt at 10 bytes, older than the 12-byte source
    let mut b = Backupper::new(config("/src", "/dst", &[], &[]));
    let copied = b.copy_file_if_diffs(
        FileMeta { size: 12, mtime: 100 },
        Some(FileMeta { size: 10, mtime: 50 }),
    );
    assert!(copied);
    assert_eq!(b.stats().added_size, 12);
    assert_eq!(b.stats().removed_size, 10);
}

#[test]
fn copy_if_diffs_skips_up_to_date_file() {
    let mut b = Backupper::new(config("/src", "/dst", &[], &[]));
    let copied = b.copy_file_if_diffs(
        FileMeta { size: 10, mtime: 50 },
        Some(FileMeta { size: 10, mtime: 100 }),
    );
    assert!(!copied);
    assert_eq!(b.stats(), BackupStats { added_size: 0, removed_size: 0, overflow: false });
}

#[test]
fn copy_if_diffs_copies_when_source_strictly_newer() {
    let mut b = Backupper::new(config("/src", "/dst", &[], &[]));
    assert!(b.copy_file_if_diffs(
        FileMeta { size: 10, mtime: 100 },
        Some(FileMeta { size: 10, mtime: 50 }),
    ));
    assert!(b.copy_file_if_diffs(FileMeta { size: 3, mtime: 1 }, None));
}

#[test]
fn second_pass_with_updated_destination_copies_nothing() {
    let mut b = Backupper::new(config("/src", "/dst", &["log"], &[]));
    let scan = SourceScan::Tree(sample_tree());
    let dst = DstState { files: vec![] };
    let plan = b.perform_backup(&scan, &dst).unwrap();
    assert_eq!(plan.copies.len(), 1);
    // destination now holds the copy, with a later modification time
    let dst2 = DstState {
        files: vec![DstFile { rel: path(&["a.txt"]), meta: FileMeta { size: 10, mtime: 999 } }],
    };
    let plan2 = b.perform_backup(&scan, &dst2).unwrap();
    assert_eq!(plan2.copies, vec![]);
    assert_eq!(b.stats().added_size, 0);
    assert_eq!(b.stats().removed_size, 0);
}

#[test]
fn unset_paths_are_rejected_before_any_file() {
    let mut b = Backupper::new(config("", "/dst", &[], &[]));
    let dst = DstState { files: vec![] };
    match b.perform_backup(&SourceScan::Tree(sample_tree()), &dst) {
        Err(BackupperError::BkpError(m)) => {
            assert_eq!(m, "Source or destination path is not set");
        }
        other => panic!("unexpected outcome: {:?}", other),
    }
}

#[test]
fn missing_source_directory_is_rejected() {
    let mut b = Backupper::new(config("/src", "/dst", &[], &[]));
    let dst = DstState { files: vec![] };
    match b.perform_backup(&SourceScan::NotADir, &dst) {
        Err(BackupperError::BkpError(m)) => {
            assert_eq!(m, "Source is not a valid directory");
        }
        other => panic!("unexpected outcome: {:?}", other),
    }
}

#[test]
fn unreadable_tree_aborts_with_walker_error() {
    let mut b = Backupper::new(config("/src", "/dst", &[], &[]));
    let dst = DstState { files: vec![] };
    match b.perform_backup(&SourceScan::Unreadable("permission denied".to_string()), &dst) {
        Err(BackupperError::WalkerError(m)) => {
            assert_eq!(m, "permission denied");
        }
        other => panic!("unexpected outcome: {:?}", other),
    }
}

#[test]
fn io_failures_aggregate_after_all_files() {
    assert!(collect_io_errors(vec![]).is_ok());
    match collect_io_errors(vec!["one".to_string(), "two".to_string()]) {
        Err(BackupperError::IoError(v)) => {
            assert_eq!(v, vec!["one".to_string(), "two".to_string()]);
        }
        other => panic!("unexpected outcome: {:?}", other),
    }
}

#[test]
fn destination_path_re_roots_the_relative_path() {
    let b = Backupper::new(config("/src", "/dst/backups", &[], &[]));
    let dst = b.create_dst_path(&path(&["sub", "a.txt"]));
    assert_eq!(dst, path(&["dst", "backups", "sub", "a.txt"]));
}

#[test]
fn update_rules_follows_a_changed_configuration() {
    let mut b = Backupper::new(config("/src", "/dst", &[], &[]));
    let everything = b.get_target_files(&sample_tree());
    assert_eq!(everything.len(), 2); // both files; the directory is dropped
    b.backup_config.excluded_extensions = vec!["txt".to_string()];
    b.update_rules();
    let filtered = b.get_target_files(&sample_tree());
    assert_eq!(filtered, vec![file(&["sub", "b.log"], 5, 3)]);
}

#[test]
fn destination_lookup_finds_first_match() {
    let dst = DstState {
        files: vec![
            DstFile { rel: path(&["a.txt"]), meta: FileMeta { size: 1, mtime: 1 } },
            DstFile { rel: path(&["b.txt"]), meta: FileMeta { size: 2, mtime: 2 } },
        ],
    };
    assert_eq!(lookup_dst(&dst, &path(&["b.txt"])), Some(FileMeta { size: 2, mtime: 2 }));
    assert_eq!(lookup_dst(&dst, &path(&["c.txt"])), None);
}

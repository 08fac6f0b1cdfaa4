//! The diff-copy engine and the backup pass.
//!
//! A pass works on plain data: the source snapshot the shell scanned,
//! and the destination state — the metadata of the files already
//! present under the destination root.  The pass validates the
//! configuration, zeroes the byte counters, walks the snapshot under
//! the configured rules, and decides copy-or-skip for every surviving
//! file: a file is copied exactly when the destination lacks it, the
//! sizes differ, or the source is strictly newer.  The result is a
//! plan listing the files to copy, with the counters accounting the
//! bytes the plan adds and removes; the shell executes the plan and
//! collects per-file failures, which aggregate after every file was
//! attempted.

use vstd::prelude::*;

use crate::config::BackupConfig;
use crate::rules::BackupRule;
use crate::rules::rules_from_config;
use crate::rules::rules_represent;
use crate::rules::split_path;
use crate::rules::split_components;
use crate::stats::BackupStats;
use crate::stats::guarded_add;
use crate::text::clone_strings;
use crate::walker::EntryKind;
use crate::walker::FileMeta;
use crate::walker::FsEntry;
use crate::walker::FsEntryV;
use crate::walker::SourceTree;
use crate::walker::spec_walk;
use crate::walker::walk;

verus! {

/// A destination file: its path relative to the destination root, and
/// its metadata.
#[derive(Debug, Clone, PartialEq, Eq)]
pub struct DstFile {
    pub rel: Vec<String>,
    pub meta: FileMeta,
}

/// Mathematical form of a destination file.
pub ghost struct DstFileV {
    pub rel: Seq<Seq<char>>,
    pub meta: FileMeta,
}

impl View for DstFile {
    type V = DstFileV;

    open spec fn view(&self) -> DstFileV {
        DstFileV { rel: self.rel.deep_view(), meta: self.meta }
    }
}

/// The files already present under the destination root.
#[derive(Debug, Clone, PartialEq, Eq)]
pub struct DstState {
    pub files: Vec<DstFile>,
}

impl View for DstState {
    type V = Seq<DstFileV>;

    open spec fn view(&self) -> Seq<DstFileV> {
        self.files@.map_values(|f: DstFile| f@)
    }
}

/// What the shell found when it scanned the source path.
#[derive(Debug)]
pub enum SourceScan {
    /// The source path does not name a readable directory.
    NotADir,
    /// The source directory could not be traversed; the payload is
    /// the diagnostic text.
    Unreadable(String),
    /// The snapshot of the source directory.
    Tree(SourceTree),
}

/// The errors of a backup pass.
#[derive(Debug)]
pub enum BackupperError {
    /// The configuration rejects the pass before any file is touched.
    BkpError(String),
    /// The source tree could not be walked; the pass is aborted.
    WalkerError(String),
    /// One or more individual file copies failed; every file was
    /// still attempted.
    IoError(Vec<String>),
}

/// One planned copy: the file's path relative to the source root, and
/// the source metadata it had when the plan was made.
#[derive(Debug, Clone, PartialEq, Eq)]
pub struct PlannedCopy {
    pub rel: Vec<String>,
    pub meta: FileMeta,
}

/// Mathematical form of a planned copy.
pub ghost struct PlannedCopyV {
    pub rel: Seq<Seq<char>>,
    pub meta: FileMeta,
}

impl View for PlannedCopy {
    type V = PlannedCopyV;

    open spec fn view(&self) -> PlannedCopyV {
        PlannedCopyV { rel: self.rel.deep_view(), meta: self.meta }
    }
}

/// The copies one pass performs, in walk order.
#[derive(Debug, Clone, PartialEq, Eq)]
pub struct BackupPlan {
    pub copies: Vec<PlannedCopy>,
}

/// All-zero counters.
pub open spec fn stats_zero() -> BackupStats {
    BackupStats { added_size: 0, removed_size: 0, overflow: false }
}

/// The metadata of the destination file at `rel`, if present: the
/// first matching entry.
pub open spec fn dst_lookup(dst: Seq<DstFileV>, rel: Seq<Seq<char>>) -> Option<FileMeta>
    decreases dst.len(),
{
    if dst.len() == 0 {
        None
    } else if dst[0].rel == rel {
        Some(dst[0].meta)
    } else {
        dst_lookup(dst.skip(1), rel)
    }
}

/// Whether a file must be copied: destination absent, sizes differ,
/// or the source strictly newer.
pub open spec fn spec_needs_copy(src: FileMeta, dst: Option<FileMeta>) -> bool {
    match dst {
        None => true,
        Some(d) => d.size != src.size || src.mtime > d.mtime,
    }
}

/// The counters after one copy: the overwritten destination size, if
/// any, is recorded as removed, then the source size as added, both
/// with the overflow guard.
pub open spec fn stats_after_copy(s: BackupStats, src: FileMeta, dst: Option<FileMeta>) -> BackupStats {
    let s1 = match dst {
        Some(d) => BackupStats {
            removed_size: guarded_add(s.removed_size, d.size, s.overflow).0,
            overflow: guarded_add(s.removed_size, d.size, s.overflow).1,
            ..s
        },
        None => s,
    };
    BackupStats {
        added_size: guarded_add(s1.added_size, src.size, s1.overflow).0,
        overflow: guarded_add(s1.added_size, src.size, s1.overflow).1,
        ..s1
    }
}

/// One file of the pass: a surviving file entry either joins the plan
/// with its bytes accounted, or is skipped; directories contribute
/// nothing.
pub open spec fn pass_step(
    s: BackupStats,
    plan: Seq<PlannedCopyV>,
    f: FsEntryV,
    dst: Seq<DstFileV>,
) -> (BackupStats, Seq<PlannedCopyV>) {
    match f.kind {
        EntryKind::File(m) => {
            let prev = dst_lookup(dst, f.rel);
            if spec_needs_copy(m, prev) {
                (stats_after_copy(s, m, prev), plan.push(PlannedCopyV { rel: f.rel, meta: m }))
            } else {
                (s, plan)
            }
        },
        EntryKind::Dir => (s, plan),
    }
}

/// The counters and the plan after processing the files in order.
pub open spec fn pass_fold(
    s: BackupStats,
    plan: Seq<PlannedCopyV>,
    files: Seq<FsEntryV>,
    dst: Seq<DstFileV>,
) -> (BackupStats, Seq<PlannedCopyV>)
    decreases files.len(),
{
    if files.len() == 0 {
        (s, plan)
    } else {
        let next = pass_step(s, plan, files[0], dst);
        pass_fold(next.0, next.1, files.skip(1), dst)
    }
}

/// The outcome of one pass over the walked files, starting from zero
/// counters and an empty plan.
pub open spec fn spec_pass(files: Seq<FsEntryV>, dst: Seq<DstFileV>) -> (BackupStats, Seq<
    PlannedCopyV,
>) {
    pass_fold(stats_zero(), Seq::empty(), files, dst)
}

/// Look up the destination file at `rel`.
pub fn lookup_dst(dst: &DstState, rel: &Vec<String>) -> (r: Option<FileMeta>)
    ensures
        r == dst_lookup(dst@, rel.deep_view()),
{
    let ghost relv = rel.deep_view();
    proof {
        assert(dst@.skip(0) =~= dst@);
        assert(dst@.len() == dst.files@.len());
    }
    let mut i: usize = 0;
    while i < dst.files.len()
        invariant
            0 <= i <= dst.files@.len(),
            dst@.len() == dst.files@.len(),
            relv == rel.deep_view(),
            dst_lookup(dst@, relv) == dst_lookup(dst@.skip(i as int), relv),
        decreases dst.files.len() - i,
    {
        proof {
            assert(dst@.skip(i as int)[0] == dst@[i as int]);
            assert(dst@[i as int] == dst.files@[i as int]@);
            assert(dst@.skip(i as int).skip(1) =~= dst@.skip(i as int + 1));
        }
        if crate::rules::path_eq(&dst.files[i].rel, rel) {
            return Some(dst.files[i].meta);
        }
        i = i + 1;
    }
    proof {
        assert(dst@.skip(dst.files@.len() as int) =~= Seq::<DstFileV>::empty());
    }
    None
}

/// Whether a file must be copied.
pub fn copy_needed(src: &FileMeta, dst: &Option<FileMeta>) -> (r: bool)
    ensures
        r == spec_needs_copy(*src, *dst),
{
    match dst {
        None => true,
        Some(d) => d.size != src.size || src.mtime > d.mtime,
    }
}

/// Collect the per-file failures of an executed plan: the pass fails
/// with the aggregated list exactly when any file copy failed.
pub fn collect_io_errors(errors: Vec<String>) -> (r: Result<(), BackupperError>)
    ensures
        errors@.len() == 0 ==> r is Ok,
        errors@.len() > 0 ==> (r matches Err(BackupperError::IoError(v)) && v@ == errors@),
{
    if errors.len() > 0 {
        Err(BackupperError::IoError(errors))
    } else {
        Ok(())
    }
}

/// The backup engine: the configuration, the rules built from it, and
/// the byte counters of the current pass.
pub struct Backupper {
    pub backup_config: BackupConfig,
    pub rules: Vec<BackupRule>,
    pub drop_empty_dirs: bool,
    pub stats: BackupStats,
}

impl Backupper {
    /// An engine for the given configuration, with its rules built
    /// and empty directories dropped from walks.
    pub fn new(backup_config: BackupConfig) -> (b: Backupper)
        ensures
            b.backup_config == backup_config,
            rules_represent(b.backup_config, b.rules@),
            b.drop_empty_dirs,
            b.stats == stats_zero(),
    {
        let rules = rules_from_config(&backup_config);
        Backupper { backup_config, rules, drop_empty_dirs: true, stats: BackupStats::new() }
    }

    /// Rebuild the rules after the configuration's exclusion lists
    /// changed.
    pub fn update_rules(&mut self)
        ensures
            final(self).backup_config == old(self).backup_config,
            rules_represent(final(self).backup_config, final(self).rules@),
            final(self).drop_empty_dirs,
            final(self).stats == old(self).stats,
    {
        self.rules = rules_from_config(&self.backup_config);
        self.drop_empty_dirs = true;
    }

    /// The pass's byte counters.
    pub fn stats(&self) -> (r: BackupStats)
        ensures
            r == self.stats,
    {
        self.stats
    }

    /// The files a pass over the given snapshot would consider: the
    /// snapshot walked under this engine's rules.
    pub fn get_target_files(&self, t: &SourceTree) -> (r: Vec<FsEntry>)
        ensures
            r@.map_values(|e: FsEntry| e@) == spec_walk(t@, self.rules@, self.drop_empty_dirs),
    {
        walk(t, &self.rules, self.drop_empty_dirs)
    }

    /// The destination path of a source file: its relative components
    /// re-rooted under the configured destination.
    pub fn create_dst_path(&self, rel: &Vec<String>) -> (r: Vec<String>)
        ensures
            r.deep_view() == split_path(self.backup_config.destination@) + rel.deep_view(),
    {
        let dst_root = split_components(self.backup_config.destination.as_str());
        crate::walker::rooted_path(&dst_root, rel)
    }

    /// Account one copy: the overwritten destination size, if any, as
    /// removed, then the source size as added.
    pub fn copy_file(&mut self, src_meta: FileMeta, dst_prev: Option<FileMeta>)
        ensures
            final(self).stats == stats_after_copy(old(self).stats, src_meta, dst_prev),
            final(self).backup_config == old(self).backup_config,
            final(self).rules == old(self).rules,
            final(self).drop_empty_dirs == old(self).drop_empty_dirs,
    {
        if let Some(d) = dst_prev {
            self.stats.record_removed(d.size);
        }
        self.stats.record_added(src_meta.size);
    }

    /// Decide copy-or-skip for one file and account it: true exactly
    /// when the copy is needed, in which case its bytes are recorded.
    pub fn copy_file_if_diffs(&mut self, src_meta: FileMeta, dst_prev: Option<FileMeta>) -> (copied:
        bool)
        ensures
            copied == spec_needs_copy(src_meta, dst_prev),
            copied ==> final(self).stats == stats_after_copy(old(self).stats, src_meta, dst_prev),
            !copied ==> final(self).stats == old(self).stats,
            final(self).backup_config == old(self).backup_config,
            final(self).rules == old(self).rules,
            final(self).drop_empty_dirs == old(self).drop_empty_dirs,
    {
        if copy_needed(&src_meta, &dst_prev) {
            self.copy_file(src_meta, dst_prev);
            true
        } else {
            false
        }
    }

    /// One backup pass over a scanned source and the destination
    /// state.
    ///
    /// The counters are zeroed first.  A pass is refused while the
    /// source or destination path is unset, or when the source is not
    /// a readable directory; an unreadable tree aborts the pass with a
    /// walker error.  Otherwise the snapshot is walked and every
    /// surviving file is decided and accounted, and the plan of the
    /// needed copies is returned.
    pub fn perform_backup(&mut self, scan: &SourceScan, dst: &DstState) -> (r: Result<
        BackupPlan,
        BackupperError,
    >)
        ensures
            final(self).backup_config == old(self).backup_config,
            final(self).rules == old(self).rules,
            final(self).drop_empty_dirs == old(self).drop_empty_dirs,
            (old(self).backup_config.source@.len() == 0 || old(
                self,
            ).backup_config.destination@.len() == 0) ==> (r matches Err(
                BackupperError::BkpError(m),
            ) && m@ == "Source or destination path is not set"@ && final(self).stats
                == stats_zero()),
            (old(self).backup_config.source@.len() > 0 && old(
                self,
            ).backup_config.destination@.len() > 0) ==> match *scan {
                SourceScan::NotADir => r matches Err(BackupperError::BkpError(m)) && m@
                    == "Source is not a valid directory"@ && final(self).stats == stats_zero(),
                SourceScan::Unreadable(ref msg) => r matches Err(BackupperError::WalkerError(w))
                    && w@ == msg@ && final(self).stats == stats_zero(),
                SourceScan::Tree(ref t) => r matches Ok(plan) && {
                    let outcome = spec_pass(
                        spec_walk(t@, old(self).rules@, old(self).drop_empty_dirs),
                        dst@,
                    );
                    final(self).stats == outcome.0 && plan.copies@.map_values(
                        |c: PlannedCopy| c@,
                    ) == outcome.1
                },
            },
    {
        self.stats.reset();
        if self.backup_config.source.as_str().is_empty()
            || self.backup_config.destination.as_str().is_empty() {
            return Err(
                BackupperError::BkpError(String::from_str("Source or destination path is not set")),
            );
        }
        match scan {
            SourceScan::NotADir => Err(
                BackupperError::BkpError(String::from_str("Source is not a valid directory")),
            ),
            SourceScan::Unreadable(msg) => Err(BackupperError::WalkerError(msg.clone())),
            SourceScan::Tree(t) => {
                let files = walk(t, &self.rules, self.drop_empty_dirs);
                let ghost filesv = files@.map_values(|e: FsEntry| e@);
                let mut copies: Vec<PlannedCopy> = Vec::new();
                proof {
                    assert(filesv.take(0) =~= Seq::<FsEntryV>::empty());
                    assert(copies@.map_values(|c: PlannedCopy| c@) =~= Seq::<
                        PlannedCopyV,
                    >::empty());
                }
                let mut i: usize = 0;
                while i < files.len()
                    invariant
                        0 <= i <= files@.len(),
                        filesv == files@.map_values(|e: FsEntry| e@),
                        filesv.len() == files@.len(),
                        self.backup_config == old(self).backup_config,
                        self.rules == old(self).rules,
                        self.drop_empty_dirs == old(self).drop_empty_dirs,
                        (self.stats, copies@.map_values(|c: PlannedCopy| c@)) == pass_fold(
                            stats_zero(),
                            Seq::<PlannedCopyV>::empty(),
                            filesv.take(i as int),
                            dst@,
                        ),
                    decreases files.len() - i,
                {
                    let ghost prev_stats = self.stats;
                    let ghost prev_copies = copies@.map_values(|c: PlannedCopy| c@);
                    proof {
                        assert(filesv[i as int] == files@[i as int]@);
                    }
                    let e = &files[i];
                    match e.kind {
                        EntryKind::File(m) => {
                            let found = lookup_dst(dst, &e.rel);
                            let copied = self.copy_file_if_diffs(m, found);
                            if copied {
                                copies.push(
                                    PlannedCopy { rel: clone_strings(&e.rel), meta: m },
                                );
                                proof {
                                    assert(copies@.map_values(|c: PlannedCopy| c@)
                                        =~= prev_copies.push(
                                        PlannedCopyV { rel: filesv[i as int].rel, meta: m },
                                    ));
                                }
                            }
                        }
                        EntryKind::Dir => {
                        }
                    }
                    proof {
                        lemma_pass_fold_take_succ(
                            stats_zero(),
                            Seq::<PlannedCopyV>::empty(),
                            filesv,
                            dst@,
                            i as int,
                        );
                    }
                    i = i + 1;
                }
                proof {
                    assert(filesv.take(files@.len() as int) =~= filesv);
                }
                Ok(BackupPlan { copies })
            }
        }
    }
}

/// Folding one file further steps the fold of the prefix.
proof fn lemma_pass_fold_push(
    s: BackupStats,
    plan: Seq<PlannedCopyV>,
    files: Seq<FsEntryV>,
    f: FsEntryV,
    dst: Seq<DstFileV>,
)
    ensures
        pass_fold(s, plan, files.push(f), dst) == {
            let mid = pass_fold(s, plan, files, dst);
            pass_step(mid.0, mid.1, f, dst)
        },
    decreases files.len(),
{
    if files.len() == 0 {
        assert(files.push(f)[0] == f);
        let first = pass_step(s, plan, f, dst);
        assert(pass_fold(s, plan, files.push(f), dst) == pass_fold(
            first.0,
            first.1,
            files.push(f).skip(1),
            dst,
        ));
        assert(files.push(f).skip(1) =~= Seq::<FsEntryV>::empty());
        assert(pass_fold(first.0, first.1, Seq::<FsEntryV>::empty(), dst) == first);
    } else {
        assert(files.push(f)[0] == files[0]);
        let first = pass_step(s, plan, files[0], dst);
        assert(pass_fold(s, plan, files.push(f), dst) == pass_fold(
            first.0,
            first.1,
            files.push(f).skip(1),
            dst,
        ));
        assert(files.push(f).skip(1) =~= files.skip(1).push(f));
        lemma_pass_fold_push(first.0, first.1, files.skip(1), f, dst);
        assert(pass_fold(s, plan, files, dst) == pass_fold(first.0, first.1, files.skip(1), dst));
    }
}

/// Folding a prefix one element longer steps the prefix fold.
proof fn lemma_pass_fold_take_succ(
    s: BackupStats,
    plan: Seq<PlannedCopyV>,
    files: Seq<FsEntryV>,
    dst: Seq<DstFileV>,
    i: int,
)
    requires
        0 <= i < files.len(),
    ensures
        pass_fold(s, plan, files.take(i + 1), dst) == {
            let mid = pass_fold(s, plan, files.take(i), dst);
            pass_step(mid.0, mid.1, files[i], dst)
        },
{
    assert(files.take(i + 1) =~= files.take(i).push(files[i]));
    lemma_pass_fold_push(s, plan, files.take(i), files[i], dst);
}

/// A fold whose every file is already up to date changes nothing.
proof fn lemma_pass_fold_noop(
    s: BackupStats,
    plan: Seq<PlannedCopyV>,
    files: Seq<FsEntryV>,
    dst: Seq<DstFileV>,
)
    requires
        forall|i: int|
            0 <= i < files.len() ==> match (#[trigger] files[i]).kind {
                EntryKind::File(m) => !spec_needs_copy(m, dst_lookup(dst, files[i].rel)),
                EntryKind::Dir => true,
            },
    ensures
        pass_fold(s, plan, files, dst) == (s, plan),
    decreases files.len(),
{
    if files.len() > 0 {
        assert(pass_step(s, plan, files[0], dst) == (s, plan));
        assert(forall|i: int|
            0 <= i < files.skip(1).len() ==> #[trigger] files.skip(1)[i] == files[i + 1]);
        lemma_pass_fold_noop(s, plan, files.skip(1), dst);
    }
}

/// Running a pass twice with no source changes in between copies
/// nothing the second time.
///
/// Let `files` be the walked files of a pass, `dst1` the destination
/// before it, and `dst2` the destination after the pass's plan was
/// executed: every file the pass copied is present with the source's
/// size and a modification time at or after the source's, and every
/// other path is untouched.  Then a second pass over the same files
/// against `dst2` plans no copies at all, and its counters stay at
/// zero.
pub proof fn lemma_second_pass_copies_nothing(
    files: Seq<FsEntryV>,
    dst1: Seq<DstFileV>,
    dst2: Seq<DstFileV>,
)
    requires
        forall|i: int|
            0 <= i < files.len() ==> match (#[trigger] files[i]).kind {
                EntryKind::File(m) => {
                    if spec_needs_copy(m, dst_lookup(dst1, files[i].rel)) {
                        match dst_lookup(dst2, files[i].rel) {
                            Some(d2) => d2.size == m.size && d2.mtime >= m.mtime,
                            None => false,
                        }
                    } else {
                        dst_lookup(dst2, files[i].rel) == dst_lookup(dst1, files[i].rel)
                    }
                },
                EntryKind::Dir => true,
            },
    ensures
        spec_pass(files, dst2) == (stats_zero(), Seq::<PlannedCopyV>::empty()),
{
    assert forall|i: int|
        0 <= i < files.len() implies match (#[trigger] files[i]).kind {
        EntryKind::File(m) => !spec_needs_copy(m, dst_lookup(dst2, files[i].rel)),
        EntryKind::Dir => true,
    } by {
        match files[i].kind {
            EntryKind::File(m) => {
                if spec_needs_copy(m, dst_lookup(dst1, files[i].rel)) {
                } else {
                }
            },
            EntryKind::Dir => {},
        }
    }
    lemma_pass_fold_noop(stats_zero(), Seq::<PlannedCopyV>::empty(), files, dst2);
}

} // verus!

//! The tree walker: rule-filtered enumeration of a source snapshot.
//!
//! The shell scans the source directory (skipping symbolic links) and
//! hands the library a flat snapshot: every file and directory under
//! the root, each with its component path relative to the root, in
//! traversal order.  The walk filters that snapshot by the configured
//! rules:
//!
//! * a file is dropped when an extension rule matches it or a
//!   directory rule matches any of its ancestor directories;
//! * an excluded directory is not descended into: every entry below
//!   it is dropped;
//! * directories themselves appear in the result only when empty-
//!   directory dropping is disabled and the directory has no entries
//!   at all; with dropping enabled the result holds files only.
//!
//! The walk is a pure function of the snapshot and the rules, so
//! walking an unchanged tree with unchanged rules yields an identical,
//! order-stable result.

use vstd::prelude::*;

use crate::rules::BackupRule;
use crate::rules::rule_matches_dir;
use crate::rules::rule_matches_file;
use crate::rules::dir_rule_matches;
use crate::rules::file_rule_matches;
use crate::text::clone_strings;

verus! {

/// Size and modification time of a file, as plain values: the size in
/// bytes, the modification time in ticks of a monotone clock encoding
/// (later is strictly greater).
#[derive(Clone, Copy, PartialEq, Eq, Structural, Debug)]
pub struct FileMeta {
    pub size: u64,
    pub mtime: u64,
}

/// What a snapshot entry is: a file with its metadata, or a directory.
#[derive(Clone, Copy, PartialEq, Eq, Structural, Debug)]
pub enum EntryKind {
    File(FileMeta),
    Dir,
}

/// One entry of the source snapshot: its path relative to the source
/// root, as components, and its kind.
#[derive(Debug, Clone, PartialEq, Eq)]
pub struct FsEntry {
    pub rel: Vec<String>,
    pub kind: EntryKind,
}

/// The source snapshot: the root's own component path (absolute), and
/// every entry under it in traversal order.
#[derive(Debug, Clone, PartialEq, Eq)]
pub struct SourceTree {
    pub root: Vec<String>,
    pub entries: Vec<FsEntry>,
}

/// Mathematical form of a snapshot entry.
pub ghost struct FsEntryV {
    pub rel: Seq<Seq<char>>,
    pub kind: EntryKind,
}

/// Mathematical form of a snapshot.
pub ghost struct SourceTreeV {
    pub root: Seq<Seq<char>>,
    pub entries: Seq<FsEntryV>,
}

impl View for FsEntry {
    type V = FsEntryV;

    open spec fn view(&self) -> FsEntryV {
        FsEntryV { rel: self.rel.deep_view(), kind: self.kind }
    }
}

impl View for SourceTree {
    type V = SourceTreeV;

    open spec fn view(&self) -> SourceTreeV {
        SourceTreeV {
            root: self.root.deep_view(),
            entries: self.entries@.map_values(|e: FsEntry| e@),
        }
    }
}

/// Whether some rule of the list excludes a file named `filename`.
pub open spec fn matches_any_file_rule(rules: Seq<BackupRule>, filename: Seq<char>) -> bool {
    exists|i: int| 0 <= i < rules.len() && rule_matches_file(#[trigger] rules[i], filename)
}

/// Whether some rule of the list excludes the directory with full
/// component path `full`.
pub open spec fn matches_any_dir_rule(rules: Seq<BackupRule>, full: Seq<Seq<char>>) -> bool {
    exists|i: int| 0 <= i < rules.len() && rule_matches_dir(#[trigger] rules[i], full)
}

/// Whether some directory rule matches a prefix of `rel` (under
/// `root`) of length between 1 and `kmax`.
pub open spec fn pruned_within(
    root: Seq<Seq<char>>,
    rel: Seq<Seq<char>>,
    rules: Seq<BackupRule>,
    kmax: int,
) -> bool {
    exists|k: int|
        1 <= k <= kmax && #[trigger] matches_any_dir_rule(rules, root + rel.take(k))
}

/// Whether some ancestor directory of the entry at `rel` is excluded.
pub open spec fn ancestor_pruned(
    root: Seq<Seq<char>>,
    rel: Seq<Seq<char>>,
    rules: Seq<BackupRule>,
) -> bool {
    pruned_within(root, rel, rules, rel.len() - 1)
}

/// Whether the directory at `rel`, or an ancestor, is excluded.
pub open spec fn dir_pruned(
    root: Seq<Seq<char>>,
    rel: Seq<Seq<char>>,
    rules: Seq<BackupRule>,
) -> bool {
    pruned_within(root, rel, rules, rel.len() as int)
}

/// Whether path `p` lies strictly below directory path `d`.
pub open spec fn is_strictly_under(p: Seq<Seq<char>>, d: Seq<Seq<char>>) -> bool {
    p.len() > d.len() && p.take(d.len() as int) == d
}

/// Whether any snapshot entry lies strictly below `rel`.
pub open spec fn has_descendant(entries: Seq<FsEntryV>, rel: Seq<Seq<char>>) -> bool {
    exists|i: int| 0 <= i < entries.len() && is_strictly_under(#[trigger] entries[i].rel, rel)
}

/// Whether a snapshot entry survives the walk.
pub open spec fn entry_survives(
    tv: SourceTreeV,
    rules: Seq<BackupRule>,
    drop_empty_dirs: bool,
    ev: FsEntryV,
) -> bool {
    match ev.kind {
        EntryKind::File(_) => ev.rel.len() > 0 && !matches_any_file_rule(rules, ev.rel.last())
            && !ancestor_pruned(tv.root, ev.rel, rules),
        EntryKind::Dir => ev.rel.len() > 0 && !drop_empty_dirs && !dir_pruned(
            tv.root,
            ev.rel,
            rules,
        ) && !has_descendant(tv.entries, ev.rel),
    }
}

/// The survival predicate of one walk.
pub open spec fn walk_pred(tv: SourceTreeV, rules: Seq<BackupRule>, drop_empty_dirs: bool) -> spec_fn(
    FsEntryV,
) -> bool {
    |ev: FsEntryV| entry_survives(tv, rules, drop_empty_dirs, ev)
}

/// The walk result: the surviving entries in snapshot order.
pub open spec fn spec_walk(tv: SourceTreeV, rules: Seq<BackupRule>, drop_empty_dirs: bool) -> Seq<
    FsEntryV,
> {
    tv.entries.filter(walk_pred(tv, rules, drop_empty_dirs))
}

/// Copy one snapshot entry.
pub fn clone_entry(e: &FsEntry) -> (r: FsEntry)
    ensures
        r@ == e@,
{
    FsEntry { rel: clone_strings(&e.rel), kind: e.kind }
}

/// Whether `prefix` is a component prefix of `p`.
fn path_has_prefix(p: &Vec<String>, prefix: &Vec<String>) -> (r: bool)
    ensures
        r == (prefix.deep_view().len() <= p.deep_view().len() && p.deep_view().take(
            prefix.deep_view().len() as int,
        ) == prefix.deep_view()),
{
    if prefix.len() > p.len() {
        proof {
            assert(p.deep_view().len() == p@.len());
            assert(prefix.deep_view().len() == prefix@.len());
        }
        return false;
    }
    let ghost pv = p.deep_view();
    let ghost fv = prefix.deep_view();
    let mut i: usize = 0;
    while i < prefix.len()
        invariant
            0 <= i <= prefix.len(),
            prefix.len() <= p.len(),
            pv == p.deep_view(),
            fv == prefix.deep_view(),
            pv.len() == p@.len(),
            fv.len() == prefix@.len(),
            forall|k: int| 0 <= k < i ==> pv[k] == fv[k],
        decreases prefix.len() - i,
    {
        if !(p[i] == prefix[i]) {
            proof {
                assert(pv[i as int] != fv[i as int]);
                if pv.take(fv.len() as int) == fv {
                    assert(pv.take(fv.len() as int)[i as int] == pv[i as int]);
                }
            }
            return false;
        }
        i = i + 1;
    }
    proof {
        assert(pv.take(fv.len() as int) =~= fv);
    }
    true
}

/// The full component path of the first `upto` components of `rel`,
/// rooted at `root`.
fn full_path(root: &Vec<String>, rel: &Vec<String>, upto: usize) -> (r: Vec<String>)
    requires
        upto <= rel@.len(),
    ensures
        r.deep_view() == root.deep_view() + rel.deep_view().take(upto as int),
{
    let mut r = clone_strings(root);
    proof {
        assert(rel.deep_view().len() == rel@.len());
        assert(root.deep_view().len() == root@.len());
        assert(r.deep_view().len() == r@.len());
    }
    let ghost n_root = root@.len() as int;
    let mut i: usize = 0;
    while i < upto
        invariant
            0 <= i <= upto <= rel@.len(),
            rel.deep_view().len() == rel@.len(),
            root.deep_view().len() == root@.len(),
            n_root == root@.len(),
            r@.len() == n_root + i,
            r.deep_view().len() == r@.len(),
            forall|k: int| 0 <= k < n_root ==> r.deep_view()[k] == root.deep_view()[k],
            forall|k: int| 0 <= k < i ==> r.deep_view()[n_root + k] == rel.deep_view()[k],
        decreases upto - i,
    {
        r.push(rel[i].clone());
        i = i + 1;
    }
    proof {
        assert(r.deep_view() =~= root.deep_view() + rel.deep_view().take(upto as int));
    }
    r
}

/// The full component path of `rel` rooted at `root`.
pub fn rooted_path(root: &Vec<String>, rel: &Vec<String>) -> (r: Vec<String>)
    ensures
        r.deep_view() == root.deep_view() + rel.deep_view(),
{
    let r = full_path(root, rel, rel.len());
    proof {
        assert(rel.deep_view().take(rel@.len() as int) =~= rel.deep_view());
    }
    r
}

/// Whether some rule of the list excludes the directory at `full`.
fn any_dir_rule_matches(rules: &Vec<BackupRule>, full: &Vec<String>) -> (r: bool)
    ensures
        r == matches_any_dir_rule(rules@, full.deep_view()),
{
    let mut i: usize = 0;
    while i < rules.len()
        invariant
            0 <= i <= rules@.len(),
            forall|k: int| 0 <= k < i ==> !rule_matches_dir(#[trigger] rules@[k], full.deep_view()),
        decreases rules.len() - i,
    {
        if dir_rule_matches(&rules[i], full) {
            return true;
        }
        i = i + 1;
    }
    false
}

/// Whether some rule of the list excludes a file named `filename`.
fn any_file_rule_matches(rules: &Vec<BackupRule>, filename: &String) -> (r: bool)
    ensures
        r == matches_any_file_rule(rules@, filename@),
{
    let mut i: usize = 0;
    while i < rules.len()
        invariant
            0 <= i <= rules@.len(),
            forall|k: int| 0 <= k < i ==> !rule_matches_file(#[trigger] rules@[k], filename@),
        decreases rules.len() - i,
    {
        if file_rule_matches(&rules[i], filename.as_str()) {
            return true;
        }
        i = i + 1;
    }
    false
}

/// Whether some directory rule matches a prefix of `rel` of length
/// between 1 and `kmax`.
fn pruned_within_exec(
    root: &Vec<String>,
    rel: &Vec<String>,
    rules: &Vec<BackupRule>,
    kmax: usize,
) -> (r: bool)
    requires
        kmax <= rel@.len(),
    ensures
        r == pruned_within(root.deep_view(), rel.deep_view(), rules@, kmax as int),
{
    let mut k: usize = 0;
    while k < kmax
        invariant
            0 <= k <= kmax <= rel@.len(),
            forall|j: int|
                1 <= j <= k ==> !matches_any_dir_rule(
                    rules@,
                    #[trigger] (root.deep_view() + rel.deep_view().take(j)),
                ),
        decreases kmax - k,
    {
        let full = full_path(root, rel, k + 1);
        if any_dir_rule_matches(rules, &full) {
            return true;
        }
        k = k + 1;
    }
    false
}

/// Whether any snapshot entry lies strictly below `rel`.
fn has_descendant_exec(entries: &Vec<FsEntry>, rel: &Vec<String>) -> (r: bool)
    ensures
        r == has_descendant(entries@.map_values(|e: FsEntry| e@), rel.deep_view()),
{
    let ghost evs = entries@.map_values(|e: FsEntry| e@);
    let mut i: usize = 0;
    while i < entries.len()
        invariant
            0 <= i <= entries@.len(),
            evs == entries@.map_values(|e: FsEntry| e@),
            evs.len() == entries@.len(),
            forall|k: int| 0 <= k < i ==> !is_strictly_under(#[trigger] evs[k].rel, rel.deep_view()),
        decreases entries.len() - i,
    {
        let e = &entries[i];
        proof {
            assert(evs[i as int] == entries@[i as int]@);
            assert(e.rel.deep_view().len() == e.rel@.len());
            assert(rel.deep_view().len() == rel@.len());
        }
        if e.rel.len() > rel.len() {
            if path_has_prefix(&e.rel, rel) {
                proof {
                    assert(is_strictly_under(evs[i as int].rel, rel.deep_view()));
                }
                return true;
            }
        }
        i = i + 1;
    }
    false
}

/// Whether one snapshot entry survives the walk.
fn entry_survives_exec(
    t: &SourceTree,
    rules: &Vec<BackupRule>,
    drop_empty_dirs: bool,
    e: &FsEntry,
) -> (r: bool)
    ensures
        r == entry_survives(t@, rules@, drop_empty_dirs, e@),
{
    proof {
        assert(e.rel.deep_view().len() == e.rel@.len());
    }
    match e.kind {
        EntryKind::File(_) => {
            if e.rel.len() == 0 {
                return false;
            }
            let name = &e.rel[e.rel.len() - 1];
            proof {
                assert(e.rel.deep_view().last() == e.rel@[e.rel@.len() - 1]@);
            }
            if any_file_rule_matches(rules, name) {
                return false;
            }
            !pruned_within_exec(&t.root, &e.rel, rules, e.rel.len() - 1)
        }
        EntryKind::Dir => {
            if e.rel.len() == 0 || drop_empty_dirs {
                return false;
            }
            if pruned_within_exec(&t.root, &e.rel, rules, e.rel.len()) {
                return false;
            }
            !has_descendant_exec(&t.entries, &e.rel)
        }
    }
}

/// Walk the snapshot: the surviving entries, in snapshot order.
pub fn walk(t: &SourceTree, rules: &Vec<BackupRule>, drop_empty_dirs: bool) -> (r: Vec<FsEntry>)
    ensures
        r@.map_values(|e: FsEntry| e@) == spec_walk(t@, rules@, drop_empty_dirs),
{
    let ghost tv = t@;
    let ghost pred = walk_pred(tv, rules@, drop_empty_dirs);
    let mut r: Vec<FsEntry> = Vec::new();
    proof {
        reveal(Seq::filter);
        assert(tv.entries.take(0) =~= Seq::<FsEntryV>::empty());
        assert(r@.map_values(|e: FsEntry| e@) =~= tv.entries.take(0).filter(pred));
    }
    let mut i: usize = 0;
    while i < t.entries.len()
        invariant
            0 <= i <= t.entries@.len(),
            tv == t@,
            pred == walk_pred(tv, rules@, drop_empty_dirs),
            tv.entries.len() == t.entries@.len(),
            r@.map_values(|e: FsEntry| e@) == tv.entries.take(i as int).filter(pred),
        decreases t.entries.len() - i,
    {
        let e = &t.entries[i];
        proof {
            assert(tv.entries[i as int] == t.entries@[i as int]@);
        }
        let keep = entry_survives_exec(t, rules, drop_empty_dirs, e);
        let ghost prev = r@.map_values(|e: FsEntry| e@);
        if keep {
            r.push(clone_entry(e));
            proof {
                assert(r@.map_values(|e: FsEntry| e@) =~= prev.push(tv.entries[i as int]));
            }
        }
        proof {
            reveal(Seq::filter);
            assert(tv.entries.take(i + 1).drop_last() =~= tv.entries.take(i as int));
            assert(tv.entries.take(i + 1).last() == tv.entries[i as int]);
            assert(tv.entries.take(i + 1).filter(pred) == if pred(tv.entries[i as int]) {
                tv.entries.take(i as int).filter(pred).push(tv.entries[i as int])
            } else {
                tv.entries.take(i as int).filter(pred)
            });
        }
        i = i + 1;
    }
    proof {
        assert(tv.entries.take(t.entries@.len() as int) =~= tv.entries);
    }
    r
}

/// Every entry of a walk result survives the rules: an excluded file,
/// or anything under an excluded directory, never reaches the result.
pub proof fn lemma_walk_members_survive(
    tv: SourceTreeV,
    rules: Seq<BackupRule>,
    drop_empty_dirs: bool,
    j: int,
)
    requires
        0 <= j < spec_walk(tv, rules, drop_empty_dirs).len(),
    ensures
        entry_survives(tv, rules, drop_empty_dirs, spec_walk(tv, rules, drop_empty_dirs)[j]),
{
    tv.entries.lemma_filter_pred(walk_pred(tv, rules, drop_empty_dirs), j);
}

/// Every surviving snapshot entry reaches the walk result: the rules
/// drop nothing they do not match.
pub proof fn lemma_walk_keeps_survivors(
    tv: SourceTreeV,
    rules: Seq<BackupRule>,
    drop_empty_dirs: bool,
    i: int,
)
    requires
        0 <= i < tv.entries.len(),
        entry_survives(tv, rules, drop_empty_dirs, tv.entries[i]),
    ensures
        spec_walk(tv, rules, drop_empty_dirs).contains(tv.entries[i]),
{
    tv.entries.lemma_filter_contains(walk_pred(tv, rules, drop_empty_dirs), i);
}

/// Walking an unchanged snapshot with unchanged rules yields an
/// identical, order-stable result: the walk is a pure function of its
/// inputs, so two walks of equal snapshots under equal rules are
/// equal.
pub proof fn lemma_walk_deterministic(
    tv1: SourceTreeV,
    tv2: SourceTreeV,
    rules1: Seq<BackupRule>,
    rules2: Seq<BackupRule>,
    drop_empty_dirs: bool,
)
    requires
        tv1 == tv2,
        rules1 == rules2,
    ensures
        spec_walk(tv1, rules1, drop_empty_dirs) == spec_walk(tv2, rules2, drop_empty_dirs),
{
}

} // verus!

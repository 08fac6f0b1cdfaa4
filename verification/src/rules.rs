//! The exclusion-rule engine.
//!
//! Rules come in a closed set of kinds.  An extension rule excludes
//! files whose extension matches; the three directory kinds mirror
//! the three forms a configured directory entry can take: an absolute
//! path (matched against the directory's whole path), a path fragment
//! containing a separator (matched as a component-wise suffix), or a
//! bare name (matched against the directory's own name).  A
//! directory-scoped rule never matches a file entry and vice versa.
//!
//! Paths are handled as their component lists; a configured rule
//! string is split on `/` into components when the rules are built.

use vstd::prelude::*;

use vstd::string::StrSliceExecFns;

use crate::config::BackupConfig;
use crate::text::str_eq;

verus! {

/// Index of the first separator at or after `i`, or the length.
pub open spec fn next_sep(s: Seq<char>, i: int) -> int
    decreases s.len() - i,
{
    if i >= s.len() {
        s.len() as int
    } else if s[i] == '/' {
        i
    } else {
        next_sep(s, i + 1)
    }
}

/// `next_sep` stays between its start and the length, the skipped
/// range holds no separator, and the found position holds one.
pub proof fn lemma_next_sep(s: Seq<char>, i: int)
    requires
        0 <= i <= s.len(),
    ensures
        i <= next_sep(s, i) <= s.len(),
        forall|j: int| i <= j < next_sep(s, i) ==> s[j] != '/',
        next_sep(s, i) < s.len() ==> s[next_sep(s, i)] == '/',
    decreases s.len() - i,
{
    if i < s.len() && s[i] != '/' {
        lemma_next_sep(s, i + 1);
    }
}

/// The component list of a path string from position `i` on: maximal
/// runs of non-separator characters, separators dropped.
pub open spec fn split_path_from(s: Seq<char>, i: int) -> Seq<Seq<char>>
    decreases s.len() - i,
    via split_path_from_decreases
{
    if i < 0 || i >= s.len() {
        Seq::empty()
    } else if s[i] == '/' {
        split_path_from(s, i + 1)
    } else {
        seq![s.subrange(i, next_sep(s, i))] + split_path_from(s, next_sep(s, i))
    }
}

#[via_fn]
proof fn split_path_from_decreases(s: Seq<char>, i: int) {
    if 0 <= i && i < s.len() && s[i] != '/' {
        lemma_next_sep(s, i + 1);
    }
}

/// The component list of a whole path string.
pub open spec fn split_path(s: Seq<char>) -> Seq<Seq<char>> {
    split_path_from(s, 0)
}

/// Position `i` starts the extension of `name`: a dot that is not the
/// leading character and has no later dot after it.
pub open spec fn extension_split(name: Seq<char>, i: int) -> bool {
    &&& 1 <= i < name.len()
    &&& name[i] == '.'
    &&& forall|j: int| i < j < name.len() ==> name[j] != '.'
}

/// Whether `name` has an extension at all.
pub open spec fn has_extension(name: Seq<char>) -> bool {
    exists|i: int| extension_split(name, i)
}

/// Whether the extension of `name` is exactly `ext`.
pub open spec fn matches_extension(name: Seq<char>, ext: Seq<char>) -> bool {
    exists|i: int|
        #[trigger] extension_split(name, i) && name.subrange(i + 1, name.len() as int) == ext
}

/// An extension split position is unique.
pub proof fn lemma_extension_split_unique(name: Seq<char>, i1: int, i2: int)
    requires
        extension_split(name, i1),
        extension_split(name, i2),
    ensures
        i1 == i2,
{
    if i1 < i2 {
        assert(name[i2] != '.');
    }
    if i2 < i1 {
        assert(name[i1] != '.');
    }
}

/// One exclusion predicate of the rule engine.
#[derive(Debug, Clone, PartialEq, Eq)]
pub enum BackupRule {
    /// Excludes files whose extension equals `ext`.
    ExcludeExtension { ext: String },
    /// Excludes the directory whose whole path equals `path`.
    ExcludeDirAbsolute { path: Vec<String> },
    /// Excludes directories whose path ends with the components of
    /// `suffix`.
    ExcludeDirSuffix { suffix: Vec<String> },
    /// Excludes directories whose own name equals `name`.
    ExcludeDirName { name: String },
}

/// Component-wise suffix relation on paths.
pub open spec fn is_path_suffix(suffix: Seq<Seq<char>>, path: Seq<Seq<char>>) -> bool {
    suffix.len() <= path.len() && path.subrange(
        path.len() - suffix.len(),
        path.len() as int,
    ) == suffix
}

/// Whether a rule excludes a directory whose full component path is
/// `full`.  Extension rules never match directories.
pub open spec fn rule_matches_dir(rule: BackupRule, full: Seq<Seq<char>>) -> bool {
    match rule {
        BackupRule::ExcludeExtension { .. } => false,
        BackupRule::ExcludeDirAbsolute { path } => full == path.deep_view(),
        BackupRule::ExcludeDirSuffix { suffix } => is_path_suffix(suffix.deep_view(), full),
        BackupRule::ExcludeDirName { name } => full.len() > 0 && full.last() == name@,
    }
}

/// Whether a rule excludes a file named `filename`.  Directory rules
/// never match files.
pub open spec fn rule_matches_file(rule: BackupRule, filename: Seq<char>) -> bool {
    match rule {
        BackupRule::ExcludeExtension { ext } => matches_extension(filename, ext@),
        _ => false,
    }
}

/// Equality of two component paths.
pub fn path_eq(a: &Vec<String>, b: &Vec<String>) -> (r: bool)
    ensures
        r == (a.deep_view() == b.deep_view()),
{
    if a.len() != b.len() {
        assert(a.deep_view().len() != b.deep_view().len());
        return false;
    }
    let mut i: usize = 0;
    while i < a.len()
        invariant
            0 <= i <= a.len(),
            a.len() == b.len(),
            forall|k: int| 0 <= k < i ==> a.deep_view()[k] == b.deep_view()[k],
        decreases a.len() - i,
    {
        if !(a[i] == b[i]) {
            assert(a.deep_view()[i as int] != b.deep_view()[i as int]);
            return false;
        }
        i = i + 1;
    }
    assert(a.deep_view() =~= b.deep_view());
    true
}

/// Component-wise suffix test.
pub fn path_ends_with(path: &Vec<String>, suffix: &Vec<String>) -> (r: bool)
    ensures
        r == is_path_suffix(suffix.deep_view(), path.deep_view()),
{
    if suffix.len() > path.len() {
        return false;
    }
    let off: usize = path.len() - suffix.len();
    proof {
        assert(path.deep_view().len() == path@.len());
        assert(suffix.deep_view().len() == suffix@.len());
    }
    let mut i: usize = 0;
    while i < suffix.len()
        invariant
            0 <= i <= suffix.len(),
            suffix.len() <= path.len(),
            off == path.len() - suffix.len(),
            forall|k: int|
                0 <= k < i ==> path.deep_view()[off + k] == suffix.deep_view()[k],
        decreases suffix.len() - i,
    {
        if !(path[off + i] == suffix[i]) {
            proof {
                let pv = path.deep_view();
                let sv = suffix.deep_view();
                assert(pv[off + i] != sv[i as int]);
                if is_path_suffix(sv, pv) {
                    let k: int = off + i;
                    assert(pv.subrange(pv.len() - sv.len(), pv.len() as int)[i as int] == pv[k]);
                }
            }
            return false;
        }
        i = i + 1;
    }
    proof {
        let pv = path.deep_view();
        let sv = suffix.deep_view();
        assert(pv.subrange(pv.len() - sv.len(), pv.len() as int) =~= sv);
    }
    true
}

/// The extension of a file name: the part after the last dot, if any
/// dot follows the leading character.
pub fn extension_of(name: &str) -> (r: Option<String>)
    ensures
        match r {
            Some(e) => exists|i: int|
                #[trigger] extension_split(name@, i) && e@ == name@.subrange(
                    i + 1,
                    name@.len() as int,
                ),
            None => !has_extension(name@),
        },
{
    let n = name.unicode_len();
    let mut i: usize = n;
    while i > 1
        invariant
            0 <= i <= n,
            n == name@.len(),
            forall|j: int| i <= j < n ==> name@[j] != '.',
        decreases i,
    {
        if name.get_char(i - 1) == '.' {
            let e = name.substring_char(i, n).to_owned();
            assert(extension_split(name@, i - 1));
            return Some(e);
        }
        i = i - 1;
    }
    assert(forall|k: int| !extension_split(name@, k));
    None
}

/// Whether `filename` has exactly the extension `ext`.
pub fn has_ext(filename: &str, ext: &str) -> (r: bool)
    ensures
        r == matches_extension(filename@, ext@),
{
    match extension_of(filename) {
        Some(e) => {
            let same = str_eq(e.as_str(), ext);
            proof {
                let i = choose|i: int|
                    #[trigger] extension_split(filename@, i) && e@ == filename@.subrange(
                        i + 1,
                        filename@.len() as int,
                    );
                if !same {
                    assert forall|k: int|
                        !(#[trigger] extension_split(filename@, k) && filename@.subrange(
                            k + 1,
                            filename@.len() as int,
                        ) == ext@) by {
                        if extension_split(filename@, k) {
                            lemma_extension_split_unique(filename@, i, k);
                        }
                    }
                }
            }
            same
        }
        None => {
            false
        }
    }
}

/// Whether a rule excludes the directory with full component path
/// `full`.
pub fn dir_rule_matches(rule: &BackupRule, full: &Vec<String>) -> (r: bool)
    ensures
        r == rule_matches_dir(*rule, full.deep_view()),
{
    match rule {
        BackupRule::ExcludeExtension { .. } => false,
        BackupRule::ExcludeDirAbsolute { path } => path_eq(full, path),
        BackupRule::ExcludeDirSuffix { suffix } => path_ends_with(full, suffix),
        BackupRule::ExcludeDirName { name } => {
            if full.len() == 0 {
                assert(full.deep_view().len() == full@.len());
                false
            } else {
                let r = str_eq(full[full.len() - 1].as_str(), name.as_str());
                proof {
                    assert(full.deep_view().len() == full@.len());
                    assert(full.deep_view().last() == full[full.len() - 1]@);
                }
                r
            }
        }
    }
}

/// Whether a rule excludes a file named `filename`.
pub fn file_rule_matches(rule: &BackupRule, filename: &str) -> (r: bool)
    ensures
        r == rule_matches_file(*rule, filename@),
{
    match rule {
        BackupRule::ExcludeExtension { ext } => has_ext(filename, ext.as_str()),
        BackupRule::ExcludeDirAbsolute { .. } => false,
        BackupRule::ExcludeDirSuffix { .. } => false,
        BackupRule::ExcludeDirName { .. } => false,
    }
}

/// Index of the first separator at or after `start`, or the length.
fn find_sep(s: &str, start: usize) -> (r: usize)
    requires
        start <= s@.len(),
    ensures
        r == next_sep(s@, start as int),
        start <= r <= s@.len(),
{
    let n = s.unicode_len();
    let mut i: usize = start;
    while i < n && s.get_char(i) != '/'
        invariant
            start <= i <= n,
            n == s@.len(),
            next_sep(s@, start as int) == next_sep(s@, i as int),
        decreases n - i,
    {
        i = i + 1;
    }
    i
}

/// Split a path string into its component list.
pub fn split_components(s: &str) -> (r: Vec<String>)
    ensures
        r.deep_view() == split_path(s@),
{
    split_components_from(s, 0)
}

fn split_components_from(s: &str, i: usize) -> (r: Vec<String>)
    requires
        i <= s@.len(),
    ensures
        r.deep_view() == split_path_from(s@, i as int),
    decreases s@.len() - i,
{
    let n = s.unicode_len();
    if i >= n {
        let r: Vec<String> = Vec::new();
        assert(r.deep_view() =~= split_path_from(s@, i as int));
        r
    } else if s.get_char(i) == '/' {
        split_components_from(s, i + 1)
    } else {
        let j = find_sep(s, i);
        proof {
            lemma_next_sep(s@, i as int);
        }
        let comp: String = s.substring_char(i, j).to_owned();
        let mut rest = split_components_from(s, j);
        rest.insert(0, comp);
        assert(rest.deep_view() =~= split_path_from(s@, i as int));
        rest
    }
}

/// Whether the string holds a separator anywhere.
fn has_sep(s: &str) -> (r: bool)
    ensures
        r == s@.contains('/'),
{
    let n = s.unicode_len();
    let j = find_sep(s, 0);
    proof {
        lemma_next_sep(s@, 0);
        if j < n {
            assert(s@[j as int] == '/');
        } else {
            assert(forall|k: int| 0 <= k < s@.len() ==> s@[k] != '/');
        }
    }
    j < n
}

/// Whether `rule` is the extension rule for `ext`.
pub open spec fn is_ext_rule(rule: BackupRule, ext: Seq<char>) -> bool {
    match rule {
        BackupRule::ExcludeExtension { ext: e } => e@ == ext,
        _ => false,
    }
}

/// Whether `rule` is the directory rule that the configured entry `d`
/// denotes: an absolute path when `d` starts with a separator, a
/// component suffix when `d` contains one elsewhere, and a bare name
/// otherwise.
pub open spec fn represents_dir_rule(rule: BackupRule, d: Seq<char>) -> bool {
    if d.len() > 0 && d[0] == '/' {
        match rule {
            BackupRule::ExcludeDirAbsolute { path } => path.deep_view() == split_path(d),
            _ => false,
        }
    } else if d.contains('/') {
        match rule {
            BackupRule::ExcludeDirSuffix { suffix } => suffix.deep_view() == split_path(d),
            _ => false,
        }
    } else {
        match rule {
            BackupRule::ExcludeDirName { name } => name@ == d,
            _ => false,
        }
    }
}

/// Whether `rules` is exactly the rule list that `config` denotes:
/// one extension rule per excluded extension, then one directory rule
/// per excluded directory entry, classified by its form.
pub open spec fn rules_represent(config: BackupConfig, rules: Seq<BackupRule>) -> bool {
    &&& rules.len() == config.excluded_extensions@.len() + config.excluded_directories@.len()
    &&& forall|i: int|
        0 <= i < config.excluded_extensions@.len() ==> is_ext_rule(
            #[trigger] rules[i],
            config.excluded_extensions.deep_view()[i],
        )
    &&& forall|j: int|
        0 <= j < config.excluded_directories@.len() ==> represents_dir_rule(
            #[trigger] rules[config.excluded_extensions@.len() + j],
            config.excluded_directories.deep_view()[j],
        )
}

/// Build the rule list that a configuration denotes.
pub fn rules_from_config(config: &BackupConfig) -> (r: Vec<BackupRule>)
    ensures
        rules_represent(*config, r@),
{
    let mut r: Vec<BackupRule> = Vec::new();
    let mut i: usize = 0;
    while i < config.excluded_extensions.len()
        invariant
            0 <= i <= config.excluded_extensions@.len(),
            r@.len() == i,
            forall|k: int|
                0 <= k < i ==> is_ext_rule(
                    #[trigger] r@[k],
                    config.excluded_extensions.deep_view()[k],
                ),
        decreases config.excluded_extensions.len() - i,
    {
        r.push(BackupRule::ExcludeExtension { ext: config.excluded_extensions[i].clone() });
        i = i + 1;
    }
    let ghost n_ext = config.excluded_extensions@.len() as int;
    let mut j: usize = 0;
    while j < config.excluded_directories.len()
        invariant
            0 <= j <= config.excluded_directories@.len(),
            n_ext == config.excluded_extensions@.len(),
            r@.len() == n_ext + j,
            forall|k: int|
                0 <= k < n_ext ==> is_ext_rule(
                    #[trigger] r@[k],
                    config.excluded_extensions.deep_view()[k],
                ),
            forall|k: int|
                0 <= k < j ==> represents_dir_rule(
                    #[trigger] r@[n_ext + k],
                    config.excluded_directories.deep_view()[k],
                ),
        decreases config.excluded_directories.len() - j,
    {
        let d = &config.excluded_directories[j];
        let ds = d.as_str();
        let rule = if ds.unicode_len() > 0 && ds.get_char(0) == '/' {
            BackupRule::ExcludeDirAbsolute { path: split_components(ds) }
        } else if has_sep(ds) {
            BackupRule::ExcludeDirSuffix { suffix: split_components(ds) }
        } else {
            BackupRule::ExcludeDirName { name: d.clone() }
        };
        r.push(rule);
        j = j + 1;
    }
    r
}

} // verus!

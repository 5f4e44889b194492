//! The search for workspaces: which of the directories met in a walk below
//! a search path are candidates, and which are not even entered.
//!
//! The walk itself is the caller's. It hands over what it met as
//! [`WalkEntry`] values and asks before it descends. What lies on the way
//! to an entry, and how deep below the search path it lies, is read from the
//! text of its path.

use crate::config::TwmGlobal;
use crate::text::{chars_of, string_of, texts_of};
use crate::tmux::SEPARATOR;
use crate::workspace::{
    contains_file, first_match, get_workspace_type_for_path, holds_file, DirectoryFiles,
};
use vstd::prelude::*;

verus! {

/// Where the component that starts at `from` ends: the position of the
/// first separator at or after `from`, or the end of `path`.
pub open spec fn part_end(path: Seq<char>, from: int) -> int
    decreases path.len() - from,
{
    if from < 0 || from >= path.len() {
        path.len() as int
    } else if path[from] == SEPARATOR {
        from
    } else {
        part_end(path, from + 1)
    }
}

/// The components of `path[from..]`: what stands between its separators,
/// in order, but for what is empty.
pub open spec fn parts_from(path: Seq<char>, from: int) -> Seq<Seq<char>>
    decreases path.len() - from,
{
    if from < 0 || from >= path.len() {
        Seq::empty()
    } else {
        let end = part_end(path, from);
        if end < from {
            Seq::empty()
        } else if end == from {
            parts_from(path, from + 1)
        } else if end >= path.len() {
            seq![path.subrange(from, path.len() as int)]
        } else {
            seq![path.subrange(from, end)] + parts_from(path, end + 1)
        }
    }
}

/// The components of `path`.
pub open spec fn path_parts(path: Seq<char>) -> Seq<Seq<char>> {
    parts_from(path, 0)
}

/// The components of `path`, in order.
pub fn split_path(path: &str) -> (parts: Vec<String>)
    ensures
        texts_of(parts@) == path_parts(path@),
{
    let chars = chars_of(path);
    let mut parts: Vec<String> = Vec::new();
    let mut from: usize = 0;
    assert(texts_of(parts@) =~= Seq::<Seq<char>>::empty());
    while from < chars.len()
        invariant
            from <= chars.len(),
            path_parts(chars@) == texts_of(parts@) + parts_from(chars@, from as int),
        decreases chars.len() - from,
    {
        let mut end: usize = from;
        while end < chars.len() && chars[end] != SEPARATOR
            invariant
                from <= end <= chars.len(),
                part_end(chars@, from as int) == part_end(chars@, end as int),
            decreases chars.len() - end,
        {
            end += 1;
        }
        if end > from {
            let mut part: Vec<char> = Vec::new();
            let mut i: usize = from;
            while i < end
                invariant
                    from <= i <= end <= chars.len(),
                    part@ == chars@.subrange(from as int, i as int),
                decreases end - i,
            {
                part.push(chars[i]);
                assert(part@ =~= chars@.subrange(from as int, i + 1));
                i += 1;
            }
            let ghost before = texts_of(parts@);
            parts.push(string_of(&part));
            proof {
                assert(texts_of(parts@) =~= before.push(part@));
                if end < chars.len() {
                    assert(before.push(part@) + parts_from(chars@, end + 1) =~= before + (seq![
                        part@,
                    ] + parts_from(chars@, end + 1)));
                } else {
                    assert(parts_from(chars@, end as int) =~= Seq::<Seq<char>>::empty());
                    assert(before.push(part@) + parts_from(chars@, end as int) =~= before + seq![
                        part@,
                    ]);
                }
            }
        }
        from = if end < chars.len() {
            end + 1
        } else {
            end
        };
    }
    assert(texts_of(parts@) + parts_from(chars@, from as int) =~= texts_of(parts@));
    parts
}

/// Whether the components `outer` begin with the components `inner`.
fn begins_with(outer: &Vec<String>, inner: &Vec<String>) -> (begins: bool)
    ensures
        begins == texts_of(inner@).is_prefix_of(texts_of(outer@)),
{
    if inner.len() > outer.len() {
        return false;
    }
    let mut i: usize = 0;
    while i < inner.len()
        invariant
            i <= inner.len() <= outer.len(),
            forall|j: int| 0 <= j < i ==> inner@[j]@ == outer@[j]@,
        decreases inner.len() - i,
    {
        if !inner[i].as_str().eq(outer[i].as_str()) {
            assert(texts_of(outer@).subrange(0, inner@.len() as int)[i as int] == outer@[i as int]@);
            assert(texts_of(inner@)[i as int] == inner@[i as int]@);
            return false;
        }
        i += 1;
    }
    assert(texts_of(inner@) =~= texts_of(outer@).subrange(0, inner@.len() as int));
    true
}

/// One entry met in a walk below a search path.
#[derive(Debug, Clone, PartialEq, Eq)]
pub struct WalkEntry {
    /// The path of the entry: that of the search path, and below it the
    /// names that lead to the entry.
    pub path: String,
    /// Whether the entry is a directory.
    pub is_dir: bool,
    /// The names that exist under the entry.
    pub files: DirectoryFiles,
}

impl WalkEntry {
    /// Whether the entry is the search path `dir` or lies below it: its
    /// path begins with the components of `dir`.
    pub open spec fn is_below(self, dir: Seq<char>) -> bool {
        path_parts(dir).is_prefix_of(path_parts(self.path@))
    }

    /// How deep below the search path `dir` the entry lies: how many
    /// components its path has more. The search path itself is at depth 0.
    pub open spec fn depth(self, dir: Seq<char>) -> nat {
        if self.is_below(dir) {
            (path_parts(self.path@).len() - path_parts(dir).len()) as nat
        } else {
            0
        }
    }

    /// Whether a component of the entry's path is excluded: the entry, or a
    /// directory that leads to it, has an excluded name. The components of
    /// the search path count too, so a search path that lies below an
    /// excluded directory is not searched.
    pub open spec fn is_pruned(self, excluded: Seq<String>) -> bool {
        exists|k: int|
            0 <= k < path_parts(self.path@).len() && holds_file(
                excluded,
                #[trigger] path_parts(self.path@)[k],
            )
    }

    /// Whether the walk below `dir` comes to the entry: it lies at or below
    /// `dir`, no deeper than the search goes, and no name on the way is
    /// excluded.
    pub open spec fn is_visited(self, dir: Seq<char>, config: TwmGlobal) -> bool {
        &&& self.is_below(dir)
        &&& !self.is_pruned(config.exclude_path_components@)
        &&& self.depth(dir) <= config.max_search_depth
    }

    /// Whether the walk goes on below the entry: it comes to it, the entry
    /// is a directory, and the search goes deeper.
    pub open spec fn is_entered(self, dir: Seq<char>, config: TwmGlobal) -> bool {
        self.is_dir && self.is_visited(dir, config) && self.depth(dir) < config.max_search_depth
    }

    /// Whether the entry is a workspace candidate: a directory that the
    /// walk comes to and that meets a workspace definition.
    pub open spec fn is_candidate(self, dir: Seq<char>, config: TwmGlobal) -> bool {
        &&& self.is_dir
        &&& self.is_visited(dir, config)
        &&& first_match(config.workspace_definitions@, self.files@) is Some
    }

    /// How deep below the search path `dir` the entry lies; `None` where it
    /// does not lie at or below it.
    pub fn depth_below(&self, dir: &str) -> (depth: Option<usize>)
        ensures
            match depth {
                Some(d) => self.is_below(dir@) && d == self.depth(dir@),
                None => !self.is_below(dir@),
            },
    {
        let outer = split_path(self.path.as_str());
        let inner = split_path(dir);
        if begins_with(&outer, &inner) {
            Some(outer.len() - inner.len())
        } else {
            None
        }
    }

    /// Whether a component of the entry's path is excluded.
    pub fn pruned(&self, excluded: &Vec<String>) -> (pruned: bool)
        ensures
            pruned == self.is_pruned(excluded@),
    {
        let parts = split_path(self.path.as_str());
        let mut k: usize = 0;
        while k < parts.len()
            invariant
                k <= parts.len(),
                texts_of(parts@) == path_parts(self.path@),
                forall|j: int|
                    0 <= j < k ==> !holds_file(excluded@, #[trigger] path_parts(self.path@)[j]),
            decreases parts.len() - k,
        {
            assert(texts_of(parts@)[k as int] == parts@[k as int]@);
            if contains_file(excluded, parts[k].as_str()) {
                return true;
            }
            k += 1;
        }
        false
    }

    /// Whether the walk below `dir` comes to the entry.
    pub fn visited(&self, dir: &str, config: &TwmGlobal) -> (visited: bool)
        ensures
            visited == self.is_visited(dir@, *config),
    {
        match self.depth_below(dir) {
            Some(depth) => depth <= config.max_search_depth && !self.pruned(
                &config.exclude_path_components,
            ),
            None => false,
        }
    }

    /// Whether the walk below `dir` is to go on below the entry. A
    /// directory with an excluded name is not entered, so nothing below it
    /// is ever met.
    pub fn should_descend(&self, dir: &str, config: &TwmGlobal) -> (descend: bool)
        ensures
            descend == self.is_entered(dir@, *config),
    {
        match self.depth_below(dir) {
            Some(depth) => self.is_dir && depth < config.max_search_depth && !self.pruned(
                &config.exclude_path_components,
            ),
            None => false,
        }
    }

    /// Whether the entry is a workspace candidate of the walk below `dir`.
    pub fn is_workspace(&self, dir: &str, config: &TwmGlobal) -> (candidate: bool)
        ensures
            candidate == self.is_candidate(dir@, *config),
    {
        if !self.is_dir || !self.visited(dir, config) {
            return false;
        }
        get_workspace_type_for_path(&self.files, config.workspace_definitions.as_slice()).is_some()
    }
}

/// The paths of the candidates among `entries[..upto]`, in order.
pub open spec fn candidates(
    dir: Seq<char>,
    entries: Seq<WalkEntry>,
    config: TwmGlobal,
    upto: int,
) -> Seq<Seq<char>>
    decreases upto,
{
    if upto <= 0 || upto > entries.len() {
        Seq::empty()
    } else if entries[upto - 1].is_candidate(dir, config) {
        candidates(dir, entries, config, upto - 1).push(entries[upto - 1].path@)
    } else {
        candidates(dir, entries, config, upto - 1)
    }
}

/// The workspace candidates among the entries of a walk below the search
/// path `dir`: the path of every directory that the walk comes to and that
/// meets a workspace definition, in the order of `entries`. Each is there
/// once for each time it was met.
pub fn find_workspaces_in_dir(dir: &str, entries: &[WalkEntry], config: &TwmGlobal) -> (found: Vec<
    String,
>)
    ensures
        texts_of(found@) == candidates(dir@, entries@, *config, entries@.len() as int),
{
    let mut found: Vec<String> = Vec::new();
    let mut i: usize = 0;
    assert(texts_of(found@) =~= Seq::<Seq<char>>::empty());
    while i < entries.len()
        invariant
            i <= entries.len(),
            texts_of(found@) == candidates(dir@, entries@, *config, i as int),
        decreases entries.len() - i,
    {
        if entries[i].is_workspace(dir, config) {
            let ghost before = texts_of(found@);
            found.push(entries[i].path.clone());
            assert(texts_of(found@) =~= before.push(entries@[i as int].path@));
        }
        i += 1;
    }
    found
}

/// Nothing at or below an excluded directory is a candidate, and the walk
/// does not go on below it, whatever files it holds.
pub proof fn excluded_is_never_found(entry: WalkEntry, dir: Seq<char>, config: TwmGlobal)
    requires
        entry.is_pruned(config.exclude_path_components@),
    ensures
        !entry.is_candidate(dir, config),
        !entry.is_entered(dir, config),
{
}

/// What lies below an excluded directory is excluded with it: an entry
/// whose path begins with the components of a pruned entry is pruned.
pub proof fn below_excluded_is_excluded(above: WalkEntry, entry: WalkEntry, excluded: Seq<String>)
    requires
        path_parts(above.path@).is_prefix_of(path_parts(entry.path@)),
        above.is_pruned(excluded),
    ensures
        entry.is_pruned(excluded),
{
    let outer = path_parts(entry.path@);
    let inner = path_parts(above.path@);
    let k = choose|k: int| 0 <= k < inner.len() && holds_file(excluded, #[trigger] inner[k]);
    assert(outer.subrange(0, inner.len() as int)[k] == outer[k]);
    assert(holds_file(excluded, outer[k]));
}

/// Nothing deeper than the search goes is a candidate, and the walk stops
/// at the depth it is given.
pub proof fn too_deep_is_never_found(entry: WalkEntry, dir: Seq<char>, config: TwmGlobal)
    requires
        entry.depth(dir) > config.max_search_depth,
    ensures
        !entry.is_candidate(dir, config),
        !entry.is_entered(dir, config),
{
}

/// Every path that the search gives is that of a candidate among the
/// entries: of a directory that is not excluded, not too deep, and meets a
/// definition.
pub proof fn found_is_a_candidate(
    dir: Seq<char>,
    entries: Seq<WalkEntry>,
    config: TwmGlobal,
    upto: int,
    i: int,
)
    requires
        0 <= upto <= entries.len(),
        0 <= i < candidates(dir, entries, config, upto).len(),
    ensures
        exists|k: int|
            0 <= k < upto && (#[trigger] entries[k]).is_candidate(dir, config) && entries[k].path@
                == candidates(dir, entries, config, upto)[i],
    decreases upto,
{
    if upto > 0 {
        let shorter = candidates(dir, entries, config, upto - 1);
        if entries[upto - 1].is_candidate(dir, config) && i == shorter.len() {
            assert(entries[upto - 1].path@ == candidates(dir, entries, config, upto)[i]);
        } else {
            found_is_a_candidate(dir, entries, config, upto - 1, i);
        }
    }
}

/// Every candidate among the entries is given by the search: its path is
/// among the paths found.
pub proof fn candidate_is_found(
    dir: Seq<char>,
    entries: Seq<WalkEntry>,
    config: TwmGlobal,
    upto: int,
    k: int,
)
    requires
        0 <= k < upto <= entries.len(),
        entries[k].is_candidate(dir, config),
    ensures
        exists|i: int|
            0 <= i < candidates(dir, entries, config, upto).len() && #[trigger] candidates(
                dir,
                entries,
                config,
                upto,
            )[i] == entries[k].path@,
    decreases upto,
{
    let shorter = candidates(dir, entries, config, upto - 1);
    if k == upto - 1 {
        assert(candidates(dir, entries, config, upto)[shorter.len() as int] == entries[k].path@);
    } else {
        candidate_is_found(dir, entries, config, upto - 1, k);
        let i = choose|i: int| 0 <= i < shorter.len() && #[trigger] shorter[i] == entries[k].path@;
        assert(candidates(dir, entries, config, upto)[i] == entries[k].path@);
    }
}

} // verus!

//! Workspace definitions and the conditions that decide whether a directory
//! is a workspace of a given type.
//!
//! A condition never touches the file system. It is evaluated against a
//! [`DirectoryFiles`] value: the names, written as a definition writes them,
//! that were found to exist under one directory.

use vstd::prelude::*;

verus! {

/// Whether `files` holds a name equal to `file`.
pub open spec fn holds_file(files: Seq<String>, file: Seq<char>) -> bool {
    exists|i: int| 0 <= i < files.len() && #[trigger] files[i]@ == file
}

/// Looks `file` up among `files`.
pub fn contains_file(files: &Vec<String>, file: &str) -> (found: bool)
    ensures
        found == holds_file(files@, file@),
{
    let mut i: usize = 0;
    while i < files.len()
        invariant
            i <= files.len(),
            forall|j: int| 0 <= j < i ==> (#[trigger] files@[j])@ != file@,
        decreases files.len() - i,
    {
        if files[i].as_str().eq(file) {
            return true;
        }
        i += 1;
    }
    false
}

/// The names that exist under one directory, each relative to it.
#[derive(Debug, Clone, PartialEq, Eq)]
pub struct DirectoryFiles {
    /// Names that exist. Order and repetition carry no meaning.
    pub present: Vec<String>,
}

impl View for DirectoryFiles {
    type V = Set<Seq<char>>;

    /// The set of names that exist.
    open spec fn view(&self) -> Set<Seq<char>> {
        Set::new(|file: Seq<char>| holds_file(self.present@, file))
    }
}

impl DirectoryFiles {
    /// A directory under which the names in `present` exist, and no others.
    pub fn new(present: Vec<String>) -> (dir: Self)
        ensures
            dir.present == present,
    {
        DirectoryFiles { present }
    }

    /// Whether `file` exists under the directory.
    pub fn has(&self, file: &str) -> (found: bool)
        ensures
            found == self@.contains(file@),
    {
        contains_file(&self.present, file)
    }
}

/// At least one of `files` is in `present`.
pub open spec fn any_present(files: Seq<String>, present: Set<Seq<char>>) -> bool {
    exists|i: int| 0 <= i < files.len() && present.contains(#[trigger] files[i]@)
}

/// Every one of `files` is in `present`.
pub open spec fn all_present(files: Seq<String>, present: Set<Seq<char>>) -> bool {
    forall|i: int| 0 <= i < files.len() ==> present.contains(#[trigger] files[i]@)
}

/// A test on the files of a directory.
pub trait WorkspaceCondition {
    /// What the condition demands of the set of names that exist.
    spec fn holds(&self, present: Set<Seq<char>>) -> bool;

    /// Evaluates the condition for one directory.
    fn meets_condition(&self, dir: &DirectoryFiles) -> (met: bool)
        ensures
            met == self.holds(dir@),
    ;
}

/// Met when at least one of `files` exists.
#[derive(Debug, Clone, PartialEq, Eq)]
pub struct HasAnyFileCondition {
    pub files: Vec<String>,
}

/// Met when every one of `files` exists.
#[derive(Debug, Clone, PartialEq, Eq)]
pub struct HasAllFilesCondition {
    pub files: Vec<String>,
}

/// Met when at least one of `files` does not exist.
#[derive(Debug, Clone, PartialEq, Eq)]
pub struct MissingAnyFileCondition {
    pub files: Vec<String>,
}

/// Met when none of `files` exists.
#[derive(Debug, Clone, PartialEq, Eq)]
pub struct MissingAllFilesCondition {
    pub files: Vec<String>,
}

/// Always met. It stands in a definition that names no files.
#[derive(Debug, Clone, PartialEq, Eq)]
pub struct NullCondition {}

impl WorkspaceCondition for HasAnyFileCondition {
    open spec fn holds(&self, present: Set<Seq<char>>) -> bool {
        any_present(self.files@, present)
    }

    fn meets_condition(&self, dir: &DirectoryFiles) -> (met: bool) {
        let mut i: usize = 0;
        while i < self.files.len()
            invariant
                i <= self.files.len(),
                forall|j: int| 0 <= j < i ==> !dir@.contains((#[trigger] self.files@[j])@),
            decreases self.files.len() - i,
        {
            if dir.has(self.files[i].as_str()) {
                return true;
            }
            i += 1;
        }
        false
    }
}

impl WorkspaceCondition for HasAllFilesCondition {
    open spec fn holds(&self, present: Set<Seq<char>>) -> bool {
        all_present(self.files@, present)
    }

    fn meets_condition(&self, dir: &DirectoryFiles) -> (met: bool) {
        let mut i: usize = 0;
        while i < self.files.len()
            invariant
                i <= self.files.len(),
                forall|j: int| 0 <= j < i ==> dir@.contains((#[trigger] self.files@[j])@),
            decreases self.files.len() - i,
        {
            if !dir.has(self.files[i].as_str()) {
                return false;
            }
            i += 1;
        }
        true
    }
}

impl WorkspaceCondition for MissingAnyFileCondition {
    open spec fn holds(&self, present: Set<Seq<char>>) -> bool {
        !all_present(self.files@, present)
    }

    fn meets_condition(&self, dir: &DirectoryFiles) -> (met: bool) {
        let mut i: usize = 0;
        while i < self.files.len()
            invariant
                i <= self.files.len(),
                forall|j: int| 0 <= j < i ==> dir@.contains((#[trigger] self.files@[j])@),
            decreases self.files.len() - i,
        {
            if !dir.has(self.files[i].as_str()) {
                return true;
            }
            i += 1;
        }
        false
    }
}

impl WorkspaceCondition for MissingAllFilesCondition {
    open spec fn holds(&self, present: Set<Seq<char>>) -> bool {
        !any_present(self.files@, present)
    }

    fn meets_condition(&self, dir: &DirectoryFiles) -> (met: bool) {
        let mut i: usize = 0;
        while i < self.files.len()
            invariant
                i <= self.files.len(),
                forall|j: int| 0 <= j < i ==> !dir@.contains((#[trigger] self.files@[j])@),
            decreases self.files.len() - i,
        {
            if dir.has(self.files[i].as_str()) {
                return false;
            }
            i += 1;
        }
        true
    }
}

impl WorkspaceCondition for NullCondition {
    open spec fn holds(&self, present: Set<Seq<char>>) -> bool {
        true
    }

    fn meets_condition(&self, dir: &DirectoryFiles) -> (met: bool) {
        true
    }
}

/// The closed set of conditions a definition can hold.
#[derive(Debug, Clone, PartialEq, Eq)]
pub enum WorkspaceConditionEnum {
    HasAnyFileCondition(HasAnyFileCondition),
    HasAllFilesCondition(HasAllFilesCondition),
    MissingAnyFileCondition(MissingAnyFileCondition),
    MissingAllFilesCondition(MissingAllFilesCondition),
    NullCondition(NullCondition),
}

impl WorkspaceCondition for WorkspaceConditionEnum {
    open spec fn holds(&self, present: Set<Seq<char>>) -> bool {
        match self {
            WorkspaceConditionEnum::HasAnyFileCondition(c) => c.holds(present),
            WorkspaceConditionEnum::HasAllFilesCondition(c) => c.holds(present),
            WorkspaceConditionEnum::MissingAnyFileCondition(c) => c.holds(present),
            WorkspaceConditionEnum::MissingAllFilesCondition(c) => c.holds(present),
            WorkspaceConditionEnum::NullCondition(c) => c.holds(present),
        }
    }

    fn meets_condition(&self, dir: &DirectoryFiles) -> (met: bool) {
        match self {
            WorkspaceConditionEnum::HasAnyFileCondition(c) => c.meets_condition(dir),
            WorkspaceConditionEnum::HasAllFilesCondition(c) => c.meets_condition(dir),
            WorkspaceConditionEnum::MissingAnyFileCondition(c) => c.meets_condition(dir),
            WorkspaceConditionEnum::MissingAllFilesCondition(c) => c.meets_condition(dir),
            WorkspaceConditionEnum::NullCondition(c) => c.meets_condition(dir),
        }
    }
}

/// A type of workspace, and what a directory must meet to be one.
#[derive(Debug, Clone, PartialEq, Eq)]
pub struct WorkspaceDefinition {
    /// The name of the workspace type. A session records it.
    pub name: String,
    /// Conditions that must all be met.
    pub conditions: Vec<WorkspaceConditionEnum>,
    /// The layout applied to a new session of this type, if any.
    pub default_layout: Option<String>,
}

/// Every condition of `conditions` holds of `present`.
pub open spec fn all_hold(conditions: Seq<WorkspaceConditionEnum>, present: Set<Seq<char>>) -> bool {
    forall|i: int| 0 <= i < conditions.len() ==> (#[trigger] conditions[i]).holds(present)
}

/// The position of the first definition whose conditions all hold of
/// `present`, if there is one.
pub open spec fn first_match(
    definitions: Seq<WorkspaceDefinition>,
    present: Set<Seq<char>>,
) -> Option<int> {
    if exists|i: int| is_first_match(definitions, present, i) {
        Some(choose|i: int| is_first_match(definitions, present, i))
    } else {
        None
    }
}

/// Definition `i` matches `present`, and none before it does.
pub open spec fn is_first_match(
    definitions: Seq<WorkspaceDefinition>,
    present: Set<Seq<char>>,
    i: int,
) -> bool {
    &&& 0 <= i < definitions.len()
    &&& all_hold(definitions[i].conditions@, present)
    &&& forall|j: int| 0 <= j < i ==> !all_hold((#[trigger] definitions[j]).conditions@, present)
}

/// At most one position is the first match.
pub proof fn first_match_is_unique(
    definitions: Seq<WorkspaceDefinition>,
    present: Set<Seq<char>>,
    i: int,
)
    requires
        is_first_match(definitions, present, i),
    ensures
        first_match(definitions, present) == Some(i),
{
    let k = choose|k: int| is_first_match(definitions, present, k);
    if k < i {
        assert(!all_hold(definitions[k].conditions@, present));
    } else if i < k {
        assert(!all_hold(definitions[i].conditions@, present));
    }
}

/// No definition matches exactly when there is no first match.
pub proof fn no_match_means_none(definitions: Seq<WorkspaceDefinition>, present: Set<Seq<char>>)
    requires
        forall|i: int|
            0 <= i < definitions.len() ==> !all_hold(
                (#[trigger] definitions[i]).conditions@,
                present,
            ),
    ensures
        first_match(definitions, present) is None,
{
    if exists|i: int| is_first_match(definitions, present, i) {
        let k = choose|k: int| is_first_match(definitions, present, k);
        assert(!all_hold(definitions[k].conditions@, present));
    }
}

/// Whether a directory meets every condition of a list. An empty list is met.
pub fn path_meets_workspace_conditions(
    dir: &DirectoryFiles,
    conditions: &[WorkspaceConditionEnum],
) -> (met: bool)
    ensures
        met == all_hold(conditions@, dir@),
{
    let mut i: usize = 0;
    while i < conditions.len()
        invariant
            i <= conditions.len(),
            forall|j: int| 0 <= j < i ==> (#[trigger] conditions@[j]).holds(dir@),
        decreases conditions.len() - i,
    {
        if !conditions[i].meets_condition(dir) {
            return false;
        }
        i += 1;
    }
    true
}

/// The name of the first definition, in list order, whose conditions the
/// directory meets; `None` when it meets none.
pub fn get_workspace_type_for_path<'a>(
    dir: &DirectoryFiles,
    workspace_definitions: &'a [WorkspaceDefinition],
) -> (workspace_type: Option<&'a str>)
    ensures
        match first_match(workspace_definitions@, dir@) {
            Some(i) => workspace_type matches Some(name) && name@
                == workspace_definitions@[i].name@,
            None => workspace_type is None,
        },
{
    let mut i: usize = 0;
    while i < workspace_definitions.len()
        invariant
            i <= workspace_definitions.len(),
            forall|j: int|
                0 <= j < i ==> !all_hold((#[trigger] workspace_definitions@[j]).conditions@, dir@),
        decreases workspace_definitions.len() - i,
    {
        if path_meets_workspace_conditions(dir, workspace_definitions[i].conditions.as_slice()) {
            proof {
                first_match_is_unique(workspace_definitions@, dir@, i as int);
            }
            return Some(workspace_definitions[i].name.as_str());
        }
        i += 1;
    }
    proof {
        no_match_means_none(workspace_definitions@, dir@);
    }
    None
}

impl WorkspaceConditionEnum {
    /// The files the condition asks about.
    pub open spec fn file_names(&self) -> Seq<String> {
        match self {
            WorkspaceConditionEnum::HasAnyFileCondition(c) => c.files@,
            WorkspaceConditionEnum::HasAllFilesCondition(c) => c.files@,
            WorkspaceConditionEnum::MissingAnyFileCondition(c) => c.files@,
            WorkspaceConditionEnum::MissingAllFilesCondition(c) => c.files@,
            WorkspaceConditionEnum::NullCondition(c) => Seq::empty(),
        }
    }

    /// The files the condition asks about; none for the condition that is
    /// always met.
    pub fn files(&self) -> (files: &[String])
        ensures
            files@ == self.file_names(),
    {
        match self {
            WorkspaceConditionEnum::HasAnyFileCondition(c) => c.files.as_slice(),
            WorkspaceConditionEnum::HasAllFilesCondition(c) => c.files.as_slice(),
            WorkspaceConditionEnum::MissingAnyFileCondition(c) => c.files.as_slice(),
            WorkspaceConditionEnum::MissingAllFilesCondition(c) => c.files.as_slice(),
            WorkspaceConditionEnum::NullCondition(c) => {
                let none: &[String] = &[];
                none
            },
        }
    }
}

/// Whether condition `j` of definition `i` asks about `file`.
pub open spec fn asks_about(
    definitions: Seq<WorkspaceDefinition>,
    i: int,
    j: int,
    file: Seq<char>,
) -> bool {
    &&& 0 <= i < definitions.len()
    &&& 0 <= j < definitions[i].conditions@.len()
    &&& holds_file(definitions[i].conditions@[j].file_names(), file)
}

/// Whether a condition of one of `definitions` asks about `file`.
pub open spec fn is_asked_about(definitions: Seq<WorkspaceDefinition>, file: Seq<char>) -> bool {
    exists|i: int, j: int| asks_about(definitions, i, j, file)
}

/// The names to look for under a directory before its type can be told:
/// every file that a condition of `definitions` asks about, and no other.
pub fn probe_names(definitions: &[WorkspaceDefinition]) -> (names: Vec<String>)
    ensures
        forall|file: Seq<char>|
            holds_file(names@, file) <==> is_asked_about(definitions@, file),
{
    let mut names: Vec<String> = Vec::new();
    let mut i: usize = 0;
    while i < definitions.len()
        invariant
            i <= definitions.len(),
            forall|file: Seq<char>|
                holds_file(names@, file) <==> exists|a: int, b: int|
                    a < i && asks_about(definitions@, a, b, file),
        decreases definitions.len() - i,
    {
        let conditions = &definitions[i].conditions;
        let mut j: usize = 0;
        while j < conditions.len()
            invariant
                i < definitions.len(),
                j <= conditions.len(),
                *conditions == definitions@[i as int].conditions,
                forall|file: Seq<char>|
                    holds_file(names@, file) <==> exists|a: int, b: int|
                        (a < i || (a == i && b < j)) && asks_about(definitions@, a, b, file),
            decreases conditions.len() - j,
        {
            let files = conditions[j].files();
            let mut k: usize = 0;
            while k < files.len()
                invariant
                    i < definitions.len(),
                    j < conditions.len(),
                    k <= files.len(),
                    *conditions == definitions@[i as int].conditions,
                    files@ == conditions@[j as int].file_names(),
                    forall|file: Seq<char>|
                        holds_file(names@, file) <==> (exists|a: int, b: int|
                            (a < i || (a == i && b < j)) && asks_about(definitions@, a, b, file))
                            || holds_file(files@.take(k as int), file),
                decreases files.len() - k,
            {
                let ghost before = names@;
                names.push(files[k].clone());
                proof {
                    assert forall|file: Seq<char>|
                        holds_file(names@, file) <==> (exists|a: int, b: int|
                            (a < i || (a == i && b < j)) && asks_about(definitions@, a, b, file))
                            || holds_file(files@.take(k + 1), file) by {
                        let shorter = files@.take(k as int);
                        let longer = files@.take(k + 1);
                        if holds_file(names@, file) {
                            let w = choose|w: int| 0 <= w < names@.len() && names@[w]@ == file;
                            if w < before.len() {
                                assert(before[w]@ == file);
                                assert(holds_file(before, file));
                                if holds_file(shorter, file) {
                                    let v = choose|v: int|
                                        0 <= v < shorter.len() && shorter[v]@ == file;
                                    assert(longer[v]@ == file);
                                }
                            } else {
                                assert(longer[k as int]@ == file);
                            }
                        }
                        if holds_file(longer, file) {
                            let v = choose|v: int| 0 <= v < longer.len() && longer[v]@ == file;
                            if v < k {
                                assert(shorter[v]@ == file);
                                assert(holds_file(before, file));
                                let w = choose|w: int| 0 <= w < before.len() && before[w]@ == file;
                                assert(names@[w]@ == file);
                            } else {
                                assert(names@[before.len() as int]@ == file);
                            }
                        }
                        if exists|a: int, b: int|
                            (a < i || (a == i && b < j)) && asks_about(definitions@, a, b, file) {
                            assert(holds_file(before, file));
                            let w = choose|w: int| 0 <= w < before.len() && before[w]@ == file;
                            assert(names@[w]@ == file);
                        }
                    }
                }
                k += 1;
            }
            proof {
                assert(files@.take(files@.len() as int) =~= files@);
                assert forall|file: Seq<char>|
                    holds_file(names@, file) <==> exists|a: int, b: int|
                        (a < i || (a == i && b < j + 1)) && asks_about(
                            definitions@,
                            a,
                            b,
                            file,
                        ) by {
                    if holds_file(files@, file) {
                        assert(asks_about(definitions@, i as int, j as int, file));
                    }
                    if exists|a: int, b: int|
                        (a < i || (a == i && b < j + 1)) && asks_about(definitions@, a, b, file) {
                        let (a, b) = choose|a: int, b: int|
                            (a < i || (a == i && b < j + 1)) && asks_about(
                                definitions@,
                                a,
                                b,
                                file,
                            );
                        if a == i && b == j {
                            assert(holds_file(files@, file));
                        } else {
                            assert((a < i || (a == i && b < j)) && asks_about(
                                definitions@,
                                a,
                                b,
                                file,
                            ));
                        }
                    }
                }
            }
            j += 1;
        }
        proof {
            assert forall|file: Seq<char>|
                holds_file(names@, file) <==> exists|a: int, b: int|
                    a < i + 1 && asks_about(definitions@, a, b, file) by {
                if exists|a: int, b: int| a < i + 1 && asks_about(definitions@, a, b, file) {
                    let (a, b) = choose|a: int, b: int|
                        a < i + 1 && asks_about(definitions@, a, b, file);
                    assert((a < i || (a == i && b < j)) && asks_about(definitions@, a, b, file));
                }
                if exists|a: int, b: int|
                    (a < i || (a == i && b < j)) && asks_about(definitions@, a, b, file) {
                    let (a, b) = choose|a: int, b: int|
                        (a < i || (a == i && b < j)) && asks_about(definitions@, a, b, file);
                    assert(a < i + 1 && asks_about(definitions@, a, b, file));
                }
            }
        }
        i += 1;
    }
    proof {
        assert forall|file: Seq<char>|
            holds_file(names@, file) <==> is_asked_about(definitions@, file) by {
            if is_asked_about(definitions@, file) {
                let (a, b) = choose|a: int, b: int| asks_about(definitions@, a, b, file);
                assert(a < i && asks_about(definitions@, a, b, file));
            }
        }
    }
    names
}

} // verus!

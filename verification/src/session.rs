//! Choosing the session name for a workspace against the sessions that
//! exist.
//!
//! A name is proposed from the last components of the workspace's path. If a
//! session of that name exists and belongs to another workspace, one more
//! component is taken, until the name is free, the session found is the
//! workspace's own, or the path has no component left.

use crate::layout::{chain_is_short, is_chain};
use crate::text::{chars_of, decimal, decimal_reads_back, is_digit, push_decimal};
use crate::tmux::{
    component_count, group_candidate, sanitized, session_name_of, SessionName, SEPARATOR,
};
use vstd::prelude::*;

verus! {

/// What the multiplexer says of one session name.
#[derive(Debug, Clone, PartialEq, Eq)]
pub enum SessionStatus {
    /// No session has the name.
    Absent,
    /// A session has the name. `root` is the root path recorded on it, if
    /// one could be read.
    Present { root: Option<String> },
}

/// How a name proposed for a workspace stands to the sessions that exist.
#[derive(Debug, Clone, Copy, PartialEq, Eq)]
pub enum Claim {
    /// No session has the name.
    Free,
    /// The session of that name was made for this workspace.
    Ours,
    /// The session of that name belongs elsewhere: to another workspace, or
    /// to no workspace that can be told.
    Taken,
}

/// Why no session name could be chosen.
#[derive(Debug, Clone, Copy, PartialEq, Eq)]
pub enum ResolveError {
    /// Every name the path can give is taken.
    Exhausted,
}

impl SessionStatus {
    /// How a name with this status stands to the workspace at `path`.
    pub open spec fn claim_of(self, path: Seq<char>) -> Claim {
        match self {
            SessionStatus::Absent => Claim::Free,
            SessionStatus::Present { root: Some(root) } => if root@ == path {
                Claim::Ours
            } else {
                Claim::Taken
            },
            SessionStatus::Present { root: None } => Claim::Taken,
        }
    }

    /// How a name with this status stands to the workspace at `path`.
    pub fn claim(&self, path: &str) -> (claim: Claim)
        ensures
            claim == self.claim_of(path@),
    {
        match self {
            SessionStatus::Absent => Claim::Free,
            SessionStatus::Present { root: Some(root) } => {
                if root.as_str().eq(path) {
                    Claim::Ours
                } else {
                    Claim::Taken
                }
            },
            SessionStatus::Present { root: None } => Claim::Taken,
        }
    }
}

/// No further name can be proposed after the one of `components`
/// components: it holds the whole path already, or the count cannot grow.
pub open spec fn out_of_components(path: Seq<char>, components: nat) -> bool {
    components >= component_count(path) || components >= usize::MAX
}

/// How many separators `path` holds: one fewer than it has components.
pub fn separator_count(path: &str) -> (count: usize)
    ensures
        count + 1 == component_count(path@),
{
    let chars = chars_of(path);
    let mut count: usize = 0;
    let mut i: usize = 0;
    assert(chars@.take(0) =~= Seq::<char>::empty());
    while i < chars.len()
        invariant
            i <= chars.len(),
            count <= i,
            count + 1 == component_count(chars@.take(i as int)),
        decreases chars.len() - i,
    {
        assert(chars@.take(i + 1).drop_last() =~= chars@.take(i as int));
        if chars[i] == SEPARATOR {
            count += 1;
        }
        i += 1;
    }
    assert(chars@.take(chars@.len() as int) =~= chars@);
    count
}

/// The number of components to try after `components`, if there is one.
pub fn more_components(path: &str, components: usize) -> (next: Option<usize>)
    ensures
        next == if out_of_components(path@, components as nat) {
            None
        } else {
            Some((components + 1) as usize)
        },
{
    let separators = separator_count(path);
    if components > separators || components == usize::MAX {
        None
    } else {
        Some(components + 1)
    }
}

/// What to do next when choosing the name of the session to open.
#[derive(Debug, Clone, PartialEq, Eq)]
pub enum OpenStep {
    /// Open the workspace under this name. Its session is new when the name
    /// was free, and is the workspace's own when it was not.
    Use(SessionName),
    /// The name is taken: ask about the name of this many components.
    Retry { components: usize },
    /// The name is taken and the path has no component left.
    Exhausted,
}

/// What to do next when looking for the session that a workspace has.
#[derive(Debug, Clone, PartialEq, Eq)]
pub enum LookupStep {
    /// The workspace has this session.
    Found(SessionName),
    /// The workspace has no session.
    Missing,
    /// The name is taken: ask about the name of this many components.
    Retry { components: usize },
    /// The name is taken and the path has no component left.
    Exhausted,
}

/// Decides, from the multiplexer's answer `status` about the name of
/// `components` components of `path`, how the choice of a name to open the
/// workspace under goes on. A free name and the workspace's own session are
/// used; a taken name is retried with one more component.
pub fn open_step(path: &str, components: usize, status: &SessionStatus) -> (step: OpenStep)
    ensures
        match status.claim_of(path@) {
            Claim::Free | Claim::Ours => step matches OpenStep::Use(name) && name@
                == session_name_of(path@, components as nat),
            Claim::Taken => if out_of_components(path@, components as nat) {
                step == OpenStep::Exhausted
            } else {
                step == (OpenStep::Retry { components: (components + 1) as usize })
            },
        },
{
    match status.claim(path) {
        Claim::Free | Claim::Ours => OpenStep::Use(SessionName::new(path, components)),
        Claim::Taken => match more_components(path, components) {
            Some(next) => OpenStep::Retry { components: next },
            None => OpenStep::Exhausted,
        },
    }
}

/// Decides, from the multiplexer's answer `status` about the name of
/// `components` components of `path`, how the search for the workspace's
/// session goes on. A free name ends it: the workspace has no session.
pub fn lookup_step(path: &str, components: usize, status: &SessionStatus) -> (step: LookupStep)
    ensures
        match status.claim_of(path@) {
            Claim::Free => step == LookupStep::Missing,
            Claim::Ours => step matches LookupStep::Found(name) && name@ == session_name_of(
                path@,
                components as nat,
            ),
            Claim::Taken => if out_of_components(path@, components as nat) {
                step == LookupStep::Exhausted
            } else {
                step == (LookupStep::Retry { components: (components + 1) as usize })
            },
        },
{
    match status.claim(path) {
        Claim::Free => LookupStep::Missing,
        Claim::Ours => LookupStep::Found(SessionName::new(path, components)),
        Claim::Taken => match more_components(path, components) {
            Some(next) => LookupStep::Retry { components: next },
            None => LookupStep::Exhausted,
        },
    }
}

/// One session of the multiplexer.
#[derive(Debug, Clone, PartialEq, Eq)]
pub struct Session {
    /// Its name.
    pub name: String,
    /// The root path recorded on it when it was made, if any.
    pub root: Option<String>,
}

/// The sessions of the multiplexer at one moment.
#[derive(Debug, Clone, PartialEq, Eq)]
pub struct SessionTable {
    pub sessions: Vec<Session>,
}

impl View for SessionTable {
    type V = Seq<Session>;

    open spec fn view(&self) -> Seq<Session> {
        self.sessions@
    }
}

/// The status of `name` among `sessions[start..]`: that of the first session
/// so named.
pub open spec fn status_from(sessions: Seq<Session>, name: Seq<char>, start: int) -> SessionStatus
    decreases sessions.len() - start,
{
    if start < 0 || start >= sessions.len() {
        SessionStatus::Absent
    } else if sessions[start].name@ == name {
        SessionStatus::Present { root: sessions[start].root }
    } else {
        status_from(sessions, name, start + 1)
    }
}

/// The status of `name` among `sessions`.
pub open spec fn status_in(sessions: Seq<Session>, name: Seq<char>) -> SessionStatus {
    status_from(sessions, name, 0)
}

/// A name is absent exactly when no session has it.
pub proof fn absent_means_unnamed(sessions: Seq<Session>, name: Seq<char>, start: int)
    requires
        0 <= start,
    ensures
        status_from(sessions, name, start) is Absent <==> forall|i: int|
            start <= i < sessions.len() ==> (#[trigger] sessions[i]).name@ != name,
    decreases sessions.len() - start,
{
    if start < sessions.len() {
        if sessions[start].name@ != name {
            absent_means_unnamed(sessions, name, start + 1);
        }
    }
}

/// A session added at the end changes the status of its own name alone, and
/// of that only when the name was absent.
pub proof fn status_after_push(sessions: Seq<Session>, added: Session, name: Seq<char>, start: int)
    requires
        0 <= start <= sessions.len(),
    ensures
        status_from(sessions.push(added), name, start) == if status_from(sessions, name, start)
            is Absent && added.name@ == name {
            SessionStatus::Present { root: added.root }
        } else {
            status_from(sessions, name, start)
        },
    decreases sessions.len() - start,
{
    let longer = sessions.push(added);
    if start < sessions.len() {
        assert(longer[start] == sessions[start]);
        if sessions[start].name@ != name {
            status_after_push(sessions, added, name, start + 1);
        }
    } else {
        assert(longer[start] == added);
        assert(status_from(longer, name, start + 1) is Absent);
    }
}

/// The number of components of the name under which `path` is opened, when
/// the names are tried from `components` components on against `sessions`;
/// `None` when every name is taken.
pub open spec fn resolve_open(sessions: Seq<Session>, path: Seq<char>, components: nat) -> Option<
    nat,
>
    decreases component_count(path) - components,
{
    let status = status_in(sessions, session_name_of(path, components));
    match status.claim_of(path) {
        Claim::Free | Claim::Ours => Some(components),
        Claim::Taken => if out_of_components(path, components) {
            None
        } else {
            resolve_open(sessions, path, components + 1)
        },
    }
}

/// The number of components of the name of the session that `path` has
/// among `sessions`, when the names are tried from `components` components
/// on. `Ok(None)` says that it has none, `Err` that every name is taken.
pub open spec fn resolve_lookup(sessions: Seq<Session>, path: Seq<char>, components: nat) -> Result<
    Option<nat>,
    ResolveError,
>
    decreases component_count(path) - components,
{
    let status = status_in(sessions, session_name_of(path, components));
    match status.claim_of(path) {
        Claim::Free => Ok(None),
        Claim::Ours => Ok(Some(components)),
        Claim::Taken => if out_of_components(path, components) {
            Err(ResolveError::Exhausted)
        } else {
            resolve_lookup(sessions, path, components + 1)
        },
    }
}

impl SessionTable {
    /// The table of `sessions`.
    pub fn new(sessions: Vec<Session>) -> (table: Self)
        ensures
            table@ == sessions@,
    {
        SessionTable { sessions }
    }

    /// What the table says of `name`.
    pub fn status(&self, name: &str) -> (status: SessionStatus)
        ensures
            status == status_in(self@, name@),
    {
        let mut i: usize = 0;
        while i < self.sessions.len()
            invariant
                i <= self.sessions.len(),
                status_in(self@, name@) == status_from(self@, name@, i as int),
            decreases self.sessions.len() - i,
        {
            if self.sessions[i].name.as_str().eq(name) {
                return SessionStatus::Present { root: self.sessions[i].root.clone() };
            }
            i += 1;
        }
        SessionStatus::Absent
    }
}

/// The name under which the workspace at `path` is opened, given the
/// sessions that exist: the first of the names of `path_components`
/// components and more that is free or is the workspace's own session.
pub fn get_session_name_recursive(
    sessions: &SessionTable,
    path: &str,
    path_components: usize,
) -> (name: Result<SessionName, ResolveError>)
    ensures
        match resolve_open(sessions@, path@, path_components as nat) {
            Some(components) => name matches Ok(chosen) && chosen@ == session_name_of(
                path@,
                components,
            ),
            None => name == Err::<SessionName, ResolveError>(ResolveError::Exhausted),
        },
{
    let mut components = path_components;
    loop
        invariant
            resolve_open(sessions@, path@, path_components as nat) == resolve_open(
                sessions@,
                path@,
                components as nat,
            ),
        decreases component_count(path@) - components,
    {
        let proposed = SessionName::new(path, components);
        let status = sessions.status(proposed.as_str());
        match open_step(path, components, &status) {
            OpenStep::Use(name) => {
                return Ok(name);
            },
            OpenStep::Retry { components: next } => {
                components = next;
            },
            OpenStep::Exhausted => {
                return Err(ResolveError::Exhausted);
            },
        }
    }
}

/// The name of the session that the workspace at `path` has among
/// `sessions`, if it has one: the first of the names of `path_components`
/// components and more whose session records `path` as its root. The search
/// ends without a session at the first name that is free.
pub fn session_name_for_path_recursive(
    sessions: &SessionTable,
    path: &str,
    path_components: usize,
) -> (name: Result<Option<SessionName>, ResolveError>)
    ensures
        match resolve_lookup(sessions@, path@, path_components as nat) {
            Ok(Some(components)) => name matches Ok(Some(found)) && found@ == session_name_of(
                path@,
                components,
            ),
            Ok(None) => name == Ok::<Option<SessionName>, ResolveError>(None),
            Err(error) => name == Err::<Option<SessionName>, ResolveError>(error),
        },
{
    let mut components = path_components;
    loop
        invariant
            resolve_lookup(sessions@, path@, path_components as nat) == resolve_lookup(
                sessions@,
                path@,
                components as nat,
            ),
        decreases component_count(path@) - components,
    {
        let proposed = SessionName::new(path, components);
        let status = sessions.status(proposed.as_str());
        match lookup_step(path, components, &status) {
            LookupStep::Found(name) => {
                return Ok(Some(name));
            },
            LookupStep::Missing => {
                return Ok(None);
            },
            LookupStep::Retry { components: next } => {
                components = next;
            },
            LookupStep::Exhausted => {
                return Err(ResolveError::Exhausted);
            },
        }
    }
}

/// The sessions after the workspace at `path` was opened under `name`: as
/// before where a session of that name existed, and with one more session,
/// `opened`, where none did.
pub open spec fn after_opening(
    before: Seq<Session>,
    after: Seq<Session>,
    opened: Session,
    name: Seq<char>,
    path: Seq<char>,
) -> bool {
    if status_in(before, name) is Absent {
        &&& after == before.push(opened)
        &&& opened.name@ == name
        &&& opened.root matches Some(root) && root@ == path
    } else {
        after == before
    }
}

/// Opening a workspace twice gives one session. If the name chosen for
/// `path` has `chosen` components, and the workspace is opened under it,
/// then choosing again gives the same name, and finds under it the session
/// of this workspace, which is attached to and not made anew.
pub proof fn second_resolution_attaches(
    before: Seq<Session>,
    after: Seq<Session>,
    opened: Session,
    path: Seq<char>,
    components: nat,
    chosen: nat,
)
    requires
        resolve_open(before, path, components) == Some(chosen),
        after_opening(before, after, opened, session_name_of(path, chosen), path),
    ensures
        resolve_open(after, path, components) == Some(chosen),
        status_in(after, session_name_of(path, chosen)).claim_of(path) == Claim::Ours,
    decreases component_count(path) - components,
{
    let name = session_name_of(path, chosen);
    let tried = session_name_of(path, components);
    let status = status_in(before, tried);
    if status_in(before, name) is Absent {
        status_after_push(before, opened, tried, 0);
        status_after_push(before, opened, name, 0);
    }
    match status.claim_of(path) {
        Claim::Free | Claim::Ours => {
            assert(chosen == components);
        },
        Claim::Taken => {
            second_resolution_attaches(before, after, opened, path, components + 1, chosen);
        },
    }
}

/// A workspace that was opened is found again. Under the conditions of
/// `second_resolution_attaches`, the search for the session of `path` finds
/// the name it was opened under.
pub proof fn opened_session_is_found(
    before: Seq<Session>,
    after: Seq<Session>,
    opened: Session,
    path: Seq<char>,
    components: nat,
    chosen: nat,
)
    requires
        resolve_open(before, path, components) == Some(chosen),
        after_opening(before, after, opened, session_name_of(path, chosen), path),
    ensures
        resolve_lookup(after, path, components) == Ok::<Option<nat>, ResolveError>(Some(chosen)),
    decreases component_count(path) - components,
{
    let name = session_name_of(path, chosen);
    let tried = session_name_of(path, components);
    let status = status_in(before, tried);
    if status_in(before, name) is Absent {
        status_after_push(before, opened, tried, 0);
        status_after_push(before, opened, name, 0);
    }
    match status.claim_of(path) {
        Claim::Free | Claim::Ours => {
            assert(chosen == components);
        },
        Claim::Taken => {
            opened_session_is_found(before, after, opened, path, components + 1, chosen);
        },
    }
}

/// What to do next when choosing the name of a new session in a group.
#[derive(Debug, Clone, PartialEq, Eq)]
pub enum GroupStep {
    /// Open the session under this name.
    Use(SessionName),
    /// The name is taken: ask about the name of this number.
    Retry { number: u64 },
    /// The name is taken and no number is left.
    Exhausted,
}

/// Decides, from the multiplexer's answer about the name that `number`
/// proposes for a new session in the group of `group_session_name`, how the
/// choice goes on: a name that no session has is used, and after one that
/// is `taken` the next number is tried. The numbers are tried from 1 on.
pub fn group_step(group_session_name: &str, number: u64, taken: bool) -> (step: GroupStep)
    ensures
        match step {
            GroupStep::Use(name) => !taken && name@ == group_candidate(
                group_session_name@,
                number as nat,
            ),
            GroupStep::Retry { number: next } => taken && next == number + 1,
            GroupStep::Exhausted => taken && number == u64::MAX,
        },
{
    if !taken {
        let mut chars = chars_of(group_session_name);
        chars.push('-');
        push_decimal(&mut chars, number as u128);
        GroupStep::Use(SessionName::from_chars(&chars))
    } else if number == u64::MAX {
        GroupStep::Exhausted
    } else {
        GroupStep::Retry { number: number + 1 }
    }
}

/// Two numbers propose the same name for a session of a group only when
/// they are the same number.
pub proof fn group_candidates_differ(group: Seq<char>, n: nat, m: nat)
    requires
        group_candidate(group, n) == group_candidate(group, m),
    ensures
        n == m,
{
    decimal_reads_back(n);
    decimal_reads_back(m);
    let first = group.push('-') + decimal(n);
    let second = group.push('-') + decimal(m);
    assert(sanitized(first).len() == first.len());
    assert(sanitized(second).len() == second.len());
    assert(decimal(n).len() == decimal(m).len());
    assert forall|i: int| 0 <= i < decimal(n).len() implies decimal(n)[i] == decimal(m)[i] by {
        let k = group.len() + 1 + i;
        assert(first[k] == decimal(n)[i]);
        assert(second[k] == decimal(m)[i]);
        assert(is_digit(decimal(n)[i]));
        assert(is_digit(decimal(m)[i]));
        assert(sanitized(first)[k] == sanitized(second)[k]);
    }
    assert(decimal(n) =~= decimal(m));
}

/// Whether `number` is the first whose name, proposed for a new session in
/// the group of `group`, no session has.
pub open spec fn is_first_free(sessions: Seq<Session>, group: Seq<char>, number: nat) -> bool {
    &&& number >= 1
    &&& status_in(sessions, group_candidate(group, number)) is Absent
    &&& forall|m: nat|
        1 <= m < number ==> !(status_in(sessions, #[trigger] group_candidate(group, m)) is Absent)
}

/// Sessions can take no more of the proposed names than there are
/// sessions: if the names of the numbers 1 to `count` are all taken, `count`
/// is not over the number of sessions. So a free name is always found.
pub proof fn taken_names_fit(sessions: Seq<Session>, group: Seq<char>, count: nat)
    requires
        forall|m: nat|
            1 <= m <= count ==> !(status_in(sessions, #[trigger] group_candidate(group, m))
                is Absent),
    ensures
        count <= sessions.len(),
{
    if count > sessions.len() {
        let holder = |m: nat|
            choose|i: int|
                0 <= i < sessions.len() && (#[trigger] sessions[i]).name@ == group_candidate(
                    group,
                    m,
                );
        assert forall|m: nat| 1 <= m <= count implies 0 <= holder(m) < sessions.len()
            && sessions[holder(m)].name@ == group_candidate(group, m) by {
            absent_means_unnamed(sessions, group_candidate(group, m), 0);
        }
        let chain = Seq::new(sessions.len() + 1, |k: int| holder((k + 1) as nat));
        let shorter = chain.drop_last();
        assert forall|a: int, b: int|
            0 <= a < chain.len() && 0 <= b < chain.len() && a != b implies chain[a]
            != chain[b] by {
            if chain[a] == chain[b] {
                group_candidates_differ(group, (a + 1) as nat, (b + 1) as nat);
            }
        }
        assert(shorter.no_duplicates()) by {
            assert forall|a: int, b: int|
                0 <= a < shorter.len() && 0 <= b < shorter.len() && a != b implies shorter[a]
                != shorter[b] by {
                assert(shorter[a] == chain[a]);
                assert(shorter[b] == chain[b]);
            }
        }
        assert(is_chain(shorter, sessions.len() as int)) by {
            assert forall|k: int| 0 <= k < shorter.len() implies 0 <= #[trigger] shorter[k]
                < sessions.len() by {
                assert(shorter[k] == chain[k]);
            }
        }
        assert(!shorter.contains(chain.last())) by {
            if shorter.contains(chain.last()) {
                let k = choose|k: int| 0 <= k < shorter.len() && shorter[k] == chain.last();
                assert(shorter[k] == chain[k]);
            }
        }
        chain_is_short(shorter, sessions.len() as int, chain.last());
    }
}

/// The name for a new session in the group of the session
/// `group_session_name`: that of the first number, from 1 on, whose name no
/// session has.
pub fn first_free_group_name(sessions: &SessionTable, group_session_name: &str) -> (name:
    SessionName)
    ensures
        exists|number: nat|
            is_first_free(sessions@, group_session_name@, number) && name@ == group_candidate(
                group_session_name@,
                number,
            ),
{
    let group = chars_of(group_session_name);
    let count = sessions.sessions.len();
    let mut number: u128 = 1;
    loop
        invariant
            group@ == group_session_name@,
            sessions@.len() == count,
            1 <= number <= sessions@.len() + 1,
            forall|m: nat|
                1 <= m < number ==> !(status_in(
                    sessions@,
                    #[trigger] group_candidate(group_session_name@, m),
                ) is Absent),
        decreases sessions@.len() + 1 - number,
    {
        let mut chars = group.clone();
        chars.push('-');
        push_decimal(&mut chars, number);
        let name = SessionName::from_chars(&chars);
        match sessions.status(name.as_str()) {
            SessionStatus::Absent => {
                assert(is_first_free(sessions@, group_session_name@, number as nat));
                return name;
            },
            _ => {},
        }
        proof {
            taken_names_fit(sessions@, group_session_name@, number as nat);
        }
        number += 1;
    }
}

} // verus!

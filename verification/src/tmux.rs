//! Sessions of the terminal multiplexer: their names, the commands that
//! create and reach them, and what its answers mean.
//!
//! Nothing here runs the multiplexer. A function either builds a command for
//! the caller to run, or reads what a command printed.

use crate::config::{TwmGlobal, TwmLayout};
use crate::layout::{
    flattened, flattened_by_name, get_commands_from_layout, get_commands_from_layout_name,
    LayoutError,
};
use crate::text::{
    chars_of, decimal, is_prefix, joined, lines_of, push_decimal, split_lines, string_of, texts,
    texts_of,
};
use crate::workspace::WorkspaceDefinition;
use vstd::prelude::*;

verus! {

/// The separator of path components.
pub const SEPARATOR: char = '/';

/// `text` with every character that a session name cannot hold replaced by
/// an underscore. The multiplexer takes `.` for the separator of a session
/// and its windows.
pub open spec fn sanitized(text: Seq<char>) -> Seq<char> {
    Seq::new(text.len(), |i: int| if text[i] == '.' { '_' } else { text[i] })
}

/// The last `count` components of `path`, joined as they were: the longest
/// end of `path` that holds fewer than `count` separators.
pub open spec fn last_components(path: Seq<char>, count: nat) -> Seq<char>
    decreases path.len(),
{
    if count == 0 || path.len() == 0 {
        Seq::empty()
    } else if path.last() == SEPARATOR {
        if count == 1 {
            Seq::empty()
        } else {
            last_components(path.drop_last(), (count - 1) as nat).push(SEPARATOR)
        }
    } else {
        last_components(path.drop_last(), count).push(path.last())
    }
}

/// How many components `path` has: one more than it has separators.
pub open spec fn component_count(path: Seq<char>) -> nat
    decreases path.len(),
{
    if path.len() == 0 {
        1
    } else if path.last() == SEPARATOR {
        component_count(path.drop_last()) + 1
    } else {
        component_count(path.drop_last())
    }
}

/// The session name made of the last `count` components of `path`.
pub open spec fn session_name_of(path: Seq<char>, count: nat) -> Seq<char> {
    sanitized(last_components(path, count))
}

/// With all its components taken, a path names itself.
pub proof fn all_components_are_the_path(path: Seq<char>, count: nat)
    requires
        count >= component_count(path),
    ensures
        component_count(path) >= 1,
        last_components(path, count) == path,
    decreases path.len(),
{
    if path.len() == 0 {
    } else if path.last() == SEPARATOR {
        all_components_are_the_path(path.drop_last(), component_count(path.drop_last()));
        all_components_are_the_path(path.drop_last(), (count - 1) as nat);
        assert(path.drop_last().push(SEPARATOR) =~= path);
    } else {
        all_components_are_the_path(path.drop_last(), count);
        assert(path.drop_last().push(path.last()) =~= path);
    }
}

/// The name of `count` components is an end of the path, and holds fewer
/// than `count` separators: it has at most `count` components.
pub proof fn last_components_end_the_path(path: Seq<char>, count: nat)
    ensures
        last_components(path, count).is_suffix_of(path),
        count > 0 ==> component_count(last_components(path, count)) <= count,
    decreases path.len(),
{
    let name = last_components(path, count);
    if count == 0 || path.len() == 0 {
        assert(path.subrange(path.len() - name.len(), path.len() as int) =~= name);
    } else if path.last() == SEPARATOR {
        if count == 1 {
            assert(path.subrange(path.len() - name.len(), path.len() as int) =~= name);
        } else {
            let shorter = last_components(path.drop_last(), (count - 1) as nat);
            last_components_end_the_path(path.drop_last(), (count - 1) as nat);
            assert(name.drop_last() =~= shorter);
            assert(path.subrange(path.len() - name.len(), path.len() as int) =~= name) by {
                let rest = path.drop_last();
                assert(rest.subrange(rest.len() - shorter.len(), rest.len() as int) == shorter);
            }
        }
    } else {
        let shorter = last_components(path.drop_last(), count);
        last_components_end_the_path(path.drop_last(), count);
        assert(name.drop_last() =~= shorter);
        assert(path.subrange(path.len() - name.len(), path.len() as int) =~= name) by {
            let rest = path.drop_last();
            assert(rest.subrange(rest.len() - shorter.len(), rest.len() as int) == shorter);
        }
    }
}

/// The name of a session: text in which no `.` is left.
#[derive(Debug, Clone, PartialEq, Eq)]
pub struct SessionName {
    name: String,
}

impl View for SessionName {
    type V = Seq<char>;

    closed spec fn view(&self) -> Seq<char> {
        self.name@
    }
}

impl SessionName {
    /// The name for the workspace at `path`, made of its last
    /// `path_components` components.
    pub fn new(path: &str, path_components: usize) -> (name: Self)
        ensures
            name@ == session_name_of(path@, path_components as nat),
    {
        let chars = chars_of(path);
        let mut start: usize = chars.len();
        let mut left: usize = path_components;
        let mut done: bool = left == 0;
        assert(chars@.take(start as int) =~= chars@);
        assert(last_components(chars@, path_components as nat) + chars@.skip(start as int)
            =~= last_components(chars@, path_components as nat));
        while start > 0 && !done
            invariant
                start <= chars.len(),
                !done ==> left >= 1,
                done ==> last_components(chars@.take(start as int), left as nat) == Seq::<
                    char,
                >::empty(),
                last_components(chars@, path_components as nat) == last_components(
                    chars@.take(start as int),
                    left as nat,
                ) + chars@.skip(start as int),
            decreases start + if done { 0int } else { 1int },
        {
            let ghost head = chars@.take(start as int);
            assert(head.drop_last() =~= chars@.take(start - 1));
            assert(head.last() == chars@[start - 1]);
            if chars[start - 1] == SEPARATOR {
                if left == 1 {
                    done = true;
                } else {
                    assert(last_components(head.drop_last(), (left - 1) as nat).push(SEPARATOR)
                        + chars@.skip(start as int) =~= last_components(
                        head.drop_last(),
                        (left - 1) as nat,
                    ) + chars@.skip(start - 1));
                    left -= 1;
                    start -= 1;
                }
            } else {
                assert(last_components(head.drop_last(), left as nat).push(head.last())
                    + chars@.skip(start as int) =~= last_components(
                    head.drop_last(),
                    left as nat,
                ) + chars@.skip(start - 1));
                start -= 1;
            }
        }
        assert(last_components(chars@, path_components as nat) =~= chars@.skip(start as int));
        let mut raw: Vec<char> = Vec::new();
        let mut i: usize = start;
        while i < chars.len()
            invariant
                start <= i <= chars.len(),
                raw@ == chars@.subrange(start as int, i as int),
            decreases chars.len() - i,
        {
            raw.push(chars[i]);
            assert(raw@ =~= chars@.subrange(start as int, i + 1));
            i += 1;
        }
        assert(raw@ =~= chars@.skip(start as int));
        SessionName::from_chars(&raw)
    }

    /// The name that `text` stands for.
    pub fn from(text: &str) -> (name: Self)
        ensures
            name@ == sanitized(text@),
    {
        let chars = chars_of(text);
        SessionName::from_chars(&chars)
    }

    pub(crate) fn from_chars(chars: &Vec<char>) -> (name: Self)
        ensures
            name@ == sanitized(chars@),
    {
        let mut clean: Vec<char> = Vec::new();
        let mut i: usize = 0;
        while i < chars.len()
            invariant
                i <= chars.len(),
                clean@ == sanitized(chars@.take(i as int)),
            decreases chars.len() - i,
        {
            let c = chars[i];
            clean.push(if c == '.' { '_' } else { c });
            assert(clean@ =~= sanitized(chars@.take(i + 1)));
            i += 1;
        }
        assert(chars@.take(chars@.len() as int) =~= chars@);
        SessionName { name: string_of(&clean) }
    }

    /// The name as text.
    pub fn as_str(&self) -> (text: &str)
        ensures
            text@ == self@,
    {
        self.name.as_str()
    }
}

/// One invocation of the multiplexer: the arguments to run it with.
#[derive(Debug, Clone, PartialEq, Eq)]
pub struct TmuxCommand {
    pub args: Vec<String>,
}

impl View for TmuxCommand {
    type V = Seq<Seq<char>>;

    open spec fn view(&self) -> Seq<Seq<char>> {
        texts_of(self.args@)
    }
}

/// The arguments that make a detached session `name` at `path`, in a group
/// of its own name, and record on it that this tool made it, its root path,
/// its workspace type (empty when it has none) and its name.
pub open spec fn new_session_args(
    name: Seq<char>,
    workspace_type: Option<Seq<char>>,
    path: Seq<char>,
) -> Seq<Seq<char>> {
    seq![
        "new-session"@,
        "-ds"@,
        name,
        "-t"@,
        name,
        "-c"@,
        path,
        "-e"@,
        "TWM=1"@,
        "-e"@,
        "TWM_ROOT="@ + path,
        "-e"@,
        "TWM_TYPE="@ + match workspace_type {
            Some(t) => t,
            None => Seq::empty(),
        },
        "-e"@,
        "TWM_NAME="@ + name,
    ]
}

/// The command that makes the session of a workspace.
pub fn create_tmux_session(name: &SessionName, workspace_type: Option<&str>, path: &str) -> (command:
    TmuxCommand)
    ensures
        command@ == new_session_args(
            name@,
            match workspace_type {
                Some(t) => Some(t@),
                None => None,
            },
            path@,
        ),
{
    let type_text = match workspace_type {
        Some(t) => t,
        None => "",
    };
    proof {
        reveal_strlit("");
        assert(""@ =~= Seq::<char>::empty());
    }
    let args = vec![
        "new-session".to_owned(),
        "-ds".to_owned(),
        name.as_str().to_owned(),
        "-t".to_owned(),
        name.as_str().to_owned(),
        "-c".to_owned(),
        path.to_owned(),
        "-e".to_owned(),
        "TWM=1".to_owned(),
        "-e".to_owned(),
        joined("TWM_ROOT=", path),
        "-e".to_owned(),
        joined("TWM_TYPE=", type_text),
        "-e".to_owned(),
        joined("TWM_NAME=", name.as_str()),
    ];
    let command = TmuxCommand { args };
    assert(command@ =~= new_session_args(
        name@,
        match workspace_type {
            Some(t) => Some(t@),
            None => None,
        },
        path@,
    ));
    command
}

/// The command that makes session `name` in the group of the session
/// `group_session_name`.
pub fn create_tmux_session_in_group(group_session_name: &str, name: &SessionName) -> (command:
    TmuxCommand)
    ensures
        command@ == seq!["new-session"@, "-ds"@, name@, "-t"@, group_session_name@],
{
    let args = vec![
        "new-session".to_owned(),
        "-ds".to_owned(),
        name.as_str().to_owned(),
        "-t".to_owned(),
        group_session_name.to_owned(),
    ];
    let command = TmuxCommand { args };
    assert(command@ =~= seq!["new-session"@, "-ds"@, name@, "-t"@, group_session_name@]);
    command
}

/// The command that brings a client that runs inside the multiplexer to
/// the session `session_name`.
pub fn attach_to_tmux_session_inside_tmux(session_name: &str) -> (command: TmuxCommand)
    ensures
        command@ == seq!["switch"@, "-t"@, session_name@],
{
    let args = vec!["switch".to_owned(), "-t".to_owned(), session_name.to_owned()];
    let command = TmuxCommand { args };
    assert(command@ =~= seq!["switch"@, "-t"@, session_name@]);
    command
}

/// How the user is brought to a session.
#[derive(Debug, Clone, PartialEq, Eq)]
pub enum Attach {
    /// Run this multiplexer command: the client switches session.
    Switch(TmuxCommand),
    /// Put `program`, run with `args`, in the place of this process.
    Replace { program: String, args: Vec<String> },
}

/// Whether `attach` brings the user to the session `session_name`: inside
/// the multiplexer by a switch of its client, outside by giving way to
/// `shell`, or to `sh` where none is known, which attaches.
pub open spec fn attaches_to(
    attach: Attach,
    session_name: Seq<char>,
    inside_tmux: bool,
    shell: Option<Seq<char>>,
) -> bool {
    match attach {
        Attach::Switch(command) => inside_tmux && command@ == seq![
            "switch"@,
            "-t"@,
            session_name,
        ],
        Attach::Replace { program, args } => {
            &&& !inside_tmux
            &&& program@ == match shell {
                Some(s) => s,
                None => "sh"@,
            }
            &&& texts_of(args@) == seq!["-c"@, "tmux attach -t "@ + session_name]
        },
    }
}

/// How the user is brought to the session `session_name`. Inside the
/// multiplexer its client switches. Outside, this process gives way to the
/// user's shell, or to `sh` where none is known, which attaches.
pub fn attach_to_tmux_session(session_name: &str, inside_tmux: bool, shell: Option<&str>) -> (attach:
    Attach)
    ensures
        attaches_to(
            attach,
            session_name@,
            inside_tmux,
            match shell {
                Some(s) => Some(s@),
                None => None,
            },
        ),
{
    if inside_tmux {
        Attach::Switch(attach_to_tmux_session_inside_tmux(session_name))
    } else {
        let program = match shell {
            Some(s) => s.to_owned(),
            None => "sh".to_owned(),
        };
        let args = vec!["-c".to_owned(), joined("tmux attach -t ", session_name)];
        assert(texts_of(args@) =~= seq!["-c"@, "tmux attach -t "@ + session_name@]);
        Attach::Replace { program, args }
    }
}

/// The command that asks whether a session is named `session_name`. It
/// succeeds exactly when one is.
pub fn tmux_has_session(session_name: &SessionName) -> (command: TmuxCommand)
    ensures
        command@ == seq!["has-session"@, "-t"@, session_name@],
{
    let args = vec!["has-session".to_owned(), "-t".to_owned(), session_name.as_str().to_owned()];
    let command = TmuxCommand { args };
    assert(command@ =~= seq!["has-session"@, "-t"@, session_name@]);
    command
}

/// The command that prints the environment of the session `session_name`,
/// one `KEY=value` to a line.
pub fn show_environment(session_name: &SessionName) -> (command: TmuxCommand)
    ensures
        command@ == seq!["showenv"@, "-t"@, session_name@],
{
    let args = vec!["showenv".to_owned(), "-t".to_owned(), session_name.as_str().to_owned()];
    let command = TmuxCommand { args };
    assert(command@ =~= seq!["showenv"@, "-t"@, session_name@]);
    command
}

/// The command that prints the name of every session, one to a line.
pub fn list_sessions() -> (command: TmuxCommand)
    ensures
        command@ == seq!["list-sessions"@, "-F"@, "#{session_name}"@],
{
    let args = vec!["list-sessions".to_owned(), "-F".to_owned(), "#{session_name}".to_owned()];
    let command = TmuxCommand { args };
    assert(command@ =~= seq!["list-sessions"@, "-F"@, "#{session_name}"@]);
    command
}

/// The names of the sessions, read from what `list_sessions` printed: its
/// lines.
pub fn get_tmux_sessions(output: &str) -> (sessions: Vec<String>)
    ensures
        texts_of(sessions@) == lines_of(output@),
{
    let lines = split_lines(output);
    let mut sessions: Vec<String> = Vec::new();
    let mut i: usize = 0;
    while i < lines.len()
        invariant
            i <= lines.len(),
            lines@.len() == lines_of(output@).len(),
            forall|j: int| 0 <= j < lines@.len() ==> (#[trigger] lines@[j])@ == lines_of(output@)[j],
            sessions@.len() == i,
            forall|j: int| 0 <= j < i ==> (#[trigger] sessions@[j])@ == lines_of(output@)[j],
        decreases lines.len() - i,
    {
        sessions.push(string_of(&lines[i]));
        i += 1;
    }
    assert(texts_of(sessions@) =~= lines_of(output@));
    sessions
}

/// What a line that records the root path of a session begins with.
pub open spec fn root_marker() -> Seq<char> {
    "TWM_ROOT="@
}

/// The root path recorded in `lines[from..]`: what follows the marker on
/// the first line that begins with it.
pub open spec fn root_in(lines: Seq<Seq<char>>, from: int) -> Option<Seq<char>>
    decreases lines.len() - from,
{
    if from < 0 || from >= lines.len() {
        None
    } else if root_marker().is_prefix_of(lines[from]) {
        Some(lines[from].skip(root_marker().len() as int))
    } else {
        root_in(lines, from + 1)
    }
}

/// The root path that a session records, read from what `show_environment`
/// printed for it; `None` when it records none.
pub fn get_twm_root_for_session(output: &str) -> (root: Option<String>)
    ensures
        match root_in(lines_of(output@), 0) {
            Some(path) => root matches Some(found) && found@ == path,
            None => root is None,
        },
{
    let marker = chars_of("TWM_ROOT=");
    let lines = split_lines(output);
    let mut i: usize = 0;
    while i < lines.len()
        invariant
            i <= lines.len(),
            marker@ == root_marker(),
            lines@.len() == lines_of(output@).len(),
            forall|j: int| 0 <= j < lines@.len() ==> (#[trigger] lines@[j])@ == lines_of(output@)[j],
            root_in(lines_of(output@), 0) == root_in(lines_of(output@), i as int),
        decreases lines.len() - i,
    {
        if is_prefix(&marker, &lines[i]) {
            let line = &lines[i];
            let mut rest: Vec<char> = Vec::new();
            let mut k: usize = marker.len();
            while k < line.len()
                invariant
                    marker.len() <= k <= line.len(),
                    rest@ == line@.subrange(marker.len() as int, k as int),
                decreases line.len() - k,
            {
                rest.push(line[k]);
                assert(rest@ =~= line@.subrange(marker.len() as int, k + 1));
                k += 1;
            }
            assert(rest@ =~= line@.skip(marker.len() as int));
            return Some(string_of(&rest));
        }
        i += 1;
    }
    None
}

/// The commands that type each of `commands` into the session
/// `session_name`, in order, each followed by Enter.
pub fn send_commands_to_session(session_name: &str, commands: &[&str]) -> (sent: Vec<TmuxCommand>)
    ensures
        sent@.len() == commands@.len(),
        forall|i: int|
            0 <= i < sent@.len() ==> (#[trigger] sent@[i])@ == seq![
                "send-keys"@,
                "-t"@,
                session_name@,
                commands@[i]@,
                "C-m"@,
            ],
{
    let mut sent: Vec<TmuxCommand> = Vec::new();
    let mut i: usize = 0;
    while i < commands.len()
        invariant
            i <= commands.len(),
            sent@.len() == i,
            forall|j: int|
                0 <= j < i ==> (#[trigger] sent@[j])@ == seq![
                    "send-keys"@,
                    "-t"@,
                    session_name@,
                    commands@[j]@,
                    "C-m"@,
                ],
        decreases commands.len() - i,
    {
        let args = vec![
            "send-keys".to_owned(),
            "-t".to_owned(),
            session_name.to_owned(),
            commands[i].to_owned(),
            "C-m".to_owned(),
        ];
        let command = TmuxCommand { args };
        assert(command@ =~= seq![
            "send-keys"@,
            "-t"@,
            session_name@,
            commands@[i as int]@,
            "C-m"@,
        ]);
        sent.push(command);
        i += 1;
    }
    sent
}

/// The `number`th name proposed for a new session in the group of the
/// session `group`: the group's name, a hyphen and the number.
pub open spec fn group_candidate(group: Seq<char>, number: nat) -> Seq<char> {
    sanitized(group.push('-') + decimal(number))
}

/// The `number`th name proposed for a new session in the group of the
/// session `group_session_name`. The names are tried from the first on,
/// and the first that no session has is taken.
pub fn get_group_session_name(group_session_name: &str, number: u64) -> (name: SessionName)
    ensures
        name@ == group_candidate(group_session_name@, number as nat),
{
    let mut chars = chars_of(group_session_name);
    chars.push('-');
    push_decimal(&mut chars, number as u128);
    SessionName::from_chars(&chars)
}

/// The default layout of the first definition named `workspace_type` among
/// `definitions[from..]`; `None` when no definition has the name or the
/// first that has it sets no layout.
pub open spec fn default_layout_of(
    definitions: Seq<WorkspaceDefinition>,
    workspace_type: Seq<char>,
    from: int,
) -> Option<String>
    decreases definitions.len() - from,
{
    if from < 0 || from >= definitions.len() {
        None
    } else if definitions[from].name@ == workspace_type {
        definitions[from].default_layout
    } else {
        default_layout_of(definitions, workspace_type, from + 1)
    }
}

/// A flattened layout as the commands to send, if it could be flattened.
pub open spec fn to_send(flat: Result<Seq<Seq<char>>, Seq<char>>) -> Result<
    Option<Seq<Seq<char>>>,
    Seq<char>,
> {
    match flat {
        Ok(commands) => Ok(Some(commands)),
        Err(name) => Err(name),
    }
}

/// The commands a new session is sent. The layout the user picked comes
/// first, then the layout the workspace sets for itself, then the default
/// layout of the workspace's type. `Ok(None)` says that no layout applies.
pub open spec fn workspace_commands(
    workspace_type: Option<Seq<char>>,
    config: TwmGlobal,
    cli_layout: Option<Seq<char>>,
    local_config: Option<TwmLayout>,
) -> Result<Option<Seq<Seq<char>>>, Seq<char>> {
    match (cli_layout, local_config, workspace_type) {
        (Some(picked), _, _) => to_send(flattened_by_name(config.layouts@, picked)),
        (None, Some(local), _) => to_send(flattened(config.layouts@, local.layout)),
        (None, None, Some(t)) => match default_layout_of(config.workspace_definitions@, t, 0) {
            Some(layout) => to_send(flattened_by_name(config.layouts@, layout@)),
            None => Ok(None),
        },
        (None, None, None) => Ok(None),
    }
}

/// The commands a new session of a workspace is sent, by the layout that
/// applies to it. A layout that inherits from itself is an error.
pub fn get_workspace_commands<'a>(
    workspace_type: Option<&str>,
    twm_config: &'a TwmGlobal,
    cli_layout: Option<&'a str>,
    local_config: Option<&'a TwmLayout>,
) -> (commands: Result<Option<Vec<&'a str>>, LayoutError>)
    ensures
        match workspace_commands(
            match workspace_type {
                Some(t) => Some(t@),
                None => None,
            },
            *twm_config,
            match cli_layout {
                Some(l) => Some(l@),
                None => None,
            },
            match local_config {
                Some(l) => Some(*l),
                None => None,
            },
        ) {
            Ok(Some(expected)) => commands matches Ok(Some(list)) && texts(list@) == expected,
            Ok(None) => commands matches Ok(None),
            Err(name) => commands matches Err(LayoutError::InheritanceCycle { layout: cyclic })
                && cyclic@ == name,
        },
{
    if let Some(cli_layout) = cli_layout {
        return match get_commands_from_layout_name(cli_layout, twm_config.layouts.as_slice()) {
            Ok(list) => Ok(Some(list)),
            Err(error) => Err(error),
        };
    }
    if let Some(local) = local_config {
        return match get_commands_from_layout(&local.layout, twm_config.layouts.as_slice()) {
            Ok(list) => Ok(Some(list)),
            Err(error) => Err(error),
        };
    }
    match workspace_type {
        Some(t) => {
            let mut i: usize = 0;
            while i < twm_config.workspace_definitions.len()
                invariant
                    i <= twm_config.workspace_definitions.len(),
                    cli_layout is None,
                    local_config is None,
                    workspace_type == Some(t),
                    default_layout_of(twm_config.workspace_definitions@, t@, 0)
                        == default_layout_of(twm_config.workspace_definitions@, t@, i as int),
                decreases twm_config.workspace_definitions.len() - i,
            {
                let workspace_definition = &twm_config.workspace_definitions[i];
                if workspace_definition.name.as_str().eq(t) {
                    if let Some(layout_name) = &workspace_definition.default_layout {
                        return match get_commands_from_layout_name(
                            layout_name.as_str(),
                            twm_config.layouts.as_slice(),
                        ) {
                            Ok(list) => Ok(Some(list)),
                            Err(error) => Err(error),
                        };
                    } else {
                        return Ok(None);
                    }
                }
                i += 1;
            }
            Ok(None)
        },
        None => Ok(None),
    }
}

/// What opening a workspace asks of the multiplexer.
#[derive(Debug, Clone, PartialEq, Eq)]
pub struct OpenPlan {
    /// The command that makes the session; none where the session exists.
    pub create: Option<TmuxCommand>,
    /// How the user is brought to the session afterwards, if at all.
    pub attach: Option<Attach>,
}

/// The commands of a list, each as its arguments.
pub open spec fn plan_commands(commands: Seq<TmuxCommand>) -> Seq<Seq<Seq<char>>> {
    Seq::new(commands.len(), |i: int| commands[i]@)
}

/// The command that types `command` into the session `session`.
pub open spec fn send_keys_args(session: Seq<char>, command: Seq<char>) -> Seq<Seq<char>> {
    seq!["send-keys"@, "-t"@, session, command, "C-m"@]
}

/// What it takes to open the workspace at `workspace_path` under
/// `tmux_name`. A session that exists is not made again; one that does not
/// exist is made, and is then initialised as `initialise_session` says.
/// Unless `dont_attach`, the user is brought to the session afterwards.
pub fn open_workspace(
    tmux_name: &SessionName,
    session_exists: bool,
    workspace_path: &str,
    workspace_type: Option<&str>,
    dont_attach: bool,
    inside_tmux: bool,
    shell: Option<&str>,
) -> (plan: OpenPlan)
    ensures
        match plan.create {
            Some(command) => !session_exists && command@ == new_session_args(
                tmux_name@,
                match workspace_type {
                    Some(t) => Some(t@),
                    None => None,
                },
                workspace_path@,
            ),
            None => session_exists,
        },
        match plan.attach {
            Some(attach) => !dont_attach && attaches_to(
                attach,
                tmux_name@,
                inside_tmux,
                match shell {
                    Some(s) => Some(s@),
                    None => None,
                },
            ),
            None => dont_attach,
        },
{
    let create = if session_exists {
        None
    } else {
        Some(create_tmux_session(tmux_name, workspace_type, workspace_path))
    };
    let attach = if dont_attach {
        None
    } else {
        Some(attach_to_tmux_session(tmux_name.as_str(), inside_tmux, shell))
    };
    OpenPlan { create, attach }
}

/// The commands that initialise the session of a plan, to be run after the
/// session was made and before the user is brought to it. A session that the
/// plan makes is sent `layout_commands`, in order. A session that exists is
/// sent nothing: a workspace opened twice has one session, initialised once.
pub fn initialise_session(plan: &OpenPlan, tmux_name: &SessionName, layout_commands: &[&str]) -> (sent:
    Vec<TmuxCommand>)
    ensures
        plan_commands(sent@) == if plan.create is Some {
            Seq::new(
                layout_commands@.len(),
                |i: int| send_keys_args(tmux_name@, layout_commands@[i]@),
            )
        } else {
            Seq::empty()
        },
{
    if plan.create.is_some() {
        let sent = send_commands_to_session(tmux_name.as_str(), layout_commands);
        assert(plan_commands(sent@) =~= Seq::new(
            layout_commands@.len(),
            |i: int| send_keys_args(tmux_name@, layout_commands@[i]@),
        ));
        sent
    } else {
        let sent: Vec<TmuxCommand> = Vec::new();
        assert(plan_commands(sent@) =~= Seq::<Seq<Seq<char>>>::empty());
        sent
    }
}

/// What it takes to open a new session `tmux_name` in the group of the
/// session `group_session_name`: the session is made, and unless
/// `dont_attach` the user is brought to it.
pub fn open_workspace_in_group(
    group_session_name: &str,
    tmux_name: &SessionName,
    dont_attach: bool,
    inside_tmux: bool,
    shell: Option<&str>,
) -> (plan: OpenPlan)
    ensures
        plan.create matches Some(command) && command@ == seq![
            "new-session"@,
            "-ds"@,
            tmux_name@,
            "-t"@,
            group_session_name@,
        ],
        match plan.attach {
            Some(attach) => !dont_attach && attaches_to(
                attach,
                tmux_name@,
                inside_tmux,
                match shell {
                    Some(s) => Some(s@),
                    None => None,
                },
            ),
            None => dont_attach,
        },
{
    let create = Some(create_tmux_session_in_group(group_session_name, tmux_name));
    let attach = if dont_attach {
        None
    } else {
        Some(attach_to_tmux_session(tmux_name.as_str(), inside_tmux, shell))
    };
    OpenPlan { create, attach }
}

} // verus!

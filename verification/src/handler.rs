//! What the actions of the command line work with: the names and contents
//! of the files they write, and what a selection means to them.

use crate::session::ResolveError;
use crate::text::{chars_of, push_chars, string_of};
use crate::tmux::SessionName;
use crate::ui::picker::{Picked, PickerSelection};
use vstd::prelude::*;

verus! {

/// The layout file that a workspace is given to start from.
pub const DEFAULT_LAYOUT_CONFIG_TEMPLATE: &'static str = "layout:\n  name: local-layout\n  commands:\n    - echo \"I'm a local layout\"\n    - tmux split-window -h\n";

/// The name of the configuration file.
pub const CONFIG_FILE_NAME: &'static str = "twm.yaml";

/// The name of the file that holds the schema of the configuration.
pub const SCHEMA_FILE_NAME: &'static str = "twm.schema.json";

/// The name of the layout file of a workspace.
pub const LAYOUT_FILE_NAME: &'static str = ".twm.yaml";

/// The text of a selection, and whether it was taken with a modifier held.
pub open spec fn choice_of(picked: Picked) -> Option<(Seq<char>, bool)> {
    match picked {
        Picked::Selection(text) => Some((text, false)),
        Picked::ModifiedSelection(text) => Some((text, true)),
        Picked::NoSelection => None,
    }
}

/// What the user selected, if anything, and whether a session grouped with
/// the selection's own is asked for: it is where the selection was taken
/// with a modifier held.
pub fn selection_choice(selection: PickerSelection) -> (choice: Option<(String, bool)>)
    ensures
        match choice_of(selection@) {
            Some((text, grouped)) => choice matches Some(chosen) && chosen.0@ == text && chosen.1
                == grouped,
            None => choice is None,
        },
{
    match selection {
        PickerSelection::Selection(text) => Some((text, false)),
        PickerSelection::ModifiedSelection(text) => Some((text, true)),
        PickerSelection::NoSelection => None,
    }
}

/// What the default configuration file holds: a line that tells editors
/// where the schema is, then the settings.
pub open spec fn config_file_text(schema_file: Seq<char>, settings: Seq<char>) -> Seq<char> {
    "# yaml-language-server: $schema=./"@ + schema_file + "\n"@ + settings + "\n        "@
}

/// The text of the default configuration file, for the settings `settings`
/// written as text and the schema in the file `schema_file` beside it.
pub fn default_config_contents(schema_file: &str, settings: &str) -> (contents: String)
    ensures
        contents@ == config_file_text(schema_file@, settings@),
{
    let mut chars = chars_of("# yaml-language-server: $schema=./");
    let schema = chars_of(schema_file);
    push_chars(&mut chars, &schema);
    let line_end = chars_of("\n");
    push_chars(&mut chars, &line_end);
    let body = chars_of(settings);
    push_chars(&mut chars, &body);
    let tail = chars_of("\n        ");
    push_chars(&mut chars, &tail);
    string_of(&chars)
}

/// How a selected workspace is opened.
#[derive(Debug, Clone, PartialEq, Eq)]
pub enum SelectionPlan {
    /// Open a new session in the group of this session, which the
    /// workspace has already.
    OpenInGroup(SessionName),
    /// Open the workspace: make its session, or go to the one it has.
    Open,
}

/// Decides how a selected workspace is opened. A new session is grouped
/// with the workspace's own only where that was asked for (`grouped`) and
/// the search for its session (`existing`) found one. Where none was found,
/// or every name was taken, the workspace is opened as if no grouping had
/// been asked for.
pub fn selection_plan(grouped: bool, existing: Result<Option<SessionName>, ResolveError>) -> (plan:
    SelectionPlan)
    ensures
        plan == match (grouped, existing) {
            (true, Ok(Some(name))) => SelectionPlan::OpenInGroup(name),
            _ => SelectionPlan::Open,
        },
{
    match (grouped, existing) {
        (true, Ok(Some(name))) => SelectionPlan::OpenInGroup(name),
        _ => SelectionPlan::Open,
    }
}

} // verus!

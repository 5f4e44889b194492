//! The command line: its flags, and the one action they ask for.

use vstd::prelude::*;

verus! {

/// The flags of the command line.
#[derive(Debug, Clone, PartialEq, Eq)]
pub struct Arguments {
    /// Pick a session that exists and go to it.
    pub existing: bool,
    /// Pick a session that exists and open a new one in its group.
    pub group: bool,
    /// Open a new session in the group of the session of this name.
    pub group_with: Option<String>,
    /// Do not go to the session after opening it.
    pub dont_attach: bool,
    /// Pick the layout to open the workspace with.
    pub layout: bool,
    /// Open this path as a workspace.
    pub path: Option<String>,
    /// Open the workspace under this session name.
    pub name: Option<String>,
    /// Print the name of the workspace that was chosen.
    pub print_workspace_name: bool,
    /// Open the workspace with this command in the place of any layout.
    pub command: Option<String>,
    /// Write the default configuration file.
    pub make_default_config: bool,
    /// Write the default layout file of a workspace.
    pub make_default_layout_config: bool,
    /// Print the schema of the configuration file.
    pub print_config_schema: bool,
    /// Print the schema of the layout file of a workspace.
    pub print_layout_config_schema: bool,
    /// Print completions for bash.
    pub print_bash_completion: bool,
    /// Print completions for zsh.
    pub print_zsh_completion: bool,
    /// Print completions for fish.
    pub print_fish_completion: bool,
    /// Print the manual page.
    pub print_man: bool,
}

impl Default for Arguments {
    /// No flag given.
    fn default() -> (args: Self)
        ensures
            action_of(args) == Action::SelectWorkspace,
            args.group_with is None,
            !args.dont_attach,
            !args.layout,
            args.path is None,
            args.name is None,
            !args.print_workspace_name,
            args.command is None,
    {
        Arguments {
            existing: false,
            group: false,
            group_with: None,
            dont_attach: false,
            layout: false,
            path: None,
            name: None,
            print_workspace_name: false,
            command: None,
            make_default_config: false,
            make_default_layout_config: false,
            print_config_schema: false,
            print_layout_config_schema: false,
            print_bash_completion: false,
            print_zsh_completion: false,
            print_fish_completion: false,
            print_man: false,
        }
    }
}

/// What one run of the program does.
#[derive(Debug, Clone, Copy, PartialEq, Eq)]
pub enum Action {
    MakeDefaultConfig,
    MakeDefaultLayoutConfig,
    PrintConfigSchema,
    PrintLayoutConfigSchema,
    PrintBashCompletion,
    PrintZshCompletion,
    PrintFishCompletion,
    PrintMan,
    /// Let the user pick a session that exists, and go to it.
    SelectExistingSession,
    /// Let the user pick a session, and open a new one in its group.
    SelectGroupSession,
    /// Open a workspace: the one at the path given, or one the user picks.
    SelectWorkspace,
}

/// The action that `args` ask for. Where several flags ask for an action,
/// the one that stands first here wins: the files to write, the schemas,
/// the completions, the manual, then the sessions, and last the workspace.
pub open spec fn action_of(args: Arguments) -> Action {
    if args.make_default_config {
        Action::MakeDefaultConfig
    } else if args.make_default_layout_config {
        Action::MakeDefaultLayoutConfig
    } else if args.print_config_schema {
        Action::PrintConfigSchema
    } else if args.print_layout_config_schema {
        Action::PrintLayoutConfigSchema
    } else if args.print_bash_completion {
        Action::PrintBashCompletion
    } else if args.print_zsh_completion {
        Action::PrintZshCompletion
    } else if args.print_fish_completion {
        Action::PrintFishCompletion
    } else if args.print_man {
        Action::PrintMan
    } else if args.existing {
        Action::SelectExistingSession
    } else if args.group {
        Action::SelectGroupSession
    } else {
        Action::SelectWorkspace
    }
}

/// Reads from the flags the one action to take.
pub fn parse(args: &Arguments) -> (action: Action)
    ensures
        action == action_of(*args),
{
    if args.make_default_config {
        Action::MakeDefaultConfig
    } else if args.make_default_layout_config {
        Action::MakeDefaultLayoutConfig
    } else if args.print_config_schema {
        Action::PrintConfigSchema
    } else if args.print_layout_config_schema {
        Action::PrintLayoutConfigSchema
    } else if args.print_bash_completion {
        Action::PrintBashCompletion
    } else if args.print_zsh_completion {
        Action::PrintZshCompletion
    } else if args.print_fish_completion {
        Action::PrintFishCompletion
    } else if args.print_man {
        Action::PrintMan
    } else if args.existing {
        Action::SelectExistingSession
    } else if args.group {
        Action::SelectGroupSession
    } else {
        Action::SelectWorkspace
    }
}

} // verus!

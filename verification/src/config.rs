//! The configuration: what a user writes, its defaults, and the form the
//! rest of the library works with.

use crate::layout::{
    find_layout, flattened_by_name, get_commands_from_layout_name, get_layout_by_name,
    LayoutDefinition, LayoutError,
};
use crate::settings::{
    check_keys, count_setting, fault_in, given, is_list, is_text, key_fault, list_setting, lookup,
    or_fault, read_count, read_list, read_text, read_truth, require_text, required_text,
    text_setting, truth_setting, Fault, Setting, SettingsError,
};
use crate::text::{texts, texts_of};
use crate::workspace::{
    HasAllFilesCondition, HasAnyFileCondition, MissingAllFilesCondition,
    MissingAnyFileCondition, NullCondition, WorkspaceConditionEnum, WorkspaceDefinition,
};
use vstd::prelude::*;

verus! {

/// A workspace definition as a user writes it: a name, up to four lists of
/// file names, and a default layout.
#[derive(Debug, Clone, PartialEq, Eq)]
pub struct WorkspaceDefinitionConfig {
    /// The name of the workspace type.
    pub name: String,
    /// Files of which at least one must exist.
    pub has_any_file: Option<Vec<String>>,
    /// Files that must all exist.
    pub has_all_files: Option<Vec<String>>,
    /// Files of which at least one must not exist.
    pub missing_any_file: Option<Vec<String>>,
    /// Files of which none may exist.
    pub missing_all_files: Option<Vec<String>>,
    /// The layout applied to a new session of this type.
    pub default_layout: Option<String>,
}

/// Whether a list of files is set and holds a name.
pub open spec fn names_files(files: Option<Vec<String>>) -> bool {
    files matches Some(list) && list@.len() > 0
}

impl WorkspaceDefinitionConfig {
    /// The conditions this definition asks for: one for each list that is
    /// set and not empty, in the order any, all, missing any, missing all;
    /// and the condition that is always met when there is no such list.
    pub open spec fn conditions(self) -> Seq<WorkspaceConditionEnum> {
        let any = if names_files(self.has_any_file) {
            seq![
                WorkspaceConditionEnum::HasAnyFileCondition(
                    HasAnyFileCondition { files: self.has_any_file->0 },
                ),
            ]
        } else {
            Seq::empty()
        };
        let all = if names_files(self.has_all_files) {
            seq![
                WorkspaceConditionEnum::HasAllFilesCondition(
                    HasAllFilesCondition { files: self.has_all_files->0 },
                ),
            ]
        } else {
            Seq::empty()
        };
        let missing_any = if names_files(self.missing_any_file) {
            seq![
                WorkspaceConditionEnum::MissingAnyFileCondition(
                    MissingAnyFileCondition { files: self.missing_any_file->0 },
                ),
            ]
        } else {
            Seq::empty()
        };
        let missing_all = if names_files(self.missing_all_files) {
            seq![
                WorkspaceConditionEnum::MissingAllFilesCondition(
                    MissingAllFilesCondition { files: self.missing_all_files->0 },
                ),
            ]
        } else {
            Seq::empty()
        };
        let listed = any + all + missing_any + missing_all;
        if listed.len() == 0 {
            seq![WorkspaceConditionEnum::NullCondition(NullCondition {  })]
        } else {
            listed
        }
    }
}

impl WorkspaceDefinition {
    /// The definition that `config` stands for. It always holds a condition.
    pub fn from(config: WorkspaceDefinitionConfig) -> (definition: Self)
        ensures
            definition.name == config.name,
            definition.default_layout == config.default_layout,
            definition.conditions@ == config.conditions(),
            definition.conditions@.len() > 0,
    {
        let mut conditions: Vec<WorkspaceConditionEnum> = Vec::new();
        if let Some(has_any_file) = config.has_any_file {
            if has_any_file.len() > 0 {
                let condition = HasAnyFileCondition { files: has_any_file };
                conditions.push(WorkspaceConditionEnum::HasAnyFileCondition(condition));
            }
        }
        if let Some(has_all_files) = config.has_all_files {
            if has_all_files.len() > 0 {
                let condition = HasAllFilesCondition { files: has_all_files };
                conditions.push(WorkspaceConditionEnum::HasAllFilesCondition(condition));
            }
        }
        if let Some(missing_any_file) = config.missing_any_file {
            if missing_any_file.len() > 0 {
                let condition = MissingAnyFileCondition { files: missing_any_file };
                conditions.push(WorkspaceConditionEnum::MissingAnyFileCondition(condition));
            }
        }
        if let Some(missing_all_files) = config.missing_all_files {
            if missing_all_files.len() > 0 {
                let condition = MissingAllFilesCondition { files: missing_all_files };
                conditions.push(WorkspaceConditionEnum::MissingAllFilesCondition(condition));
            }
        }
        if conditions.len() == 0 {
            let condition = NullCondition {  };
            conditions.push(WorkspaceConditionEnum::NullCondition(condition));
        }
        assert(conditions@ =~= config.conditions());
        WorkspaceDefinition {
            name: config.name,
            conditions,
            default_layout: config.default_layout,
        }
    }
}

/// The directories searched when none are configured: the home directory.
pub fn default_search_paths() -> (paths: Vec<String>)
    ensures
        texts_of(paths@) == seq!["~"@],
{
    let paths = vec!["~".to_owned()];
    assert(texts_of(paths@) =~= seq!["~"@]);
    paths
}

/// The workspace definitions used when none are configured: a directory
/// that holds `.git` or `.twm.yaml` is a workspace of type `default`, with
/// the layout `default`.
pub fn default_workspace_definitions() -> (definitions: Vec<WorkspaceDefinitionConfig>)
    ensures
        are_default_definitions(definitions@),
{
    let files = vec![".git".to_owned(), ".twm.yaml".to_owned()];
    assert(texts_of(files@) =~= seq![".git"@, ".twm.yaml"@]);
    vec![
        WorkspaceDefinitionConfig {
            name: "default".to_owned(),
            has_any_file: Some(files),
            default_layout: Some("default".to_owned()),
            has_all_files: None,
            missing_any_file: None,
            missing_all_files: None,
        },
    ]
}

/// How deep below a search path workspaces are looked for when no depth is
/// configured.
pub fn default_max_search_depth() -> (depth: usize)
    ensures
        depth == 3,
{
    3
}

/// How many path components name a session when no count is configured.
pub fn default_session_name_path_components() -> (components: usize)
    ensures
        components == 2,
{
    2
}

/// The directory names that are not searched when none are configured.
pub fn default_exclude_path_components() -> (components: Vec<String>)
    ensures
        texts_of(components@) == default_excluded(),
{
    let components = vec![
        ".cache".to_owned(),
        ".cargo".to_owned(),
        ".git".to_owned(),
        "__pycache__".to_owned(),
        "node_modules".to_owned(),
        "target".to_owned(),
        "venv".to_owned(),
    ];
    assert(texts_of(components@) =~= seq![
        ".cache"@,
        ".cargo"@,
        ".git"@,
        "__pycache__"@,
        "node_modules"@,
        "target"@,
        "venv"@,
    ]);
    components
}

/// The layouts available when none are configured: `default`, which
/// announces the new session.
pub fn default_layout_definitions() -> (layouts: Vec<LayoutDefinition>)
    ensures
        are_default_layouts(layouts@),
{
    let commands = vec!["echo \"Created $TWM_TYPE session\"".to_owned()];
    assert(texts_of(commands@) =~= seq!["echo \"Created $TWM_TYPE session\""@]);
    vec![LayoutDefinition { name: "default".to_owned(), inherits: None, commands: Some(commands) }]
}

/// Whether symbolic links are followed when nothing is configured.
pub fn default_follow_links() -> (follow: bool)
    ensures
        follow,
{
    true
}

/// The configuration as a user writes it. Every setting has a default.
#[derive(Debug, Clone, PartialEq, Eq)]
pub struct RawTwmGlobal {
    /// Directories in which workspaces are looked for. A leading `~` stands
    /// for the home directory.
    pub search_paths: Vec<String>,
    /// The workspace types, in order of priority.
    pub workspace_definitions: Vec<WorkspaceDefinitionConfig>,
    /// How deep below a search path workspaces are looked for.
    pub max_search_depth: usize,
    /// How many components of a workspace's path name its session.
    pub session_name_path_components: usize,
    /// Directory names below which nothing is looked for.
    pub exclude_path_components: Vec<String>,
    /// The layouts a workspace can be opened with.
    pub layouts: Vec<LayoutDefinition>,
    /// Whether symbolic links are followed in the search.
    pub follow_links: bool,
}

impl Default for RawTwmGlobal {
    /// The configuration in which nothing is set.
    fn default() -> (raw: Self)
        ensures
            texts_of(raw.search_paths@) == seq!["~"@],
            are_default_definitions(raw.workspace_definitions@),
            raw.max_search_depth == 3,
            raw.session_name_path_components == 2,
            texts_of(raw.exclude_path_components@) == default_excluded(),
            are_default_layouts(raw.layouts@),
            raw.follow_links,
    {
        RawTwmGlobal {
            search_paths: default_search_paths(),
            workspace_definitions: default_workspace_definitions(),
            max_search_depth: default_max_search_depth(),
            session_name_path_components: default_session_name_path_components(),
            exclude_path_components: default_exclude_path_components(),
            layouts: default_layout_definitions(),
            follow_links: default_follow_links(),
        }
    }
}

/// The configuration the library works with.
#[derive(Debug, Clone, PartialEq, Eq)]
pub struct TwmGlobal {
    /// Directories in which workspaces are looked for, home directory filled in.
    pub search_paths: Vec<String>,
    /// Directory names below which nothing is looked for.
    pub exclude_path_components: Vec<String>,
    /// The workspace types, in order of priority.
    pub workspace_definitions: Vec<WorkspaceDefinition>,
    /// How many components of a workspace's path name its session.
    pub session_name_path_components: usize,
    /// The layouts a workspace can be opened with.
    pub layouts: Vec<LayoutDefinition>,
    /// How deep below a search path workspaces are looked for.
    pub max_search_depth: usize,
    /// Whether symbolic links are followed in the search.
    pub follow_links: bool,
}

/// The layout a workspace directory sets for itself.
#[derive(Debug, Clone, PartialEq, Eq)]
pub struct TwmLayout {
    /// The layout a new session of this workspace is opened with. It takes
    /// the place of the default layout of the workspace's type.
    pub layout: LayoutDefinition,
}

/// Whether `path` begins with a tilde that can stand for the home
/// directory: a tilde alone, or one with a separator behind it. A backslash
/// counts as a separator, as it is one on some systems.
pub open spec fn names_home(path: Seq<char>) -> bool {
    path.len() > 0 && path[0] == '~' && (path.len() == 1 || path[1] == '/' || path[1] == '\\')
}

/// What holds of a search path `expanded` from `written`, whatever the home
/// directory is: a path that does not name the home directory is unchanged,
/// and of one that does, all behind the tilde is kept at the end.
pub open spec fn expands_to(written: Seq<char>, expanded: Seq<char>) -> bool {
    if names_home(written) {
        written.skip(1).is_suffix_of(expanded)
    } else {
        expanded == written
    }
}

/// `shellexpand::tilde`: puts the home directory of the user in the place
/// of a leading tilde that stands alone or before a separator, which is `/`
/// and on some systems `\` too. The home directory is the environment's, so
/// nothing is claimed of it; where there is none, and where the system does
/// not take the separator for one, the path is left as it is.
#[verifier::external_body]
fn expand_tilde(path: &str) -> (expanded: String)
    ensures
        expands_to(path@, expanded@),
{
    shellexpand::tilde(path).into_owned()
}

/// The definitions that `configs` stand for, in order.
pub open spec fn definitions_of(
    configs: Seq<WorkspaceDefinitionConfig>,
    definitions: Seq<WorkspaceDefinition>,
) -> bool {
    &&& definitions.len() == configs.len()
    &&& forall|i: int|
        0 <= i < configs.len() ==> {
            &&& (#[trigger] definitions[i]).name == configs[i].name
            &&& definitions[i].default_layout == configs[i].default_layout
            &&& definitions[i].conditions@ == configs[i].conditions()
        }
}

impl TwmGlobal {
    /// The configuration that `raw_config` stands for, with `search_paths`
    /// in the place of the paths it writes.
    pub fn with_search_paths(raw_config: RawTwmGlobal, search_paths: Vec<String>) -> (config: Self)
        ensures
            config.search_paths == search_paths,
            config.exclude_path_components == raw_config.exclude_path_components,
            definitions_of(raw_config.workspace_definitions@, config.workspace_definitions@),
            config.session_name_path_components == raw_config.session_name_path_components,
            config.layouts == raw_config.layouts,
            config.max_search_depth == raw_config.max_search_depth,
            config.follow_links == raw_config.follow_links,
    {
        let ghost configs = raw_config.workspace_definitions@;
        let mut workspace_definitions: Vec<WorkspaceDefinition> = Vec::new();
        for definition in it: raw_config.workspace_definitions
            invariant
                it.seq() == configs,
                definitions_of(configs.take(it.index()), workspace_definitions@),
        {
            workspace_definitions.push(WorkspaceDefinition::from(definition));
        }
        assert(configs.take(configs.len() as int) =~= configs);
        TwmGlobal {
            search_paths,
            exclude_path_components: raw_config.exclude_path_components,
            workspace_definitions,
            layouts: raw_config.layouts,
            max_search_depth: raw_config.max_search_depth,
            session_name_path_components: raw_config.session_name_path_components,
            follow_links: raw_config.follow_links,
        }
    }

    /// The configuration that `raw_config` stands for. Each search path has
    /// the home directory put in the place of a leading tilde.
    pub fn from(raw_config: RawTwmGlobal) -> (config: Self)
        ensures
            config.search_paths@.len() == raw_config.search_paths@.len(),
            forall|i: int|
                0 <= i < config.search_paths@.len() ==> expands_to(
                    raw_config.search_paths@[i]@,
                    (#[trigger] config.search_paths@[i])@,
                ),
            config.exclude_path_components == raw_config.exclude_path_components,
            definitions_of(raw_config.workspace_definitions@, config.workspace_definitions@),
            config.session_name_path_components == raw_config.session_name_path_components,
            config.layouts == raw_config.layouts,
            config.max_search_depth == raw_config.max_search_depth,
            config.follow_links == raw_config.follow_links,
    {
        let mut search_paths: Vec<String> = Vec::new();
        let mut i: usize = 0;
        while i < raw_config.search_paths.len()
            invariant
                i <= raw_config.search_paths.len(),
                search_paths@.len() == i,
                forall|j: int|
                    0 <= j < i ==> expands_to(
                        raw_config.search_paths@[j]@,
                        (#[trigger] search_paths@[j])@,
                    ),
            decreases raw_config.search_paths.len() - i,
        {
            search_paths.push(expand_tilde(raw_config.search_paths[i].as_str()));
            i += 1;
        }
        TwmGlobal::with_search_paths(raw_config, search_paths)
    }
}

/// The keys of a layout.
pub open spec fn layout_keys() -> Seq<Seq<char>> {
    seq!["name"@, "inherits"@, "commands"@]
}

/// What is wrong with `item` as a layout, where it is the value, or among
/// the values, of the setting `field`. The keys come first, then the name,
/// the inherited layouts and the commands.
pub open spec fn layout_fault(item: Setting, field: Seq<char>) -> Option<Fault> {
    match item {
        Setting::Table(entries) => or_fault(
            key_fault(entries@, layout_keys(), 0),
            or_fault(
                fault_in(required_text(entries@, "name"@)),
                or_fault(
                    fault_in(list_setting(entries@, "inherits"@, true)),
                    fault_in(list_setting(entries@, "commands"@, true)),
                ),
            ),
        ),
        _ => Some(Fault::InvalidValue { field }),
    }
}

/// Whether `layout` is what the table `item` writes.
pub open spec fn reads_layout(item: Setting, layout: LayoutDefinition) -> bool {
    &&& item matches Setting::Table(entries)
    &&& required_text(entries@, "name"@) == Ok::<Seq<char>, Fault>(layout.name@)
    &&& is_list(list_setting(entries@, "inherits"@, true), layout.inherits)
    &&& is_list(list_setting(entries@, "commands"@, true), layout.commands)
}

impl LayoutDefinition {
    /// Reads a layout from `item`, which is the value, or among the values,
    /// of the setting `field`. A layout is a table with a `name`, and may
    /// list the layouts it `inherits` and its `commands`.
    pub fn from_setting(item: &Setting, field: &str) -> (read: Result<Self, SettingsError>)
        ensures
            match layout_fault(*item, field@) {
                Some(fault) => read matches Err(error) && error@ == fault,
                None => read matches Ok(layout) && reads_layout(*item, layout),
            },
    {
        match item {
            Setting::Table(entries) => {
                let allowed = vec!["name", "inherits", "commands"];
                assert(texts(allowed@) =~= layout_keys());
                match check_keys(entries, &allowed) {
                    Err(error) => {
                        return Err(error);
                    },
                    Ok(_) => {},
                }
                let name = match require_text(entries, "name") {
                    Err(error) => {
                        return Err(error);
                    },
                    Ok(name) => name,
                };
                let inherits = match read_list(entries, "inherits", true) {
                    Err(error) => {
                        return Err(error);
                    },
                    Ok(list) => list,
                };
                let commands = match read_list(entries, "commands", true) {
                    Err(error) => {
                        return Err(error);
                    },
                    Ok(list) => list,
                };
                Ok(LayoutDefinition { name, inherits, commands })
            },
            _ => Err(SettingsError::InvalidValue { field: field.to_owned() }),
        }
    }
}

/// The keys of a workspace definition.
pub open spec fn definition_keys() -> Seq<Seq<char>> {
    seq![
        "name"@,
        "has_any_file"@,
        "has_all_files"@,
        "missing_any_file"@,
        "missing_all_files"@,
        "default_layout"@,
    ]
}

/// What is wrong with `item` as a workspace definition among the values
/// of the setting `field`. The keys come first, then the settings in the
/// order of `definition_keys`.
pub open spec fn definition_fault(item: Setting, field: Seq<char>) -> Option<Fault> {
    match item {
        Setting::Table(entries) => or_fault(
            key_fault(entries@, definition_keys(), 0),
            or_fault(
                fault_in(required_text(entries@, "name"@)),
                or_fault(
                    fault_in(list_setting(entries@, "has_any_file"@, true)),
                    or_fault(
                        fault_in(list_setting(entries@, "has_all_files"@, true)),
                        or_fault(
                            fault_in(list_setting(entries@, "missing_any_file"@, true)),
                            or_fault(
                                fault_in(list_setting(entries@, "missing_all_files"@, true)),
                                fault_in(text_setting(entries@, "default_layout"@, true)),
                            ),
                        ),
                    ),
                ),
            ),
        ),
        _ => Some(Fault::InvalidValue { field }),
    }
}

/// Whether `definition` is what the table `item` writes.
pub open spec fn reads_definition(item: Setting, definition: WorkspaceDefinitionConfig) -> bool {
    &&& item matches Setting::Table(entries)
    &&& required_text(entries@, "name"@) == Ok::<Seq<char>, Fault>(definition.name@)
    &&& is_list(list_setting(entries@, "has_any_file"@, true), definition.has_any_file)
    &&& is_list(list_setting(entries@, "has_all_files"@, true), definition.has_all_files)
    &&& is_list(list_setting(entries@, "missing_any_file"@, true), definition.missing_any_file)
    &&& is_list(list_setting(entries@, "missing_all_files"@, true), definition.missing_all_files)
    &&& is_text(text_setting(entries@, "default_layout"@, true), definition.default_layout)
}

impl WorkspaceDefinitionConfig {
    /// Reads a workspace definition from `item`, which is among the values
    /// of the setting `field`. A definition is a table with a `name`; its
    /// lists of files and its default layout may be missing.
    pub fn from_setting(item: &Setting, field: &str) -> (read: Result<Self, SettingsError>)
        ensures
            match definition_fault(*item, field@) {
                Some(fault) => read matches Err(error) && error@ == fault,
                None => read matches Ok(definition) && reads_definition(*item, definition),
            },
    {
        match item {
            Setting::Table(entries) => {
                let allowed = vec![
                    "name",
                    "has_any_file",
                    "has_all_files",
                    "missing_any_file",
                    "missing_all_files",
                    "default_layout",
                ];
                assert(texts(allowed@) =~= definition_keys());
                match check_keys(entries, &allowed) {
                    Err(error) => {
                        return Err(error);
                    },
                    Ok(_) => {},
                }
                let name = match require_text(entries, "name") {
                    Err(error) => {
                        return Err(error);
                    },
                    Ok(name) => name,
                };
                let has_any_file = match read_list(entries, "has_any_file", true) {
                    Err(error) => {
                        return Err(error);
                    },
                    Ok(list) => list,
                };
                let has_all_files = match read_list(entries, "has_all_files", true) {
                    Err(error) => {
                        return Err(error);
                    },
                    Ok(list) => list,
                };
                let missing_any_file = match read_list(entries, "missing_any_file", true) {
                    Err(error) => {
                        return Err(error);
                    },
                    Ok(list) => list,
                };
                let missing_all_files = match read_list(entries, "missing_all_files", true) {
                    Err(error) => {
                        return Err(error);
                    },
                    Ok(list) => list,
                };
                let default_layout = match read_text(entries, "default_layout", true) {
                    Err(error) => {
                        return Err(error);
                    },
                    Ok(text) => text,
                };
                Ok(
                    WorkspaceDefinitionConfig {
                        name,
                        has_any_file,
                        has_all_files,
                        missing_any_file,
                        missing_all_files,
                        default_layout,
                    },
                )
            },
            _ => Err(SettingsError::InvalidValue { field: field.to_owned() }),
        }
    }
}

/// What is wrong with `items[from..]` as layouts: the fault of the first
/// that has one.
pub open spec fn layouts_fault(items: Seq<Setting>, field: Seq<char>, from: int) -> Option<Fault>
    decreases items.len() - from,
{
    if from < 0 || from >= items.len() {
        None
    } else {
        or_fault(layout_fault(items[from], field), layouts_fault(items, field, from + 1))
    }
}

/// What is wrong with `items[from..]` as workspace definitions: the fault
/// of the first that has one.
pub open spec fn definitions_fault(items: Seq<Setting>, field: Seq<char>, from: int) -> Option<
    Fault,
>
    decreases items.len() - from,
{
    if from < 0 || from >= items.len() {
        None
    } else {
        or_fault(definition_fault(items[from], field), definitions_fault(items, field, from + 1))
    }
}

/// Whether `layouts` are the layouts that `value` lists.
pub open spec fn reads_layouts(value: Setting, layouts: Seq<LayoutDefinition>) -> bool {
    &&& value matches Setting::Array(items)
    &&& layouts.len() == items@.len()
    &&& forall|i: int| 0 <= i < layouts.len() ==> reads_layout(items@[i], #[trigger] layouts[i])
}

/// Whether `definitions` are the workspace definitions that `value` lists.
pub open spec fn reads_definitions(
    value: Setting,
    definitions: Seq<WorkspaceDefinitionConfig>,
) -> bool {
    &&& value matches Setting::Array(items)
    &&& definitions.len() == items@.len()
    &&& forall|i: int|
        0 <= i < definitions.len() ==> reads_definition(items@[i], #[trigger] definitions[i])
}

/// What is wrong with `value` as the list of layouts given to `field`.
pub open spec fn layout_list_fault(value: Setting, field: Seq<char>) -> Option<Fault> {
    match value {
        Setting::Array(items) => layouts_fault(items@, field, 0),
        _ => Some(Fault::InvalidValue { field }),
    }
}

/// What is wrong with `value` as the list of definitions given to `field`.
pub open spec fn definition_list_fault(value: Setting, field: Seq<char>) -> Option<Fault> {
    match value {
        Setting::Array(items) => definitions_fault(items@, field, 0),
        _ => Some(Fault::InvalidValue { field }),
    }
}

/// Reads the list of layouts that `value`, given to `field`, writes.
pub fn read_layouts(value: &Setting, field: &str) -> (read: Result<
    Vec<LayoutDefinition>,
    SettingsError,
>)
    ensures
        match layout_list_fault(*value, field@) {
            Some(fault) => read matches Err(error) && error@ == fault,
            None => read matches Ok(layouts) && reads_layouts(*value, layouts@),
        },
{
    match value {
        Setting::Array(items) => {
            let mut layouts: Vec<LayoutDefinition> = Vec::new();
            let mut i: usize = 0;
            while i < items.len()
                invariant
                    i <= items.len(),
                    *value == Setting::Array(*items),
                    layouts@.len() == i,
                    layouts_fault(items@, field@, 0) == layouts_fault(items@, field@, i as int),
                    forall|j: int| 0 <= j < i ==> reads_layout(items@[j], #[trigger] layouts@[j]),
                decreases items.len() - i,
            {
                match LayoutDefinition::from_setting(&items[i], field) {
                    Ok(layout) => {
                        layouts.push(layout);
                    },
                    Err(error) => {
                        return Err(error);
                    },
                }
                i += 1;
            }
            Ok(layouts)
        },
        _ => Err(SettingsError::InvalidValue { field: field.to_owned() }),
    }
}

/// Reads the list of definitions that `value`, given to `field`, writes.
pub fn read_definitions(value: &Setting, field: &str) -> (read: Result<
    Vec<WorkspaceDefinitionConfig>,
    SettingsError,
>)
    ensures
        match definition_list_fault(*value, field@) {
            Some(fault) => read matches Err(error) && error@ == fault,
            None => read matches Ok(definitions) && reads_definitions(*value, definitions@),
        },
{
    match value {
        Setting::Array(items) => {
            let mut definitions: Vec<WorkspaceDefinitionConfig> = Vec::new();
            let mut i: usize = 0;
            while i < items.len()
                invariant
                    i <= items.len(),
                    *value == Setting::Array(*items),
                    definitions@.len() == i,
                    definitions_fault(items@, field@, 0) == definitions_fault(
                        items@,
                        field@,
                        i as int,
                    ),
                    forall|j: int|
                        0 <= j < i ==> reads_definition(items@[j], #[trigger] definitions@[j]),
                decreases items.len() - i,
            {
                match WorkspaceDefinitionConfig::from_setting(&items[i], field) {
                    Ok(definition) => {
                        definitions.push(definition);
                    },
                    Err(error) => {
                        return Err(error);
                    },
                }
                i += 1;
            }
            Ok(definitions)
        },
        _ => Err(SettingsError::InvalidValue { field: field.to_owned() }),
    }
}

/// The keys of the configuration.
pub open spec fn global_keys() -> Seq<Seq<char>> {
    seq![
        "search_paths"@,
        "workspace_definitions"@,
        "max_search_depth"@,
        "session_name_path_components"@,
        "exclude_path_components"@,
        "layouts"@,
        "follow_links"@,
    ]
}

/// What is wrong with the value given to a setting that lists layouts.
pub open spec fn layouts_setting_fault(entries: Seq<(String, Setting)>, key: Seq<char>) -> Option<
    Fault,
> {
    match given(entries, key, false) {
        Some(value) => layout_list_fault(value, key),
        None => None,
    }
}

/// What is wrong with the value given to a setting that lists workspace
/// definitions.
pub open spec fn definitions_setting_fault(
    entries: Seq<(String, Setting)>,
    key: Seq<char>,
) -> Option<Fault> {
    match given(entries, key, false) {
        Some(value) => definition_list_fault(value, key),
        None => None,
    }
}

/// What is wrong with `root` as a configuration. The keys come first, then
/// the settings in the order of `global_keys`.
pub open spec fn global_fault(root: Setting) -> Option<Fault> {
    match root {
        Setting::Table(entries) => or_fault(
            key_fault(entries@, global_keys(), 0),
            or_fault(
                fault_in(list_setting(entries@, "search_paths"@, false)),
                or_fault(
                    definitions_setting_fault(entries@, "workspace_definitions"@),
                    or_fault(
                        fault_in(count_setting(entries@, "max_search_depth"@)),
                        or_fault(
                            fault_in(count_setting(entries@, "session_name_path_components"@)),
                            or_fault(
                                fault_in(
                                    list_setting(entries@, "exclude_path_components"@, false),
                                ),
                                or_fault(
                                    layouts_setting_fault(entries@, "layouts"@),
                                    fault_in(truth_setting(entries@, "follow_links"@)),
                                ),
                            ),
                        ),
                    ),
                ),
            ),
        ),
        _ => Some(Fault::InvalidRoot),
    }
}

/// Whether `definitions` are the workspace definitions used when none are
/// configured.
pub open spec fn are_default_definitions(definitions: Seq<WorkspaceDefinitionConfig>) -> bool {
    &&& definitions.len() == 1
    &&& definitions[0].name@ == "default"@
    &&& definitions[0].has_any_file matches Some(files) && texts_of(files@) == seq![
        ".git"@,
        ".twm.yaml"@,
    ]
    &&& definitions[0].has_all_files is None
    &&& definitions[0].missing_any_file is None
    &&& definitions[0].missing_all_files is None
    &&& definitions[0].default_layout matches Some(layout) && layout@ == "default"@
}

/// Whether `layouts` are the layouts available when none are configured.
pub open spec fn are_default_layouts(layouts: Seq<LayoutDefinition>) -> bool {
    &&& layouts.len() == 1
    &&& layouts[0].name@ == "default"@
    &&& layouts[0].inherits is None
    &&& layouts[0].commands matches Some(commands) && texts_of(commands@) == seq![
        "echo \"Created $TWM_TYPE session\""@,
    ]
}

/// The directory names that are not searched when none are configured.
pub open spec fn default_excluded() -> Seq<Seq<char>> {
    seq![
        ".cache"@,
        ".cargo"@,
        ".git"@,
        "__pycache__"@,
        "node_modules"@,
        "target"@,
        "venv"@,
    ]
}

/// Whether `raw` is what the table `root` writes, with the default of each
/// setting that it does not give.
pub open spec fn reads_global(root: Setting, raw: RawTwmGlobal) -> bool {
    &&& root matches Setting::Table(entries)
    &&& texts_of(raw.search_paths@) == match list_setting(entries@, "search_paths"@, false) {
        Ok(Some(paths)) => paths,
        _ => seq!["~"@],
    }
    &&& match given(entries@, "workspace_definitions"@, false) {
        Some(value) => reads_definitions(value, raw.workspace_definitions@),
        None => are_default_definitions(raw.workspace_definitions@),
    }
    &&& raw.max_search_depth == match count_setting(entries@, "max_search_depth"@) {
        Ok(Some(depth)) => depth,
        _ => 3,
    }
    &&& raw.session_name_path_components == match count_setting(
        entries@,
        "session_name_path_components"@,
    ) {
        Ok(Some(components)) => components,
        _ => 2,
    }
    &&& texts_of(raw.exclude_path_components@) == match list_setting(
        entries@,
        "exclude_path_components"@,
        false,
    ) {
        Ok(Some(names)) => names,
        _ => default_excluded(),
    }
    &&& match given(entries@, "layouts"@, false) {
        Some(value) => reads_layouts(value, raw.layouts@),
        None => are_default_layouts(raw.layouts@),
    }
    &&& raw.follow_links == match truth_setting(entries@, "follow_links"@) {
        Ok(Some(follow)) => follow,
        _ => true,
    }
}

impl RawTwmGlobal {
    /// Reads the configuration from a document. The document is a table
    /// that holds no key but the seven settings, each at most once. A
    /// setting that is missing has its default.
    pub fn from_setting(root: &Setting) -> (read: Result<Self, SettingsError>)
        ensures
            match global_fault(*root) {
                Some(fault) => read matches Err(error) && error@ == fault,
                None => read matches Ok(raw) && reads_global(*root, raw),
            },
    {
        match root {
            Setting::Table(entries) => {
                let allowed = vec![
                    "search_paths",
                    "workspace_definitions",
                    "max_search_depth",
                    "session_name_path_components",
                    "exclude_path_components",
                    "layouts",
                    "follow_links",
                ];
                assert(texts(allowed@) =~= global_keys());
                match check_keys(entries, &allowed) {
                    Err(error) => {
                        return Err(error);
                    },
                    Ok(_) => {},
                }
                let search_paths = match read_list(entries, "search_paths", false) {
                    Err(error) => {
                        return Err(error);
                    },
                    Ok(Some(paths)) => paths,
                    Ok(None) => default_search_paths(),
                };
                let workspace_definitions = match lookup(entries, "workspace_definitions", false) {
                    Some(value) => match read_definitions(value, "workspace_definitions") {
                        Err(error) => {
                            return Err(error);
                        },
                        Ok(definitions) => definitions,
                    },
                    None => default_workspace_definitions(),
                };
                let max_search_depth = match read_count(entries, "max_search_depth") {
                    Err(error) => {
                        return Err(error);
                    },
                    Ok(Some(depth)) => depth,
                    Ok(None) => default_max_search_depth(),
                };
                let session_name_path_components = match read_count(
                    entries,
                    "session_name_path_components",
                ) {
                    Err(error) => {
                        return Err(error);
                    },
                    Ok(Some(components)) => components,
                    Ok(None) => default_session_name_path_components(),
                };
                let exclude_path_components = match read_list(
                    entries,
                    "exclude_path_components",
                    false,
                ) {
                    Err(error) => {
                        return Err(error);
                    },
                    Ok(Some(names)) => names,
                    Ok(None) => default_exclude_path_components(),
                };
                let layouts = match lookup(entries, "layouts", false) {
                    Some(value) => match read_layouts(value, "layouts") {
                        Err(error) => {
                            return Err(error);
                        },
                        Ok(layouts) => layouts,
                    },
                    None => default_layout_definitions(),
                };
                let follow_links = match read_truth(entries, "follow_links") {
                    Err(error) => {
                        return Err(error);
                    },
                    Ok(Some(follow)) => follow,
                    Ok(None) => default_follow_links(),
                };
                Ok(
                    RawTwmGlobal {
                        search_paths,
                        workspace_definitions,
                        max_search_depth,
                        session_name_path_components,
                        exclude_path_components,
                        layouts,
                        follow_links,
                    },
                )
            },
            _ => Err(SettingsError::InvalidRoot),
        }
    }
}

/// The keys of the layout file of a workspace.
pub open spec fn local_keys() -> Seq<Seq<char>> {
    seq!["layout"@]
}

/// What is wrong with `root` as the layout file of a workspace: its keys,
/// a missing layout, or what is wrong with the layout.
pub open spec fn local_fault(root: Setting) -> Option<Fault> {
    match root {
        Setting::Table(entries) => or_fault(
            key_fault(entries@, local_keys(), 0),
            match given(entries@, "layout"@, false) {
                Some(value) => layout_fault(value, "layout"@),
                None => Some(Fault::MissingField { field: "layout"@ }),
            },
        ),
        _ => Some(Fault::InvalidRoot),
    }
}

/// Whether `local` is what the table `root` writes.
pub open spec fn reads_local(root: Setting, local: TwmLayout) -> bool {
    &&& root matches Setting::Table(entries)
    &&& given(entries@, "layout"@, false) matches Some(value)
    &&& reads_layout(value, local.layout)
}

impl TwmLayout {
    /// Reads the layout of a workspace from a document: a table with the
    /// one key `layout`, whose value is a layout.
    pub fn from_setting(root: &Setting) -> (read: Result<Self, SettingsError>)
        ensures
            match local_fault(*root) {
                Some(fault) => read matches Err(error) && error@ == fault,
                None => read matches Ok(local) && reads_local(*root, local),
            },
    {
        match root {
            Setting::Table(entries) => {
                let allowed = vec!["layout"];
                assert(texts(allowed@) =~= local_keys());
                match check_keys(entries, &allowed) {
                    Err(error) => {
                        return Err(error);
                    },
                    Ok(_) => {},
                }
                match lookup(entries, "layout", false) {
                    Some(value) => match LayoutDefinition::from_setting(value, "layout") {
                        Ok(layout) => Ok(TwmLayout { layout }),
                        Err(error) => Err(error),
                    },
                    None => Err(SettingsError::MissingField { field: "layout".to_owned() }),
                }
            },
            _ => Err(SettingsError::InvalidRoot),
        }
    }
}

/// Why a configuration that could be read cannot be used.
#[derive(Debug, Clone, PartialEq, Eq)]
pub enum ValidationError {
    /// The workspace definition `definition` sets the default layout
    /// `layout`, and no layout has that name.
    MissingLayout { definition: String, layout: String },
    /// The layout `layout` inherits, directly or through others, from itself.
    InheritanceCycle { layout: String },
}

/// Whether definition `i` sets a default layout that no layout is named.
pub open spec fn lacks_layout(config: TwmGlobal, i: int) -> bool {
    &&& 0 <= i < config.workspace_definitions@.len()
    &&& config.workspace_definitions@[i].default_layout matches Some(layout)
    &&& find_layout(config.layouts@, layout@, 0) is None
}

/// The first definition at or after `from` whose default layout is missing.
pub open spec fn first_lacking(config: TwmGlobal, from: int) -> Option<int>
    decreases config.workspace_definitions@.len() - from,
{
    if from < 0 || from >= config.workspace_definitions@.len() {
        None
    } else if lacks_layout(config, from) {
        Some(from)
    } else {
        first_lacking(config, from + 1)
    }
}

/// The name that closes the first cycle met when the layouts at or after
/// `from` are flattened one after the other.
pub open spec fn first_cycle(layouts: Seq<LayoutDefinition>, from: int) -> Option<Seq<char>>
    decreases layouts.len() - from,
{
    if from < 0 || from >= layouts.len() {
        None
    } else {
        match flattened_by_name(layouts, layouts[from].name@) {
            Err(name) => Some(name),
            Ok(_) => first_cycle(layouts, from + 1),
        }
    }
}

impl TwmGlobal {
    /// Checks that the configuration can be used: every default layout of a
    /// workspace definition exists, and no layout inherits from itself. The
    /// first definition without its layout is reported before any cycle.
    pub fn validate(&self) -> (checked: Result<(), ValidationError>)
        ensures
            match first_lacking(*self, 0) {
                Some(i) => checked matches Err(
                    ValidationError::MissingLayout { definition, layout },
                ) && definition@ == self.workspace_definitions@[i].name@ && Some(layout)
                    == self.workspace_definitions@[i].default_layout,
                None => match first_cycle(self.layouts@, 0) {
                    Some(name) => checked matches Err(ValidationError::InheritanceCycle { layout })
                        && layout@ == name,
                    None => checked is Ok,
                },
            },
    {
        let mut i: usize = 0;
        while i < self.workspace_definitions.len()
            invariant
                i <= self.workspace_definitions.len(),
                first_lacking(*self, 0) == first_lacking(*self, i as int),
            decreases self.workspace_definitions.len() - i,
        {
            let definition = &self.workspace_definitions[i];
            if let Some(layout) = &definition.default_layout {
                if get_layout_by_name(layout.as_str(), self.layouts.as_slice()).is_none() {
                    return Err(
                        ValidationError::MissingLayout {
                            definition: definition.name.clone(),
                            layout: layout.clone(),
                        },
                    );
                }
            }
            i += 1;
        }
        let mut k: usize = 0;
        while k < self.layouts.len()
            invariant
                k <= self.layouts.len(),
                first_lacking(*self, 0) is None,
                first_cycle(self.layouts@, 0) == first_cycle(self.layouts@, k as int),
            decreases self.layouts.len() - k,
        {
            match get_commands_from_layout_name(
                self.layouts[k].name.as_str(),
                self.layouts.as_slice(),
            ) {
                Err(LayoutError::InheritanceCycle { layout }) => {
                    return Err(ValidationError::InheritanceCycle { layout });
                },
                Ok(_) => {},
            }
            k += 1;
        }
        Ok(())
    }
}

} // verus!

//! The settings group of the code editor and code review: each setting's
//! name, place in the settings file, default and visibility.

use vstd::prelude::*;

verus! {

/// Platforms on which a setting applies.
#[derive(Debug, Clone, Copy, PartialEq, Eq, Structural)]
pub enum SupportedPlatforms {
    All,
    Desktop,
}

/// Whether a synced setting follows the user's own sync preference.
#[derive(Debug, Clone, Copy, PartialEq, Eq, Structural)]
pub enum RespectUserSyncSetting {
    Yes,
    No,
}

/// Whether, and how, a setting is synced to the cloud.
#[derive(Debug, Clone, Copy, PartialEq, Eq, Structural)]
pub enum SyncToCloud {
    Never,
    Globally(RespectUserSyncSetting),
}

/// Layout of Code Review diff views.
#[derive(Debug, Clone, Copy, PartialEq, Eq, Structural)]
pub enum DiffLayout {
    Inline,
    SideBySide,
}

/// The index of the last `.` in `s`.
pub open spec fn last_dot(s: Seq<char>) -> Option<int>
    decreases s.len(),
{
    if s.len() == 0 {
        None
    } else if s.last() == '.' {
        Some(s.len() - 1)
    } else {
        last_dot(s.drop_last())
    }
}

/// The table that holds a setting: its settings-file path up to the last
/// `.`; none for a top-level key.
pub open spec fn toml_hierarchy_spec(path: Seq<char>) -> Option<Seq<char>> {
    match last_dot(path) {
        Some(i) => Some(path.take(i)),
        None => None,
    }
}

/// The key of a setting within its table: its settings-file path after the
/// last `.`.
pub open spec fn toml_key_spec(path: Seq<char>) -> Seq<char> {
    match last_dot(path) {
        Some(i) => path.skip(i + 1),
        None => path,
    }
}

proof fn lemma_last_dot(s: Seq<char>)
    ensures
        match last_dot(s) {
            Some(i) => 0 <= i < s.len() && s[i] == '.' && forall|j: int| i < j < s.len() ==> s[j] != '.',
            None => forall|j: int| 0 <= j < s.len() ==> s[j] != '.',
        },
    decreases s.len(),
{
    if s.len() > 0 && s.last() != '.' {
        lemma_last_dot(s.drop_last());
        assert forall|j: int| 0 <= j < s.len() - 1 implies s[j] == s.drop_last()[j] by {}
    }
}

/// A settings-file path is its table, a `.`, and its key; the key holds no
/// `.`. A path without a `.` has no table and is its own key.
pub proof fn law_toml_path_splits_into_table_and_key(path: Seq<char>)
    ensures
        match toml_hierarchy_spec(path) {
            Some(h) => h + seq!['.'] + toml_key_spec(path) == path && !toml_key_spec(path).contains('.'),
            None => toml_key_spec(path) == path && !path.contains('.'),
        },
{
    lemma_last_dot(path);
    match last_dot(path) {
        Some(i) => {
            assert(path.take(i) + seq!['.'] + path.skip(i + 1) =~= path);
            let key = path.skip(i + 1);
            assert forall|j: int| 0 <= j < key.len() implies #[trigger] key[j] != '.' by {
                assert(key[j] == path[i + 1 + j]);
            }
        },
        None => {},
    }
}

/// The position of the last `.` in `s`.
fn find_last_dot(s: &str) -> (r: Option<usize>)
    ensures
        match r {
            Some(i) => last_dot(s@) == Some(i as int) && i < s@.len(),
            None => last_dot(s@) is None,
        },
{
    let n = s.unicode_len();
    let mut j: usize = n;
    assert(s@.take(n as int) =~= s@);
    while j > 0
        invariant
            j <= n,
            n == s@.len(),
            last_dot(s@) == last_dot(s@.take(j as int)),
        decreases j,
    {
        assert(s@.take(j as int).drop_last() =~= s@.take(j - 1));
        if s.get_char(j - 1) == '.' {
            return Some(j - 1);
        }
        j = j - 1;
    }
    None
}

/// The table part of a settings-file path.
pub fn toml_hierarchy(path: &'static str) -> (h: Option<&'static str>)
    ensures
        match h {
            Some(t) => toml_hierarchy_spec(path@) == Some(t@),
            None => toml_hierarchy_spec(path@) is None,
        },
{
    match find_last_dot(path) {
        Some(i) => Some(path.substring_char(0, i)),
        None => None,
    }
}

/// The key part of a settings-file path.
pub fn toml_key_of(path: &'static str) -> (k: &'static str)
    ensures
        k@ == toml_key_spec(path@),
{
    let n = path.unicode_len();
    match find_last_dot(path) {
        Some(i) => path.substring_char(i + 1, n),
        None => path,
    }
}

/// A setting of the code settings group.
#[derive(Debug, Clone, Copy, PartialEq, Eq, Structural)]
pub enum CodeSetting {
    CodeAsDefaultEditor,
    CodebaseContextEnabled,
    AutoIndexingEnabled,
    DismissedCodeToolbeltNewFeaturePopup,
    ShowProjectExplorer,
    ShowGlobalSearch,
    ShowHiddenFiles,
    ScanChildRepos,
    DiffLayoutSetting,
    StagingArea,
    FormatOnSave,
    AutoSave,
}

/// The optional text of an optional string.
pub open spec fn opt_text(o: Option<&str>) -> Option<Seq<char>> {
    match o {
        Some(s) => Some(s@),
        None => None,
    }
}

impl CodeSetting {
    pub open spec fn field_name_text(self) -> Seq<char> {
        match self {
            CodeSetting::CodeAsDefaultEditor => "code_as_default_editor"@,
            CodeSetting::CodebaseContextEnabled => "codebase_context_enabled"@,
            CodeSetting::AutoIndexingEnabled => "auto_indexing_enabled"@,
            CodeSetting::DismissedCodeToolbeltNewFeaturePopup => "dismissed_code_toolbelt_new_feature_popup"@,
            CodeSetting::ShowProjectExplorer => "show_project_explorer"@,
            CodeSetting::ShowGlobalSearch => "show_global_search"@,
            CodeSetting::ShowHiddenFiles => "show_hidden_files"@,
            CodeSetting::ScanChildRepos => "scan_child_repos"@,
            CodeSetting::DiffLayoutSetting => "diff_layout"@,
            CodeSetting::StagingArea => "staging_area"@,
            CodeSetting::FormatOnSave => "format_on_save"@,
            CodeSetting::AutoSave => "auto_save"@,
        }
    }

    pub open spec fn toml_path_text(self) -> Option<Seq<char>> {
        match self {
            CodeSetting::CodeAsDefaultEditor => Some("code.editor.use_warp_as_default_editor"@),
            CodeSetting::CodebaseContextEnabled => Some("code.indexing.agent_mode_codebase_context"@),
            CodeSetting::AutoIndexingEnabled => Some("code.indexing.agent_mode_codebase_context_auto_indexing"@),
            CodeSetting::DismissedCodeToolbeltNewFeaturePopup => None,
            CodeSetting::ShowProjectExplorer => Some("code.editor.show_project_explorer"@),
            CodeSetting::ShowGlobalSearch => Some("code.editor.show_global_search"@),
            CodeSetting::ShowHiddenFiles => Some("code.editor.show_hidden_files"@),
            CodeSetting::ScanChildRepos => Some("code.review.scan_child_repos"@),
            CodeSetting::DiffLayoutSetting => Some("code.editor.diff_layout"@),
            CodeSetting::StagingArea => Some("code.review.staging_area"@),
            CodeSetting::FormatOnSave => Some("code.editor.format_on_save"@),
            CodeSetting::AutoSave => Some("code.editor.auto_save"@),
        }
    }

    pub open spec fn storage_key_text(self) -> Seq<char> {
        match self {
            CodeSetting::CodeAsDefaultEditor => "CodeAsDefaultEditor"@,
            CodeSetting::CodebaseContextEnabled => "AgentModeCodebaseContext"@,
            CodeSetting::AutoIndexingEnabled => "AgentModeCodebaseContextAutoIndexing"@,
            CodeSetting::DismissedCodeToolbeltNewFeaturePopup => "DismissedCodeToolbeltNewFeaturePopup"@,
            CodeSetting::ShowProjectExplorer => "ShowProjectExplorer"@,
            CodeSetting::ShowGlobalSearch => "ShowGlobalSearch"@,
            CodeSetting::ShowHiddenFiles => "ShowHiddenFiles"@,
            CodeSetting::ScanChildRepos => "ScanChildRepos"@,
            CodeSetting::DiffLayoutSetting => "DiffLayoutSetting"@,
            CodeSetting::StagingArea => "StagingArea"@,
            CodeSetting::FormatOnSave => "FormatOnSave"@,
            CodeSetting::AutoSave => "AutoSave"@,
        }
    }

    pub open spec fn description_text(self) -> Option<Seq<char>> {
        match self {
            CodeSetting::CodeAsDefaultEditor => Some("Whether Warp is used as the default code editor."@),
            CodeSetting::CodebaseContextEnabled => Some("Whether codebase context is provided to the AI agent."@),
            CodeSetting::AutoIndexingEnabled => Some("Whether automatic codebase indexing is enabled."@),
            CodeSetting::DismissedCodeToolbeltNewFeaturePopup => None,
            CodeSetting::ShowProjectExplorer => Some("Whether the project explorer is shown in the tools panel."@),
            CodeSetting::ShowGlobalSearch => Some("Whether global file search is shown in the tools panel."@),
            CodeSetting::ShowHiddenFiles => Some("Whether hidden files (dotfiles) are shown in the project explorer."@),
            CodeSetting::ScanChildRepos => Some("When the terminal folder isn't a git repository, scan its direct subfolders for repositories and list them in Code Review."@),
            CodeSetting::DiffLayoutSetting => Some("Layout for Code Review diff views: 'inline' or 'side_by_side'."@),
            CodeSetting::StagingArea => Some("Show a git staging area with separate staged and unstaged sections in Code Review."@),
            CodeSetting::FormatOnSave => Some("Whether the language server automatically formats the file on save. Other LSP features (hover, go-to-definition, references, diagnostics) are unaffected."@),
            CodeSetting::AutoSave => Some("Whether the Warp text editor automatically saves changes as you type and when the editor loses focus."@),
        }
    }

    pub open spec fn is_private_spec(self) -> bool {
        match self {
            CodeSetting::CodeAsDefaultEditor => false,
            CodeSetting::CodebaseContextEnabled => false,
            CodeSetting::AutoIndexingEnabled => false,
            CodeSetting::DismissedCodeToolbeltNewFeaturePopup => true,
            CodeSetting::ShowProjectExplorer => false,
            CodeSetting::ShowGlobalSearch => false,
            CodeSetting::ShowHiddenFiles => false,
            CodeSetting::ScanChildRepos => false,
            CodeSetting::DiffLayoutSetting => false,
            CodeSetting::StagingArea => false,
            CodeSetting::FormatOnSave => false,
            CodeSetting::AutoSave => false,
        }
    }

    pub open spec fn platforms_spec(self) -> SupportedPlatforms {
        match self {
            CodeSetting::CodeAsDefaultEditor => SupportedPlatforms::All,
            CodeSetting::CodebaseContextEnabled => SupportedPlatforms::Desktop,
            CodeSetting::AutoIndexingEnabled => SupportedPlatforms::Desktop,
            CodeSetting::DismissedCodeToolbeltNewFeaturePopup => SupportedPlatforms::All,
            CodeSetting::ShowProjectExplorer => SupportedPlatforms::All,
            CodeSetting::ShowGlobalSearch => SupportedPlatforms::All,
            CodeSetting::ShowHiddenFiles => SupportedPlatforms::All,
            CodeSetting::ScanChildRepos => SupportedPlatforms::Desktop,
            CodeSetting::DiffLayoutSetting => SupportedPlatforms::Desktop,
            CodeSetting::StagingArea => SupportedPlatforms::Desktop,
            CodeSetting::FormatOnSave => SupportedPlatforms::All,
            CodeSetting::AutoSave => SupportedPlatforms::All,
        }
    }

    pub open spec fn sync_spec(self) -> SyncToCloud {
        match self {
            CodeSetting::CodeAsDefaultEditor => SyncToCloud::Never,
            CodeSetting::CodebaseContextEnabled => SyncToCloud::Globally(RespectUserSyncSetting::Yes),
            CodeSetting::AutoIndexingEnabled => SyncToCloud::Globally(RespectUserSyncSetting::Yes),
            CodeSetting::DismissedCodeToolbeltNewFeaturePopup => SyncToCloud::Globally(RespectUserSyncSetting::Yes),
            CodeSetting::ShowProjectExplorer => SyncToCloud::Globally(RespectUserSyncSetting::Yes),
            CodeSetting::ShowGlobalSearch => SyncToCloud::Globally(RespectUserSyncSetting::Yes),
            CodeSetting::ShowHiddenFiles => SyncToCloud::Globally(RespectUserSyncSetting::Yes),
            CodeSetting::ScanChildRepos => SyncToCloud::Globally(RespectUserSyncSetting::Yes),
            CodeSetting::DiffLayoutSetting => SyncToCloud::Globally(RespectUserSyncSetting::Yes),
            CodeSetting::StagingArea => SyncToCloud::Globally(RespectUserSyncSetting::Yes),
            CodeSetting::FormatOnSave => SyncToCloud::Globally(RespectUserSyncSetting::Yes),
            CodeSetting::AutoSave => SyncToCloud::Globally(RespectUserSyncSetting::Yes),
        }
    }

    /// The setting's field in the settings group.
    pub fn field_name(self) -> (r: &'static str)
        ensures
            r@ == self.field_name_text(),
    {
        match self {
            CodeSetting::CodeAsDefaultEditor => "code_as_default_editor",
            CodeSetting::CodebaseContextEnabled => "codebase_context_enabled",
            CodeSetting::AutoIndexingEnabled => "auto_indexing_enabled",
            CodeSetting::DismissedCodeToolbeltNewFeaturePopup => "dismissed_code_toolbelt_new_feature_popup",
            CodeSetting::ShowProjectExplorer => "show_project_explorer",
            CodeSetting::ShowGlobalSearch => "show_global_search",
            CodeSetting::ShowHiddenFiles => "show_hidden_files",
            CodeSetting::ScanChildRepos => "scan_child_repos",
            CodeSetting::DiffLayoutSetting => "diff_layout",
            CodeSetting::StagingArea => "staging_area",
            CodeSetting::FormatOnSave => "format_on_save",
            CodeSetting::AutoSave => "auto_save",
        }
    }

    /// Where the setting stands in the settings file, if it stands there.
    pub fn toml_path(self) -> (r: Option<&'static str>)
        ensures
            opt_text(r) == self.toml_path_text(),
    {
        match self {
            CodeSetting::CodeAsDefaultEditor => Some("code.editor.use_warp_as_default_editor"),
            CodeSetting::CodebaseContextEnabled => Some("code.indexing.agent_mode_codebase_context"),
            CodeSetting::AutoIndexingEnabled => Some("code.indexing.agent_mode_codebase_context_auto_indexing"),
            CodeSetting::DismissedCodeToolbeltNewFeaturePopup => None,
            CodeSetting::ShowProjectExplorer => Some("code.editor.show_project_explorer"),
            CodeSetting::ShowGlobalSearch => Some("code.editor.show_global_search"),
            CodeSetting::ShowHiddenFiles => Some("code.editor.show_hidden_files"),
            CodeSetting::ScanChildRepos => Some("code.review.scan_child_repos"),
            CodeSetting::DiffLayoutSetting => Some("code.editor.diff_layout"),
            CodeSetting::StagingArea => Some("code.review.staging_area"),
            CodeSetting::FormatOnSave => Some("code.editor.format_on_save"),
            CodeSetting::AutoSave => Some("code.editor.auto_save"),
        }
    }

    /// The key under which the setting is stored: the one the group names,
    /// else the setting's own name.
    pub fn storage_key(self) -> (r: &'static str)
        ensures
            r@ == self.storage_key_text(),
    {
        match self {
            CodeSetting::CodeAsDefaultEditor => "CodeAsDefaultEditor",
            CodeSetting::CodebaseContextEnabled => "AgentModeCodebaseContext",
            CodeSetting::AutoIndexingEnabled => "AgentModeCodebaseContextAutoIndexing",
            CodeSetting::DismissedCodeToolbeltNewFeaturePopup => "DismissedCodeToolbeltNewFeaturePopup",
            CodeSetting::ShowProjectExplorer => "ShowProjectExplorer",
            CodeSetting::ShowGlobalSearch => "ShowGlobalSearch",
            CodeSetting::ShowHiddenFiles => "ShowHiddenFiles",
            CodeSetting::ScanChildRepos => "ScanChildRepos",
            CodeSetting::DiffLayoutSetting => "DiffLayoutSetting",
            CodeSetting::StagingArea => "StagingArea",
            CodeSetting::FormatOnSave => "FormatOnSave",
            CodeSetting::AutoSave => "AutoSave",
        }
    }

    /// The description shown for the setting, if it has one.
    pub fn description(self) -> (r: Option<&'static str>)
        ensures
            opt_text(r) == self.description_text(),
    {
        match self {
            CodeSetting::CodeAsDefaultEditor => Some("Whether Warp is used as the default code editor."),
            CodeSetting::CodebaseContextEnabled => Some("Whether codebase context is provided to the AI agent."),
            CodeSetting::AutoIndexingEnabled => Some("Whether automatic codebase indexing is enabled."),
            CodeSetting::DismissedCodeToolbeltNewFeaturePopup => None,
            CodeSetting::ShowProjectExplorer => Some("Whether the project explorer is shown in the tools panel."),
            CodeSetting::ShowGlobalSearch => Some("Whether global file search is shown in the tools panel."),
            CodeSetting::ShowHiddenFiles => Some("Whether hidden files (dotfiles) are shown in the project explorer."),
            CodeSetting::ScanChildRepos => Some("When the terminal folder isn't a git repository, scan its direct subfolders for repositories and list them in Code Review."),
            CodeSetting::DiffLayoutSetting => Some("Layout for Code Review diff views: 'inline' or 'side_by_side'."),
            CodeSetting::StagingArea => Some("Show a git staging area with separate staged and unstaged sections in Code Review."),
            CodeSetting::FormatOnSave => Some("Whether the language server automatically formats the file on save. Other LSP features (hover, go-to-definition, references, diagnostics) are unaffected."),
            CodeSetting::AutoSave => Some("Whether the Warp text editor automatically saves changes as you type and when the editor loses focus."),
        }
    }

    /// A private setting is kept out of the settings file.
    pub fn is_private(self) -> (r: bool)
        ensures
            r == self.is_private_spec(),
    {
        match self {
            CodeSetting::CodeAsDefaultEditor => false,
            CodeSetting::CodebaseContextEnabled => false,
            CodeSetting::AutoIndexingEnabled => false,
            CodeSetting::DismissedCodeToolbeltNewFeaturePopup => true,
            CodeSetting::ShowProjectExplorer => false,
            CodeSetting::ShowGlobalSearch => false,
            CodeSetting::ShowHiddenFiles => false,
            CodeSetting::ScanChildRepos => false,
            CodeSetting::DiffLayoutSetting => false,
            CodeSetting::StagingArea => false,
            CodeSetting::FormatOnSave => false,
            CodeSetting::AutoSave => false,
        }
    }

    /// The platforms on which the setting applies.
    pub fn supported_platforms(self) -> (r: SupportedPlatforms)
        ensures
            r == self.platforms_spec(),
    {
        match self {
            CodeSetting::CodeAsDefaultEditor => SupportedPlatforms::All,
            CodeSetting::CodebaseContextEnabled => SupportedPlatforms::Desktop,
            CodeSetting::AutoIndexingEnabled => SupportedPlatforms::Desktop,
            CodeSetting::DismissedCodeToolbeltNewFeaturePopup => SupportedPlatforms::All,
            CodeSetting::ShowProjectExplorer => SupportedPlatforms::All,
            CodeSetting::ShowGlobalSearch => SupportedPlatforms::All,
            CodeSetting::ShowHiddenFiles => SupportedPlatforms::All,
            CodeSetting::ScanChildRepos => SupportedPlatforms::Desktop,
            CodeSetting::DiffLayoutSetting => SupportedPlatforms::Desktop,
            CodeSetting::StagingArea => SupportedPlatforms::Desktop,
            CodeSetting::FormatOnSave => SupportedPlatforms::All,
            CodeSetting::AutoSave => SupportedPlatforms::All,
        }
    }

    /// Whether the setting is synced to the cloud.
    pub fn sync_to_cloud(self) -> (r: SyncToCloud)
        ensures
            r == self.sync_spec(),
    {
        match self {
            CodeSetting::CodeAsDefaultEditor => SyncToCloud::Never,
            CodeSetting::CodebaseContextEnabled => SyncToCloud::Globally(RespectUserSyncSetting::Yes),
            CodeSetting::AutoIndexingEnabled => SyncToCloud::Globally(RespectUserSyncSetting::Yes),
            CodeSetting::DismissedCodeToolbeltNewFeaturePopup => SyncToCloud::Globally(RespectUserSyncSetting::Yes),
            CodeSetting::ShowProjectExplorer => SyncToCloud::Globally(RespectUserSyncSetting::Yes),
            CodeSetting::ShowGlobalSearch => SyncToCloud::Globally(RespectUserSyncSetting::Yes),
            CodeSetting::ShowHiddenFiles => SyncToCloud::Globally(RespectUserSyncSetting::Yes),
            CodeSetting::ScanChildRepos => SyncToCloud::Globally(RespectUserSyncSetting::Yes),
            CodeSetting::DiffLayoutSetting => SyncToCloud::Globally(RespectUserSyncSetting::Yes),
            CodeSetting::StagingArea => SyncToCloud::Globally(RespectUserSyncSetting::Yes),
            CodeSetting::FormatOnSave => SyncToCloud::Globally(RespectUserSyncSetting::Yes),
            CodeSetting::AutoSave => SyncToCloud::Globally(RespectUserSyncSetting::Yes),
        }
    }

    /// The table that holds the setting in the settings file.
    pub fn hierarchy(self) -> (h: Option<&'static str>)
        ensures
            opt_text(h) == (match self.toml_path_text() {
                Some(p) => toml_hierarchy_spec(p),
                None => None,
            }),
    {
        match self.toml_path() {
            Some(p) => toml_hierarchy(p),
            None => None,
        }
    }

    /// The setting's key within its table; the field name for a setting that
    /// is not in the settings file.
    pub fn toml_key(self) -> (k: &'static str)
        ensures
            k@ == (match self.toml_path_text() {
                Some(p) => toml_key_spec(p),
                None => self.field_name_text(),
            }),
    {
        match self.toml_path() {
            Some(p) => toml_key_of(p),
            None => self.field_name(),
        }
    }
}

/// The settings-file places of the group: the review settings lie in the
/// `code.review` table and the editor settings in `code.editor`, each under
/// its own field name; the indexing settings lie in `code.indexing` under
/// their agent-mode keys, the default-editor switch under
/// `use_warp_as_default_editor` in `code.editor`, and the dismissed-popup
/// flag has no place in the file.
pub proof fn law_settings_file_places(s: CodeSetting)
    ensures
        (s == CodeSetting::ScanChildRepos || s == CodeSetting::StagingArea) ==> s.toml_path_text() == Some("code.review."@ + s.field_name_text()),
        (s == CodeSetting::ShowProjectExplorer || s == CodeSetting::ShowGlobalSearch || s == CodeSetting::ShowHiddenFiles || s == CodeSetting::DiffLayoutSetting || s == CodeSetting::FormatOnSave || s == CodeSetting::AutoSave) ==> s.toml_path_text() == Some("code.editor."@ + s.field_name_text()),
        s == CodeSetting::CodebaseContextEnabled ==> s.toml_path_text() == Some("code.indexing."@ + "agent_mode_codebase_context"@),
        s == CodeSetting::AutoIndexingEnabled ==> s.toml_path_text() == Some("code.indexing."@ + "agent_mode_codebase_context_auto_indexing"@),
        s == CodeSetting::CodeAsDefaultEditor ==> s.toml_path_text() == Some("code.editor."@ + "use_warp_as_default_editor"@),
        s == CodeSetting::DismissedCodeToolbeltNewFeaturePopup ==> s.toml_path_text() is None,
{
    match s {
        CodeSetting::CodeAsDefaultEditor => {
            reveal_strlit("code.editor.use_warp_as_default_editor");
            reveal_strlit("code.editor.");
            reveal_strlit("use_warp_as_default_editor");
            reveal_strlit("code_as_default_editor");
            assert("code.editor.use_warp_as_default_editor"@ =~= "code.editor."@ + "use_warp_as_default_editor"@);
        },
        CodeSetting::CodebaseContextEnabled => {
            reveal_strlit("code.indexing.agent_mode_codebase_context");
            reveal_strlit("code.indexing.");
            reveal_strlit("agent_mode_codebase_context");
            reveal_strlit("codebase_context_enabled");
            assert("code.indexing.agent_mode_codebase_context"@ =~= "code.indexing."@ + "agent_mode_codebase_context"@);
        },
        CodeSetting::AutoIndexingEnabled => {
            reveal_strlit("code.indexing.agent_mode_codebase_context_auto_indexing");
            reveal_strlit("code.indexing.");
            reveal_strlit("agent_mode_codebase_context_auto_indexing");
            reveal_strlit("auto_indexing_enabled");
            assert("code.indexing.agent_mode_codebase_context_auto_indexing"@ =~= "code.indexing."@ + "agent_mode_codebase_context_auto_indexing"@);
        },
        CodeSetting::DismissedCodeToolbeltNewFeaturePopup => {},
        CodeSetting::ShowProjectExplorer => {
            reveal_strlit("code.editor.show_project_explorer");
            reveal_strlit("code.editor.");
            reveal_strlit("show_project_explorer");
            reveal_strlit("show_project_explorer");
            assert("code.editor.show_project_explorer"@ =~= "code.editor."@ + "show_project_explorer"@);
        },
        CodeSetting::ShowGlobalSearch => {
            reveal_strlit("code.editor.show_global_search");
            reveal_strlit("code.editor.");
            reveal_strlit("show_global_search");
            reveal_strlit("show_global_search");
            assert("code.editor.show_global_search"@ =~= "code.editor."@ + "show_global_search"@);
        },
        CodeSetting::ShowHiddenFiles => {
            reveal_strlit("code.editor.show_hidden_files");
            reveal_strlit("code.editor.");
            reveal_strlit("show_hidden_files");
            reveal_strlit("show_hidden_files");
            assert("code.editor.show_hidden_files"@ =~= "code.editor."@ + "show_hidden_files"@);
        },
        CodeSetting::ScanChildRepos => {
            reveal_strlit("code.review.scan_child_repos");
            reveal_strlit("code.review.");
            reveal_strlit("scan_child_repos");
            reveal_strlit("scan_child_repos");
            assert("code.review.scan_child_repos"@ =~= "code.review."@ + "scan_child_repos"@);
        },
        CodeSetting::DiffLayoutSetting => {
            reveal_strlit("code.editor.diff_layout");
            reveal_strlit("code.editor.");
            reveal_strlit("diff_layout");
            reveal_strlit("diff_layout");
            assert("code.editor.diff_layout"@ =~= "code.editor."@ + "diff_layout"@);
        },
        CodeSetting::StagingArea => {
            reveal_strlit("code.review.staging_area");
            reveal_strlit("code.review.");
            reveal_strlit("staging_area");
            reveal_strlit("staging_area");
            assert("code.review.staging_area"@ =~= "code.review."@ + "staging_area"@);
        },
        CodeSetting::FormatOnSave => {
            reveal_strlit("code.editor.format_on_save");
            reveal_strlit("code.editor.");
            reveal_strlit("format_on_save");
            reveal_strlit("format_on_save");
            assert("code.editor.format_on_save"@ =~= "code.editor."@ + "format_on_save"@);
        },
        CodeSetting::AutoSave => {
            reveal_strlit("code.editor.auto_save");
            reveal_strlit("code.editor.");
            reveal_strlit("auto_save");
            reveal_strlit("auto_save");
            assert("code.editor.auto_save"@ =~= "code.editor."@ + "auto_save"@);
        },
    }
}

/// Only the dismissed-popup flag is private, and a setting is private
/// exactly when it has no place in the settings file, which is also exactly
/// when it has no description.
pub proof fn law_private_settings_stay_out_of_the_file(s: CodeSetting)
    ensures
        s.is_private_spec() <==> s.toml_path_text() is None,
        s.is_private_spec() <==> s.description_text() is None,
        s.is_private_spec() <==> s == CodeSetting::DismissedCodeToolbeltNewFeaturePopup,
{
}

/// Every setting but the default-editor switch syncs to the cloud globally,
/// respecting the user's sync choice; the default-editor switch never syncs.
pub proof fn law_sync_of_the_group(s: CodeSetting)
    ensures
        s != CodeSetting::CodeAsDefaultEditor ==> s.sync_spec() == SyncToCloud::Globally(RespectUserSyncSetting::Yes),
        s == CodeSetting::CodeAsDefaultEditor ==> s.sync_spec() == SyncToCloud::Never,
{
}

/// The indexing and review settings and the diff layout apply on desktop
/// only; every other setting applies on all platforms.
pub proof fn law_platforms_of_the_group(s: CodeSetting)
    ensures
        s.platforms_spec() == SupportedPlatforms::Desktop <==> (s == CodeSetting::CodebaseContextEnabled || s
            == CodeSetting::AutoIndexingEnabled || s == CodeSetting::ScanChildRepos || s
            == CodeSetting::DiffLayoutSetting || s == CodeSetting::StagingArea),
        s.platforms_spec() != SupportedPlatforms::Desktop ==> s.platforms_spec() == SupportedPlatforms::All,
{
}

/// The `code_as_default_editor` setting.
pub struct CodeAsDefaultEditor;

impl CodeAsDefaultEditor {
    pub fn setting() -> (s: CodeSetting)
        ensures
            s == CodeSetting::CodeAsDefaultEditor,
    {
        CodeSetting::CodeAsDefaultEditor
    }

    pub fn toml_path() -> (r: Option<&'static str>)
        ensures
            opt_text(r) == CodeSetting::CodeAsDefaultEditor.toml_path_text(),
    {
        CodeSetting::CodeAsDefaultEditor.toml_path()
    }

    pub fn hierarchy() -> (r: Option<&'static str>)
        ensures
            opt_text(r) == (match CodeSetting::CodeAsDefaultEditor.toml_path_text() {
                Some(p) => toml_hierarchy_spec(p),
                None => None,
            }),
    {
        CodeSetting::CodeAsDefaultEditor.hierarchy()
    }

    pub fn toml_key() -> (r: &'static str)
        ensures
            r@ == (match CodeSetting::CodeAsDefaultEditor.toml_path_text() {
                Some(p) => toml_key_spec(p),
                None => CodeSetting::CodeAsDefaultEditor.field_name_text(),
            }),
    {
        CodeSetting::CodeAsDefaultEditor.toml_key()
    }
}

/// The `codebase_context_enabled` setting.
pub struct CodebaseContextEnabled;

impl CodebaseContextEnabled {
    pub fn setting() -> (s: CodeSetting)
        ensures
            s == CodeSetting::CodebaseContextEnabled,
    {
        CodeSetting::CodebaseContextEnabled
    }

    pub fn toml_path() -> (r: Option<&'static str>)
        ensures
            opt_text(r) == CodeSetting::CodebaseContextEnabled.toml_path_text(),
    {
        CodeSetting::CodebaseContextEnabled.toml_path()
    }

    pub fn hierarchy() -> (r: Option<&'static str>)
        ensures
            opt_text(r) == (match CodeSetting::CodebaseContextEnabled.toml_path_text() {
                Some(p) => toml_hierarchy_spec(p),
                None => None,
            }),
    {
        CodeSetting::CodebaseContextEnabled.hierarchy()
    }

    pub fn toml_key() -> (r: &'static str)
        ensures
            r@ == (match CodeSetting::CodebaseContextEnabled.toml_path_text() {
                Some(p) => toml_key_spec(p),
                None => CodeSetting::CodebaseContextEnabled.field_name_text(),
            }),
    {
        CodeSetting::CodebaseContextEnabled.toml_key()
    }
}

/// The `auto_indexing_enabled` setting.
pub struct AutoIndexingEnabled;

impl AutoIndexingEnabled {
    pub fn setting() -> (s: CodeSetting)
        ensures
            s == CodeSetting::AutoIndexingEnabled,
    {
        CodeSetting::AutoIndexingEnabled
    }

    pub fn toml_path() -> (r: Option<&'static str>)
        ensures
            opt_text(r) == CodeSetting::AutoIndexingEnabled.toml_path_text(),
    {
        CodeSetting::AutoIndexingEnabled.toml_path()
    }

    pub fn hierarchy() -> (r: Option<&'static str>)
        ensures
            opt_text(r) == (match CodeSetting::AutoIndexingEnabled.toml_path_text() {
                Some(p) => toml_hierarchy_spec(p),
                None => None,
            }),
    {
        CodeSetting::AutoIndexingEnabled.hierarchy()
    }

    pub fn toml_key() -> (r: &'static str)
        ensures
            r@ == (match CodeSetting::AutoIndexingEnabled.toml_path_text() {
                Some(p) => toml_key_spec(p),
                None => CodeSetting::AutoIndexingEnabled.field_name_text(),
            }),
    {
        CodeSetting::AutoIndexingEnabled.toml_key()
    }
}

/// The `dismissed_code_toolbelt_new_feature_popup` setting.
pub struct DismissedCodeToolbeltNewFeaturePopup;

impl DismissedCodeToolbeltNewFeaturePopup {
    pub fn setting() -> (s: CodeSetting)
        ensures
            s == CodeSetting::DismissedCodeToolbeltNewFeaturePopup,
    {
        CodeSetting::DismissedCodeToolbeltNewFeaturePopup
    }

    pub fn toml_path() -> (r: Option<&'static str>)
        ensures
            opt_text(r) == CodeSetting::DismissedCodeToolbeltNewFeaturePopup.toml_path_text(),
    {
        CodeSetting::DismissedCodeToolbeltNewFeaturePopup.toml_path()
    }

    pub fn hierarchy() -> (r: Option<&'static str>)
        ensures
            opt_text(r) == (match CodeSetting::DismissedCodeToolbeltNewFeaturePopup.toml_path_text() {
                Some(p) => toml_hierarchy_spec(p),
                None => None,
            }),
    {
        CodeSetting::DismissedCodeToolbeltNewFeaturePopup.hierarchy()
    }

    pub fn toml_key() -> (r: &'static str)
        ensures
            r@ == (match CodeSetting::DismissedCodeToolbeltNewFeaturePopup.toml_path_text() {
                Some(p) => toml_key_spec(p),
                None => CodeSetting::DismissedCodeToolbeltNewFeaturePopup.field_name_text(),
            }),
    {
        CodeSetting::DismissedCodeToolbeltNewFeaturePopup.toml_key()
    }
}

/// The `show_project_explorer` setting.
pub struct ShowProjectExplorer;

impl ShowProjectExplorer {
    pub fn setting() -> (s: CodeSetting)
        ensures
            s == CodeSetting::ShowProjectExplorer,
    {
        CodeSetting::ShowProjectExplorer
    }

    pub fn toml_path() -> (r: Option<&'static str>)
        ensures
            opt_text(r) == CodeSetting::ShowProjectExplorer.toml_path_text(),
    {
        CodeSetting::ShowProjectExplorer.toml_path()
    }

    pub fn hierarchy() -> (r: Option<&'static str>)
        ensures
            opt_text(r) == (match CodeSetting::ShowProjectExplorer.toml_path_text() {
                Some(p) => toml_hierarchy_spec(p),
                None => None,
            }),
    {
        CodeSetting::ShowProjectExplorer.hierarchy()
    }

    pub fn toml_key() -> (r: &'static str)
        ensures
            r@ == (match CodeSetting::ShowProjectExplorer.toml_path_text() {
                Some(p) => toml_key_spec(p),
                None => CodeSetting::ShowProjectExplorer.field_name_text(),
            }),
    {
        CodeSetting::ShowProjectExplorer.toml_key()
    }
}

/// The `show_global_search` setting.
pub struct ShowGlobalSearch;

impl ShowGlobalSearch {
    pub fn setting() -> (s: CodeSetting)
        ensures
            s == CodeSetting::ShowGlobalSearch,
    {
        CodeSetting::ShowGlobalSearch
    }

    pub fn toml_path() -> (r: Option<&'static str>)
        ensures
            opt_text(r) == CodeSetting::ShowGlobalSearch.toml_path_text(),
    {
        CodeSetting::ShowGlobalSearch.toml_path()
    }

    pub fn hierarchy() -> (r: Option<&'static str>)
        ensures
            opt_text(r) == (match CodeSetting::ShowGlobalSearch.toml_path_text() {
                Some(p) => toml_hierarchy_spec(p),
                None => None,
            }),
    {
        CodeSetting::ShowGlobalSearch.hierarchy()
    }

    pub fn toml_key() -> (r: &'static str)
        ensures
            r@ == (match CodeSetting::ShowGlobalSearch.toml_path_text() {
                Some(p) => toml_key_spec(p),
                None => CodeSetting::ShowGlobalSearch.field_name_text(),
            }),
    {
        CodeSetting::ShowGlobalSearch.toml_key()
    }
}

/// The `show_hidden_files` setting.
pub struct ShowHiddenFiles;

impl ShowHiddenFiles {
    pub fn setting() -> (s: CodeSetting)
        ensures
            s == CodeSetting::ShowHiddenFiles,
    {
        CodeSetting::ShowHiddenFiles
    }

    pub fn toml_path() -> (r: Option<&'static str>)
        ensures
            opt_text(r) == CodeSetting::ShowHiddenFiles.toml_path_text(),
    {
        CodeSetting::ShowHiddenFiles.toml_path()
    }

    pub fn hierarchy() -> (r: Option<&'static str>)
        ensures
            opt_text(r) == (match CodeSetting::ShowHiddenFiles.toml_path_text() {
                Some(p) => toml_hierarchy_spec(p),
                None => None,
            }),
    {
        CodeSetting::ShowHiddenFiles.hierarchy()
    }

    pub fn toml_key() -> (r: &'static str)
        ensures
            r@ == (match CodeSetting::ShowHiddenFiles.toml_path_text() {
                Some(p) => toml_key_spec(p),
                None => CodeSetting::ShowHiddenFiles.field_name_text(),
            }),
    {
        CodeSetting::ShowHiddenFiles.toml_key()
    }
}

/// The `scan_child_repos` setting.
pub struct ScanChildRepos;

impl ScanChildRepos {
    pub fn setting() -> (s: CodeSetting)
        ensures
            s == CodeSetting::ScanChildRepos,
    {
        CodeSetting::ScanChildRepos
    }

    pub fn toml_path() -> (r: Option<&'static str>)
        ensures
            opt_text(r) == CodeSetting::ScanChildRepos.toml_path_text(),
    {
        CodeSetting::ScanChildRepos.toml_path()
    }

    pub fn hierarchy() -> (r: Option<&'static str>)
        ensures
            opt_text(r) == (match CodeSetting::ScanChildRepos.toml_path_text() {
                Some(p) => toml_hierarchy_spec(p),
                None => None,
            }),
    {
        CodeSetting::ScanChildRepos.hierarchy()
    }

    pub fn toml_key() -> (r: &'static str)
        ensures
            r@ == (match CodeSetting::ScanChildRepos.toml_path_text() {
                Some(p) => toml_key_spec(p),
                None => CodeSetting::ScanChildRepos.field_name_text(),
            }),
    {
        CodeSetting::ScanChildRepos.toml_key()
    }
}

/// The `diff_layout` setting.
pub struct DiffLayoutSetting;

impl DiffLayoutSetting {
    pub fn setting() -> (s: CodeSetting)
        ensures
            s == CodeSetting::DiffLayoutSetting,
    {
        CodeSetting::DiffLayoutSetting
    }

    pub fn toml_path() -> (r: Option<&'static str>)
        ensures
            opt_text(r) == CodeSetting::DiffLayoutSetting.toml_path_text(),
    {
        CodeSetting::DiffLayoutSetting.toml_path()
    }

    pub fn hierarchy() -> (r: Option<&'static str>)
        ensures
            opt_text(r) == (match CodeSetting::DiffLayoutSetting.toml_path_text() {
                Some(p) => toml_hierarchy_spec(p),
                None => None,
            }),
    {
        CodeSetting::DiffLayoutSetting.hierarchy()
    }

    pub fn toml_key() -> (r: &'static str)
        ensures
            r@ == (match CodeSetting::DiffLayoutSetting.toml_path_text() {
                Some(p) => toml_key_spec(p),
                None => CodeSetting::DiffLayoutSetting.field_name_text(),
            }),
    {
        CodeSetting::DiffLayoutSetting.toml_key()
    }
}

/// The `staging_area` setting.
pub struct StagingArea;

impl StagingArea {
    pub fn setting() -> (s: CodeSetting)
        ensures
            s == CodeSetting::StagingArea,
    {
        CodeSetting::StagingArea
    }

    pub fn toml_path() -> (r: Option<&'static str>)
        ensures
            opt_text(r) == CodeSetting::StagingArea.toml_path_text(),
    {
        CodeSetting::StagingArea.toml_path()
    }

    pub fn hierarchy() -> (r: Option<&'static str>)
        ensures
            opt_text(r) == (match CodeSetting::StagingArea.toml_path_text() {
                Some(p) => toml_hierarchy_spec(p),
                None => None,
            }),
    {
        CodeSetting::StagingArea.hierarchy()
    }

    pub fn toml_key() -> (r: &'static str)
        ensures
            r@ == (match CodeSetting::StagingArea.toml_path_text() {
                Some(p) => toml_key_spec(p),
                None => CodeSetting::StagingArea.field_name_text(),
            }),
    {
        CodeSetting::StagingArea.toml_key()
    }
}

/// The `format_on_save` setting.
pub struct FormatOnSave;

impl FormatOnSave {
    pub fn setting() -> (s: CodeSetting)
        ensures
            s == CodeSetting::FormatOnSave,
    {
        CodeSetting::FormatOnSave
    }

    pub fn toml_path() -> (r: Option<&'static str>)
        ensures
            opt_text(r) == CodeSetting::FormatOnSave.toml_path_text(),
    {
        CodeSetting::FormatOnSave.toml_path()
    }

    pub fn hierarchy() -> (r: Option<&'static str>)
        ensures
            opt_text(r) == (match CodeSetting::FormatOnSave.toml_path_text() {
                Some(p) => toml_hierarchy_spec(p),
                None => None,
            }),
    {
        CodeSetting::FormatOnSave.hierarchy()
    }

    pub fn toml_key() -> (r: &'static str)
        ensures
            r@ == (match CodeSetting::FormatOnSave.toml_path_text() {
                Some(p) => toml_key_spec(p),
                None => CodeSetting::FormatOnSave.field_name_text(),
            }),
    {
        CodeSetting::FormatOnSave.toml_key()
    }
}

/// The `auto_save` setting.
pub struct AutoSave;

impl AutoSave {
    pub fn setting() -> (s: CodeSetting)
        ensures
            s == CodeSetting::AutoSave,
    {
        CodeSetting::AutoSave
    }

    pub fn toml_path() -> (r: Option<&'static str>)
        ensures
            opt_text(r) == CodeSetting::AutoSave.toml_path_text(),
    {
        CodeSetting::AutoSave.toml_path()
    }

    pub fn hierarchy() -> (r: Option<&'static str>)
        ensures
            opt_text(r) == (match CodeSetting::AutoSave.toml_path_text() {
                Some(p) => toml_hierarchy_spec(p),
                None => None,
            }),
    {
        CodeSetting::AutoSave.hierarchy()
    }

    pub fn toml_key() -> (r: &'static str)
        ensures
            r@ == (match CodeSetting::AutoSave.toml_path_text() {
                Some(p) => toml_key_spec(p),
                None => CodeSetting::AutoSave.field_name_text(),
            }),
    {
        CodeSetting::AutoSave.toml_key()
    }
}

/// The values of the code settings group.
#[derive(Debug, Clone, Copy, PartialEq, Eq)]
pub struct CodeSettings {
    pub code_as_default_editor: bool,
    pub codebase_context_enabled: bool,
    pub auto_indexing_enabled: bool,
    pub dismissed_code_toolbelt_new_feature_popup: bool,
    pub show_project_explorer: bool,
    pub show_global_search: bool,
    pub show_hidden_files: bool,
    pub scan_child_repos: bool,
    pub diff_layout: DiffLayout,
    pub staging_area: bool,
    pub format_on_save: bool,
    pub auto_save: bool,
}

impl Default for CodeSettings {
    /// Every setting at its default.
    fn default() -> (s: Self)
        ensures
            s.code_as_default_editor == false,
            s.codebase_context_enabled == true,
            s.auto_indexing_enabled == false,
            s.dismissed_code_toolbelt_new_feature_popup == false,
            s.show_project_explorer == true,
            s.show_global_search == true,
            s.show_hidden_files == true,
            s.scan_child_repos == false,
            s.diff_layout == DiffLayout::Inline,
            s.staging_area == false,
            s.format_on_save == true,
            s.auto_save == false,
    {
        CodeSettings {
            code_as_default_editor: false,
            codebase_context_enabled: true,
            auto_indexing_enabled: false,
            dismissed_code_toolbelt_new_feature_popup: false,
            show_project_explorer: true,
            show_global_search: true,
            show_hidden_files: true,
            scan_child_repos: false,
            diff_layout: DiffLayout::Inline,
            staging_area: false,
            format_on_save: true,
            auto_save: false,
        }
    }
}

} // verus!

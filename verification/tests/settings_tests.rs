use repo_metadata::settings::{
    AutoSave, CodeSetting, CodeSettings, DiffLayout, DismissedCodeToolbeltNewFeaturePopup, FormatOnSave,
    SupportedPlatforms, SyncToCloud, RespectUserSyncSetting,
};

#[test]
fn format_on_save_defaults_to_true() {
    let settings = CodeSettings::default();
    assert!(settings.format_on_save);
}

#[test]
fn format_on_save_uses_code_editor_toml_path() {
    assert_eq!(FormatOnSave::toml_path(), Some("code.editor.format_on_save"));
    assert_eq!(FormatOnSave::hierarchy(), Some("code.editor"));
    assert_eq!(FormatOnSave::toml_key(), "format_on_save");
}

#[test]
fn defaults_of_the_group() {
    let s = CodeSettings::default();
    assert!(!s.code_as_default_editor);
    assert!(s.codebase_context_enabled);
    assert!(!s.auto_indexing_enabled);
    assert!(!s.dismissed_code_toolbelt_new_feature_popup);
    assert!(s.show_project_explorer);
    assert!(s.show_global_search);
    assert!(s.show_hidden_files);
    assert!(!s.scan_child_repos);
    assert_eq!(s.diff_layout, DiffLayout::Inline);
    assert!(!s.staging_area);
    assert!(!s.auto_save);
}

#[test]
fn private_setting_has_no_toml_path() {
    assert_eq!(DismissedCodeToolbeltNewFeaturePopup::toml_path(), None);
    assert_eq!(DismissedCodeToolbeltNewFeaturePopup::hierarchy(), None);
    assert_eq!(
        DismissedCodeToolbeltNewFeaturePopup::toml_key(),
        "dismissed_code_toolbelt_new_feature_popup"
    );
    assert!(CodeSetting::DismissedCodeToolbeltNewFeaturePopup.is_private());
    assert_eq!(CodeSetting::DismissedCodeToolbeltNewFeaturePopup.description(), None);
}

#[test]
fn storage_keys_and_sync() {
    assert_eq!(CodeSetting::CodebaseContextEnabled.storage_key(), "AgentModeCodebaseContext");
    assert_eq!(
        CodeSetting::AutoIndexingEnabled.storage_key(),
        "AgentModeCodebaseContextAutoIndexing"
    );
    assert_eq!(CodeSetting::AutoSave.storage_key(), "AutoSave");
    assert_eq!(CodeSetting::CodeAsDefaultEditor.sync_to_cloud(), SyncToCloud::Never);
    assert_eq!(
        CodeSetting::ScanChildRepos.sync_to_cloud(),
        SyncToCloud::Globally(RespectUserSyncSetting::Yes)
    );
    assert_eq!(CodeSetting::ScanChildRepos.supported_platforms(), SupportedPlatforms::Desktop);
    assert_eq!(CodeSetting::FormatOnSave.supported_platforms(), SupportedPlatforms::All);
}

#[test]
fn every_toml_path_is_its_table_and_key() {
    let all = [
        CodeSetting::CodeAsDefaultEditor,
        CodeSetting::CodebaseContextEnabled,
        CodeSetting::AutoIndexingEnabled,
        CodeSetting::DismissedCodeToolbeltNewFeaturePopup,
        CodeSetting::ShowProjectExplorer,
        CodeSetting::ShowGlobalSearch,
        CodeSetting::ShowHiddenFiles,
        CodeSetting::ScanChildRepos,
        CodeSetting::DiffLayoutSetting,
        CodeSetting::StagingArea,
        CodeSetting::FormatOnSave,
        CodeSetting::AutoSave,
    ];
    for s in all {
        if let Some(path) = s.toml_path() {
            let table = s.hierarchy().unwrap();
            assert_eq!(format!("{}.{}", table, s.toml_key()), path);
            assert!(!s.toml_key().contains('.'));
        }
    }
    assert_eq!(CodeSetting::AutoIndexingEnabled.hierarchy(), Some("code.indexing"));
    assert_eq!(
        CodeSetting::AutoIndexingEnabled.toml_key(),
        "agent_mode_codebase_context_auto_indexing"
    );
    assert_eq!(AutoSave::hierarchy(), Some("code.editor"));
    assert_eq!(CodeSetting::ScanChildRepos.hierarchy(), Some("code.review"));
}

#[test]
fn key_of_a_top_level_path() {
    assert_eq!(repo_metadata::settings::toml_hierarchy("top"), None);
    assert_eq!(repo_metadata::settings::toml_key_of("top"), "top");
    assert_eq!(repo_metadata::settings::toml_hierarchy("a.b.c"), Some("a.b"));
    assert_eq!(repo_metadata::settings::toml_key_of("a.b.c"), "c");
}

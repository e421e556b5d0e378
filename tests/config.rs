use lsp_config::capabilities::{AnnouncedCapabilities, ClientCapabilities};
use lsp_config::config::{
    resolve_node_modules_dir, Config, ConfigFile, ConfigFileSurroundings, WorkspaceFolder,
};
use lsp_config::json::JsonValue;
use lsp_config::settings::{CodeLensSpecifierSettings, SpecifierSettings};

fn object(members: Vec<(&str, JsonValue)>) -> JsonValue {
    JsonValue::Object(members.into_iter().map(|(k, v)| (k.to_string(), v)).collect())
}

fn texts(v: &[&str]) -> Vec<String> {
    v.iter().map(|s| s.to_string()).collect()
}

fn config_file(specifier: &str) -> ConfigFile {
    ConfigFile {
        specifier: specifier.to_string(),
        node_modules_dir: None,
        vendor: None,
        vendor_dir_path: None,
        exclude: Vec::new(),
    }
}

fn nothing_found() -> ConfigFileSurroundings {
    ConfigFileSurroundings { canonicalized_specifier: None, lockfile: None, node_modules_dir: None }
}

#[test]
fn test_config_specifier_enabled() {
    let mut config = Config::new();
    let specifier = "file:///a.ts";
    assert!(!config.specifier_enabled(specifier));
    config
        .set_workspace_settings(object(vec![("enable", JsonValue::Bool(true))]))
        .expect("could not update");
    assert!(config.specifier_enabled(specifier));
}

#[test]
fn test_config_snapshot_specifier_enabled() {
    let mut config = Config::new();
    let specifier = "file:///a.ts";
    assert!(!config.specifier_enabled(specifier));
    config
        .set_workspace_settings(object(vec![("enable", JsonValue::Bool(true))]))
        .expect("could not update");
    let config_snapshot = config.snapshot();
    assert!(config_snapshot.specifier_enabled(specifier));
}

#[test]
fn test_config_specifier_enabled_path() {
    let mut config = Config::new();
    let specifier_a = "file:///project/worker/a.ts";
    let specifier_b = "file:///project/other/b.ts";
    assert!(!config.specifier_enabled(specifier_a));
    assert!(!config.specifier_enabled(specifier_b));
    config.enabled_paths =
        vec![("file:///project/".to_string(), texts(&["file:///project/worker/"]))];
    assert!(config.specifier_enabled(specifier_a));
    assert!(!config.specifier_enabled(specifier_b));
    let config_snapshot = config.snapshot();
    assert!(config_snapshot.specifier_enabled(specifier_a));
    assert!(!config_snapshot.specifier_enabled(specifier_b));
}

#[test]
fn config_enabled_urls() {
    let mut config = Config::new();
    let root_dir = "file:///example/".to_string();
    config.root_uri = Some(root_dir.clone());
    config.settings.workspace.enable = Some(false);
    config.settings.workspace.enable_paths = Vec::new();
    assert_eq!(config.enabled_urls(), Vec::<String>::new());

    config.settings.workspace.enable = Some(true);
    assert_eq!(config.enabled_urls(), vec![root_dir]);

    config.settings.workspace.enable = Some(false);
    config.enabled_paths = vec![
        (
            "file:///root1/".to_string(),
            texts(&[
                "file:///root1/sub_dir/",
                "file:///root1/sub_dir/other/",
                "file:///root1/test.ts",
            ]),
        ),
        ("file:///root2/".to_string(), texts(&["file:///root2/other.ts"])),
        ("file:///root3/".to_string(), Vec::new()),
    ];

    assert_eq!(
        config.enabled_urls(),
        texts(&[
            "file:///root1/sub_dir/",
            "file:///root1/sub_dir/other/",
            "file:///root1/test.ts",
            "file:///root2/other.ts",
            "file:///root3/",
        ])
    );
}

#[test]
fn config_enable_via_config_file_detection() {
    let mut config = Config::new();
    let root_uri = "file:///root/".to_string();
    config.root_uri = Some(root_uri.clone());
    config.settings.workspace.enable = None;
    assert_eq!(config.enabled_urls(), Vec::<String>::new());

    config.set_config_file(config_file("file:///root/deno.json"), nothing_found());
    assert_eq!(config.enabled_urls(), vec![root_uri]);
}

#[test]
fn enabled_urls_are_sorted_whatever_the_index_order() {
    let mut config = Config::new();
    config.enabled_paths = vec![
        ("file:///b/".to_string(), texts(&["file:///b/z.ts", "file:///b/a.ts"])),
        ("file:///a/".to_string(), Vec::new()),
    ];
    assert_eq!(
        config.enabled_urls(),
        texts(&["file:///a/", "file:///b/a.ts", "file:///b/z.ts"])
    );
}

#[test]
fn workspace_flag_decides_without_other_rules() {
    let mut config = Config::new();
    config.settings.workspace.enable = Some(false);
    assert!(!config.specifier_enabled("file:///x/y.ts"));
    config.settings.workspace.enable = Some(true);
    assert!(config.specifier_enabled("file:///x/y.ts"));
}

#[test]
fn snapshot_keeps_its_state_after_the_store_changes() {
    let mut config = Config::new();
    config
        .set_workspace_settings(object(vec![("enable", JsonValue::Bool(true))]))
        .expect("could not update");
    let snapshot = config.snapshot();
    config
        .set_workspace_settings(object(vec![("enable", JsonValue::Bool(false))]))
        .expect("could not update");
    assert!(!config.specifier_enabled("file:///a.ts"));
    assert!(snapshot.specifier_enabled("file:///a.ts"));
}

#[test]
fn allow_list_ignores_the_workspace_flag() {
    for enable in [Some(true), Some(false), None] {
        let mut config = Config::new();
        config.settings.workspace.enable = enable;
        config.enabled_paths =
            vec![("file:///R/".to_string(), texts(&["file:///R/worker/"]))];
        assert!(config.specifier_enabled("file:///R/worker/a.ts"));
        assert!(!config.specifier_enabled("file:///R/other/b.ts"));
    }
}

#[test]
fn matching_is_a_plain_prefix_test() {
    let mut config = Config::new();
    config.settings.workspace.enable = Some(true);
    let mut file = config_file("file:///deno.json");
    file.exclude = texts(&["file:///project"]);
    config.set_config_file(file, nothing_found());
    assert!(!config.specifier_enabled("file:///projectAlt/a.ts"));
    assert!(config.specifier_enabled("file:///other/a.ts"));
}

#[test]
fn specifier_override_comes_before_workspace_flag() {
    let mut config = Config::new();
    config.settings.workspace.enable = Some(true);
    let own = SpecifierSettings {
        enable: Some(false),
        enable_paths: Vec::new(),
        code_lens: CodeLensSpecifierSettings { test: false },
    };
    assert!(config.set_specifier_settings("file:///a.ts".to_string(), own));
    assert!(!config.specifier_enabled("file:///a.ts"));
    assert!(config.specifier_enabled("file:///b.ts"));
    assert!(!config.specifier_code_lens_test("file:///a.ts"));
    assert!(config.specifier_code_lens_test("file:///b.ts"));
}

#[test]
fn binding_a_config_file_enables_unconfigured_files() {
    let mut config = Config::new();
    assert!(!config.specifier_enabled("file:///root/main.ts"));
    assert!(!config.enabled());
    config.set_config_file(config_file("file:///root/deno.json"), nothing_found());
    assert!(config.has_config_file());
    assert!(config.enabled());
    assert!(config.specifier_enabled("file:///root/main.ts"));
    config.clear_config_file();
    assert!(!config.has_config_file());
    assert!(!config.specifier_enabled("file:///root/main.ts"));
}

#[test]
fn setting_equal_specifier_settings_reports_no_change() {
    let mut config = Config::new();
    let settings = SpecifierSettings {
        enable: Some(true),
        enable_paths: texts(&["worker"]),
        code_lens: CodeLensSpecifierSettings { test: true },
    };
    assert!(config.set_specifier_settings("file:///a.ts".to_string(), settings.clone()));
    assert!(!config.set_specifier_settings("file:///a.ts".to_string(), settings.clone()));
    assert_eq!(config.get_specifiers(), texts(&["file:///a.ts"]));
    let mut other = settings;
    other.enable_paths = texts(&["other"]);
    assert!(config.set_specifier_settings("file:///a.ts".to_string(), other));
    assert_eq!(config.settings.specifiers.len(), 1);
    assert_eq!(config.settings.specifiers[0].1.enable_paths, texts(&["other"]));
}

#[test]
fn specifiers_are_listed_sorted() {
    let mut config = Config::new();
    for id in ["file:///c.ts", "file:///a.ts", "file:///b.ts"] {
        assert!(config.set_specifier_settings(id.to_string(), SpecifierSettings::default()));
    }
    assert!(config.has_specifier_settings("file:///b.ts"));
    assert!(!config.has_specifier_settings("file:///d.ts"));
    assert_eq!(
        config.get_specifiers(),
        texts(&["file:///a.ts", "file:///b.ts", "file:///c.ts"])
    );
}

#[test]
fn update_enabled_paths_resolves_relative_paths() {
    let mut config = Config::new();
    config.root_uri = Some("file:///project/".to_string());
    config.settings.workspace.enable_paths = texts(&["worker", "lib/a.ts"]);
    assert!(config.update_enabled_paths());
    assert_eq!(
        config.enabled_paths,
        vec![(
            "file:///project/".to_string(),
            texts(&["file:///project/worker", "file:///project/lib/a.ts"])
        )]
    );
    assert!(config.specifier_enabled("file:///project/worker/x.ts"));
    assert!(!config.specifier_enabled("file:///project/other.ts"));

    config.settings.workspace.enable_paths = Vec::new();
    assert!(config.update_enabled_paths());
    assert!(config.enabled_paths.is_empty());
}

#[test]
fn update_enabled_paths_uses_folder_settings() {
    let mut config = Config::new();
    config.workspace_folders = Some(vec![
        (
            "file:///one/".to_string(),
            WorkspaceFolder { uri: "file:///one/".to_string(), name: "one".to_string() },
        ),
        (
            "file:///two/".to_string(),
            WorkspaceFolder { uri: "file:///two/".to_string(), name: "two".to_string() },
        ),
    ]);
    config.settings.workspace.enable_paths = texts(&["src"]);
    let own = SpecifierSettings {
        enable: None,
        enable_paths: texts(&["app"]),
        code_lens: CodeLensSpecifierSettings { test: true },
    };
    assert!(config.set_specifier_settings("file:///two/".to_string(), own));
    assert!(config.update_enabled_paths());
    assert_eq!(
        config.enabled_paths,
        vec![
            ("file:///one/".to_string(), texts(&["file:///one/src"])),
            ("file:///two/".to_string(), texts(&["file:///two/app"])),
        ]
    );
}

#[test]
fn update_enabled_paths_skips_remote_roots() {
    let mut config = Config::new();
    config.root_uri = Some("https://example.com/".to_string());
    config.settings.workspace.enable_paths = texts(&["src"]);
    assert!(!config.update_enabled_paths());
    assert!(config.enabled_paths.is_empty());
    let mut none = Config::new();
    assert!(!none.update_enabled_paths());
}

#[test]
fn node_modules_dir_needs_an_explicit_opt_in() {
    let dir = Some("/root/node_modules".to_string());
    let mut file = config_file("file:///root/deno.json");
    assert_eq!(resolve_node_modules_dir(&file, dir.clone()), None);
    file.node_modules_dir = Some(true);
    assert_eq!(resolve_node_modules_dir(&file, dir.clone()), dir);
    file.node_modules_dir = None;
    file.vendor = Some(true);
    assert_eq!(resolve_node_modules_dir(&file, dir.clone()), dir);
    file.node_modules_dir = Some(false);
    assert_eq!(resolve_node_modules_dir(&file, dir.clone()), None);
    let mut remote = config_file("https://example.com/deno.json");
    remote.node_modules_dir = Some(true);
    assert_eq!(resolve_node_modules_dir(&remote, dir), None);
}

#[test]
fn binding_records_canonical_locations() {
    let mut config = Config::new();
    let mut file = config_file("file:///root/deno.json");
    file.node_modules_dir = Some(true);
    file.vendor_dir_path = Some("/root/vendor".to_string());
    let found = ConfigFileSurroundings {
        canonicalized_specifier: Some("file:///real/deno.json".to_string()),
        lockfile: None,
        node_modules_dir: Some("/real/node_modules".to_string()),
    };
    config.set_config_file(file, found);
    assert_eq!(
        config.maybe_config_file_canonicalized_specifier(),
        Some(&"file:///real/deno.json".to_string())
    );
    assert_eq!(config.maybe_node_modules_dir_path(), Some(&"/real/node_modules".to_string()));
    assert_eq!(config.maybe_vendor_dir_path(), Some("/root/vendor".to_string()));
    assert!(config.maybe_lockfile().is_none());
    assert!(config.maybe_lockfile_canonicalized_specifier().is_none());
    assert_eq!(config.maybe_config_file().map(|c| c.specifier.clone()), Some("file:///root/deno.json".to_string()));

    config.set_config_file(config_file("file:///root/deno.json"), nothing_found());
    assert_eq!(
        config.maybe_config_file_canonicalized_specifier(),
        Some(&"file:///root/deno.json".to_string())
    );
    assert!(config.maybe_node_modules_dir_path().is_none());
}

#[test]
fn capabilities_are_true_only_when_announced_true() {
    let announced = AnnouncedCapabilities {
        experimental: Some(object(vec![
            ("statusNotification", JsonValue::Bool(true)),
            ("testingApi", JsonValue::Str("yes".to_string())),
        ])),
        workspace_configuration: Some(true),
        did_change_watched_files_dynamic_registration: Some(false),
        file_operations_dynamic_registration: None,
        file_operations_will_rename: Some(true),
        line_folding_only: Some(true),
        code_action_disabled_support: None,
        snippet_support: Some(true),
    };
    let mut config = Config::new();
    config.update_capabilities(&announced);
    assert_eq!(
        config.client_capabilities,
        ClientCapabilities {
            code_action_disabled_support: false,
            line_folding_only: true,
            snippet_support: true,
            status_notification: true,
            testing_api: false,
            workspace_configuration: true,
            workspace_did_change_watched_files: false,
            workspace_will_rename_files: false,
        }
    );
    let renaming = AnnouncedCapabilities {
        experimental: None,
        workspace_configuration: None,
        did_change_watched_files_dynamic_registration: Some(true),
        file_operations_dynamic_registration: Some(true),
        file_operations_will_rename: Some(true),
        line_folding_only: None,
        code_action_disabled_support: Some(true),
        snippet_support: None,
    };
    let caps = ClientCapabilities::from_announced(&renaming);
    assert!(caps.workspace_will_rename_files);
    assert!(caps.workspace_did_change_watched_files);
    assert!(caps.code_action_disabled_support);
    assert!(!caps.status_notification);
}

use lsp_config::config::Config;
use lsp_config::json::JsonValue;
use lsp_config::schema::workspace_settings_from_json;
use lsp_config::settings::{
    CodeLensSettings, CompletionSettings, ImportCompletionSettings,
    InlayHintsEnumMemberValuesOptions, InlayHintsFuncLikeReturnTypesOptions,
    InlayHintsParamNamesEnabled, InlayHintsParamNamesOptions, InlayHintsParamTypesOptions,
    InlayHintsPropDeclTypesOptions, InlayHintsSettings, InlayHintsVarTypesOptions,
    TestingSettings, WorkspaceSettings,
};

fn object(members: Vec<(&str, JsonValue)>) -> JsonValue {
    JsonValue::Object(members.into_iter().map(|(k, v)| (k.to_string(), v)).collect())
}

fn text(s: &str) -> JsonValue {
    JsonValue::Str(s.to_string())
}

#[test]
fn test_set_workspace_settings_defaults() {
    let mut config = Config::new();
    config.set_workspace_settings(object(vec![])).expect("could not update");
    assert_eq!(
        config.workspace_settings().clone(),
        WorkspaceSettings {
            enable: None,
            enable_paths: Vec::new(),
            cache: None,
            certificate_stores: None,
            config: None,
            import_map: None,
            code_lens: CodeLensSettings {
                implementations: false,
                references: false,
                references_all_functions: false,
                test: true,
            },
            inlay_hints: InlayHintsSettings {
                parameter_names: InlayHintsParamNamesOptions {
                    enabled: InlayHintsParamNamesEnabled::Off,
                    suppress_when_argument_matches_name: true
                },
                parameter_types: InlayHintsParamTypesOptions { enabled: false },
                variable_types: InlayHintsVarTypesOptions {
                    enabled: false,
                    suppress_when_type_matches_name: true
                },
                property_declaration_types: InlayHintsPropDeclTypesOptions { enabled: false },
                function_like_return_types: InlayHintsFuncLikeReturnTypesOptions {
                    enabled: false
                },
                enum_member_values: InlayHintsEnumMemberValuesOptions { enabled: false },
            },
            internal_debug: false,
            lint: true,
            document_preload_limit: 1_000,
            suggest: CompletionSettings {
                complete_function_calls: false,
                names: true,
                paths: true,
                auto_imports: true,
                imports: ImportCompletionSettings { auto_discover: true, hosts: Vec::new() }
            },
            testing: TestingSettings {
                args: vec!["--allow-all".to_string(), "--no-check".to_string()],
            },
            tls_certificate: None,
            unsafely_ignore_certificate_errors: None,
            unstable: false,
        }
    );
}

#[test]
fn test_empty_cache() {
    let mut config = Config::new();
    config.set_workspace_settings(object(vec![("cache", text(""))])).expect("could not update");
    assert_eq!(config.workspace_settings().clone(), WorkspaceSettings::default());
}

#[test]
fn test_empty_import_map() {
    let mut config = Config::new();
    config
        .set_workspace_settings(object(vec![("import_map", text(""))]))
        .expect("could not update");
    assert_eq!(config.workspace_settings().clone(), WorkspaceSettings::default());
}

#[test]
fn test_empty_tls_certificate() {
    let mut config = Config::new();
    config
        .set_workspace_settings(object(vec![("tls_certificate", text(""))]))
        .expect("could not update");
    assert_eq!(config.workspace_settings().clone(), WorkspaceSettings::default());
}

#[test]
fn test_empty_config() {
    let mut config = Config::new();
    config.set_workspace_settings(object(vec![("config", text(""))])).expect("could not update");
    assert_eq!(config.workspace_settings().clone(), WorkspaceSettings::default());
}

#[test]
fn empty_camel_case_paths_read_as_unset() {
    for key in ["cache", "importMap", "tlsCertificate", "config"] {
        let w = workspace_settings_from_json(&object(vec![(key, text(""))])).unwrap();
        assert_eq!(w, WorkspaceSettings::default());
    }
    let w = workspace_settings_from_json(&object(vec![
        ("cache", text("/tmp/cache")),
        ("importMap", text("./map.json")),
        ("tlsCertificate", text("cert.pem")),
        ("config", text("deno.json")),
    ]))
    .unwrap();
    assert_eq!(w.cache, Some("/tmp/cache".to_string()));
    assert_eq!(w.import_map, Some("./map.json".to_string()));
    assert_eq!(w.tls_certificate, Some("cert.pem".to_string()));
    assert_eq!(w.config, Some("deno.json".to_string()));
}

#[test]
fn present_values_replace_defaults() {
    let w = workspace_settings_from_json(&object(vec![
        ("enable", JsonValue::Bool(true)),
        ("enablePaths", JsonValue::Array(vec![text("worker")])),
        ("lint", JsonValue::Bool(false)),
        ("documentPreloadLimit", JsonValue::UInt(5)),
        ("codeLens", object(vec![("references", JsonValue::Bool(true))])),
        (
            "inlayHints",
            object(vec![("parameterNames", object(vec![("enabled", text("literals"))]))]),
        ),
        (
            "suggest",
            object(vec![(
                "imports",
                object(vec![("hosts", object(vec![("https://deno.land", JsonValue::Bool(false))]))]),
            )]),
        ),
        ("testing", object(vec![])),
        ("unsafelyIgnoreCertificateErrors", JsonValue::Array(vec![text("localhost")])),
        ("unknownKey", JsonValue::Null),
    ]))
    .unwrap();
    assert_eq!(w.enable, Some(true));
    assert_eq!(w.enable_paths, vec!["worker".to_string()]);
    assert!(!w.lint);
    assert_eq!(w.document_preload_limit, 5);
    assert!(w.code_lens.references);
    assert!(w.code_lens.test);
    assert!(w.enabled_code_lens());
    assert_eq!(w.inlay_hints.parameter_names.enabled, InlayHintsParamNamesEnabled::Literals);
    assert!(w.enabled_inlay_hints());
    assert_eq!(w.suggest.imports.hosts, vec![("https://deno.land".to_string(), false)]);
    assert!(w.suggest.imports.auto_discover);
    assert!(w.testing.args.is_empty());
    assert_eq!(w.unsafely_ignore_certificate_errors, Some(vec!["localhost".to_string()]));
}

#[test]
fn feature_switches_default_off() {
    let w = WorkspaceSettings::default();
    assert!(!w.enabled_code_lens());
    assert!(!w.enabled_inlay_hints());
    let mut hints = w.clone();
    hints.inlay_hints.enum_member_values.enabled = true;
    assert!(hints.enabled_inlay_hints());
    let mut lens = w;
    lens.code_lens.implementations = true;
    assert!(lens.enabled_code_lens());
}

#[test]
fn malformed_settings_name_the_first_bad_key_and_change_nothing() {
    let mut config = Config::new();
    config
        .set_workspace_settings(object(vec![("enable", JsonValue::Bool(true))]))
        .expect("could not update");
    let err = config
        .set_workspace_settings(object(vec![
            ("unstable", text("yes")),
            ("lint", text("no")),
        ]))
        .unwrap_err();
    assert_eq!(err.field, "lint");
    assert_eq!(config.workspace_settings().enable, Some(true));

    let err = workspace_settings_from_json(&JsonValue::Array(vec![])).unwrap_err();
    assert_eq!(err.field, "");
    let err =
        workspace_settings_from_json(&object(vec![("documentPreloadLimit", JsonValue::OtherNumber)]))
            .unwrap_err();
    assert_eq!(err.field, "documentPreloadLimit");
    let err = workspace_settings_from_json(&object(vec![(
        "enablePaths",
        JsonValue::Array(vec![text("a"), JsonValue::Bool(true)]),
    )]))
    .unwrap_err();
    assert_eq!(err.field, "enablePaths");
    let err = workspace_settings_from_json(&object(vec![(
        "inlayHints",
        object(vec![("parameterNames", object(vec![("enabled", text("some"))]))]),
    )]))
    .unwrap_err();
    assert_eq!(err.field, "inlayHints");
    let err = workspace_settings_from_json(&object(vec![("codeLens", JsonValue::Null)])).unwrap_err();
    assert_eq!(err.field, "codeLens");
}

#[test]
fn null_reads_as_unset_for_optional_values() {
    let w = workspace_settings_from_json(&object(vec![
        ("enable", JsonValue::Null),
        ("cache", JsonValue::Null),
        ("certificateStores", JsonValue::Null),
    ]))
    .unwrap();
    assert_eq!(w, WorkspaceSettings::default());
}

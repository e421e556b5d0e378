//! Workspace-wide and per-file settings, their defaults, and the derived
//! feature switches.
use vstd::prelude::*;
use crate::text::views;

verus! {

/// Which code lenses the workspace asks for.
#[derive(Debug, Clone, Copy, PartialEq, Eq, Structural)]
pub struct CodeLensSettings {
    /// Implementation code lenses.
    pub implementations: bool,
    /// Reference code lenses.
    pub references: bool,
    /// Reference code lenses on all functions; only has an effect together
    /// with `references`.
    pub references_all_functions: bool,
    /// Test code lenses on test declarations.
    pub test: bool,
}

impl Default for CodeLensSettings {
    fn default() -> (r: Self)
        ensures
            r == (CodeLensSettings {
                implementations: false,
                references: false,
                references_all_functions: false,
                test: true,
            }),
    {
        CodeLensSettings {
            implementations: false,
            references: false,
            references_all_functions: false,
            test: true,
        }
    }
}

/// Code lens settings that a single file may override.
#[derive(Debug, Clone, Copy, PartialEq, Eq, Structural)]
pub struct CodeLensSpecifierSettings {
    /// Test code lenses on test declarations.
    pub test: bool,
}

impl Default for CodeLensSpecifierSettings {
    fn default() -> (r: Self)
        ensures
            r.test,
    {
        CodeLensSpecifierSettings { test: true }
    }
}

/// Origins whose import suggestions were switched on or off explicitly.
#[derive(Debug, Clone, PartialEq, Eq)]
pub struct ImportCompletionSettings {
    /// Whether origins that are not listed are probed for import suggestions.
    pub auto_discover: bool,
    /// Each listed origin with its switch, in document order.
    pub hosts: Vec<(String, bool)>,
}

impl Default for ImportCompletionSettings {
    fn default() -> (r: Self)
        ensures
            r.auto_discover,
            r.hosts@.len() == 0,
    {
        ImportCompletionSettings { auto_discover: true, hosts: Vec::new() }
    }
}

/// Completion behaviour.
#[derive(Debug, Clone, PartialEq, Eq)]
pub struct CompletionSettings {
    pub complete_function_calls: bool,
    pub names: bool,
    pub paths: bool,
    pub auto_imports: bool,
    pub imports: ImportCompletionSettings,
}

impl Default for CompletionSettings {
    fn default() -> (r: Self)
        ensures
            is_default_completion(r),
    {
        CompletionSettings {
            complete_function_calls: false,
            names: true,
            paths: true,
            auto_imports: true,
            imports: ImportCompletionSettings::default(),
        }
    }
}

/// The documented default completion behaviour.
pub open spec fn is_default_completion(c: CompletionSettings) -> bool {
    &&& !c.complete_function_calls
    &&& c.names
    &&& c.paths
    &&& c.auto_imports
    &&& c.imports.auto_discover
    &&& c.imports.hosts@.len() == 0
}

/// For which arguments parameter-name hints are shown.
#[derive(Debug, Clone, Copy, PartialEq, Eq, Structural)]
pub enum InlayHintsParamNamesEnabled {
    Off,
    Literals,
    All,
}

impl Default for InlayHintsParamNamesEnabled {
    fn default() -> (r: Self)
        ensures
            r == InlayHintsParamNamesEnabled::Off,
    {
        InlayHintsParamNamesEnabled::Off
    }
}

#[derive(Debug, Clone, Copy, PartialEq, Eq, Structural)]
pub struct InlayHintsParamNamesOptions {
    pub enabled: InlayHintsParamNamesEnabled,
    pub suppress_when_argument_matches_name: bool,
}

impl Default for InlayHintsParamNamesOptions {
    fn default() -> (r: Self)
        ensures
            r == (InlayHintsParamNamesOptions {
                enabled: InlayHintsParamNamesEnabled::Off,
                suppress_when_argument_matches_name: true,
            }),
    {
        InlayHintsParamNamesOptions {
            enabled: InlayHintsParamNamesEnabled::Off,
            suppress_when_argument_matches_name: true,
        }
    }
}

#[derive(Debug, Clone, Copy, PartialEq, Eq, Structural)]
pub struct InlayHintsParamTypesOptions {
    pub enabled: bool,
}

#[derive(Debug, Clone, Copy, PartialEq, Eq, Structural)]
pub struct InlayHintsVarTypesOptions {
    pub enabled: bool,
    pub suppress_when_type_matches_name: bool,
}

impl Default for InlayHintsVarTypesOptions {
    fn default() -> (r: Self)
        ensures
            r == (InlayHintsVarTypesOptions { enabled: false, suppress_when_type_matches_name: true }),
    {
        InlayHintsVarTypesOptions { enabled: false, suppress_when_type_matches_name: true }
    }
}

#[derive(Debug, Clone, Copy, PartialEq, Eq, Structural)]
pub struct InlayHintsPropDeclTypesOptions {
    pub enabled: bool,
}

#[derive(Debug, Clone, Copy, PartialEq, Eq, Structural)]
pub struct InlayHintsFuncLikeReturnTypesOptions {
    pub enabled: bool,
}

#[derive(Debug, Clone, Copy, PartialEq, Eq, Structural)]
pub struct InlayHintsEnumMemberValuesOptions {
    pub enabled: bool,
}

/// The six inlay hint categories.
#[derive(Debug, Clone, Copy, PartialEq, Eq, Structural)]
pub struct InlayHintsSettings {
    pub parameter_names: InlayHintsParamNamesOptions,
    pub parameter_types: InlayHintsParamTypesOptions,
    pub variable_types: InlayHintsVarTypesOptions,
    pub property_declaration_types: InlayHintsPropDeclTypesOptions,
    pub function_like_return_types: InlayHintsFuncLikeReturnTypesOptions,
    pub enum_member_values: InlayHintsEnumMemberValuesOptions,
}

/// All inlay hints off, the two suppression switches on.
pub open spec fn default_inlay_hints() -> InlayHintsSettings {
    InlayHintsSettings {
        parameter_names: InlayHintsParamNamesOptions {
            enabled: InlayHintsParamNamesEnabled::Off,
            suppress_when_argument_matches_name: true,
        },
        parameter_types: InlayHintsParamTypesOptions { enabled: false },
        variable_types: InlayHintsVarTypesOptions {
            enabled: false,
            suppress_when_type_matches_name: true,
        },
        property_declaration_types: InlayHintsPropDeclTypesOptions { enabled: false },
        function_like_return_types: InlayHintsFuncLikeReturnTypesOptions { enabled: false },
        enum_member_values: InlayHintsEnumMemberValuesOptions { enabled: false },
    }
}

impl Default for InlayHintsSettings {
    fn default() -> (r: Self)
        ensures
            r == default_inlay_hints(),
    {
        InlayHintsSettings {
            parameter_names: InlayHintsParamNamesOptions::default(),
            parameter_types: InlayHintsParamTypesOptions { enabled: false },
            variable_types: InlayHintsVarTypesOptions::default(),
            property_declaration_types: InlayHintsPropDeclTypesOptions { enabled: false },
            function_like_return_types: InlayHintsFuncLikeReturnTypesOptions { enabled: false },
            enum_member_values: InlayHintsEnumMemberValuesOptions { enabled: false },
        }
    }
}

/// Settings that can be applied to a single file.
#[derive(Debug, Clone)]
pub struct SpecifierSettings {
    /// Whether the server is enabled for this file; unset defers to the
    /// workspace.
    pub enable: Option<bool>,
    /// Paths, relative to the workspace folder, that are enabled.
    pub enable_paths: Vec<String>,
    pub code_lens: CodeLensSpecifierSettings,
}

/// The value of per-file settings, with texts for strings.
pub ghost struct SpecifierSettingsView {
    pub enable: Option<bool>,
    pub enable_paths: Seq<Seq<char>>,
    pub code_lens: CodeLensSpecifierSettings,
}

impl View for SpecifierSettings {
    type V = SpecifierSettingsView;

    open spec fn view(&self) -> SpecifierSettingsView {
        SpecifierSettingsView {
            enable: self.enable,
            enable_paths: views(self.enable_paths@),
            code_lens: self.code_lens,
        }
    }
}

impl Default for SpecifierSettings {
    fn default() -> (r: Self)
        ensures
            r.enable is None,
            r.enable_paths@.len() == 0,
            r.code_lens.test,
    {
        SpecifierSettings {
            enable: None,
            enable_paths: Vec::new(),
            code_lens: CodeLensSpecifierSettings::default(),
        }
    }
}

/// Compares two lists of strings element by element.
fn same_strings(a: &Vec<String>, b: &Vec<String>) -> (r: bool)
    ensures
        r == (views(a@) == views(b@)),
{
    if a.len() != b.len() {
        assert(views(a@).len() != views(b@).len());
        return false;
    }
    let n = a.len();
    let mut i: usize = 0;
    while i < n
        invariant
            n == a@.len(),
            n == b@.len(),
            0 <= i <= n,
            forall|j: int| 0 <= j < i ==> a@[j]@ == b@[j]@,
        decreases n - i,
    {
        if a[i] != b[i] {
            assert(views(a@)[i as int] != views(b@)[i as int]);
            return false;
        }
        i = i + 1;
    }
    assert(views(a@) =~= views(b@));
    true
}

impl PartialEq for SpecifierSettings {
    fn eq(&self, other: &SpecifierSettings) -> (r: bool) {
        self.enable == other.enable && same_strings(&self.enable_paths, &other.enable_paths)
            && self.code_lens == other.code_lens
    }
}

impl vstd::std_specs::cmp::PartialEqSpecImpl for SpecifierSettings {
    open spec fn obeys_eq_spec() -> bool {
        true
    }

    open spec fn eq_spec(&self, other: &SpecifierSettings) -> bool {
        self@ == other@
    }
}

/// Arguments used when running the tests of a workspace.
#[derive(Debug, Clone, PartialEq, Eq)]
pub struct TestingSettings {
    pub args: Vec<String>,
}

/// The default test arguments: `--allow-all --no-check`.
pub open spec fn default_test_args() -> Seq<Seq<char>> {
    seq!["--allow-all"@, "--no-check"@]
}

impl Default for TestingSettings {
    fn default() -> (r: Self)
        ensures
            views(r.args@) == default_test_args(),
    {
        let mut args: Vec<String> = Vec::new();
        args.push("--allow-all".to_owned());
        args.push("--no-check".to_owned());
        assert(views(args@) =~= default_test_args());
        TestingSettings { args }
    }
}

/// The number of files that may be preloaded when the workspace sets no
/// limit.
pub fn default_document_preload_limit() -> (r: usize)
    ensures
        r == 1000,
{
    1000
}

/// Settings that apply to the whole workspace.
#[derive(Debug, Clone, PartialEq, Eq)]
pub struct WorkspaceSettings {
    /// Master switch; unset defers to the presence of a project
    /// configuration file.
    pub enable: Option<bool>,
    /// Paths, relative to the root, that are enabled.
    pub enable_paths: Vec<String>,
    /// The cache directory to use.
    pub cache: Option<String>,
    /// The certificate stores used to validate certificates.
    pub certificate_stores: Option<Vec<String>>,
    /// Path of the project configuration file.
    pub config: Option<String>,
    /// Path of the import map.
    pub import_map: Option<String>,
    pub code_lens: CodeLensSettings,
    pub inlay_hints: InlayHintsSettings,
    /// Verbose internal diagnostics.
    pub internal_debug: bool,
    /// Whether linting is enabled.
    pub lint: bool,
    /// How many files may be preloaded.
    pub document_preload_limit: usize,
    pub suggest: CompletionSettings,
    pub testing: TestingSettings,
    /// The certificate file used to fetch remote resources.
    pub tls_certificate: Option<String>,
    /// Hosts for which certificate errors are ignored.
    pub unsafely_ignore_certificate_errors: Option<Vec<String>>,
    /// Whether unstable APIs are checked against.
    pub unstable: bool,
}

/// The documented default of every workspace setting.
pub open spec fn is_default_workspace_settings(w: WorkspaceSettings) -> bool {
    &&& w.enable is None
    &&& w.enable_paths@.len() == 0
    &&& w.cache is None
    &&& w.certificate_stores is None
    &&& w.config is None
    &&& w.import_map is None
    &&& w.code_lens == (CodeLensSettings {
        implementations: false,
        references: false,
        references_all_functions: false,
        test: true,
    })
    &&& w.inlay_hints == default_inlay_hints()
    &&& !w.internal_debug
    &&& w.lint
    &&& w.document_preload_limit == 1000
    &&& is_default_completion(w.suggest)
    &&& views(w.testing.args@) == default_test_args()
    &&& w.tls_certificate is None
    &&& w.unsafely_ignore_certificate_errors is None
    &&& !w.unstable
}

impl Default for WorkspaceSettings {
    fn default() -> (r: Self)
        ensures
            is_default_workspace_settings(r),
    {
        WorkspaceSettings {
            enable: None,
            enable_paths: Vec::new(),
            cache: None,
            certificate_stores: None,
            config: None,
            import_map: None,
            code_lens: CodeLensSettings::default(),
            inlay_hints: InlayHintsSettings::default(),
            internal_debug: false,
            lint: true,
            document_preload_limit: default_document_preload_limit(),
            suggest: CompletionSettings::default(),
            testing: TestingSettings::default(),
            tls_certificate: None,
            unsafely_ignore_certificate_errors: None,
            unstable: false,
        }
    }
}

/// Some code lens is enabled at all.
pub open spec fn code_lens_enabled(w: WorkspaceSettings) -> bool {
    w.code_lens.implementations || w.code_lens.references
}

/// Some inlay hint category is enabled at all.
pub open spec fn inlay_hints_enabled(w: WorkspaceSettings) -> bool {
    let h = w.inlay_hints;
    h.parameter_names.enabled != InlayHintsParamNamesEnabled::Off || h.parameter_types.enabled
        || h.variable_types.enabled || h.property_declaration_types.enabled
        || h.function_like_return_types.enabled || h.enum_member_values.enabled
}

impl WorkspaceSettings {
    /// Whether any code lens is enabled, so that the work can be skipped when
    /// none is.
    pub fn enabled_code_lens(&self) -> (r: bool)
        ensures
            r == code_lens_enabled(*self),
    {
        self.code_lens.implementations || self.code_lens.references
    }

    /// Whether any inlay hint is enabled, so that the work can be skipped when
    /// none is.
    pub fn enabled_inlay_hints(&self) -> (r: bool)
        ensures
            r == inlay_hints_enabled(*self),
    {
        let h = &self.inlay_hints;
        h.parameter_names.enabled != InlayHintsParamNamesEnabled::Off || h.parameter_types.enabled
            || h.variable_types.enabled || h.property_declaration_types.enabled
            || h.function_like_return_types.enabled || h.enum_member_values.enabled
    }
}

} // verus!

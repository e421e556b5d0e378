//! The live configuration store, the project configuration file bound to
//! it, and the snapshots handed to concurrent readers.
use vstd::prelude::*;
use std::sync::Arc;
use crate::capabilities::{AnnouncedCapabilities, ClientCapabilities, negotiated};
use crate::enablement::{
    Settings, enabled_by_rules, find_override, index_view, override_of, specifier_enabled,
    specs_view,
};
use crate::handles::SharedLockfile;
use crate::json::JsonValue;
use crate::schema::{
    DeserializationError, document_ok, opt_views, reads_as, workspace_settings_from_json,
};
use crate::settings::{
    CompletionSettings, ImportCompletionSettings, SpecifierSettings, SpecifierSettingsView,
    TestingSettings, WorkspaceSettings, is_default_workspace_settings,
};
use crate::paths::{file_path_of, file_path_to_url, file_url_of, join_path, joined_path, url_to_file_path};
use crate::text::{is_prefix, opt_view, sort_texts, starts_with, texts_sorted, views};

verus! {

/// A project configuration file, as far as this store reads it.
#[derive(Debug, Clone)]
pub struct ConfigFile {
    /// Where the file lives.
    pub specifier: String,
    /// The file's explicit `nodeModulesDir` flag, if it sets one.
    pub node_modules_dir: Option<bool>,
    /// The file's explicit `vendor` flag, if it sets one.
    pub vendor: Option<bool>,
    /// The vendor directory that the file asks for, if any.
    pub vendor_dir_path: Option<String>,
    /// The file identifiers of the file's exclusions, in declared order.
    pub exclude: Vec<String>,
}

/// What was found on disk around a configuration file before binding it.
#[derive(Debug)]
pub struct ConfigFileSurroundings {
    /// The file's canonical location, when it could be determined.
    pub canonicalized_specifier: Option<String>,
    /// The lock file that the configuration names, when it could be loaded.
    pub lockfile: Option<LoadedLockfile>,
    /// The canonical `node_modules` directory beside the file, when it could
    /// be determined.
    pub node_modules_dir: Option<String>,
}

/// A loaded lock file with its canonical location.
#[derive(Debug)]
pub struct LoadedLockfile {
    pub canonicalized_specifier: String,
    pub file: SharedLockfile,
}

/// A workspace folder that the client opened.
#[derive(Debug, Clone)]
pub struct WorkspaceFolder {
    pub uri: String,
    pub name: String,
}

/// A value with the canonical location used to match file watcher events.
#[derive(Debug)]
pub struct WithCanonicalizedSpecifier<T> {
    canonicalized_specifier: String,
    file: T,
}

/// The bound configuration file and what was derived from it, as one unit;
/// it is only built by [`Config::set_config_file`].
#[derive(Debug)]
pub struct LspConfigFileInfo {
    config_file: WithCanonicalizedSpecifier<ConfigFile>,
    maybe_lockfile: Option<WithCanonicalizedSpecifier<SharedLockfile>>,
    maybe_node_modules_dir: Option<String>,
    excluded_paths: Vec<String>,
}

/// The dependency directory bound for a configuration file: only with an
/// explicit opt-in (`nodeModulesDir` or `vendor` true), never when
/// `nodeModulesDir` is explicitly false, and only for a local `file:`
/// location; then the canonical `node_modules` directory beside it.
pub open spec fn node_modules_dir_for(c: ConfigFile, candidate: Option<Seq<char>>) -> Option<
    Seq<char>,
> {
    if c.node_modules_dir == Some(false) {
        None
    } else if !(c.node_modules_dir == Some(true) || c.vendor == Some(true)) {
        None
    } else if !is_prefix("file:"@, c.specifier@) {
        None
    } else {
        candidate
    }
}

/// Decides the dependency directory of a configuration file, given the
/// canonical `node_modules` directory beside it when that could be found.
pub fn resolve_node_modules_dir(config_file: &ConfigFile, candidate: Option<String>) -> (r: Option<
    String,
>)
    ensures
        opt_view(r) == node_modules_dir_for(*config_file, opt_view(candidate)),
{
    if config_file.node_modules_dir == Some(false) {
        return None;
    }
    let enabled = config_file.node_modules_dir == Some(true) || config_file.vendor == Some(true);
    if !enabled {
        return None;
    }
    if !starts_with(config_file.specifier.as_str(), "file:") {
        return None;
    }
    candidate
}

/// Copies a list of strings.
fn copy_texts(v: &Vec<String>) -> (r: Vec<String>)
    ensures
        r@ == v@,
{
    let mut out: Vec<String> = Vec::new();
    let n = v.len();
    let mut i: usize = 0;
    while i < n
        invariant
            n == v@.len(),
            0 <= i <= n,
            out@ == v@.subrange(0, i as int),
        decreases n - i,
    {
        out.push(v[i].clone());
        assert(out@ =~= v@.subrange(0, i as int + 1));
        i = i + 1;
    }
    assert(out@ =~= v@);
    out
}

fn copy_opt_texts(v: &Option<Vec<String>>) -> (r: Option<Vec<String>>)
    ensures
        opt_views(r) == opt_views(*v),
{
    match v {
        Some(l) => Some(copy_texts(l)),
        None => None,
    }
}

fn copy_opt_text(v: &Option<String>) -> (r: Option<String>)
    ensures
        r == *v,
{
    match v {
        Some(s) => Some(s.clone()),
        None => None,
    }
}

fn copy_hosts(v: &Vec<(String, bool)>) -> (r: Vec<(String, bool)>)
    ensures
        r@ == v@,
{
    let mut out: Vec<(String, bool)> = Vec::new();
    let n = v.len();
    let mut i: usize = 0;
    while i < n
        invariant
            n == v@.len(),
            0 <= i <= n,
            out@ == v@.subrange(0, i as int),
        decreases n - i,
    {
        out.push((v[i].0.clone(), v[i].1));
        assert(out@ =~= v@.subrange(0, i as int + 1));
        i = i + 1;
    }
    assert(out@ =~= v@);
    out
}

/// Two workspace settings hold the same values.
pub open spec fn same_workspace(a: WorkspaceSettings, b: WorkspaceSettings) -> bool {
    &&& a.enable == b.enable
    &&& views(a.enable_paths@) == views(b.enable_paths@)
    &&& a.cache == b.cache
    &&& opt_views(a.certificate_stores) == opt_views(b.certificate_stores)
    &&& a.config == b.config
    &&& a.import_map == b.import_map
    &&& a.code_lens == b.code_lens
    &&& a.inlay_hints == b.inlay_hints
    &&& a.internal_debug == b.internal_debug
    &&& a.lint == b.lint
    &&& a.document_preload_limit == b.document_preload_limit
    &&& a.suggest.complete_function_calls == b.suggest.complete_function_calls
    &&& a.suggest.names == b.suggest.names
    &&& a.suggest.paths == b.suggest.paths
    &&& a.suggest.auto_imports == b.suggest.auto_imports
    &&& a.suggest.imports.auto_discover == b.suggest.imports.auto_discover
    &&& a.suggest.imports.hosts@ == b.suggest.imports.hosts@
    &&& views(a.testing.args@) == views(b.testing.args@)
    &&& a.tls_certificate == b.tls_certificate
    &&& opt_views(a.unsafely_ignore_certificate_errors) == opt_views(
        b.unsafely_ignore_certificate_errors,
    )
    &&& a.unstable == b.unstable
}

fn copy_workspace_settings(w: &WorkspaceSettings) -> (r: WorkspaceSettings)
    ensures
        same_workspace(r, *w),
{
    WorkspaceSettings {
        enable: w.enable,
        enable_paths: copy_texts(&w.enable_paths),
        cache: copy_opt_text(&w.cache),
        certificate_stores: copy_opt_texts(&w.certificate_stores),
        config: copy_opt_text(&w.config),
        import_map: copy_opt_text(&w.import_map),
        code_lens: w.code_lens,
        inlay_hints: w.inlay_hints,
        internal_debug: w.internal_debug,
        lint: w.lint,
        document_preload_limit: w.document_preload_limit,
        suggest: CompletionSettings {
            complete_function_calls: w.suggest.complete_function_calls,
            names: w.suggest.names,
            paths: w.suggest.paths,
            auto_imports: w.suggest.auto_imports,
            imports: ImportCompletionSettings {
                auto_discover: w.suggest.imports.auto_discover,
                hosts: copy_hosts(&w.suggest.imports.hosts),
            },
        },
        testing: TestingSettings { args: copy_texts(&w.testing.args) },
        tls_certificate: copy_opt_text(&w.tls_certificate),
        unsafely_ignore_certificate_errors: copy_opt_texts(&w.unsafely_ignore_certificate_errors),
        unstable: w.unstable,
    }
}

fn copy_specifier_settings(s: &SpecifierSettings) -> (r: SpecifierSettings)
    ensures
        r@ == s@,
{
    SpecifierSettings {
        enable: s.enable,
        enable_paths: copy_texts(&s.enable_paths),
        code_lens: s.code_lens,
    }
}

fn copy_specs(v: &Vec<(String, SpecifierSettings)>) -> (r: Vec<(String, SpecifierSettings)>)
    ensures
        specs_view(r@) == specs_view(v@),
{
    let mut out: Vec<(String, SpecifierSettings)> = Vec::new();
    let n = v.len();
    let mut i: usize = 0;
    while i < n
        invariant
            n == v@.len(),
            0 <= i <= n,
            out@.len() == i,
            forall|j: int| 0 <= j < i ==> out@[j].0@ == v@[j].0@ && out@[j].1@ == v@[j].1@,
        decreases n - i,
    {
        out.push((v[i].0.clone(), copy_specifier_settings(&v[i].1)));
        i = i + 1;
    }
    assert(specs_view(out@) =~= specs_view(v@));
    out
}

fn copy_index(v: &Vec<(String, Vec<String>)>) -> (r: Vec<(String, Vec<String>)>)
    ensures
        index_view(r@) == index_view(v@),
{
    let mut out: Vec<(String, Vec<String>)> = Vec::new();
    let n = v.len();
    let mut i: usize = 0;
    while i < n
        invariant
            n == v@.len(),
            0 <= i <= n,
            out@.len() == i,
            forall|j: int| 0 <= j < i ==> out@[j].0@ == v@[j].0@ && out@[j].1@ == v@[j].1@,
        decreases n - i,
    {
        out.push((v[i].0.clone(), copy_texts(&v[i].1)));
        i = i + 1;
    }
    assert(index_view(out@) =~= index_view(v@));
    out
}

/// An immutable copy of the configuration, for readers that must not see
/// later changes.
#[derive(Debug, Clone)]
pub struct ConfigSnapshot {
    pub client_capabilities: ClientCapabilities,
    pub enabled_paths: Vec<(String, Vec<String>)>,
    pub excluded_paths: Option<Vec<String>>,
    pub has_config_file: bool,
    pub settings: Settings,
}

impl ConfigSnapshot {
    /// Whether the server acts on `specifier`, by the frozen configuration.
    pub open spec fn enabled_for(&self, f: Seq<char>) -> bool {
        enabled_by_rules(
            index_view(self.enabled_paths@),
            opt_views(self.excluded_paths),
            specs_view(self.settings.specifiers@),
            self.settings.workspace.enable,
            self.has_config_file,
            f,
        )
    }

    /// Determines whether the server acts on `specifier`.
    pub fn specifier_enabled(&self, specifier: &str) -> (r: bool)
        ensures
            r == self.enabled_for(specifier@),
    {
        specifier_enabled(
            &self.enabled_paths,
            self.excluded_paths.as_ref(),
            &self.settings,
            self.has_config_file,
            specifier,
        )
    }
}

/// The live configuration of the server.
#[derive(Debug)]
pub struct Config {
    pub client_capabilities: ClientCapabilities,
    /// Workspace roots with the sub-paths that are enabled under them.
    pub enabled_paths: Vec<(String, Vec<String>)>,
    /// The root given when the client initialized.
    pub root_uri: Option<String>,
    pub settings: Settings,
    pub workspace_folders: Option<Vec<(String, WorkspaceFolder)>>,
    /// The bound configuration file and what was derived from it.
    pub maybe_config_file_info: Option<LspConfigFileInfo>,
}

/// A file identifier is a `file:` URL.
pub open spec fn is_file_url(s: Seq<char>) -> bool {
    is_prefix("file:"@, s)
}

impl Config {
    /// A configuration file is bound.
    pub closed spec fn has_config_file_spec(&self) -> bool {
        self.maybe_config_file_info is Some
    }

    /// The exclusions of the bound configuration file, if one is bound.
    pub closed spec fn excluded_paths_view(&self) -> Option<Seq<Seq<char>>> {
        match self.maybe_config_file_info {
            Some(i) => Some(views(i.excluded_paths@)),
            None => None,
        }
    }

    /// The bound configuration file.
    pub closed spec fn bound_config_file(&self) -> Option<ConfigFile> {
        match self.maybe_config_file_info {
            Some(i) => Some(i.config_file.file),
            None => None,
        }
    }

    /// The canonical location of the bound configuration file.
    pub closed spec fn bound_config_file_canonical(&self) -> Option<Seq<char>> {
        match self.maybe_config_file_info {
            Some(i) => Some(i.config_file.canonicalized_specifier@),
            None => None,
        }
    }

    /// The bound lock file.
    pub closed spec fn bound_lockfile(&self) -> Option<SharedLockfile> {
        match self.maybe_config_file_info {
            Some(i) => match i.maybe_lockfile {
                Some(l) => Some(l.file),
                None => None,
            },
            None => None,
        }
    }

    /// The canonical location of the bound lock file.
    pub closed spec fn bound_lockfile_canonical(&self) -> Option<Seq<char>> {
        match self.maybe_config_file_info {
            Some(i) => match i.maybe_lockfile {
                Some(l) => Some(l.canonicalized_specifier@),
                None => None,
            },
            None => None,
        }
    }

    /// The bound dependency directory.
    pub closed spec fn bound_node_modules_dir(&self) -> Option<Seq<char>> {
        match self.maybe_config_file_info {
            Some(i) => opt_view(i.maybe_node_modules_dir),
            None => None,
        }
    }

    /// Whether the server acts on file `f` by the live configuration.
    pub open spec fn enabled_for(&self, f: Seq<char>) -> bool {
        enabled_by_rules(
            index_view(self.enabled_paths@),
            self.excluded_paths_view(),
            specs_view(self.settings.specifiers@),
            self.settings.workspace.enable,
            self.has_config_file_spec(),
            f,
        )
    }

    /// `s` is a copy of this configuration.
    pub open spec fn snapshot_of(&self, s: ConfigSnapshot) -> bool {
        &&& s.client_capabilities == self.client_capabilities
        &&& index_view(s.enabled_paths@) == index_view(self.enabled_paths@)
        &&& opt_views(s.excluded_paths) == self.excluded_paths_view()
        &&& s.has_config_file == self.has_config_file_spec()
        &&& specs_view(s.settings.specifiers@) == specs_view(self.settings.specifiers@)
        &&& same_workspace(s.settings.workspace, self.settings.workspace)
    }

    /// An empty configuration: no capabilities, no paths, no root, default
    /// settings and no configuration file.
    pub fn new() -> (r: Self)
        ensures
            r.client_capabilities == ClientCapabilities::default_spec(),
            r.enabled_paths@.len() == 0,
            r.root_uri is None,
            r.settings.specifiers@.len() == 0,
            is_default_workspace_settings(r.settings.workspace),
            r.workspace_folders is None,
            !r.has_config_file_spec(),
    {
        Config {
            client_capabilities: ClientCapabilities::none(),
            enabled_paths: Vec::new(),
            root_uri: None,
            settings: Settings::default(),
            workspace_folders: None,
            maybe_config_file_info: None,
        }
    }

    /// The bound dependency directory.
    pub fn maybe_node_modules_dir_path(&self) -> (r: Option<&String>)
        ensures
            match r {
                Some(p) => self.bound_node_modules_dir() == Some(p@),
                None => self.bound_node_modules_dir() is None,
            },
    {
        match &self.maybe_config_file_info {
            Some(i) => i.maybe_node_modules_dir.as_ref(),
            None => None,
        }
    }

    /// The vendor directory that the bound configuration file asks for.
    pub fn maybe_vendor_dir_path(&self) -> (r: Option<String>)
        ensures
            r == (match self.bound_config_file() {
                Some(c) => c.vendor_dir_path,
                None => None,
            }),
    {
        match &self.maybe_config_file_info {
            Some(i) => copy_opt_text(&i.config_file.file.vendor_dir_path),
            None => None,
        }
    }

    /// The bound configuration file.
    pub fn maybe_config_file(&self) -> (r: Option<&ConfigFile>)
        ensures
            match r {
                Some(c) => self.bound_config_file() == Some(*c),
                None => self.bound_config_file() is None,
            },
    {
        match &self.maybe_config_file_info {
            Some(i) => Some(&i.config_file.file),
            None => None,
        }
    }

    /// The canonical location of the bound configuration file; only for
    /// matching file watcher events.
    pub fn maybe_config_file_canonicalized_specifier(&self) -> (r: Option<&String>)
        ensures
            match r {
                Some(c) => self.bound_config_file_canonical() == Some(c@),
                None => self.bound_config_file_canonical() is None,
            },
    {
        match &self.maybe_config_file_info {
            Some(i) => Some(&i.config_file.canonicalized_specifier),
            None => None,
        }
    }

    /// The bound lock file.
    pub fn maybe_lockfile(&self) -> (r: Option<&SharedLockfile>)
        ensures
            match r {
                Some(l) => self.bound_lockfile() == Some(*l),
                None => self.bound_lockfile() is None,
            },
    {
        match &self.maybe_config_file_info {
            Some(i) => match &i.maybe_lockfile {
                Some(l) => Some(&l.file),
                None => None,
            },
            None => None,
        }
    }

    /// The canonical location of the bound lock file; only for matching file
    /// watcher events.
    pub fn maybe_lockfile_canonicalized_specifier(&self) -> (r: Option<&String>)
        ensures
            match r {
                Some(c) => self.bound_lockfile_canonical() == Some(c@),
                None => self.bound_lockfile_canonical() is None,
            },
    {
        match &self.maybe_config_file_info {
            Some(i) => match &i.maybe_lockfile {
                Some(l) => Some(&l.canonicalized_specifier),
                None => None,
            },
            None => None,
        }
    }

    /// Drops the configuration file and everything derived from it at once.
    pub fn clear_config_file(&mut self)
        ensures
            !final(self).has_config_file_spec(),
            final(self).bound_config_file() is None,
            final(self).bound_config_file_canonical() is None,
            final(self).bound_lockfile() is None,
            final(self).bound_lockfile_canonical() is None,
            final(self).bound_node_modules_dir() is None,
            final(self).excluded_paths_view() is None,
            final(self).workspace_folders == old(self).workspace_folders,
            final(self).settings == old(self).settings,
            final(self).enabled_paths == old(self).enabled_paths,
            final(self).client_capabilities == old(self).client_capabilities,
            final(self).root_uri == old(self).root_uri,
    {
        self.maybe_config_file_info = None;
    }

    /// Whether a configuration file is bound.
    pub fn has_config_file(&self) -> (r: bool)
        ensures
            r == self.has_config_file_spec(),
    {
        self.maybe_config_file_info.is_some()
    }

    /// Binds a configuration file, with what was found on disk around it:
    /// its canonical location (the file's own location when there is none),
    /// its lock file, its dependency directory when the file opts in, and
    /// its exclusions.
    pub fn set_config_file(&mut self, config_file: ConfigFile, found: ConfigFileSurroundings)
        ensures
            final(self).has_config_file_spec(),
            final(self).bound_config_file() == Some(config_file),
            final(self).bound_config_file_canonical() == Some(
                match found.canonicalized_specifier {
                    Some(c) => c@,
                    None => config_file.specifier@,
                },
            ),
            final(self).bound_lockfile() == (match found.lockfile {
                Some(l) => Some(l.file),
                None => None,
            }),
            final(self).bound_lockfile_canonical() == (match found.lockfile {
                Some(l) => Some(l.canonicalized_specifier@),
                None => None,
            }),
            final(self).bound_node_modules_dir() == node_modules_dir_for(
                config_file,
                opt_view(found.node_modules_dir),
            ),
            final(self).excluded_paths_view() == Some(views(config_file.exclude@)),
            final(self).workspace_folders == old(self).workspace_folders,
            final(self).settings == old(self).settings,
            final(self).enabled_paths == old(self).enabled_paths,
            final(self).client_capabilities == old(self).client_capabilities,
            final(self).root_uri == old(self).root_uri,
    {
        let maybe_lockfile = match found.lockfile {
            Some(l) => Some(
                WithCanonicalizedSpecifier {
                    canonicalized_specifier: l.canonicalized_specifier,
                    file: l.file,
                },
            ),
            None => None,
        };
        let maybe_node_modules_dir = resolve_node_modules_dir(&config_file, found.node_modules_dir);
        let excluded_paths = copy_texts(&config_file.exclude);
        let canonicalized_specifier = match found.canonicalized_specifier {
            Some(c) => c,
            None => config_file.specifier.clone(),
        };
        self.maybe_config_file_info = Some(
            LspConfigFileInfo {
                config_file: WithCanonicalizedSpecifier { canonicalized_specifier, file: config_file },
                maybe_lockfile,
                maybe_node_modules_dir,
                excluded_paths,
            },
        );
    }

    /// The workspace settings.
    pub fn workspace_settings(&self) -> (r: &WorkspaceSettings)
        ensures
            *r == self.settings.workspace,
    {
        &self.settings.workspace
    }

    /// Replaces the workspace settings with those read from a settings
    /// document. On an error nothing changes.
    pub fn set_workspace_settings(&mut self, value: JsonValue) -> (r: Result<(), DeserializationError>)
        ensures
            r is Ok <==> document_ok(value),
            r is Ok ==> reads_as(value, final(self).settings.workspace),
            r is Err ==> *final(self) == *old(self),
            final(self).settings.specifiers == old(self).settings.specifiers,
            final(self).enabled_paths == old(self).enabled_paths,
            final(self).client_capabilities == old(self).client_capabilities,
            final(self).root_uri == old(self).root_uri,
            final(self).workspace_folders == old(self).workspace_folders,
            final(self).maybe_config_file_info == old(self).maybe_config_file_info,
    {
        match workspace_settings_from_json(&value) {
            Ok(w) => {
                self.settings.workspace = w;
                Ok(())
            },
            Err(e) => Err(e),
        }
    }

    /// Freezes the configuration into a copy that later changes do not
    /// reach.
    pub fn snapshot(&self) -> (r: Arc<ConfigSnapshot>)
        ensures
            self.snapshot_of(*r),
    {
        let excluded_paths = match &self.maybe_config_file_info {
            Some(i) => Some(copy_texts(&i.excluded_paths)),
            None => None,
        };
        Arc::new(
            ConfigSnapshot {
                client_capabilities: self.client_capabilities,
                enabled_paths: copy_index(&self.enabled_paths),
                excluded_paths,
                has_config_file: self.has_config_file(),
                settings: Settings {
                    specifiers: copy_specs(&self.settings.specifiers),
                    workspace: copy_workspace_settings(&self.settings.workspace),
                },
            },
        )
    }

    /// Whether file `specifier` has settings of its own.
    pub fn has_specifier_settings(&self, specifier: &str) -> (r: bool)
        ensures
            r == override_of(specs_view(self.settings.specifiers@), specifier@) is Some,
    {
        find_override(&self.settings.specifiers, specifier).is_some()
    }

    /// Whether the workspace as a whole is enabled: its enable flag, or else
    /// whether a configuration file is bound.
    pub fn enabled(&self) -> (r: bool)
        ensures
            r == match self.settings.workspace.enable {
                Some(b) => b,
                None => self.has_config_file_spec(),
            },
    {
        match self.settings.workspace.enable {
            Some(b) => b,
            None => self.has_config_file(),
        }
    }

    /// Determines whether the server acts on `specifier`.
    pub fn specifier_enabled(&self, specifier: &str) -> (r: bool)
        ensures
            r == self.enabled_for(specifier@),
    {
        let excluded = match &self.maybe_config_file_info {
            Some(i) => Some(&i.excluded_paths),
            None => None,
        };
        specifier_enabled(
            &self.enabled_paths,
            excluded,
            &self.settings,
            self.has_config_file(),
            specifier,
        )
    }

    /// Whether test code lenses are shown for `specifier`: its own setting,
    /// or else the workspace's.
    pub fn specifier_code_lens_test(&self, specifier: &str) -> (r: bool)
        ensures
            r == match override_of(specs_view(self.settings.specifiers@), specifier@) {
                Some(s) => s.code_lens.test,
                None => self.settings.workspace.code_lens.test,
            },
    {
        match find_override(&self.settings.specifiers, specifier) {
            Some(s) => s.code_lens.test,
            None => self.settings.workspace.code_lens.test,
        }
    }

    /// Reduces the client's announced capabilities to the flags the server
    /// acts on.
    pub fn update_capabilities(&mut self, capabilities: &AnnouncedCapabilities)
        ensures
            final(self).client_capabilities == negotiated(*capabilities),
            final(self).settings == old(self).settings,
            final(self).enabled_paths == old(self).enabled_paths,
            final(self).root_uri == old(self).root_uri,
            final(self).workspace_folders == old(self).workspace_folders,
            final(self).maybe_config_file_info == old(self).maybe_config_file_info,
    {
        self.client_capabilities = ClientCapabilities::from_announced(capabilities);
    }
}

/// The URLs that one index entry contributes: its enabled sub-paths, or the
/// root itself when it lists none.
pub open spec fn entry_urls(e: (Seq<char>, Seq<Seq<char>>)) -> Seq<Seq<char>> {
    if e.1.len() > 0 {
        e.1
    } else {
        seq![e.0]
    }
}

/// The URLs of all index entries, in index order.
pub open spec fn index_urls(index: Seq<(Seq<char>, Seq<Seq<char>>)>) -> Seq<Seq<char>>
    decreases index.len(),
{
    if index.len() == 0 {
        Seq::empty()
    } else {
        index_urls(index.drop_last()) + entry_urls(index.last())
    }
}

/// The directory that a workspace URL stands for, when it is a `file:` URL
/// that names a local path.
pub open spec fn workspace_dir(ws: Seq<char>) -> Option<Seq<char>> {
    if is_file_url(ws) {
        file_path_of(ws)
    } else {
        None
    }
}

/// The file URLs of the enabled paths under a directory; a path whose URL
/// cannot be formed is skipped.
pub open spec fn resolved_paths(dir: Seq<char>, paths: Seq<Seq<char>>) -> Seq<Seq<char>>
    decreases paths.len(),
{
    if paths.len() == 0 {
        Seq::empty()
    } else {
        let prev = resolved_paths(dir, paths.drop_last());
        match file_url_of(joined_path(dir, paths.last())) {
            Some(u) => prev.push(u),
            None => prev,
        }
    }
}

/// The index without any entry for root `ws`.
pub open spec fn without_root(index: Seq<(Seq<char>, Seq<Seq<char>>)>, ws: Seq<char>) -> Seq<
    (Seq<char>, Seq<Seq<char>>),
>
    decreases index.len(),
{
    if index.len() == 0 {
        Seq::empty()
    } else {
        let prev = without_root(index.drop_last(), ws);
        if index.last().0 == ws {
            prev
        } else {
            prev.push(index.last())
        }
    }
}

/// The index after the enabled paths of root `ws` were set to `paths`, and
/// whether it was touched. No paths removes the root's entry; paths that all
/// fail to resolve, or a root that is no local directory, leave the index as
/// it was; otherwise the entry is replaced by the resolved URLs.
pub open spec fn entry_update(
    index: Seq<(Seq<char>, Seq<Seq<char>>)>,
    ws: Seq<char>,
    paths: Seq<Seq<char>>,
) -> (Seq<(Seq<char>, Seq<Seq<char>>)>, bool) {
    if paths.len() == 0 {
        (without_root(index, ws), true)
    } else {
        match workspace_dir(ws) {
            None => (index, false),
            Some(dir) => {
                let rs = resolved_paths(dir, paths);
                if rs.len() == 0 {
                    (index, false)
                } else {
                    (without_root(index, ws).push((ws, rs)), true)
                }
            },
        }
    }
}

/// The enabled paths configured for a workspace folder: its own settings',
/// or else the workspace's.
pub open spec fn folder_paths(
    specs: Seq<(Seq<char>, SpecifierSettingsView)>,
    workspace_paths: Seq<Seq<char>>,
    folder: Seq<char>,
) -> Seq<Seq<char>> {
    match override_of(specs, folder) {
        Some(s) => s.enable_paths,
        None => workspace_paths,
    }
}

/// The index after each folder's entry was updated in turn, and whether any
/// update touched it.
pub open spec fn folders_update(
    index: Seq<(Seq<char>, Seq<Seq<char>>)>,
    folders: Seq<Seq<char>>,
    specs: Seq<(Seq<char>, SpecifierSettingsView)>,
    workspace_paths: Seq<Seq<char>>,
) -> (Seq<(Seq<char>, Seq<Seq<char>>)>, bool)
    decreases folders.len(),
{
    if folders.len() == 0 {
        (index, false)
    } else {
        let (i1, t1) = folders_update(index, folders.drop_last(), specs, workspace_paths);
        let (i2, t2) = entry_update(
            i1,
            folders.last(),
            folder_paths(specs, workspace_paths, folders.last()),
        );
        (i2, t1 || t2)
    }
}

/// The per-file overrides after `id` was given `v`: the first entry for
/// `id` is replaced, or a new entry is appended.
pub open spec fn specs_with(
    specs: Seq<(Seq<char>, SpecifierSettingsView)>,
    id: Seq<char>,
    v: SpecifierSettingsView,
) -> Seq<(Seq<char>, SpecifierSettingsView)>
    decreases specs.len(),
{
    if specs.len() == 0 {
        seq![(id, v)]
    } else if specs[0].0 == id {
        specs.update(0, (id, v))
    } else {
        seq![specs[0]] + specs_with(specs.drop_first(), id, v)
    }
}

/// No file identifier has two entries.
pub open spec fn distinct_keys(specs: Seq<(Seq<char>, SpecifierSettingsView)>) -> bool {
    forall|i: int, j: int| 0 <= i < j < specs.len() ==> specs[i].0 != specs[j].0
}

proof fn lemma_specs_with_at(
    s: Seq<(Seq<char>, SpecifierSettingsView)>,
    id: Seq<char>,
    v: SpecifierSettingsView,
    i: int,
)
    requires
        0 <= i < s.len(),
        s[i].0 == id,
        forall|j: int| 0 <= j < i ==> s[j].0 != id,
    ensures
        specs_with(s, id, v) == s.update(i, (id, v)),
        override_of(s, id) == Some(s[i].1),
    decreases i,
{
    if i > 0 {
        lemma_specs_with_at(s.drop_first(), id, v, i - 1);
        assert(seq![s[0]] + s.drop_first().update(i - 1, (id, v)) =~= s.update(i, (id, v)));
    }
}

proof fn lemma_specs_with_absent(
    s: Seq<(Seq<char>, SpecifierSettingsView)>,
    id: Seq<char>,
    v: SpecifierSettingsView,
)
    requires
        forall|j: int| 0 <= j < s.len() ==> s[j].0 != id,
    ensures
        specs_with(s, id, v) == s.push((id, v)),
        override_of(s, id) is None,
    decreases s.len(),
{
    if s.len() > 0 {
        lemma_specs_with_absent(s.drop_first(), id, v);
        assert(seq![s[0]] + s.drop_first().push((id, v)) =~= s.push((id, v)));
    }
}

/// The position of the first override for `f`.
fn find_override_index(specs: &Vec<(String, SpecifierSettings)>, f: &str) -> (r: Option<usize>)
    ensures
        match r {
            Some(i) => i < specs@.len() && specs@[i as int].0@ == f@ && forall|j: int|
                0 <= j < i ==> specs@[j].0@ != f@,
            None => forall|j: int| 0 <= j < specs@.len() ==> specs@[j].0@ != f@,
        },
{
    let wanted = f.to_owned();
    let n = specs.len();
    let mut i: usize = 0;
    while i < n
        invariant
            n == specs@.len(),
            0 <= i <= n,
            wanted@ == f@,
            forall|j: int| 0 <= j < i ==> specs@[j].0@ != f@,
        decreases n - i,
    {
        if specs[i].0 == wanted {
            return Some(i);
        }
        i = i + 1;
    }
    None
}

impl Config {
    /// The workspace as a whole is enabled.
    pub open spec fn enabled_spec(&self) -> bool {
        match self.settings.workspace.enable {
            Some(b) => b,
            None => self.has_config_file_spec(),
        }
    }

    /// The URLs that are enabled, before sorting: none when the workspace is
    /// disabled and no enabled paths are indexed; else those of the index,
    /// or the root when the index yields none.
    pub open spec fn listed_urls(&self) -> Seq<Seq<char>> {
        if !self.enabled_spec() && self.enabled_paths@.len() == 0 {
            Seq::empty()
        } else {
            let u = index_urls(index_view(self.enabled_paths@));
            if u.len() == 0 {
                match self.root_uri {
                    Some(r) => seq![r@],
                    None => Seq::empty(),
                }
            } else {
                u
            }
        }
    }

    /// The enabled directories and files, sorted. Directory URLs may appear
    /// as file URLs.
    pub fn enabled_urls(&self) -> (r: Vec<String>)
        ensures
            views(r@).to_multiset() == self.listed_urls().to_multiset(),
            texts_sorted(views(r@)),
    {
        let mut urls: Vec<String> = Vec::new();
        if !self.enabled() && self.enabled_paths.len() == 0 {
            assert(views(urls@) =~= Seq::empty());
            return urls;
        }
        let ghost iv = index_view(self.enabled_paths@);
        let n = self.enabled_paths.len();
        let mut i: usize = 0;
        while i < n
            invariant
                n == self.enabled_paths@.len(),
                iv == index_view(self.enabled_paths@),
                0 <= i <= n,
                views(urls@) == index_urls(iv.subrange(0, i as int)),
            decreases n - i,
        {
            assert(iv.subrange(0, i as int + 1).drop_last() =~= iv.subrange(0, i as int));
            let paths = &self.enabled_paths[i].1;
            if paths.len() > 0 {
                let m = paths.len();
                let mut k: usize = 0;
                let ghost before = views(urls@);
                while k < m
                    invariant
                        m == paths@.len(),
                        0 <= k <= m,
                        views(urls@) == before + views(paths@).subrange(0, k as int),
                    decreases m - k,
                {
                    let ghost prev = views(urls@);
                    urls.push(paths[k].clone());
                    assert(views(urls@) =~= prev.push(paths@[k as int]@));
                    assert(views(paths@).subrange(0, k as int + 1) =~= views(paths@).subrange(
                        0,
                        k as int,
                    ).push(paths@[k as int]@));
                    assert(views(urls@) =~= before + views(paths@).subrange(0, k as int + 1));
                    k = k + 1;
                }
                assert(views(paths@).subrange(0, m as int) =~= views(paths@));
            } else {
                let ghost before = views(urls@);
                urls.push(self.enabled_paths[i].0.clone());
                assert(views(urls@) =~= before + seq![self.enabled_paths@[i as int].0@]);
            }
            i = i + 1;
        }
        assert(iv.subrange(0, n as int) =~= iv);
        if urls.len() == 0 {
            if let Some(root_dir) = &self.root_uri {
                urls.push(root_dir.clone());
                assert(views(urls@) =~= seq![root_dir@]);
            }
        }
        sort_texts(&mut urls);
        urls
    }

    /// Removes every entry for root `ws` from the enabled-paths index.
    fn remove_enabled_root(&mut self, ws: &String)
        ensures
            index_view(final(self).enabled_paths@) == without_root(
                index_view(old(self).enabled_paths@),
                ws@,
            ),
            final(self).settings == old(self).settings,
            final(self).workspace_folders == old(self).workspace_folders,
            final(self).root_uri == old(self).root_uri,
            final(self).client_capabilities == old(self).client_capabilities,
            final(self).maybe_config_file_info == old(self).maybe_config_file_info,
    {
        let ghost iv = index_view(self.enabled_paths@);
        let mut kept: Vec<(String, Vec<String>)> = Vec::new();
        let n = self.enabled_paths.len();
        let mut i: usize = 0;
        while i < n
            invariant
                n == self.enabled_paths@.len(),
                iv == index_view(self.enabled_paths@),
                0 <= i <= n,
                index_view(kept@) == without_root(iv.subrange(0, i as int), ws@),
            decreases n - i,
        {
            assert(iv.subrange(0, i as int + 1).drop_last() =~= iv.subrange(0, i as int));
            if self.enabled_paths[i].0 != *ws {
                let ghost before = index_view(kept@);
                kept.push((self.enabled_paths[i].0.clone(), copy_texts(&self.enabled_paths[i].1)));
                assert(index_view(kept@) =~= before.push(iv[i as int]));
            }
            i = i + 1;
        }
        assert(iv.subrange(0, n as int) =~= iv);
        self.enabled_paths = kept;
    }

    /// Sets the enabled paths of one workspace root, resolving each relative
    /// path against the root's directory; returns whether the index was
    /// touched.
    fn update_enabled_paths_entry(&mut self, workspace: String, enabled_paths: Vec<String>) -> (r:
        bool)
        ensures
            (index_view(final(self).enabled_paths@), r) == entry_update(
                index_view(old(self).enabled_paths@),
                workspace@,
                views(enabled_paths@),
            ),
            final(self).settings == old(self).settings,
            final(self).workspace_folders == old(self).workspace_folders,
            final(self).root_uri == old(self).root_uri,
            final(self).client_capabilities == old(self).client_capabilities,
            final(self).maybe_config_file_info == old(self).maybe_config_file_info,
    {
        if enabled_paths.len() == 0 {
            self.remove_enabled_root(&workspace);
            return true;
        }
        let workspace_path = if starts_with(workspace.as_str(), "file:") {
            url_to_file_path(workspace.as_str())
        } else {
            None
        };
        let workspace_path = match workspace_path {
            Some(p) => p,
            None => return false,
        };
        let mut paths: Vec<String> = Vec::new();
        let ghost ps = views(enabled_paths@);
        let n = enabled_paths.len();
        let mut i: usize = 0;
        while i < n
            invariant
                n == enabled_paths@.len(),
                ps == views(enabled_paths@),
                0 <= i <= n,
                views(paths@) == resolved_paths(workspace_path@, ps.subrange(0, i as int)),
            decreases n - i,
        {
            assert(ps.subrange(0, i as int + 1).drop_last() =~= ps.subrange(0, i as int));
            let fs_path = join_path(workspace_path.as_str(), enabled_paths[i].as_str());
            match file_path_to_url(fs_path.as_str()) {
                Some(path_uri) => {
                    let ghost before = views(paths@);
                    paths.push(path_uri);
                    assert(views(paths@) =~= before.push(path_uri@));
                },
                None => {},
            }
            i = i + 1;
        }
        assert(ps.subrange(0, n as int) =~= ps);
        if paths.len() == 0 {
            return false;
        }
        self.remove_enabled_root(&workspace);
        let ghost before = index_view(self.enabled_paths@);
        self.enabled_paths.push((workspace, paths));
        assert(index_view(self.enabled_paths@) =~= before.push((workspace@, views(paths@))));
        true
    }

    /// The index update that the current folders or root call for, and
    /// whether it touches the index.
    pub open spec fn enabled_paths_update(&self) -> (Seq<(Seq<char>, Seq<Seq<char>>)>, bool) {
        let index = index_view(self.enabled_paths@);
        let specs = specs_view(self.settings.specifiers@);
        let ws_paths = views(self.settings.workspace.enable_paths@);
        match self.workspace_folders {
            Some(f) => folders_update(
                index,
                f@.map_values(|p: (String, WorkspaceFolder)| p.0@),
                specs,
                ws_paths,
            ),
            None => match self.root_uri {
                Some(r) => entry_update(index, r@, ws_paths),
                None => (index, false),
            },
        }
    }

    /// Resolves the enabled paths of every workspace folder (or of the root
    /// when there are no folders) from the settings; returns whether the
    /// index was touched.
    pub fn update_enabled_paths(&mut self) -> (r: bool)
        ensures
            (index_view(final(self).enabled_paths@), r) == old(self).enabled_paths_update(),
            final(self).settings == old(self).settings,
            final(self).workspace_folders == old(self).workspace_folders,
            final(self).root_uri == old(self).root_uri,
            final(self).client_capabilities == old(self).client_capabilities,
            final(self).maybe_config_file_info == old(self).maybe_config_file_info,
    {
        let ghost start = *self;
        let folders: Option<Vec<String>> = match &self.workspace_folders {
            Some(f) => {
                let mut uris: Vec<String> = Vec::new();
                let n = f.len();
                let mut i: usize = 0;
                while i < n
                    invariant
                        n == f@.len(),
                        0 <= i <= n,
                        uris@.len() == i,
                        forall|j: int| 0 <= j < i ==> uris@[j]@ == f@[j].0@,
                    decreases n - i,
                {
                    uris.push(f[i].0.clone());
                    i = i + 1;
                }
                assert(views(uris@) =~= f@.map_values(|p: (String, WorkspaceFolder)| p.0@));
                Some(uris)
            },
            None => None,
        };
        match folders {
            Some(uris) => {
                let ghost fv = views(uris@);
                let ghost specs = specs_view(self.settings.specifiers@);
                let ghost ws_paths = views(self.settings.workspace.enable_paths@);
                let mut touched = false;
                let n = uris.len();
                let mut i: usize = 0;
                assert(fv.subrange(0, 0) =~= Seq::<Seq<char>>::empty());
                while i < n
                    invariant
                        n == uris@.len(),
                        fv == views(uris@),
                        0 <= i <= n,
                        specs == specs_view(self.settings.specifiers@),
                        ws_paths == views(self.settings.workspace.enable_paths@),
                        self.settings == start.settings,
                        self.workspace_folders == start.workspace_folders,
                        self.root_uri == start.root_uri,
                        self.client_capabilities == start.client_capabilities,
                        self.maybe_config_file_info == start.maybe_config_file_info,
                        (index_view(self.enabled_paths@), touched) == folders_update(
                            index_view(start.enabled_paths@),
                            fv.subrange(0, i as int),
                            specs,
                            ws_paths,
                        ),
                    decreases n - i,
                {
                    assert(fv.subrange(0, i as int + 1).drop_last() =~= fv.subrange(0, i as int));
                    let paths = match find_override(&self.settings.specifiers, uris[i].as_str()) {
                        Some(s) => copy_texts(&s.enable_paths),
                        None => copy_texts(&self.settings.workspace.enable_paths),
                    };
                    if self.update_enabled_paths_entry(uris[i].clone(), paths) {
                        touched = true;
                    }
                    i = i + 1;
                }
                assert(fv.subrange(0, n as int) =~= fv);
                touched
            },
            None => {
                match &self.root_uri {
                    Some(root_uri) => {
                        let root = root_uri.clone();
                        let paths = copy_texts(&self.settings.workspace.enable_paths);
                        self.update_enabled_paths_entry(root, paths)
                    },
                    None => false,
                }
            },
        }
    }

    /// The file identifiers that have settings of their own, sorted.
    pub fn get_specifiers(&self) -> (r: Vec<String>)
        ensures
            views(r@).to_multiset() == specs_view(self.settings.specifiers@).map_values(
                |p: (Seq<char>, SpecifierSettingsView)| p.0,
            ).to_multiset(),
            texts_sorted(views(r@)),
    {
        let mut out: Vec<String> = Vec::new();
        let n = self.settings.specifiers.len();
        let mut i: usize = 0;
        while i < n
            invariant
                n == self.settings.specifiers@.len(),
                0 <= i <= n,
                out@.len() == i,
                forall|j: int| 0 <= j < i ==> out@[j]@ == self.settings.specifiers@[j].0@,
            decreases n - i,
        {
            out.push(self.settings.specifiers[i].0.clone());
            i = i + 1;
        }
        assert(views(out@) =~= specs_view(self.settings.specifiers@).map_values(
            |p: (Seq<char>, SpecifierSettingsView)| p.0,
        ));
        sort_texts(&mut out);
        out
    }

    /// Gives file `specifier` its own settings. Returns false, changing
    /// nothing, when it already has settings equal to these.
    pub fn set_specifier_settings(&mut self, specifier: String, settings: SpecifierSettings) -> (r:
        bool)
        ensures
            r == (override_of(specs_view(old(self).settings.specifiers@), specifier@) != Some(
                settings@,
            )),
            !r ==> *final(self) == *old(self),
            specs_view(final(self).settings.specifiers@) == specs_with(
                specs_view(old(self).settings.specifiers@),
                specifier@,
                settings@,
            ),
            distinct_keys(specs_view(old(self).settings.specifiers@)) ==> distinct_keys(
                specs_view(final(self).settings.specifiers@),
            ),
            final(self).settings.workspace == old(self).settings.workspace,
            final(self).enabled_paths == old(self).enabled_paths,
            final(self).workspace_folders == old(self).workspace_folders,
            final(self).root_uri == old(self).root_uri,
            final(self).client_capabilities == old(self).client_capabilities,
            final(self).maybe_config_file_info == old(self).maybe_config_file_info,
    {
        let ghost sv = specs_view(self.settings.specifiers@);
        match find_override_index(&self.settings.specifiers, specifier.as_str()) {
            Some(i) => {
                proof {
                    lemma_specs_with_at(sv, specifier@, settings@, i as int);
                }
                if self.settings.specifiers[i].1 == settings {
                    assert(sv.update(i as int, (specifier@, settings@)) =~= sv);
                    return false;
                }
                self.settings.specifiers.set(i, (specifier, settings));
                assert(specs_view(self.settings.specifiers@) =~= sv.update(
                    i as int,
                    (specifier@, settings@),
                ));
                true
            },
            None => {
                proof {
                    lemma_specs_with_absent(sv, specifier@, settings@);
                }
                let ghost id = specifier@;
                let ghost v = settings@;
                self.settings.specifiers.push((specifier, settings));
                assert(specs_view(self.settings.specifiers@) =~= sv.push((id, v)));
                true
            },
        }
    }
}

} // verus!

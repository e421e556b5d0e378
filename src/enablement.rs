//! The precedence rule that decides whether the server acts on a file.
//!
//! Matching is a plain prefix test on the file identifier, not a test on
//! path segments: `file:///projectAlt` is matched by `file:///project`.
use vstd::prelude::*;
use crate::settings::{
    SpecifierSettings, SpecifierSettingsView, WorkspaceSettings, is_default_workspace_settings,
};
use crate::text::{is_prefix, starts_with, views};

verus! {

/// Per-file overrides keyed by file identifier, and the workspace settings.
#[derive(Debug, Clone)]
pub struct Settings {
    pub specifiers: Vec<(String, SpecifierSettings)>,
    pub workspace: WorkspaceSettings,
}

impl Default for Settings {
    fn default() -> (r: Self)
        ensures
            r.specifiers@.len() == 0,
            is_default_workspace_settings(r.workspace),
    {
        Settings { specifiers: Vec::new(), workspace: WorkspaceSettings::default() }
    }
}

/// Per-file overrides as file identifiers with the values of their settings.
pub open spec fn specs_view(specs: Seq<(String, SpecifierSettings)>) -> Seq<
    (Seq<char>, SpecifierSettingsView),
> {
    specs.map_values(|p: (String, SpecifierSettings)| (p.0@, p.1@))
}

/// An enabled-paths index as workspace roots with their enabled sub-paths.
pub open spec fn index_view(index: Seq<(String, Vec<String>)>) -> Seq<(Seq<char>, Seq<Seq<char>>)> {
    index.map_values(|p: (String, Vec<String>)| (p.0@, views(p.1@)))
}

/// The override stored for file `f`: the first entry with that key.
pub open spec fn override_of(specs: Seq<(Seq<char>, SpecifierSettingsView)>, f: Seq<char>) -> Option<
    SpecifierSettingsView,
>
    decreases specs.len(),
{
    if specs.len() == 0 {
        None
    } else if specs[0].0 == f {
        Some(specs[0].1)
    } else {
        override_of(specs.drop_first(), f)
    }
}

/// The enabled sub-paths of the first workspace root that is a prefix of `f`.
pub open spec fn root_match(index: Seq<(Seq<char>, Seq<Seq<char>>)>, f: Seq<char>) -> Option<
    Seq<Seq<char>>,
>
    decreases index.len(),
{
    if index.len() == 0 {
        None
    } else if is_prefix(index[0].0, f) {
        Some(index[0].1)
    } else {
        root_match(index.drop_first(), f)
    }
}

/// Some path of the list is a prefix of `f`.
pub open spec fn prefixed_by_any(paths: Seq<Seq<char>>, f: Seq<char>) -> bool {
    exists|i: int| 0 <= i < paths.len() && is_prefix(paths[i], f)
}

/// `f` lies under one of the excluded paths, if there are any.
pub open spec fn excluded(excluded_paths: Option<Seq<Seq<char>>>, f: Seq<char>) -> bool {
    match excluded_paths {
        Some(x) => prefixed_by_any(x, f),
        None => false,
    }
}

/// The enable flag that the override of `f` sets, if any.
pub open spec fn override_enable(specs: Seq<(Seq<char>, SpecifierSettingsView)>, f: Seq<char>) -> Option<
    bool,
> {
    match override_of(specs, f) {
        Some(s) => s.enable,
        None => None,
    }
}

/// Whether the server acts on file `f`, in order of precedence: an
/// allow-list of the first workspace root that is a prefix of `f`; an
/// excluded path; the file's own enable flag; the workspace enable flag;
/// and last whether a project configuration file is bound.
pub open spec fn enabled_by_rules(
    index: Seq<(Seq<char>, Seq<Seq<char>>)>,
    excluded_paths: Option<Seq<Seq<char>>>,
    specs: Seq<(Seq<char>, SpecifierSettingsView)>,
    workspace_enable: Option<bool>,
    has_config_file: bool,
    f: Seq<char>,
) -> bool {
    match root_match(index, f) {
        Some(paths) => prefixed_by_any(paths, f),
        None => if excluded(excluded_paths, f) {
            false
        } else {
            match override_enable(specs, f) {
                Some(b) => b,
                None => match workspace_enable {
                    Some(b) => b,
                    None => has_config_file,
                },
            }
        },
    }
}

/// The excluded paths behind an optional reference, as texts.
pub open spec fn excluded_view(e: Option<&Vec<String>>) -> Option<Seq<Seq<char>>> {
    match e {
        Some(v) => Some(views(v@)),
        None => None,
    }
}

/// Whether some path of the list is a prefix of `f`.
pub fn any_prefix_of(paths: &Vec<String>, f: &str) -> (r: bool)
    ensures
        r == prefixed_by_any(views(paths@), f@),
{
    let n = paths.len();
    let mut i: usize = 0;
    while i < n
        invariant
            n == paths@.len(),
            0 <= i <= n,
            forall|j: int| 0 <= j < i ==> !is_prefix(paths@[j]@, f@),
        decreases n - i,
    {
        if starts_with(f, paths[i].as_str()) {
            assert(views(paths@)[i as int] == paths@[i as int]@);
            return true;
        }
        i = i + 1;
    }
    assert(forall|j: int| 0 <= j < n ==> views(paths@)[j] == paths@[j]@);
    false
}

/// The enabled sub-paths of the first workspace root that is a prefix of `f`.
pub fn find_root<'a>(index: &'a Vec<(String, Vec<String>)>, f: &str) -> (r: Option<&'a Vec<String>>)
    ensures
        match r {
            Some(p) => root_match(index_view(index@), f@) == Some(views(p@)),
            None => root_match(index_view(index@), f@) is None,
        },
{
    let n = index.len();
    let mut i: usize = 0;
    let ghost iv = index_view(index@);
    assert(iv.subrange(0, n as int) =~= iv);
    while i < n
        invariant
            n == index@.len(),
            iv == index_view(index@),
            0 <= i <= n,
            root_match(iv, f@) == root_match(iv.subrange(i as int, n as int), f@),
        decreases n - i,
    {
        assert(iv.subrange(i as int, n as int).drop_first() =~= iv.subrange(i as int + 1, n as int));
        if starts_with(f, index[i].0.as_str()) {
            return Some(&index[i].1);
        }
        i = i + 1;
    }
    None
}

/// The override stored for file `f`.
pub fn find_override<'a>(specs: &'a Vec<(String, SpecifierSettings)>, f: &str) -> (r: Option<
    &'a SpecifierSettings,
>)
    ensures
        match r {
            Some(s) => override_of(specs_view(specs@), f@) == Some(s@),
            None => override_of(specs_view(specs@), f@) is None,
        },
{
    let wanted = f.to_owned();
    let n = specs.len();
    let mut i: usize = 0;
    let ghost sv = specs_view(specs@);
    assert(sv.subrange(0, n as int) =~= sv);
    while i < n
        invariant
            n == specs@.len(),
            sv == specs_view(specs@),
            0 <= i <= n,
            wanted@ == f@,
            override_of(sv, f@) == override_of(sv.subrange(i as int, n as int), f@),
        decreases n - i,
    {
        assert(sv.subrange(i as int, n as int).drop_first() =~= sv.subrange(i as int + 1, n as int));
        if specs[i].0 == wanted {
            return Some(&specs[i].1);
        }
        i = i + 1;
    }
    None
}

/// Decides whether the server acts on `specifier`, from the enabled-paths
/// index, the excluded paths of a bound configuration file, the settings and
/// whether a configuration file is bound.
pub fn specifier_enabled(
    enabled_paths: &Vec<(String, Vec<String>)>,
    excluded_paths: Option<&Vec<String>>,
    settings: &Settings,
    workspace_has_config_file: bool,
    specifier: &str,
) -> (r: bool)
    ensures
        r == enabled_by_rules(
            index_view(enabled_paths@),
            excluded_view(excluded_paths),
            specs_view(settings.specifiers@),
            settings.workspace.enable,
            workspace_has_config_file,
            specifier@,
        ),
{
    if let Some(paths) = find_root(enabled_paths, specifier) {
        return any_prefix_of(paths, specifier);
    }
    if let Some(excluded) = excluded_paths {
        if any_prefix_of(excluded, specifier) {
            return false;
        }
    }
    let own = match find_override(&settings.specifiers, specifier) {
        Some(s) => s.enable,
        None => None,
    };
    match own {
        Some(b) => b,
        None => match settings.workspace.enable {
            Some(b) => b,
            None => workspace_has_config_file,
        },
    }
}

} // verus!

//! Reading workspace settings out of a JSON document: one default per key,
//! empty strings read as unset, and an error that names the first key whose
//! value has the wrong shape.
use vstd::prelude::*;
use crate::json::{JsonValue, deref_opt, find_member, get_member, lookup, member};
use crate::settings::{
    CodeLensSettings, CompletionSettings, InlayHintsEnumMemberValuesOptions,
    InlayHintsFuncLikeReturnTypesOptions, InlayHintsParamNamesEnabled, InlayHintsParamNamesOptions,
    InlayHintsParamTypesOptions, InlayHintsPropDeclTypesOptions, InlayHintsSettings,
    InlayHintsVarTypesOptions, ImportCompletionSettings, TestingSettings, WorkspaceSettings,
    default_document_preload_limit, default_test_args,
};
use crate::text::{views, opt_view};

verus! {

/// The settings document could not be read; `field` is the top-level key
/// whose value has the wrong shape, or empty when the document is not an
/// object.
#[derive(Debug, Clone, PartialEq, Eq)]
pub struct DeserializationError {
    pub field: String,
}

/// A tri-state switch: absent or null is unset. `None` when malformed.
pub open spec fn opt_bool_of(m: Option<JsonValue>) -> Option<Option<bool>> {
    match m {
        None => Some(None),
        Some(JsonValue::Null) => Some(None),
        Some(JsonValue::Bool(b)) => Some(Some(b)),
        _ => None,
    }
}

/// A switch with a default when absent. `None` when malformed.
pub open spec fn bool_of(m: Option<JsonValue>, default: bool) -> Option<bool> {
    match m {
        None => Some(default),
        Some(JsonValue::Bool(b)) => Some(b),
        _ => None,
    }
}

/// An optional path: absent, null or empty is unset. `None` when malformed.
pub open spec fn opt_text_of(m: Option<JsonValue>) -> Option<Option<Seq<char>>> {
    match m {
        None => Some(None),
        Some(JsonValue::Null) => Some(None),
        Some(JsonValue::Str(s)) => if s@.len() == 0 {
            Some(None)
        } else {
            Some(Some(s@))
        },
        _ => None,
    }
}

/// Every element of the array is a string.
pub open spec fn all_strings(items: Seq<JsonValue>) -> bool {
    forall|i: int| 0 <= i < items.len() ==> items[i] is Str
}

/// The text of a string value.
pub open spec fn text_at(v: JsonValue) -> Seq<char> {
    match v {
        JsonValue::Str(s) => s@,
        _ => Seq::empty(),
    }
}

/// An array of strings, read as its texts. `None` when malformed.
pub open spec fn strings_of(v: JsonValue) -> Option<Seq<Seq<char>>> {
    match v {
        JsonValue::Array(items) => if all_strings(items@) {
            Some(items@.map_values(|x: JsonValue| text_at(x)))
        } else {
            None
        },
        _ => None,
    }
}

/// A list of strings that defaults to empty when absent.
pub open spec fn text_list_of(m: Option<JsonValue>) -> Option<Seq<Seq<char>>> {
    match m {
        None => Some(Seq::empty()),
        Some(v) => strings_of(v),
    }
}

/// An optional list of strings: absent or null is unset.
pub open spec fn opt_text_list_of(m: Option<JsonValue>) -> Option<Option<Seq<Seq<char>>>> {
    match m {
        None => Some(None),
        Some(JsonValue::Null) => Some(None),
        Some(v) => match strings_of(v) {
            Some(t) => Some(Some(t)),
            None => None,
        },
    }
}

/// A count with a default when absent; it must be a non-negative integer
/// that fits the machine word.
pub open spec fn count_of(m: Option<JsonValue>, default: usize) -> Option<usize> {
    match m {
        None => Some(default),
        Some(JsonValue::UInt(n)) => if n <= usize::MAX {
            Some(n as usize)
        } else {
            None
        },
        _ => None,
    }
}

/// A nested settings object: absent reads as all defaults; anything but an
/// object is malformed.
pub open spec fn section_of(m: Option<JsonValue>) -> Option<Seq<(String, JsonValue)>> {
    match m {
        None => Some(Seq::empty()),
        Some(JsonValue::Object(members)) => Some(members@),
        _ => None,
    }
}

/// How a section reads as code lens settings.
pub open spec fn code_lens_of(m: Option<JsonValue>) -> Option<CodeLensSettings> {
    match section_of(m) {
        None => None,
        Some(o) => match (
            bool_of(lookup(o, "implementations"@), false),
            bool_of(lookup(o, "references"@), false),
            bool_of(lookup(o, "referencesAllFunctions"@), false),
            bool_of(lookup(o, "test"@), true),
        ) {
            (Some(a), Some(b), Some(c), Some(d)) => Some(
                CodeLensSettings {
                    implementations: a,
                    references: b,
                    references_all_functions: c,
                    test: d,
                },
            ),
            _ => None,
        },
    }
}

/// An `enabled` switch in a hint section.
pub open spec fn hint_switch_of(m: Option<JsonValue>) -> Option<bool> {
    match section_of(m) {
        None => None,
        Some(o) => bool_of(lookup(o, "enabled"@), false),
    }
}

/// Which arguments parameter-name hints cover.
pub open spec fn param_names_mode_of(m: Option<JsonValue>) -> Option<InlayHintsParamNamesEnabled> {
    match m {
        None => Some(InlayHintsParamNamesEnabled::Off),
        Some(JsonValue::Str(s)) => if s@ == "none"@ {
            Some(InlayHintsParamNamesEnabled::Off)
        } else if s@ == "literals"@ {
            Some(InlayHintsParamNamesEnabled::Literals)
        } else if s@ == "all"@ {
            Some(InlayHintsParamNamesEnabled::All)
        } else {
            None
        },
        _ => None,
    }
}

/// How a section reads as parameter-name hint options.
pub open spec fn param_names_of(m: Option<JsonValue>) -> Option<InlayHintsParamNamesOptions> {
    match section_of(m) {
        None => None,
        Some(o) => match (
            param_names_mode_of(lookup(o, "enabled"@)),
            bool_of(lookup(o, "suppressWhenArgumentMatchesName"@), true),
        ) {
            (Some(e), Some(s)) => Some(
                InlayHintsParamNamesOptions { enabled: e, suppress_when_argument_matches_name: s },
            ),
            _ => None,
        },
    }
}

/// How a section reads as variable-type hint options.
pub open spec fn var_types_of(m: Option<JsonValue>) -> Option<InlayHintsVarTypesOptions> {
    match section_of(m) {
        None => None,
        Some(o) => match (
            bool_of(lookup(o, "enabled"@), false),
            bool_of(lookup(o, "suppressWhenTypeMatchesName"@), true),
        ) {
            (Some(e), Some(s)) => Some(
                InlayHintsVarTypesOptions { enabled: e, suppress_when_type_matches_name: s },
            ),
            _ => None,
        },
    }
}

/// How a section reads as inlay hint settings.
pub open spec fn inlay_hints_of(m: Option<JsonValue>) -> Option<InlayHintsSettings> {
    match section_of(m) {
        None => None,
        Some(o) => match (
            param_names_of(lookup(o, "parameterNames"@)),
            hint_switch_of(lookup(o, "parameterTypes"@)),
            var_types_of(lookup(o, "variableTypes"@)),
            hint_switch_of(lookup(o, "propertyDeclarationTypes"@)),
            hint_switch_of(lookup(o, "functionLikeReturnTypes"@)),
            hint_switch_of(lookup(o, "enumMemberValues"@)),
        ) {
            (Some(a), Some(b), Some(c), Some(d), Some(e), Some(f)) => Some(
                InlayHintsSettings {
                    parameter_names: a,
                    parameter_types: InlayHintsParamTypesOptions { enabled: b },
                    variable_types: c,
                    property_declaration_types: InlayHintsPropDeclTypesOptions { enabled: d },
                    function_like_return_types: InlayHintsFuncLikeReturnTypesOptions {
                        enabled: e,
                    },
                    enum_member_values: InlayHintsEnumMemberValuesOptions { enabled: f },
                },
            ),
            _ => None,
        },
    }
}

/// Every member of the object holds a boolean.
pub open spec fn all_bools(members: Seq<(String, JsonValue)>) -> bool {
    forall|i: int| 0 <= i < members.len() ==> members[i].1 is Bool
}

/// The boolean of a boolean value.
pub open spec fn bool_at(v: JsonValue) -> bool {
    match v {
        JsonValue::Bool(b) => b,
        _ => false,
    }
}

/// A map from origin to switch, read as its members in order.
pub open spec fn hosts_of(m: Option<JsonValue>) -> Option<Seq<(Seq<char>, bool)>> {
    match m {
        None => Some(Seq::empty()),
        Some(JsonValue::Object(members)) => if all_bools(members@) {
            Some(members@.map_values(|p: (String, JsonValue)| (p.0@, bool_at(p.1))))
        } else {
            None
        },
        _ => None,
    }
}

/// The origins and switches of an import-suggestion host list.
pub open spec fn host_views(h: Seq<(String, bool)>) -> Seq<(Seq<char>, bool)> {
    h.map_values(|p: (String, bool)| (p.0@, p.1))
}

/// `c` is what a section reads as completion settings; false when the
/// section is malformed.
pub open spec fn completion_reads_as(m: Option<JsonValue>, c: CompletionSettings) -> bool {
    match section_of(m) {
        None => false,
        Some(o) => {
            &&& bool_of(lookup(o, "completeFunctionCalls"@), false) == Some(c.complete_function_calls)
            &&& bool_of(lookup(o, "names"@), true) == Some(c.names)
            &&& bool_of(lookup(o, "paths"@), true) == Some(c.paths)
            &&& bool_of(lookup(o, "autoImports"@), true) == Some(c.auto_imports)
            &&& match section_of(lookup(o, "imports"@)) {
                None => false,
                Some(i) => {
                    &&& bool_of(lookup(i, "autoDiscover"@), true) == Some(c.imports.auto_discover)
                    &&& hosts_of(lookup(i, "hosts"@)) == Some(host_views(c.imports.hosts@))
                },
            }
        },
    }
}

/// The completion section is well shaped.
pub open spec fn completion_ok(m: Option<JsonValue>) -> bool {
    match section_of(m) {
        None => false,
        Some(o) => {
            &&& bool_of(lookup(o, "completeFunctionCalls"@), false) is Some
            &&& bool_of(lookup(o, "names"@), true) is Some
            &&& bool_of(lookup(o, "paths"@), true) is Some
            &&& bool_of(lookup(o, "autoImports"@), true) is Some
            &&& match section_of(lookup(o, "imports"@)) {
                None => false,
                Some(i) => {
                    &&& bool_of(lookup(i, "autoDiscover"@), true) is Some
                    &&& hosts_of(lookup(i, "hosts"@)) is Some
                },
            }
        },
    }
}

/// The testing section: `args` defaults to `--allow-all --no-check` when
/// the section is absent, and to empty when only the key is.
pub open spec fn test_args_of(m: Option<JsonValue>) -> Option<Seq<Seq<char>>> {
    match m {
        None => Some(default_test_args()),
        Some(JsonValue::Object(members)) => text_list_of(lookup(members@, "args"@)),
        _ => None,
    }
}

/// The top-level keys, in the order in which they are checked.
pub open spec fn key_is_ok(d: JsonValue, k: int) -> bool {
    if k == 0 {
        opt_bool_of(member(d, "enable"@)) is Some
    } else if k == 1 {
        text_list_of(member(d, "enablePaths"@)) is Some
    } else if k == 2 {
        opt_text_of(member(d, "cache"@)) is Some
    } else if k == 3 {
        opt_text_list_of(member(d, "certificateStores"@)) is Some
    } else if k == 4 {
        opt_text_of(member(d, "config"@)) is Some
    } else if k == 5 {
        opt_text_of(member(d, "importMap"@)) is Some
    } else if k == 6 {
        code_lens_of(member(d, "codeLens"@)) is Some
    } else if k == 7 {
        inlay_hints_of(member(d, "inlayHints"@)) is Some
    } else if k == 8 {
        bool_of(member(d, "internalDebug"@), false) is Some
    } else if k == 9 {
        bool_of(member(d, "lint"@), true) is Some
    } else if k == 10 {
        count_of(member(d, "documentPreloadLimit"@), 1000) is Some
    } else if k == 11 {
        completion_ok(member(d, "suggest"@))
    } else if k == 12 {
        test_args_of(member(d, "testing"@)) is Some
    } else if k == 13 {
        opt_text_of(member(d, "tlsCertificate"@)) is Some
    } else if k == 14 {
        opt_text_list_of(member(d, "unsafelyIgnoreCertificateErrors"@)) is Some
    } else {
        bool_of(member(d, "unstable"@), false) is Some
    }
}

/// The name of the `k`-th top-level key.
pub open spec fn key_name(k: int) -> Seq<char> {
    if k == 0 {
        "enable"@
    } else if k == 1 {
        "enablePaths"@
    } else if k == 2 {
        "cache"@
    } else if k == 3 {
        "certificateStores"@
    } else if k == 4 {
        "config"@
    } else if k == 5 {
        "importMap"@
    } else if k == 6 {
        "codeLens"@
    } else if k == 7 {
        "inlayHints"@
    } else if k == 8 {
        "internalDebug"@
    } else if k == 9 {
        "lint"@
    } else if k == 10 {
        "documentPreloadLimit"@
    } else if k == 11 {
        "suggest"@
    } else if k == 12 {
        "testing"@
    } else if k == 13 {
        "tlsCertificate"@
    } else if k == 14 {
        "unsafelyIgnoreCertificateErrors"@
    } else {
        "unstable"@
    }
}

/// The number of top-level keys.
pub open spec fn key_count() -> int {
    16
}

/// The first `k` top-level keys all hold well-shaped values.
pub open spec fn ok_below(d: JsonValue, k: int) -> bool
    decreases k,
{
    if k <= 0 {
        true
    } else {
        ok_below(d, k - 1) && key_is_ok(d, k - 1)
    }
}

/// A key below a well-shaped prefix is well shaped.
pub proof fn lemma_ok_below(d: JsonValue, n: int, k: int)
    requires
        0 <= k < n,
    ensures
        ok_below(d, n) ==> key_is_ok(d, k),
    decreases n,
{
    if k < n - 1 {
        lemma_ok_below(d, n - 1, k);
    }
}

/// The document is an object whose known keys all hold well-shaped values.
pub open spec fn document_ok(d: JsonValue) -> bool {
    &&& d is Object
    &&& ok_below(d, key_count())
}

/// The name reported for a malformed document: empty when it is not an
/// object, else the first key whose value has the wrong shape.
pub open spec fn reported_key(d: JsonValue, name: Seq<char>) -> bool {
    if !(d is Object) {
        name.len() == 0
    } else {
        exists|k: int|
            0 <= k < key_count() && ok_below(d, k) && !key_is_ok(d, k) && name == key_name(k)
    }
}

/// `w` is what a well-shaped document reads as: every key as its value
/// says, every absent key at its default.
pub open spec fn reads_as(d: JsonValue, w: WorkspaceSettings) -> bool {
    &&& opt_bool_of(member(d, "enable"@)) == Some(w.enable)
    &&& text_list_of(member(d, "enablePaths"@)) == Some(views(w.enable_paths@))
    &&& opt_text_of(member(d, "cache"@)) == Some(opt_view(w.cache))
    &&& opt_text_list_of(member(d, "certificateStores"@)) == Some(opt_views(w.certificate_stores))
    &&& opt_text_of(member(d, "config"@)) == Some(opt_view(w.config))
    &&& opt_text_of(member(d, "importMap"@)) == Some(opt_view(w.import_map))
    &&& code_lens_of(member(d, "codeLens"@)) == Some(w.code_lens)
    &&& inlay_hints_of(member(d, "inlayHints"@)) == Some(w.inlay_hints)
    &&& bool_of(member(d, "internalDebug"@), false) == Some(w.internal_debug)
    &&& bool_of(member(d, "lint"@), true) == Some(w.lint)
    &&& count_of(member(d, "documentPreloadLimit"@), 1000) == Some(w.document_preload_limit)
    &&& completion_reads_as(member(d, "suggest"@), w.suggest)
    &&& test_args_of(member(d, "testing"@)) == Some(views(w.testing.args@))
    &&& opt_text_of(member(d, "tlsCertificate"@)) == Some(opt_view(w.tls_certificate))
    &&& opt_text_list_of(member(d, "unsafelyIgnoreCertificateErrors"@)) == Some(
        opt_views(w.unsafely_ignore_certificate_errors),
    )
    &&& bool_of(member(d, "unstable"@), false) == Some(w.unstable)
}

/// The texts of an optional list of strings.
pub open spec fn opt_views(o: Option<Vec<String>>) -> Option<Seq<Seq<char>>> {
    match o {
        Some(v) => Some(views(v@)),
        None => None,
    }
}


/// The members of an optional section; an absent section has none.
pub open spec fn section_view(o: Option<&Vec<(String, JsonValue)>>) -> Seq<(String, JsonValue)> {
    match o {
        Some(v) => v@,
        None => Seq::empty(),
    }
}

fn read_opt_bool(m: Option<&JsonValue>) -> (r: Option<Option<bool>>)
    ensures
        r == opt_bool_of(deref_opt(m)),
{
    match m {
        None => Some(None),
        Some(JsonValue::Null) => Some(None),
        Some(JsonValue::Bool(b)) => Some(Some(*b)),
        _ => None,
    }
}

fn read_bool(m: Option<&JsonValue>, default: bool) -> (r: Option<bool>)
    ensures
        r == bool_of(deref_opt(m), default),
{
    match m {
        None => Some(default),
        Some(JsonValue::Bool(b)) => Some(*b),
        _ => None,
    }
}

fn read_opt_text(m: Option<&JsonValue>) -> (r: Option<Option<String>>)
    ensures
        match r {
            Some(o) => opt_text_of(deref_opt(m)) == Some(opt_view(o)),
            None => opt_text_of(deref_opt(m)) is None,
        },
{
    match m {
        None => Some(None),
        Some(JsonValue::Null) => Some(None),
        Some(JsonValue::Str(s)) => {
            if s.as_str().is_empty() {
                Some(None)
            } else {
                Some(Some(s.clone()))
            }
        },
        _ => None,
    }
}

fn read_strings(v: &JsonValue) -> (r: Option<Vec<String>>)
    ensures
        match r {
            Some(l) => strings_of(*v) == Some(views(l@)),
            None => strings_of(*v) is None,
        },
{
    match v {
        JsonValue::Array(items) => {
            let n = items.len();
            let mut out: Vec<String> = Vec::new();
            let mut i: usize = 0;
            while i < n
                invariant
                    n == items@.len(),
                    *v == JsonValue::Array(*items),
                    0 <= i <= n,
                    out@.len() == i,
                    forall|j: int| 0 <= j < i ==> items@[j] is Str,
                    forall|j: int| 0 <= j < i ==> out@[j]@ == text_at(items@[j]),
                decreases n - i,
            {
                match &items[i] {
                    JsonValue::Str(s) => {
                        out.push(s.clone());
                    },
                    _ => {
                        assert(!(items@[i as int] is Str));
                        assert(!all_strings(items@));
                        return None;
                    },
                }
                i = i + 1;
            }
            assert(views(out@) =~= items@.map_values(|x: JsonValue| text_at(x)));
            Some(out)
        },
        _ => None,
    }
}

fn read_text_list(m: Option<&JsonValue>) -> (r: Option<Vec<String>>)
    ensures
        match r {
            Some(l) => text_list_of(deref_opt(m)) == Some(views(l@)),
            None => text_list_of(deref_opt(m)) is None,
        },
{
    match m {
        None => {
            let out: Vec<String> = Vec::new();
            assert(views(out@) =~= Seq::empty());
            Some(out)
        },
        Some(v) => read_strings(v),
    }
}

fn read_opt_text_list(m: Option<&JsonValue>) -> (r: Option<Option<Vec<String>>>)
    ensures
        match r {
            Some(o) => opt_text_list_of(deref_opt(m)) == Some(opt_views(o)),
            None => opt_text_list_of(deref_opt(m)) is None,
        },
{
    match m {
        None => Some(None),
        Some(JsonValue::Null) => Some(None),
        Some(v) => match read_strings(v) {
            Some(l) => Some(Some(l)),
            None => None,
        },
    }
}

fn read_count(m: Option<&JsonValue>, default: usize) -> (r: Option<usize>)
    ensures
        r == count_of(deref_opt(m), default),
{
    match m {
        None => Some(default),
        Some(JsonValue::UInt(n)) => {
            if *n <= usize::MAX as u64 {
                Some(*n as usize)
            } else {
                None
            }
        },
        _ => None,
    }
}

/// Opens a nested section: `Err` when it is neither absent nor an object.
fn open_section<'a>(m: Option<&'a JsonValue>) -> (r: Result<Option<&'a Vec<(String, JsonValue)>>, ()>)
    ensures
        match r {
            Ok(o) => section_of(deref_opt(m)) == Some(section_view(o)),
            Err(_) => section_of(deref_opt(m)) is None,
        },
{
    match m {
        None => Ok(None),
        Some(JsonValue::Object(members)) => Ok(Some(members)),
        _ => Err(()),
    }
}

fn section_get<'a>(o: Option<&'a Vec<(String, JsonValue)>>, key: &str) -> (r: Option<&'a JsonValue>)
    ensures
        deref_opt(r) == lookup(section_view(o), key@),
{
    match o {
        None => None,
        Some(members) => find_member(members, key),
    }
}

fn read_code_lens(m: Option<&JsonValue>) -> (r: Option<CodeLensSettings>)
    ensures
        r == code_lens_of(deref_opt(m)),
{
    let o = match open_section(m) {
        Ok(o) => o,
        Err(_) => return None,
    };
    let a = read_bool(section_get(o, "implementations"), false);
    let b = read_bool(section_get(o, "references"), false);
    let c = read_bool(section_get(o, "referencesAllFunctions"), false);
    let d = read_bool(section_get(o, "test"), true);
    match (a, b, c, d) {
        (Some(a), Some(b), Some(c), Some(d)) => Some(
            CodeLensSettings { implementations: a, references: b, references_all_functions: c, test: d },
        ),
        _ => None,
    }
}

fn read_hint_switch(m: Option<&JsonValue>) -> (r: Option<bool>)
    ensures
        r == hint_switch_of(deref_opt(m)),
{
    match open_section(m) {
        Ok(o) => read_bool(section_get(o, "enabled"), false),
        Err(_) => None,
    }
}

fn read_param_names_mode(m: Option<&JsonValue>) -> (r: Option<InlayHintsParamNamesEnabled>)
    ensures
        r == param_names_mode_of(deref_opt(m)),
{
    match m {
        None => Some(InlayHintsParamNamesEnabled::Off),
        Some(JsonValue::Str(s)) => {
            let none = "none".to_owned();
            let literals = "literals".to_owned();
            let all = "all".to_owned();
            if *s == none {
                Some(InlayHintsParamNamesEnabled::Off)
            } else if *s == literals {
                Some(InlayHintsParamNamesEnabled::Literals)
            } else if *s == all {
                Some(InlayHintsParamNamesEnabled::All)
            } else {
                None
            }
        },
        _ => None,
    }
}

fn read_param_names(m: Option<&JsonValue>) -> (r: Option<InlayHintsParamNamesOptions>)
    ensures
        r == param_names_of(deref_opt(m)),
{
    let o = match open_section(m) {
        Ok(o) => o,
        Err(_) => return None,
    };
    let e = read_param_names_mode(section_get(o, "enabled"));
    let s = read_bool(section_get(o, "suppressWhenArgumentMatchesName"), true);
    match (e, s) {
        (Some(e), Some(s)) => Some(
            InlayHintsParamNamesOptions { enabled: e, suppress_when_argument_matches_name: s },
        ),
        _ => None,
    }
}

fn read_var_types(m: Option<&JsonValue>) -> (r: Option<InlayHintsVarTypesOptions>)
    ensures
        r == var_types_of(deref_opt(m)),
{
    let o = match open_section(m) {
        Ok(o) => o,
        Err(_) => return None,
    };
    let e = read_bool(section_get(o, "enabled"), false);
    let s = read_bool(section_get(o, "suppressWhenTypeMatchesName"), true);
    match (e, s) {
        (Some(e), Some(s)) => Some(
            InlayHintsVarTypesOptions { enabled: e, suppress_when_type_matches_name: s },
        ),
        _ => None,
    }
}

fn read_inlay_hints(m: Option<&JsonValue>) -> (r: Option<InlayHintsSettings>)
    ensures
        r == inlay_hints_of(deref_opt(m)),
{
    let o = match open_section(m) {
        Ok(o) => o,
        Err(_) => return None,
    };
    let a = read_param_names(section_get(o, "parameterNames"));
    let b = read_hint_switch(section_get(o, "parameterTypes"));
    let c = read_var_types(section_get(o, "variableTypes"));
    let d = read_hint_switch(section_get(o, "propertyDeclarationTypes"));
    let e = read_hint_switch(section_get(o, "functionLikeReturnTypes"));
    let f = read_hint_switch(section_get(o, "enumMemberValues"));
    match (a, b, c, d, e, f) {
        (Some(a), Some(b), Some(c), Some(d), Some(e), Some(f)) => Some(
            InlayHintsSettings {
                parameter_names: a,
                parameter_types: InlayHintsParamTypesOptions { enabled: b },
                variable_types: c,
                property_declaration_types: InlayHintsPropDeclTypesOptions { enabled: d },
                function_like_return_types: InlayHintsFuncLikeReturnTypesOptions { enabled: e },
                enum_member_values: InlayHintsEnumMemberValuesOptions { enabled: f },
            },
        ),
        _ => None,
    }
}

fn read_hosts(m: Option<&JsonValue>) -> (r: Option<Vec<(String, bool)>>)
    ensures
        match r {
            Some(h) => hosts_of(deref_opt(m)) == Some(host_views(h@)),
            None => hosts_of(deref_opt(m)) is None,
        },
{
    match m {
        None => {
            let out: Vec<(String, bool)> = Vec::new();
            assert(host_views(out@) =~= Seq::empty());
            Some(out)
        },
        Some(JsonValue::Object(members)) => {
            let n = members.len();
            let mut out: Vec<(String, bool)> = Vec::new();
            let mut i: usize = 0;
            while i < n
                invariant
                    n == members@.len(),
                    deref_opt(m) == Some(JsonValue::Object(*members)),
                    0 <= i <= n,
                    out@.len() == i,
                    forall|j: int| 0 <= j < i ==> members@[j].1 is Bool,
                    forall|j: int|
                        0 <= j < i ==> out@[j].0@ == members@[j].0@ && out@[j].1 == bool_at(
                            members@[j].1,
                        ),
                decreases n - i,
            {
                match &members[i].1 {
                    JsonValue::Bool(b) => {
                        out.push((members[i].0.clone(), *b));
                    },
                    _ => {
                        assert(!(members@[i as int].1 is Bool));
                        assert(!all_bools(members@));
                        return None;
                    },
                }
                i = i + 1;
            }
            assert(host_views(out@) =~= members@.map_values(
                |p: (String, JsonValue)| (p.0@, bool_at(p.1)),
            ));
            Some(out)
        },
        _ => None,
    }
}

fn read_completion(m: Option<&JsonValue>) -> (r: Option<CompletionSettings>)
    ensures
        match r {
            Some(c) => completion_reads_as(deref_opt(m), c),
            None => !completion_ok(deref_opt(m)),
        },
{
    let o = match open_section(m) {
        Ok(o) => o,
        Err(_) => return None,
    };
    let a = read_bool(section_get(o, "completeFunctionCalls"), false);
    let b = read_bool(section_get(o, "names"), true);
    let c = read_bool(section_get(o, "paths"), true);
    let d = read_bool(section_get(o, "autoImports"), true);
    let i = match open_section(section_get(o, "imports")) {
        Ok(i) => i,
        Err(_) => return None,
    };
    let e = read_bool(section_get(i, "autoDiscover"), true);
    let f = read_hosts(section_get(i, "hosts"));
    match (a, b, c, d, e, f) {
        (Some(a), Some(b), Some(c), Some(d), Some(e), Some(f)) => Some(
            CompletionSettings {
                complete_function_calls: a,
                names: b,
                paths: c,
                auto_imports: d,
                imports: ImportCompletionSettings { auto_discover: e, hosts: f },
            },
        ),
        _ => None,
    }
}

fn read_test_args(m: Option<&JsonValue>) -> (r: Option<Vec<String>>)
    ensures
        match r {
            Some(l) => test_args_of(deref_opt(m)) == Some(views(l@)),
            None => test_args_of(deref_opt(m)) is None,
        },
{
    match m {
        None => Some(TestingSettings::default().args),
        Some(JsonValue::Object(members)) => read_text_list(find_member(members, "args")),
        _ => None,
    }
}

fn malformed(name: &str) -> (e: DeserializationError)
    ensures
        e.field@ == name@,
{
    DeserializationError { field: name.to_owned() }
}

/// Reads workspace settings out of a settings document. Every key that is
/// absent takes its default, empty paths read as unset, unknown keys are
/// ignored; the result is an error exactly when the document is not an
/// object or a known key holds a value of the wrong shape, and the error
/// names the first such key.
pub fn workspace_settings_from_json(d: &JsonValue) -> (r: Result<
    WorkspaceSettings,
    DeserializationError,
>)
    ensures
        r is Ok <==> document_ok(*d),
        match r {
            Ok(w) => reads_as(*d, w),
            Err(e) => reported_key(*d, e.field@),
        },
{
    if !(match d {
        JsonValue::Object(_) => true,
        _ => false,
    }) {
        proof {
            reveal_strlit("");
        }
        return Err(malformed(""));
    }
    assert(ok_below(*d, 0));
    let enable = match read_opt_bool(get_member(d, "enable")) {
        Some(x) => x,
        None => {
            proof {
                lemma_ok_below(*d, key_count(), 0);
            }
            assert(ok_below(*d, 0) && !key_is_ok(*d, 0) && key_name(0) == "enable"@);
            return Err(malformed("enable"));
        },
    };
    assert(ok_below(*d, 1));
    let enable_paths = match read_text_list(get_member(d, "enablePaths")) {
        Some(x) => x,
        None => {
            proof {
                lemma_ok_below(*d, key_count(), 1);
            }
            assert(ok_below(*d, 1) && !key_is_ok(*d, 1) && key_name(1) == "enablePaths"@);
            return Err(malformed("enablePaths"));
        },
    };
    assert(ok_below(*d, 2));
    let cache = match read_opt_text(get_member(d, "cache")) {
        Some(x) => x,
        None => {
            proof {
                lemma_ok_below(*d, key_count(), 2);
            }
            assert(ok_below(*d, 2) && !key_is_ok(*d, 2) && key_name(2) == "cache"@);
            return Err(malformed("cache"));
        },
    };
    assert(ok_below(*d, 3));
    let certificate_stores = match read_opt_text_list(get_member(d, "certificateStores")) {
        Some(x) => x,
        None => {
            proof {
                lemma_ok_below(*d, key_count(), 3);
            }
            assert(ok_below(*d, 3) && !key_is_ok(*d, 3) && key_name(3) == "certificateStores"@);
            return Err(malformed("certificateStores"));
        },
    };
    assert(ok_below(*d, 4));
    let config = match read_opt_text(get_member(d, "config")) {
        Some(x) => x,
        None => {
            proof {
                lemma_ok_below(*d, key_count(), 4);
            }
            assert(ok_below(*d, 4) && !key_is_ok(*d, 4) && key_name(4) == "config"@);
            return Err(malformed("config"));
        },
    };
    assert(ok_below(*d, 5));
    let import_map = match read_opt_text(get_member(d, "importMap")) {
        Some(x) => x,
        None => {
            proof {
                lemma_ok_below(*d, key_count(), 5);
            }
            assert(ok_below(*d, 5) && !key_is_ok(*d, 5) && key_name(5) == "importMap"@);
            return Err(malformed("importMap"));
        },
    };
    assert(ok_below(*d, 6));
    let code_lens = match read_code_lens(get_member(d, "codeLens")) {
        Some(x) => x,
        None => {
            proof {
                lemma_ok_below(*d, key_count(), 6);
            }
            assert(ok_below(*d, 6) && !key_is_ok(*d, 6) && key_name(6) == "codeLens"@);
            return Err(malformed("codeLens"));
        },
    };
    assert(ok_below(*d, 7));
    let inlay_hints = match read_inlay_hints(get_member(d, "inlayHints")) {
        Some(x) => x,
        None => {
            proof {
                lemma_ok_below(*d, key_count(), 7);
            }
            assert(ok_below(*d, 7) && !key_is_ok(*d, 7) && key_name(7) == "inlayHints"@);
            return Err(malformed("inlayHints"));
        },
    };
    assert(ok_below(*d, 8));
    let internal_debug = match read_bool(get_member(d, "internalDebug"), false) {
        Some(x) => x,
        None => {
            proof {
                lemma_ok_below(*d, key_count(), 8);
            }
            assert(ok_below(*d, 8) && !key_is_ok(*d, 8) && key_name(8) == "internalDebug"@);
            return Err(malformed("internalDebug"));
        },
    };
    assert(ok_below(*d, 9));
    let lint = match read_bool(get_member(d, "lint"), true) {
        Some(x) => x,
        None => {
            proof {
                lemma_ok_below(*d, key_count(), 9);
            }
            assert(ok_below(*d, 9) && !key_is_ok(*d, 9) && key_name(9) == "lint"@);
            return Err(malformed("lint"));
        },
    };
    assert(ok_below(*d, 10));
    let document_preload_limit = match read_count(
        get_member(d, "documentPreloadLimit"),
        default_document_preload_limit(),
    ) {
        Some(x) => x,
        None => {
            proof {
                lemma_ok_below(*d, key_count(), 10);
            }
            assert(ok_below(*d, 10) && !key_is_ok(*d, 10) && key_name(10) == "documentPreloadLimit"@);
            return Err(malformed("documentPreloadLimit"));
        },
    };
    assert(ok_below(*d, 11));
    let suggest = match read_completion(get_member(d, "suggest")) {
        Some(x) => x,
        None => {
            proof {
                lemma_ok_below(*d, key_count(), 11);
            }
            assert(ok_below(*d, 11) && !key_is_ok(*d, 11) && key_name(11) == "suggest"@);
            return Err(malformed("suggest"));
        },
    };
    assert(ok_below(*d, 12));
    let args = match read_test_args(get_member(d, "testing")) {
        Some(x) => x,
        None => {
            proof {
                lemma_ok_below(*d, key_count(), 12);
            }
            assert(ok_below(*d, 12) && !key_is_ok(*d, 12) && key_name(12) == "testing"@);
            return Err(malformed("testing"));
        },
    };
    assert(ok_below(*d, 13));
    let tls_certificate = match read_opt_text(get_member(d, "tlsCertificate")) {
        Some(x) => x,
        None => {
            proof {
                lemma_ok_below(*d, key_count(), 13);
            }
            assert(ok_below(*d, 13) && !key_is_ok(*d, 13) && key_name(13) == "tlsCertificate"@);
            return Err(malformed("tlsCertificate"));
        },
    };
    assert(ok_below(*d, 14));
    let unsafely_ignore_certificate_errors = match read_opt_text_list(
        get_member(d, "unsafelyIgnoreCertificateErrors"),
    ) {
        Some(x) => x,
        None => {
            proof {
                lemma_ok_below(*d, key_count(), 14);
            }
            assert(ok_below(*d, 14) && !key_is_ok(*d, 14) && key_name(14) == "unsafelyIgnoreCertificateErrors"@);
            return Err(malformed("unsafelyIgnoreCertificateErrors"));
        },
    };
    assert(ok_below(*d, 15));
    let unstable = match read_bool(get_member(d, "unstable"), false) {
        Some(x) => x,
        None => {
            proof {
                lemma_ok_below(*d, key_count(), 15);
            }
            assert(ok_below(*d, 15) && !key_is_ok(*d, 15) && key_name(15) == "unstable"@);
            return Err(malformed("unstable"));
        },
    };
    assert(ok_below(*d, 16));
    assert(ok_below(*d, key_count()));
    Ok(
        WorkspaceSettings {
            enable,
            enable_paths,
            cache,
            certificate_stores,
            config,
            import_map,
            code_lens,
            inlay_hints,
            internal_debug,
            lint,
            document_preload_limit,
            suggest,
            testing: TestingSettings { args },
            tls_certificate,
            unsafely_ignore_certificate_errors,
            unstable,
        },
    )
}

} // verus!

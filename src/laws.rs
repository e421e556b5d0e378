//! Properties that relate the operations of the store, proved once for all
//! inputs.
use vstd::prelude::*;
use crate::config::{Config, ConfigFile, ConfigSnapshot, specs_with};
use crate::enablement::{
    enabled_by_rules, excluded, index_view, override_enable, override_of, prefixed_by_any,
    root_match, specs_view,
};
use crate::json::{JsonValue, member};
use crate::schema::{document_ok, key_is_ok, ok_below, opt_text_of, reads_as};
use crate::settings::{SpecifierSettingsView, WorkspaceSettings, is_default_workspace_settings};
use crate::text::views;

verus! {

/// When no allow-listed root lies above `f`, no exclusion matches it and it
/// has no enable flag of its own, the workspace flag decides: a workspace
/// enabled with `true` acts on `f`, one disabled with `false` does not.
pub proof fn lemma_workspace_flag_decides(
    index: Seq<(Seq<char>, Seq<Seq<char>>)>,
    excluded_paths: Option<Seq<Seq<char>>>,
    specs: Seq<(Seq<char>, SpecifierSettingsView)>,
    enable: bool,
    has_config_file: bool,
    f: Seq<char>,
)
    requires
        root_match(index, f) is None,
        !excluded(excluded_paths, f),
        override_enable(specs, f) is None,
    ensures
        enabled_by_rules(index, excluded_paths, specs, Some(enable), has_config_file, f) == enable,
{
}

/// A snapshot reports, for every file, the same enablement as the store it
/// was taken from at that moment. It is an owned copy, so later changes to
/// the store do not reach it.
pub proof fn lemma_snapshot_agrees(c: Config, s: ConfigSnapshot, f: Seq<char>)
    requires
        c.snapshot_of(s),
    ensures
        s.enabled_for(f) == c.enabled_for(f),
{
}

/// Under an allow-listed workspace root, only the listed sub-paths are
/// enabled, whatever the exclusions, per-file flags, workspace flag and
/// configuration file say.
pub proof fn lemma_allow_list_decides(
    index: Seq<(Seq<char>, Seq<Seq<char>>)>,
    excluded_paths: Option<Seq<Seq<char>>>,
    specs: Seq<(Seq<char>, SpecifierSettingsView)>,
    enable: Option<bool>,
    has_config_file: bool,
    f: Seq<char>,
    paths: Seq<Seq<char>>,
)
    requires
        root_match(index, f) == Some(paths),
    ensures
        enabled_by_rules(index, excluded_paths, specs, enable, has_config_file, f)
            == prefixed_by_any(paths, f),
{
}

/// An empty settings document is accepted, and yields the documented
/// default of every workspace setting.
pub proof fn lemma_empty_document_defaults(d: JsonValue, w: WorkspaceSettings)
    requires
        d matches JsonValue::Object(members) && members@.len() == 0,
    ensures
        document_ok(d),
        reads_as(d, w) ==> is_default_workspace_settings(w),
{
    assert(ok_below(d, 0));
    assert(ok_below(d, 1));
    assert(ok_below(d, 2));
    assert(ok_below(d, 3));
    assert(ok_below(d, 4));
    assert(ok_below(d, 5));
    assert(ok_below(d, 6));
    assert(ok_below(d, 7));
    assert(ok_below(d, 8));
    assert(ok_below(d, 9));
    assert(ok_below(d, 10));
    assert(ok_below(d, 11));
    assert(ok_below(d, 12));
    assert(ok_below(d, 13));
    assert(ok_below(d, 14));
    assert(ok_below(d, 15));
    assert(ok_below(d, 16));
    assert(w.enable_paths@.len() == views(w.enable_paths@).len());
    assert(w.suggest.imports.hosts@.len() == crate::schema::host_views(w.suggest.imports.hosts@).len());
}

/// An empty string for `cache`, `importMap`, `tlsCertificate` or `config`
/// reads exactly as if the key were left out.
pub proof fn lemma_empty_path_is_unset(d1: JsonValue, d2: JsonValue, key: Seq<char>)
    requires
        key == "cache"@ || key == "importMap"@ || key == "tlsCertificate"@ || key == "config"@,
        d1 is Object,
        d2 is Object,
        member(d1, key) matches Some(JsonValue::Str(s)) && s@.len() == 0,
        member(d2, key) is None,
        forall|k: Seq<char>| k != key ==> #[trigger] member(d1, k) == member(d2, k),
    ensures
        document_ok(d1) == document_ok(d2),
        forall|w: WorkspaceSettings| reads_as(d1, w) == reads_as(d2, w),
{
    reveal_strlit("enable");
    reveal_strlit("enablePaths");
    reveal_strlit("certificateStores");
    reveal_strlit("codeLens");
    reveal_strlit("inlayHints");
    reveal_strlit("internalDebug");
    reveal_strlit("lint");
    reveal_strlit("documentPreloadLimit");
    reveal_strlit("suggest");
    reveal_strlit("testing");
    reveal_strlit("unsafelyIgnoreCertificateErrors");
    reveal_strlit("unstable");
    reveal_strlit("cache");
    reveal_strlit("config");
    reveal_strlit("importMap");
    reveal_strlit("tlsCertificate");
    assert("enable"@ != "cache"@) by {
        assert("enable"@.len() != "cache"@.len());
    }
    assert("enable"@ != "config"@) by {
        assert("enable"@[0] != "config"@[0]);
    }
    assert("enable"@ != "importMap"@) by {
        assert("enable"@.len() != "importMap"@.len());
    }
    assert("enable"@ != "tlsCertificate"@) by {
        assert("enable"@.len() != "tlsCertificate"@.len());
    }
    assert("enablePaths"@ != "cache"@) by {
        assert("enablePaths"@.len() != "cache"@.len());
    }
    assert("enablePaths"@ != "config"@) by {
        assert("enablePaths"@.len() != "config"@.len());
    }
    assert("enablePaths"@ != "importMap"@) by {
        assert("enablePaths"@.len() != "importMap"@.len());
    }
    assert("enablePaths"@ != "tlsCertificate"@) by {
        assert("enablePaths"@.len() != "tlsCertificate"@.len());
    }
    assert("certificateStores"@ != "cache"@) by {
        assert("certificateStores"@.len() != "cache"@.len());
    }
    assert("certificateStores"@ != "config"@) by {
        assert("certificateStores"@.len() != "config"@.len());
    }
    assert("certificateStores"@ != "importMap"@) by {
        assert("certificateStores"@.len() != "importMap"@.len());
    }
    assert("certificateStores"@ != "tlsCertificate"@) by {
        assert("certificateStores"@.len() != "tlsCertificate"@.len());
    }
    assert("codeLens"@ != "cache"@) by {
        assert("codeLens"@.len() != "cache"@.len());
    }
    assert("codeLens"@ != "config"@) by {
        assert("codeLens"@.len() != "config"@.len());
    }
    assert("codeLens"@ != "importMap"@) by {
        assert("codeLens"@.len() != "importMap"@.len());
    }
    assert("codeLens"@ != "tlsCertificate"@) by {
        assert("codeLens"@.len() != "tlsCertificate"@.len());
    }
    assert("inlayHints"@ != "cache"@) by {
        assert("inlayHints"@.len() != "cache"@.len());
    }
    assert("inlayHints"@ != "config"@) by {
        assert("inlayHints"@.len() != "config"@.len());
    }
    assert("inlayHints"@ != "importMap"@) by {
        assert("inlayHints"@.len() != "importMap"@.len());
    }
    assert("inlayHints"@ != "tlsCertificate"@) by {
        assert("inlayHints"@.len() != "tlsCertificate"@.len());
    }
    assert("internalDebug"@ != "cache"@) by {
        assert("internalDebug"@.len() != "cache"@.len());
    }
    assert("internalDebug"@ != "config"@) by {
        assert("internalDebug"@.len() != "config"@.len());
    }
    assert("internalDebug"@ != "importMap"@) by {
        assert("internalDebug"@.len() != "importMap"@.len());
    }
    assert("internalDebug"@ != "tlsCertificate"@) by {
        assert("internalDebug"@.len() != "tlsCertificate"@.len());
    }
    assert("lint"@ != "cache"@) by {
        assert("lint"@.len() != "cache"@.len());
    }
    assert("lint"@ != "config"@) by {
        assert("lint"@.len() != "config"@.len());
    }
    assert("lint"@ != "importMap"@) by {
        assert("lint"@.len() != "importMap"@.len());
    }
    assert("lint"@ != "tlsCertificate"@) by {
        assert("lint"@.len() != "tlsCertificate"@.len());
    }
    assert("documentPreloadLimit"@ != "cache"@) by {
        assert("documentPreloadLimit"@.len() != "cache"@.len());
    }
    assert("documentPreloadLimit"@ != "config"@) by {
        assert("documentPreloadLimit"@.len() != "config"@.len());
    }
    assert("documentPreloadLimit"@ != "importMap"@) by {
        assert("documentPreloadLimit"@.len() != "importMap"@.len());
    }
    assert("documentPreloadLimit"@ != "tlsCertificate"@) by {
        assert("documentPreloadLimit"@.len() != "tlsCertificate"@.len());
    }
    assert("suggest"@ != "cache"@) by {
        assert("suggest"@.len() != "cache"@.len());
    }
    assert("suggest"@ != "config"@) by {
        assert("suggest"@.len() != "config"@.len());
    }
    assert("suggest"@ != "importMap"@) by {
        assert("suggest"@.len() != "importMap"@.len());
    }
    assert("suggest"@ != "tlsCertificate"@) by {
        assert("suggest"@.len() != "tlsCertificate"@.len());
    }
    assert("testing"@ != "cache"@) by {
        assert("testing"@.len() != "cache"@.len());
    }
    assert("testing"@ != "config"@) by {
        assert("testing"@.len() != "config"@.len());
    }
    assert("testing"@ != "importMap"@) by {
        assert("testing"@.len() != "importMap"@.len());
    }
    assert("testing"@ != "tlsCertificate"@) by {
        assert("testing"@.len() != "tlsCertificate"@.len());
    }
    assert("unsafelyIgnoreCertificateErrors"@ != "cache"@) by {
        assert("unsafelyIgnoreCertificateErrors"@.len() != "cache"@.len());
    }
    assert("unsafelyIgnoreCertificateErrors"@ != "config"@) by {
        assert("unsafelyIgnoreCertificateErrors"@.len() != "config"@.len());
    }
    assert("unsafelyIgnoreCertificateErrors"@ != "importMap"@) by {
        assert("unsafelyIgnoreCertificateErrors"@.len() != "importMap"@.len());
    }
    assert("unsafelyIgnoreCertificateErrors"@ != "tlsCertificate"@) by {
        assert("unsafelyIgnoreCertificateErrors"@.len() != "tlsCertificate"@.len());
    }
    assert("unstable"@ != "cache"@) by {
        assert("unstable"@.len() != "cache"@.len());
    }
    assert("unstable"@ != "config"@) by {
        assert("unstable"@.len() != "config"@.len());
    }
    assert("unstable"@ != "importMap"@) by {
        assert("unstable"@.len() != "importMap"@.len());
    }
    assert("unstable"@ != "tlsCertificate"@) by {
        assert("unstable"@.len() != "tlsCertificate"@.len());
    }
    assert("cache"@ != "config"@) by {
        assert("cache"@.len() != "config"@.len());
    }
    assert("cache"@ != "importMap"@) by {
        assert("cache"@.len() != "importMap"@.len());
    }
    assert("cache"@ != "tlsCertificate"@) by {
        assert("cache"@.len() != "tlsCertificate"@.len());
    }
    assert("config"@ != "cache"@) by {
        assert("config"@.len() != "cache"@.len());
    }
    assert("config"@ != "importMap"@) by {
        assert("config"@.len() != "importMap"@.len());
    }
    assert("config"@ != "tlsCertificate"@) by {
        assert("config"@.len() != "tlsCertificate"@.len());
    }
    assert("importMap"@ != "cache"@) by {
        assert("importMap"@.len() != "cache"@.len());
    }
    assert("importMap"@ != "config"@) by {
        assert("importMap"@.len() != "config"@.len());
    }
    assert("importMap"@ != "tlsCertificate"@) by {
        assert("importMap"@.len() != "tlsCertificate"@.len());
    }
    assert("tlsCertificate"@ != "cache"@) by {
        assert("tlsCertificate"@.len() != "cache"@.len());
    }
    assert("tlsCertificate"@ != "config"@) by {
        assert("tlsCertificate"@.len() != "config"@.len());
    }
    assert("tlsCertificate"@ != "importMap"@) by {
        assert("tlsCertificate"@.len() != "importMap"@.len());
    }
    assert(member(d1, "enable"@) == member(d2, "enable"@));
    assert(member(d1, "enablePaths"@) == member(d2, "enablePaths"@));
    assert(member(d1, "certificateStores"@) == member(d2, "certificateStores"@));
    assert(member(d1, "codeLens"@) == member(d2, "codeLens"@));
    assert(member(d1, "inlayHints"@) == member(d2, "inlayHints"@));
    assert(member(d1, "internalDebug"@) == member(d2, "internalDebug"@));
    assert(member(d1, "lint"@) == member(d2, "lint"@));
    assert(member(d1, "documentPreloadLimit"@) == member(d2, "documentPreloadLimit"@));
    assert(member(d1, "suggest"@) == member(d2, "suggest"@));
    assert(member(d1, "testing"@) == member(d2, "testing"@));
    assert(member(d1, "unsafelyIgnoreCertificateErrors"@) == member(d2, "unsafelyIgnoreCertificateErrors"@));
    assert(member(d1, "unstable"@) == member(d2, "unstable"@));
    assert(opt_text_of(member(d1, "cache"@)) == opt_text_of(member(d2, "cache"@)));
    assert(opt_text_of(member(d1, "config"@)) == opt_text_of(member(d2, "config"@)));
    assert(opt_text_of(member(d1, "importMap"@)) == opt_text_of(member(d2, "importMap"@)));
    assert(opt_text_of(member(d1, "tlsCertificate"@)) == opt_text_of(member(d2, "tlsCertificate"@)));
    assert(key_is_ok(d1, 0) == key_is_ok(d2, 0));
    assert(key_is_ok(d1, 1) == key_is_ok(d2, 1));
    assert(key_is_ok(d1, 2) == key_is_ok(d2, 2));
    assert(key_is_ok(d1, 3) == key_is_ok(d2, 3));
    assert(key_is_ok(d1, 4) == key_is_ok(d2, 4));
    assert(key_is_ok(d1, 5) == key_is_ok(d2, 5));
    assert(key_is_ok(d1, 6) == key_is_ok(d2, 6));
    assert(key_is_ok(d1, 7) == key_is_ok(d2, 7));
    assert(key_is_ok(d1, 8) == key_is_ok(d2, 8));
    assert(key_is_ok(d1, 9) == key_is_ok(d2, 9));
    assert(key_is_ok(d1, 10) == key_is_ok(d2, 10));
    assert(key_is_ok(d1, 11) == key_is_ok(d2, 11));
    assert(key_is_ok(d1, 12) == key_is_ok(d2, 12));
    assert(key_is_ok(d1, 13) == key_is_ok(d2, 13));
    assert(key_is_ok(d1, 14) == key_is_ok(d2, 14));
    assert(key_is_ok(d1, 15) == key_is_ok(d2, 15));
    assert(ok_below(d1, 0) == ok_below(d2, 0));
    assert(ok_below(d1, 1) == ok_below(d2, 1));
    assert(ok_below(d1, 2) == ok_below(d2, 2));
    assert(ok_below(d1, 3) == ok_below(d2, 3));
    assert(ok_below(d1, 4) == ok_below(d2, 4));
    assert(ok_below(d1, 5) == ok_below(d2, 5));
    assert(ok_below(d1, 6) == ok_below(d2, 6));
    assert(ok_below(d1, 7) == ok_below(d2, 7));
    assert(ok_below(d1, 8) == ok_below(d2, 8));
    assert(ok_below(d1, 9) == ok_below(d2, 9));
    assert(ok_below(d1, 10) == ok_below(d2, 10));
    assert(ok_below(d1, 11) == ok_below(d2, 11));
    assert(ok_below(d1, 12) == ok_below(d2, 12));
    assert(ok_below(d1, 13) == ok_below(d2, 13));
    assert(ok_below(d1, 14) == ok_below(d2, 14));
    assert(ok_below(d1, 15) == ok_below(d2, 15));
    assert(ok_below(d1, 16) == ok_below(d2, 16));
    assert forall|w: WorkspaceSettings| reads_as(d1, w) == reads_as(d2, w) by {}
}

/// Binding a configuration file to a store whose workspace sets no enable
/// flag enables every file that no allow-list, exclusion or per-file flag
/// speaks of, where it was disabled while no file was bound.
pub proof fn lemma_binding_enables(before: Config, after: Config, config_file: ConfigFile, f: Seq<char>)
    requires
        after.has_config_file_spec(),
        after.excluded_paths_view() == Some(views(config_file.exclude@)),
        after.settings == before.settings,
        after.enabled_paths == before.enabled_paths,
        before.settings.workspace.enable is None,
        root_match(index_view(before.enabled_paths@), f) is None,
        override_enable(specs_view(before.settings.specifiers@), f) is None,
        !prefixed_by_any(views(config_file.exclude@), f),
    ensures
        after.enabled_for(f),
        !before.has_config_file_spec() ==> !before.enabled_for(f),
{
}

/// After a file is given settings, those are the settings found for it.
pub proof fn lemma_set_then_found(
    specs: Seq<(Seq<char>, SpecifierSettingsView)>,
    id: Seq<char>,
    v: SpecifierSettingsView,
)
    ensures
        override_of(specs_with(specs, id, v), id) == Some(v),
    decreases specs.len(),
{
    if specs.len() > 0 && specs[0].0 != id {
        lemma_set_then_found(specs.drop_first(), id, v);
        assert((seq![specs[0]] + specs_with(specs.drop_first(), id, v)).drop_first()
            =~= specs_with(specs.drop_first(), id, v));
    }
}

} // verus!

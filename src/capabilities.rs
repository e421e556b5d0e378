//! What the client announced it can do, reduced to a fixed set of flags.
use vstd::prelude::*;
use crate::json::{JsonValue, as_bool, deref_opt, get_member, member};

verus! {

/// The client capabilities that the server acts on.
#[derive(Debug, Clone, Copy, Default, PartialEq, Eq, Structural)]
pub struct ClientCapabilities {
    pub code_action_disabled_support: bool,
    pub line_folding_only: bool,
    pub snippet_support: bool,
    pub status_notification: bool,
    /// The client offers the `experimental.testingApi` capability, built
    /// around an editor testing API: the server then reports the tests it
    /// discovers in modules.
    pub testing_api: bool,
    pub workspace_configuration: bool,
    pub workspace_did_change_watched_files: bool,
    pub workspace_will_rename_files: bool,
}

/// The parts of a client's capability announcement that are read. Each
/// nested field the client left out is `None`.
#[derive(Debug)]
pub struct AnnouncedCapabilities {
    /// The `experimental` section, as sent.
    pub experimental: Option<JsonValue>,
    /// `workspace.configuration`.
    pub workspace_configuration: Option<bool>,
    /// `workspace.didChangeWatchedFiles.dynamicRegistration`.
    pub did_change_watched_files_dynamic_registration: Option<bool>,
    /// `workspace.fileOperations.dynamicRegistration`.
    pub file_operations_dynamic_registration: Option<bool>,
    /// `workspace.fileOperations.willRename`.
    pub file_operations_will_rename: Option<bool>,
    /// `textDocument.foldingRange.lineFoldingOnly`.
    pub line_folding_only: Option<bool>,
    /// `textDocument.codeAction.disabledSupport`.
    pub code_action_disabled_support: Option<bool>,
    /// `textDocument.completion.completionItem.snippetSupport`.
    pub snippet_support: Option<bool>,
}

/// A field is present and explicitly true.
pub open spec fn announced(o: Option<bool>) -> bool {
    o == Some(true)
}

/// A member of the experimental section is present and explicitly true.
pub open spec fn announced_experimental(e: Option<JsonValue>, key: Seq<char>) -> bool {
    match e {
        Some(v) => member(v, key) == Some(JsonValue::Bool(true)),
        None => false,
    }
}

/// The flags that an announcement yields: each is true exactly when its
/// field is present and true; renaming also needs dynamic registration of
/// file operations.
pub open spec fn negotiated(a: AnnouncedCapabilities) -> ClientCapabilities {
    ClientCapabilities {
        code_action_disabled_support: announced(a.code_action_disabled_support),
        line_folding_only: announced(a.line_folding_only),
        snippet_support: announced(a.snippet_support),
        status_notification: announced_experimental(a.experimental, "statusNotification"@),
        testing_api: announced_experimental(a.experimental, "testingApi"@),
        workspace_configuration: announced(a.workspace_configuration),
        workspace_did_change_watched_files: announced(
            a.did_change_watched_files_dynamic_registration,
        ),
        workspace_will_rename_files: announced(a.file_operations_dynamic_registration) && announced(
            a.file_operations_will_rename,
        ),
    }
}

fn is_true(o: Option<bool>) -> (r: bool)
    ensures
        r == announced(o),
{
    match o {
        Some(b) => b,
        None => false,
    }
}

fn experimental_flag(e: &Option<JsonValue>, key: &str) -> (r: bool)
    ensures
        r == announced_experimental(*e, key@),
{
    match e {
        Some(v) => {
            let m = get_member(v, key);
            match m {
                Some(x) => {
                    let b = as_bool(x);
                    assert(deref_opt(m) == Some(*x));
                    b == Some(true)
                },
                None => false,
            }
        },
        None => false,
    }
}

impl ClientCapabilities {
    /// No capability at all.
    pub open spec fn default_spec() -> ClientCapabilities {
        ClientCapabilities {
            code_action_disabled_support: false,
            line_folding_only: false,
            snippet_support: false,
            status_notification: false,
            testing_api: false,
            workspace_configuration: false,
            workspace_did_change_watched_files: false,
            workspace_will_rename_files: false,
        }
    }

    /// No capability at all.
    pub fn none() -> (r: ClientCapabilities)
        ensures
            r == Self::default_spec(),
    {
        ClientCapabilities {
            code_action_disabled_support: false,
            line_folding_only: false,
            snippet_support: false,
            status_notification: false,
            testing_api: false,
            workspace_configuration: false,
            workspace_did_change_watched_files: false,
            workspace_will_rename_files: false,
        }
    }

    /// Reduces an announcement to the flags; every flag not announced as
    /// true is false.
    pub fn from_announced(a: &AnnouncedCapabilities) -> (r: ClientCapabilities)
        ensures
            r == negotiated(*a),
    {
        ClientCapabilities {
            code_action_disabled_support: is_true(a.code_action_disabled_support),
            line_folding_only: is_true(a.line_folding_only),
            snippet_support: is_true(a.snippet_support),
            status_notification: experimental_flag(&a.experimental, "statusNotification"),
            testing_api: experimental_flag(&a.experimental, "testingApi"),
            workspace_configuration: is_true(a.workspace_configuration),
            workspace_did_change_watched_files: is_true(
                a.did_change_watched_files_dynamic_registration,
            ),
            workspace_will_rename_files: is_true(a.file_operations_dynamic_registration) && is_true(
                a.file_operations_will_rename,
            ),
        }
    }
}

} // verus!

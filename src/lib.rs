//! Settings resolution for a language server: client capabilities, workspace
//! settings, per-file overrides, the bound project configuration file and the
//! rule that decides whether the server acts on a given file.
use vstd::prelude::*;

pub mod capabilities;
pub mod config;
pub mod enablement;
pub mod handles;
pub mod json;
pub mod laws;
pub mod paths;
pub mod schema;
pub mod settings;
pub mod text;

verus! {

} // verus!

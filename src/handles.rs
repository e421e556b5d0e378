//! The lock file handle that the bound project configuration shares with
//! the rest of the server. It is carried through, never looked into.
use vstd::prelude::*;

verus! {

/// Relies on `deno_lockfile::Lockfile` being an ordinary owned value; nothing
/// inside it is read here.
#[verifier::external_type_specification]
#[verifier::external_body]
pub struct ExLockfile(deno_lockfile::Lockfile);

/// Relies on `parking_lot::lock_api::Mutex`, which `parking_lot::Mutex`
/// names, only as a container that is carried through.
#[verifier::external_type_specification]
#[verifier::external_body]
#[verifier::reject_recursive_types(R)]
#[verifier::reject_recursive_types(T)]
pub struct ExLockApiMutex<R, T: ?Sized>(parking_lot::lock_api::Mutex<R, T>);

/// Relies on `parking_lot::RawMutex` only as the lock behind the mutex.
#[verifier::external_type_specification]
#[verifier::external_body]
pub struct ExRawMutex(parking_lot::RawMutex);

/// A lock file, shared and guarded by a mutex.
pub type SharedLockfile = std::sync::Arc<parking_lot::Mutex<deno_lockfile::Lockfile>>;

} // verus!

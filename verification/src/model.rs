//! The verified decision for model loading.
//!
//! A loaded model is a native resource: the owning wrapper that holds its
//! handle, keeps the source buffer alive for the handle's lifetime, and
//! destroys the handle exactly once lives at the unverified boundary.  The
//! one decision the safety layer makes for it — how a nullable handle from
//! the native loader becomes a structured outcome — is verified here.

use vstd::prelude::*;
use crate::error::{require_handle, Error, ErrorKind};

verus! {

/// Translates the nullable handle of a freshly loaded native model:
/// loading, from a file path or from an in-memory buffer, fails with
/// [`ErrorKind::ModelLoadError`] exactly when the native call returned null
/// (a missing file, a malformed model, an operator set the engine rejects at
/// load time).
pub fn load_result(handle_present: bool) -> (r: Result<(), Error>)
    ensures
        (r is Ok) <==> handle_present,
        r matches Err(e) ==> e@ == ErrorKind::ModelLoadError,
{
    require_handle(handle_present, ErrorKind::ModelLoadError)
}

} // verus!

//! The verified decision for delegate creation.
//!
//! An accelerator delegate is a native resource: the owning wrapper that
//! holds its handle, keeps it alive for at least as long as every
//! interpreter configured with it, and destroys it exactly once lives at the
//! unverified boundary.  Its configuration values are the plain
//! [`crate::minimal_bindings::TfLiteXNNPackDelegateOptions`]; the one
//! decision the safety layer makes at creation — how a nullable handle from
//! the native constructor becomes a structured outcome — is verified here.

use vstd::prelude::*;
use crate::error::{require_handle, Error, ErrorKind};

verus! {

/// Translates the nullable handle of a freshly created accelerator
/// delegate: creation fails with [`ErrorKind::DelegateCreationError`]
/// exactly when the native constructor returned null.
pub fn xnnpack_create_result(handle_present: bool) -> (r: Result<(), Error>)
    ensures
        (r is Ok) <==> handle_present,
        r matches Err(e) ==> e@ == ErrorKind::DelegateCreationError,
{
    require_handle(handle_present, ErrorKind::DelegateCreationError)
}

} // verus!

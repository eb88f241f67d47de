//! The cancellation handles of background tasks, from `futures`.

use futures::future::{AbortHandle, AbortRegistration};
use vstd::prelude::*;

verus! {

/// Cancels the task or stream registered with the paired `AbortRegistration`.
#[verifier::external_type_specification]
#[verifier::external_body]
pub struct ExAbortHandle(AbortHandle);

/// The half of an abort pair that the cancellable task holds.
#[verifier::external_type_specification]
#[verifier::external_body]
pub struct ExAbortRegistration(AbortRegistration);

/// Relies on `AbortHandle::new_pair`: a fresh handle and the registration
/// linked to it; nothing is aborted yet.
pub assume_specification[ AbortHandle::new_pair ]() -> (AbortHandle, AbortRegistration);

} // verus!

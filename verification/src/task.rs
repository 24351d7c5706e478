//! The scheduler's wake handle, taken as an opaque token.

use vstd::prelude::*;
use core::task::Waker;

verus! {

/// Declares `core::task::Waker` so the library can store and hand around
/// wake handles. The handle is opaque: the library never reads anything
/// out of it, it only stores it and gives it back to the scheduler.
#[verifier::external_type_specification]
#[verifier::external_body]
pub struct ExWaker(Waker);

/// Relies on `core::task::Waker::wake`: consumes the handle and asks the
/// scheduler to poll the owning task again. It touches no library state;
/// waking a handle whose task has already finished or was dropped is a
/// harmless no-op on the scheduler's side.
pub assume_specification[ Waker::wake ](w: Waker);

} // verus!

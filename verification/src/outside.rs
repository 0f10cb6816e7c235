use vstd::prelude::*;
use tokio_util::sync::CancellationToken;

verus! {

/// The cancellation handle that an in-flight download watches.
#[verifier::external_type_specification]
#[verifier::external_body]
pub struct ExCancellationToken(tokio_util::sync::CancellationToken);

/// A filesystem path, carried through the queue untouched.
#[verifier::external_type_specification]
#[verifier::external_body]
pub struct ExPathBuf(std::path::PathBuf);

/// `CancellationToken::new` creates a token in the non-cancelled state; the
/// token is opaque here, so the contract claims nothing of it. The queue calls
/// it only in `QueueItem::renew_token` and where it builds an item, beside a
/// ghost flag that records that no stop has been signalled.
pub assume_specification[ CancellationToken::new ]() -> CancellationToken;

/// `CancellationToken::cancel` signals the token and every clone of it. The
/// token's state lives behind a shared pointer that this library does not
/// model, so the contract claims nothing. The queue calls it only in
/// `QueueItem::signal_stop`, beside the ghost flag that records the signal;
/// since this contract says nothing of the token, nothing checks that flag
/// against the token's real state.
pub assume_specification[ CancellationToken::cancel ](token: &CancellationToken);

} // verus!

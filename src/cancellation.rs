use vstd::prelude::*;
use tokio_util::sync::CancellationToken;

verus! {

/// The cooperative cancellation signal shared between the orchestrator, the power
/// monitor and a motor run. Its state is shared between clones and changed by other
/// tasks, so nothing is stated of what it reports.
#[verifier::external_type_specification]
#[verifier::external_body]
pub struct ExCancellationToken(CancellationToken);

/// Relies on tokio_util's CancellationToken::new: a fresh, not yet cancelled token.
pub assume_specification[ CancellationToken::new ]() -> CancellationToken;

/// Relies on tokio_util's CancellationToken::cancel: signals every clone of the token.
pub assume_specification[ CancellationToken::cancel ](token: &CancellationToken);

/// Relies on tokio_util's CancellationToken::is_cancelled: whether the token, or a clone
/// of it, has been cancelled.
pub assume_specification[ CancellationToken::is_cancelled ](token: &CancellationToken) -> bool;

/// Relies on tokio_util's Clone for CancellationToken: a handle on the same signal.
pub assume_specification[ <CancellationToken as Clone>::clone ](token: &CancellationToken) -> CancellationToken;

} // verus!

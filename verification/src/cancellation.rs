//! Cooperative cancellation of the work on a batch.

use vstd::prelude::*;
use tokio_util::sync::CancellationToken;

verus! {

/// `tokio_util`'s `CancellationToken`, carried about as it is: nothing is
/// known of what is inside.
#[verifier::external_type_specification]
#[verifier::external_body]
pub struct ExCancellationToken(CancellationToken);

/// `CancellationToken::is_cancelled` says whether cancellation was requested
/// by the time of the call. Nothing is claimed of the answer: it depends on
/// when the question is asked.
pub assume_specification[ CancellationToken::is_cancelled ](token: &CancellationToken) -> (cancelled:
    bool)
;

/// `CancellationToken::new` makes a token that nobody has cancelled yet.
/// Nothing is claimed of it.
pub assume_specification[ CancellationToken::new ]() -> (token: CancellationToken)
;

/// `CancellationToken::cancel` requests cancellation of the token and of
/// its clones. Nothing is claimed of what a later question gets for answer.
pub assume_specification[ CancellationToken::cancel ](token: &CancellationToken)
;

/// `CancellationToken::clone` gives a handle on the token that it was
/// taken from: the two are cancelled together, whichever is asked to, and
/// give the same answer whenever they are asked. The claim is that the
/// clone is that token.
pub assume_specification[ <CancellationToken as Clone>::clone ](token: &CancellationToken) -> (copy:
    CancellationToken)
    ensures
        copy == *token,
;

/// Whether the work is to stop: never where there is no token, else what the
/// token says now.
pub fn should_stop(token: Option<&CancellationToken>) -> (cancelled: bool)
    ensures
        token is None ==> !cancelled,
{
    match token {
        Some(token) => token.is_cancelled(),
        None => false,
    }
}

} // verus!

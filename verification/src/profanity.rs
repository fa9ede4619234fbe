//! Classification of the outcomes of the external content-moderation
//! call into censored text or a typed failure.

use vstd::prelude::*;

use crate::errors::Error;

verus! {

/// What came back from one call to the external moderation endpoint,
/// as the transport layer hands it over: the endpoint either answered
/// with censored text, answered with an error status and message, or
/// could not be reached or understood at all.
#[derive(Debug)]
pub enum ModerationOutcome {
    /// The endpoint accepted the text and returned its censored form.
    Censored { censored_content: String },
    /// The endpoint answered with an error status; carries that
    /// status and the message taken from the response body.
    ApiFailure { status: u16, message: String },
    /// The call failed below the protocol: a connection error, a
    /// timeout, or a response body that could not be read.
    Transport { message: String },
}

/// How each moderation outcome is classified: censored text passes
/// through verbatim; statuses of 500 and above are the server's
/// failure; statuses in the 400s are this client's; anything else,
/// transport failures included, counts against the external call.
pub open spec fn moderation_result(outcome: ModerationOutcome) -> Result<String, Error> {
    match outcome {
        ModerationOutcome::Censored { censored_content } => Ok(censored_content),
        ModerationOutcome::ApiFailure { status, message } => if status >= 500 {
            Err(Error::ServerError { status, message })
        } else if status >= 400 {
            Err(Error::ClientError { status, message })
        } else {
            Err(Error::ExternalAPIError { message })
        },
        ModerationOutcome::Transport { message } => Err(Error::ExternalAPIError { message }),
    }
}

/// Classifies the outcome of one moderation call, yielding the
/// censored text or the typed failure that `moderation_result`
/// states. No retry is attempted at this layer.
pub fn check_profanity(outcome: ModerationOutcome) -> (r: Result<String, Error>)
    ensures
        r == moderation_result(outcome),
{
    match outcome {
        ModerationOutcome::Censored { censored_content } => Ok(censored_content),
        ModerationOutcome::ApiFailure { status, message } => if status >= 500 {
            Err(Error::ServerError { status, message })
        } else if status >= 400 {
            Err(Error::ClientError { status, message })
        } else {
            Err(Error::ExternalAPIError { message })
        },
        ModerationOutcome::Transport { message } => Err(Error::ExternalAPIError { message }),
    }
}

} // verus!

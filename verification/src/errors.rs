use vstd::prelude::*;

verus! {

/// The error family shared by round control, question generation and the
/// rate limiter.
///
/// `MalformedResponse`, `RateLimitExceeded` and `ExternalCallFailed` are
/// always recovered locally inside answer judgment (they trigger the
/// exact-match fallback); the same kinds surface to the caller when they
/// occur during question generation, in which case no round is created.
#[derive(Clone, Copy, Debug, PartialEq, Eq, Structural)]
pub enum QuizError {
    /// A round is already active (or won and not yet reset).
    RoundAlreadyActive,
    /// No round is open for answers.
    RoundNotActive,
    /// Question generation is administratively disabled, or no credential
    /// for the external service is configured.
    GenerationDisabled,
    /// The external service's reply could not be parsed into the expected
    /// shape by either the strict or the lenient parse.
    MalformedResponse,
    /// The rate limiter gave up after its retry ceiling.
    RateLimitExceeded,
    /// The external call itself failed (transport error, bad status).
    ExternalCallFailed,
}

} // verus!

use vstd::prelude::*;
use crate::errors::QuizError;
use crate::limiter::{AcquireStep, RateLimiter, MAX_ATTEMPTS, MIN_INTERVAL_TICKS, elapsed_ticks, permits};
use crate::registry::SubscriberSet;
use crate::round::{RoundModel, RoundState, initial_model, start_step};
use crate::source::{complete_generation, opt_reply_view, riddle_reply_spec};

verus! {

/// The policy gate for question generation: generation must be enabled,
/// no round may stand (a won round is reset first), and a credential
/// for the external service must be configured — checked in that order.
/// A missing credential disables the external path gracefully.
pub open spec fn generation_gate(enabled: bool, has_credential: bool, m: RoundModel) -> Result<
    (),
    QuizError,
> {
    if !enabled {
        Err(QuizError::GenerationDisabled)
    } else if m.round is Some {
        Err(QuizError::RoundAlreadyActive)
    } else if !has_credential {
        Err(QuizError::GenerationDisabled)
    } else {
        Ok(())
    }
}

/// The engine's whole shared state: subscriber registry, round machine,
/// rate limiter and the generation toggle.  One value of this type
/// stands behind all request handling.
pub struct QuizEngine {
    /// Who receives broadcasts.
    pub subscribers: SubscriberSet,
    /// The current round's lifecycle and winner arbitration.
    pub rounds: RoundState,
    /// Spacing of calls to the external service, shared by question
    /// generation and answer judgment.
    pub limiter: RateLimiter,
    /// Whether question generation through the external service is
    /// administratively enabled.  On by default.
    pub llm_enabled: bool,
}

impl QuizEngine {
    /// A fresh engine: no subscribers, an idle round machine, generation
    /// enabled, and the limiter primed as if a call had gone out at
    /// `now`.
    pub fn new(now: u64) -> (r: QuizEngine)
        ensures
            r.subscribers@ == Seq::<i64>::empty(),
            r.subscribers.wf(),
            r.rounds.model() == initial_model(),
            r.rounds.model().wf(),
            r.limiter.last_call == now,
            r.limiter.min_interval == MIN_INTERVAL_TICKS,
            r.llm_enabled,
    {
        QuizEngine {
            subscribers: SubscriberSet::new(),
            rounds: RoundState::new(),
            limiter: RateLimiter::new(now),
            llm_enabled: true,
        }
    }

    /// Flip the generation toggle and report the new setting.
    pub fn toggle_generation(&mut self) -> (r: bool)
        ensures
            final(self).llm_enabled == !old(self).llm_enabled,
            r == final(self).llm_enabled,
            final(self).subscribers == old(self).subscribers,
            final(self).rounds == old(self).rounds,
            final(self).limiter == old(self).limiter,
    {
        self.llm_enabled = !self.llm_enabled;
        self.llm_enabled
    }

    /// One decision of the bounded wait that precedes any external
    /// call, with `now` the caller's clock reading and attempts counted
    /// from zero: `Ok(None)` permits the call at once, `Ok(Some(w))`
    /// asks the caller to sleep `w` ticks and come back with the next
    /// attempt number, and once the ceiling is reached the caller gets
    /// `RateLimitExceeded` rather than waiting forever.
    pub fn acquire_external_call(&mut self, now: u64, attempt: u64) -> (r: Result<
        Option<u64>,
        QuizError,
    >)
        ensures
            final(self).subscribers == old(self).subscribers,
            final(self).rounds == old(self).rounds,
            final(self).llm_enabled == old(self).llm_enabled,
            permits(old(self).limiter, now) ==> r == Ok::<Option<u64>, QuizError>(None)
                && final(self).limiter.last_call == now && final(self).limiter.min_interval == old(
                self,
            ).limiter.min_interval,
            !permits(old(self).limiter, now) ==> final(self).limiter == old(self).limiter,
            !permits(old(self).limiter, now) && attempt + 1 >= MAX_ATTEMPTS ==> r == Err::<
                Option<u64>,
                QuizError,
            >(QuizError::RateLimitExceeded),
            !permits(old(self).limiter, now) && attempt + 1 < MAX_ATTEMPTS ==> r == Ok::<
                Option<u64>,
                QuizError,
            >(
                Some(
                    (old(self).limiter.min_interval - elapsed_ticks(
                        old(self).limiter.last_call,
                        now,
                    )) as u64,
                ),
            ),
    {
        match self.limiter.acquire_step(now, attempt) {
            AcquireStep::Permitted => Ok(None),
            AcquireStep::Retry { wait } => Ok(Some(wait)),
            AcquireStep::Exceeded => Err(QuizError::RateLimitExceeded),
        }
    }

    /// Interpret the generation call's outcome and, when the reply
    /// parses, start the round it carries; the question to broadcast is
    /// returned.  On any failure — no reply, a malformed reply, or a
    /// round started concurrently in the meantime — no round is created
    /// and the machine is left exactly as it stood.
    pub fn install_generated_round(&mut self, reply: Option<&String>) -> (r: Result<
        String,
        QuizError,
    >)
        requires
            old(self).rounds.model().wf(),
        ensures
            final(self).rounds.model().wf(),
            final(self).subscribers == old(self).subscribers,
            final(self).limiter == old(self).limiter,
            final(self).llm_enabled == old(self).llm_enabled,
            ({
                let m0 = old(self).rounds.model();
                let m1 = final(self).rounds.model();
                match opt_reply_view(reply) {
                    None => r == Err::<String, QuizError>(QuizError::ExternalCallFailed) && m1
                        == m0,
                    Some(raw) => (match riddle_reply_spec(raw) {
                        None => r == Err::<String, QuizError>(QuizError::MalformedResponse) && m1
                            == m0,
                        Some(p) => ({
                            let (m2, rr) = start_step(m0, p.0, p.1);
                            match rr {
                                Ok(()) => r matches Ok(q) && q@ == p.0 && m1 == m2,
                                Err(e) => r == Err::<String, QuizError>(e) && m1 == m0,
                            }
                        }),
                    }),
                }
            }),
    {
        match complete_generation(reply) {
            Err(e) => Err(e),
            Ok((question, answer)) => {
                let out = question.clone();
                match self.rounds.start_round(question, answer) {
                    Ok(()) => Ok(out),
                    Err(e) => Err(e),
                }
            },
        }
    }

    /// May a question be generated now?  `has_credential` says whether a
    /// credential for the external service is configured.
    pub fn begin_generation(&self, has_credential: bool) -> (r: Result<(), QuizError>)
        ensures
            r == generation_gate(self.llm_enabled, has_credential, self.rounds.model()),
    {
        if !self.llm_enabled {
            return Err(QuizError::GenerationDisabled);
        }
        match self.rounds.current_question() {
            Some(_) => Err(QuizError::RoundAlreadyActive),
            None => if has_credential {
                Ok(())
            } else {
                Err(QuizError::GenerationDisabled)
            },
        }
    }
}

} // verus!

//! Sending with retries: what to do after each attempt.

use vstd::prelude::*;

verus! {

/// How many attempts one message gets.
pub const RETRY_LIMIT: u32 = 20;

/// Why an attempt to send failed.
#[derive(Debug, Clone, Copy, PartialEq, Eq, Structural)]
pub enum SendFailure {
    /// The platform turned the request down.
    Api,
    /// The group has moved to another chat id.
    MigrateToChatId,
    /// The platform asks to wait for so many seconds.
    RetryAfter { seconds: u32 },
    /// The network failed.
    Network,
    /// The answer could not be read.
    InvalidJson,
    /// Input or output failed.
    Io,
}

/// What to do after an attempt.
#[derive(Debug, Clone, Copy, PartialEq, Eq, Structural)]
pub enum SendStep {
    /// The message is sent: stop, with success.
    Done,
    /// Sleep for `wait_seconds`, if any, and try again.
    Retry { wait_seconds: Option<u32> },
    /// That was the last attempt: sleep for `wait_seconds`, if any, and fail
    /// with the error of this attempt.
    GiveUp { wait_seconds: Option<u32> },
    /// Fail at once with the error of this attempt.
    Abort,
}

/// The failure is one that another attempt may mend.
pub open spec fn is_retryable(failure: SendFailure) -> bool {
    failure is Network || failure is Io || failure is RetryAfter
}

/// The sleep that a failure asks for before the next attempt.
pub open spec fn wait_for(failure: SendFailure) -> Option<u32> {
    match failure {
        SendFailure::RetryAfter { seconds } => Some(seconds),
        _ => None,
    }
}

/// What to do after the attempt with the number `attempt`, counted from 1,
/// has ended in `outcome`.
pub open spec fn step_after(attempt: nat, outcome: Result<(), SendFailure>) -> SendStep {
    match outcome {
        Ok(_) => SendStep::Done,
        Err(failure) => if !is_retryable(failure) {
            SendStep::Abort
        } else if attempt < RETRY_LIMIT {
            SendStep::Retry { wait_seconds: wait_for(failure) }
        } else {
            SendStep::GiveUp { wait_seconds: wait_for(failure) }
        },
    }
}

/// The attempts that sending of one message has used up.
#[derive(Debug)]
pub struct Retries {
    made: u32,
}

impl Retries {
    /// The attempts made so far.
    pub closed spec fn made(&self) -> nat {
        self.made as nat
    }

    #[verifier::type_invariant]
    spec fn within_limit(&self) -> bool {
        self.made <= RETRY_LIMIT
    }

    /// No attempt made yet.
    pub fn new() -> (retries: Retries)
        ensures
            retries.made() == 0,
    {
        Retries { made: 0 }
    }

    /// The attempts made so far.
    pub fn attempts(&self) -> (made: u32)
        ensures
            made == self.made(),
            made <= RETRY_LIMIT,
    {
        proof {
            use_type_invariant(self);
        }
        self.made
    }

    /// Records the end of one more attempt and says what to do next.
    ///
    /// Success ends the sending. A network or I/O failure is retried at once,
    /// a rate limit after the sleep that the platform asks for; each uses up
    /// one attempt, and the last attempt allowed ends in `GiveUp`. Any other
    /// failure aborts. After `Done`, `GiveUp` or `Abort` no further attempt
    /// is due; one that is recorded all the same counts as the last.
    pub fn record(&mut self, outcome: Result<(), SendFailure>) -> (step: SendStep)
        ensures
            final(self).made() == if old(self).made() < RETRY_LIMIT {
                old(self).made() + 1
            } else {
                old(self).made()
            },
            step == step_after(final(self).made(), outcome),
    {
        proof {
            use_type_invariant(&*self);
        }
        if self.made < RETRY_LIMIT {
            self.made = self.made + 1;
        }
        match outcome {
            Ok(_) => SendStep::Done,
            Err(failure) => {
                let wait_seconds = match failure {
                    SendFailure::RetryAfter { seconds } => Some(seconds),
                    _ => None,
                };
                match failure {
                    SendFailure::Network | SendFailure::Io | SendFailure::RetryAfter { .. } => {
                        if self.made < RETRY_LIMIT {
                            SendStep::Retry { wait_seconds }
                        } else {
                            SendStep::GiveUp { wait_seconds }
                        }
                    },
                    _ => SendStep::Abort,
                }
            },
        }
    }
}

} // verus!

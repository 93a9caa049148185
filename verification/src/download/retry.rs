//! Retrying a download a bounded number of times.
use vstd::prelude::*;

verus! {

/// How many times a download is tried before it is given up.
pub const MAX_ATTEMPTS: u32 = 5;

/// How a try went.
#[derive(Debug, Clone, Copy, PartialEq, Eq, Structural)]
pub enum Outcome {
    Succeeded,
    Failed,
}

/// What to do next.
#[derive(Debug, Clone, Copy, PartialEq, Eq, Structural)]
pub enum Next {
    /// Make try number `attempt` (counted from 1).
    Run { attempt: u32 },
    /// The last try succeeded: stop.
    Done,
    /// Every try failed: stop with the last error.
    GiveUp,
}

/// The tries of one download. A failed try is reported and followed by a pause before
/// the machine is told of it; after `MAX_ATTEMPTS` failures it gives up. Once it has said
/// `Done` or `GiveUp` it has stopped: it orders no further try and repeats that answer.
pub struct Retry {
    made: u32,
    ended: Option<Next>,
}

/// The tries made and what follows, after `made` tries and then `outcome`.
pub open spec fn step(made: nat, outcome: Outcome) -> (nat, Next) {
    match outcome {
        Outcome::Succeeded => (made, Next::Done),
        Outcome::Failed => if made < MAX_ATTEMPTS {
            (made + 1, Next::Run { attempt: (made + 1) as u32 })
        } else {
            (made, Next::GiveUp)
        },
    }
}

/// Where `k` failures in a row leave a fresh machine, after its first try.
pub open spec fn after_failures(k: nat) -> (nat, Next)
    decreases k,
{
    if k == 0 {
        (1, Next::Run { attempt: 1 })
    } else {
        step(after_failures((k - 1) as nat).0, Outcome::Failed)
    }
}

impl Retry {
    #[verifier::type_invariant]
    spec fn inv(self) -> bool {
        &&& self.made <= MAX_ATTEMPTS
        &&& !(self.ended matches Some(Next::Run { .. }))
    }

    /// Tries made so far.
    pub closed spec fn made(self) -> nat {
        self.made as nat
    }

    /// The answer it stopped with, once it has stopped.
    pub closed spec fn ended(self) -> Option<Next> {
        self.ended
    }

    /// A download not tried yet.
    pub fn new() -> (r: Retry)
        ensures
            r.made() == 0,
            r.ended() is None,
    {
        Retry { made: 0, ended: None }
    }

    /// The first try.
    pub fn start(&mut self) -> (n: Next)
        requires
            old(self).made() == 0,
            old(self).ended() is None,
        ensures
            final(self).made() == 1,
            final(self).ended() is None,
            n == (Next::Run { attempt: 1 }),
    {
        self.made = 1;
        Next::Run { attempt: 1 }
    }

    /// Records how the last try went; says what to do next. A stopped machine answers as
    /// it stopped and changes nothing.
    pub fn record(&mut self, outcome: Outcome) -> (n: Next)
        ensures
            old(self).ended() matches Some(e) ==> n == e && final(self).made() == old(self).made()
                && final(self).ended() == old(self).ended(),
            old(self).ended() is None ==> (final(self).made(), n) == step(
                old(self).made(),
                outcome,
            ) && final(self).ended() == (if n is Run {
                None
            } else {
                Some(n)
            }),
            final(self).made() <= MAX_ATTEMPTS,
            old(self).ended() is Some ==> !(n is Run),
    {
        proof {
            use_type_invariant(&*self);
        }
        if let Some(e) = self.ended {
            return e;
        }
        match outcome {
            Outcome::Succeeded => {
                self.ended = Some(Next::Done);
                Next::Done
            },
            Outcome::Failed => {
                if self.made < MAX_ATTEMPTS {
                    self.made = self.made + 1;
                    Next::Run { attempt: self.made }
                } else {
                    self.ended = Some(Next::GiveUp);
                    Next::GiveUp
                }
            },
        }
    }
}

/// A download is tried at most `MAX_ATTEMPTS` times: the `k`-th failure in a row leads to
/// try `k + 1` while fewer than `MAX_ATTEMPTS` tries were made, and to giving up after the
/// `MAX_ATTEMPTS`-th; from then on further failures change nothing.
pub proof fn lemma_failures_bounded(k: nat)
    ensures
        k < MAX_ATTEMPTS ==> after_failures(k) == (k + 1, Next::Run { attempt: (k + 1) as u32 }),
        k >= MAX_ATTEMPTS ==> after_failures(k) == (MAX_ATTEMPTS as nat, Next::GiveUp),
        after_failures(k).0 <= MAX_ATTEMPTS,
    decreases k,
{
    if k > 0 {
        lemma_failures_bounded((k - 1) as nat);
    }
}

/// A success ends the download whatever came before it.
pub proof fn lemma_success_ends(made: nat)
    ensures
        step(made, Outcome::Succeeded) == (made, Next::Done),
{
}

} // verus!

//! The coordinator: an oracle decorator that triggers taint-gathering replays.
use vstd::prelude::*;
use vstd::string::StringExecFns;

use crate::decision::{decide, effects_of, replay_due, Effect};

verus! {

/// Something that reports a stable identifier.
pub trait Named {
    /// The identifier, as text. An implementation defines it to match `name`;
    /// the coordinator, being generic, never relies on this default.
    open spec fn label(&self) -> Seq<char> {
        Seq::empty()
    }

    fn name(&self) -> (r: &str)
        ensures
            r@ == self.label(),
    ;
}

/// An interestingness oracle: says whether an executed input is worth keeping.
pub trait Oracle<C, I>: Named {
    /// What the oracle annotates when an input is kept.
    type Testcase;

    /// Judges `input` after its execution, with the campaign's context `ctx`.
    fn is_interesting(&mut self, ctx: &mut C, input: &I) -> Result<bool, libafl::Error>;

    /// Adds the oracle's own metadata to a testcase that is being kept.
    fn append_metadata(&mut self, ctx: &mut C, testcase: &mut Self::Testcase) -> Result<(), libafl::Error>;
}

/// Collects, during one execution, which input bytes reach hash operations.
pub trait TaintTracker {
    /// How many times the tracker has been reset. An implementation defines
    /// it: with this default, the contract of `reset` cannot be met.
    open spec fn resets(&self) -> nat {
        0
    }

    /// Whether the tracker holds no fact. An implementation defines it.
    open spec fn is_clear(&self) -> bool {
        true
    }

    /// Discards every fact collected so far.
    fn reset(&mut self)
        ensures
            final(self).resets() == old(self).resets() + 1,
            final(self).is_clear(),
    ;
}

/// Re-executes an input with a taint tracker attached as an observer.
pub trait ReplayEngine<C, I, T: TaintTracker> {
    /// How many replays the engine has run. An implementation defines it:
    /// with this default, the contract of `replay_with_observer` cannot be met.
    open spec fn replays(&self) -> nat {
        0
    }

    /// Runs `input` once more with `tracker` attached. The tracker must start
    /// clear, and the replay does not reset it.
    fn replay_with_observer(&mut self, input: &I, ctx: &mut C, tracker: &mut T) -> (r: Result<(), ReplayFault>)
        requires
            old(tracker).is_clear(),
        ensures
            final(self).replays() == old(self).replays() + 1,
            final(tracker).resets() == old(tracker).resets(),
    ;
}

/// A failure of the secondary replay. It never changes a verdict.
#[derive(Clone, Copy, Debug, PartialEq, Eq, Structural)]
pub enum ReplayFault {
    /// The engine found its own state inconsistent.
    EngineInconsistency,
    /// The tracker could not be attached to the execution.
    AttachmentFailure,
}

/// A candidate input: an action sequence and whether it is an intermediate step
/// of a longer sequence rather than a complete submission.
pub struct Candidate<I> {
    pub input: I,
    pub step: bool,
}

impl<I> Candidate<I> {
    pub fn new(input: I, step: bool) -> (c: Self)
        ensures
            c.input == input,
            c.step == step,
    {
        Candidate { input, step }
    }

    pub fn is_step(&self) -> (r: bool)
        ensures
            r == self.step,
    {
        self.step
    }
}

/// The identifier the coordinator reports.
pub open spec fn feedback_name() -> Seq<char> {
    "Sha3WrappedFeedback"@
}

/// The diagnostic text of a coordinator with the given flag, wrapping an oracle
/// that reports `inner` as its name.
pub open spec fn description(enabled: bool, inner: Seq<char>) -> Seq<char> {
    "Sha3WrappedFeedback { enabled: "@ + (if enabled { "true"@ } else { "false"@ }) + ", inner: "@
        + inner + " }"@
}

/// Wraps an oracle; replays each complete input that it accepts, with the
/// taint tracker reset just before, when enabled.
pub struct Sha3WrappedFeedback<F, T, R> {
    pub inner_feedback: F,
    pub sha3_taints: T,
    pub evm_executor: R,
    pub enabled: bool,
    /// The effects that the latest evaluation called for, in order.
    pub last_effects: Vec<Effect>,
    /// How many replays have failed, saturating at the largest `u64`.
    pub replay_faults: u64,
    /// The latest replay failure.
    pub last_replay_fault: Option<ReplayFault>,
}

impl<F, T, R> Sha3WrappedFeedback<F, T, R> {
    pub fn new(inner_feedback: F, sha3_taints: T, evm_executor: R, enabled: bool) -> (s: Self)
        ensures
            s.inner_feedback == inner_feedback,
            s.sha3_taints == sha3_taints,
            s.evm_executor == evm_executor,
            s.enabled == enabled,
            s.last_effects@ == Seq::<Effect>::empty(),
            s.replay_faults == 0,
            s.last_replay_fault == None::<ReplayFault>,
    {
        Sha3WrappedFeedback {
            inner_feedback,
            sha3_taints,
            evm_executor,
            enabled,
            last_effects: Vec::new(),
            replay_faults: 0,
            last_replay_fault: None,
        }
    }

    /// Records the outcome of a replay for diagnostics: a failure is counted
    /// and kept as the latest one; a success changes nothing.
    pub fn note_replay_outcome(&mut self, outcome: Result<(), ReplayFault>)
        ensures
            match outcome {
                Ok(()) => *final(self) == *old(self),
                Err(fault) => {
                    &&& final(self).replay_faults == old(self).replay_faults.saturating_add(1)
                    &&& final(self).last_replay_fault == Some(fault)
                    &&& final(self).inner_feedback == old(self).inner_feedback
                    &&& final(self).sha3_taints == old(self).sha3_taints
                    &&& final(self).evm_executor == old(self).evm_executor
                    &&& final(self).enabled == old(self).enabled
                    &&& final(self).last_effects == old(self).last_effects
                },
            },
    {
        if let Err(fault) = outcome {
            self.replay_faults = self.replay_faults.saturating_add(1);
            self.last_replay_fault = Some(fault);
        }
    }

    /// Asks the wrapped oracle about `input`, then does what its verdict calls
    /// for (see `follow_verdict`) and returns that verdict unchanged.
    pub fn is_interesting<C, I>(&mut self, ctx: &mut C, input: &Candidate<I>) -> (r: Result<bool, libafl::Error>)
        where
            F: Oracle<C, I>,
            T: TaintTracker,
            R: ReplayEngine<C, I, T>,
        ensures
            final(self).enabled == old(self).enabled,
            final(self).last_effects@ == effects_of(old(self).enabled, r, input.step),
            !replay_due(old(self).enabled, r, input.step) ==> {
                &&& final(self).sha3_taints == old(self).sha3_taints
                &&& final(self).evm_executor == old(self).evm_executor
                &&& final(self).replay_faults == old(self).replay_faults
                &&& final(self).last_replay_fault == old(self).last_replay_fault
            },
            replay_due(old(self).enabled, r, input.step) ==> {
                &&& final(self).sha3_taints.resets() == old(self).sha3_taints.resets() + 1
                &&& final(self).evm_executor.replays() == old(self).evm_executor.replays() + 1
                &&& ({
                    &&& final(self).replay_faults == old(self).replay_faults
                    &&& final(self).last_replay_fault == old(self).last_replay_fault
                } || {
                    &&& final(self).replay_faults == old(self).replay_faults.saturating_add(1)
                    &&& final(self).last_replay_fault is Some
                })
            },
    {
        let verdict = self.inner_feedback.is_interesting(ctx, &input.input);
        self.follow_verdict(ctx, input, verdict)
    }

    /// Does what the oracle's `verdict` on `input` calls for and returns that
    /// verdict unchanged. When the coordinator is enabled, the verdict is
    /// `Ok(true)` and the input is complete, it resets the tracker once and then
    /// replays the input once with the cleared tracker attached; a failed replay
    /// is recorded and does not change the verdict. Otherwise the oracle, the
    /// tracker and the engine are left as they were.
    pub fn follow_verdict<C, I>(
        &mut self,
        ctx: &mut C,
        input: &Candidate<I>,
        verdict: Result<bool, libafl::Error>,
    ) -> (r: Result<bool, libafl::Error>)
        where
            T: TaintTracker,
            R: ReplayEngine<C, I, T>,
        ensures
            r == verdict,
            final(self).enabled == old(self).enabled,
            final(self).inner_feedback == old(self).inner_feedback,
            final(self).last_effects@ == effects_of(old(self).enabled, verdict, input.step),
            !replay_due(old(self).enabled, verdict, input.step) ==> {
                &&& final(self).sha3_taints == old(self).sha3_taints
                &&& final(self).evm_executor == old(self).evm_executor
                &&& final(self).replay_faults == old(self).replay_faults
                &&& final(self).last_replay_fault == old(self).last_replay_fault
                &&& *final(ctx) == *old(ctx)
            },
            replay_due(old(self).enabled, verdict, input.step) ==> {
                &&& final(self).sha3_taints.resets() == old(self).sha3_taints.resets() + 1
                &&& final(self).evm_executor.replays() == old(self).evm_executor.replays() + 1
                &&& ({
                    &&& final(self).replay_faults == old(self).replay_faults
                    &&& final(self).last_replay_fault == old(self).last_replay_fault
                } || {
                    &&& final(self).replay_faults == old(self).replay_faults.saturating_add(1)
                    &&& final(self).last_replay_fault is Some
                })
            },
    {
        let decision = decide(self.enabled, verdict, input.is_step());
        let mut i: usize = 0;
        while i < decision.effects.len()
            invariant
                i <= decision.effects.len(),
                decision.verdict == verdict,
                decision.effects@ == effects_of(self.enabled, verdict, input.step),
                self.enabled == old(self).enabled,
                self.inner_feedback == old(self).inner_feedback,
                replay_due(self.enabled, verdict, input.step) ==> {
                    &&& i == 0 ==> {
                        &&& self.sha3_taints.resets() == old(self).sha3_taints.resets()
                        &&& self.evm_executor.replays() == old(self).evm_executor.replays()
                        &&& self.replay_faults == old(self).replay_faults
                        &&& self.last_replay_fault == old(self).last_replay_fault
                    }
                    &&& i == 1 ==> {
                        &&& self.sha3_taints.resets() == old(self).sha3_taints.resets() + 1
                        &&& self.sha3_taints.is_clear()
                        &&& self.evm_executor.replays() == old(self).evm_executor.replays()
                        &&& self.replay_faults == old(self).replay_faults
                        &&& self.last_replay_fault == old(self).last_replay_fault
                    }
                    &&& i == 2 ==> {
                        &&& self.sha3_taints.resets() == old(self).sha3_taints.resets() + 1
                        &&& self.evm_executor.replays() == old(self).evm_executor.replays() + 1
                        &&& ({
                            &&& self.replay_faults == old(self).replay_faults
                            &&& self.last_replay_fault == old(self).last_replay_fault
                        } || {
                            &&& self.replay_faults == old(self).replay_faults.saturating_add(1)
                            &&& self.last_replay_fault is Some
                        })
                    }
                },
                !replay_due(self.enabled, verdict, input.step) ==> {
                    &&& self.sha3_taints == old(self).sha3_taints
                    &&& self.evm_executor == old(self).evm_executor
                    &&& self.replay_faults == old(self).replay_faults
                    &&& self.last_replay_fault == old(self).last_replay_fault
                    &&& *ctx == *old(ctx)
                },
            decreases decision.effects.len() - i,
        {
            match decision.effects[i] {
                Effect::ResetTracker => {
                    self.sha3_taints.reset();
                },
                Effect::Replay => {
                    let outcome = self.evm_executor.replay_with_observer(
                        &input.input,
                        ctx,
                        &mut self.sha3_taints,
                    );
                    self.note_replay_outcome(outcome);
                },
            }
            i = i + 1;
        }
        self.last_effects = decision.effects;
        decision.verdict
    }

    /// Hands the testcase to the wrapped oracle; nothing else is touched.
    pub fn append_metadata<C, I>(&mut self, ctx: &mut C, testcase: &mut F::Testcase) -> (r: Result<(), libafl::Error>)
        where
            F: Oracle<C, I>,
        ensures
            final(self).sha3_taints == old(self).sha3_taints,
            final(self).evm_executor == old(self).evm_executor,
            final(self).enabled == old(self).enabled,
            final(self).last_effects == old(self).last_effects,
            final(self).replay_faults == old(self).replay_faults,
            final(self).last_replay_fault == old(self).last_replay_fault,
    {
        self.inner_feedback.append_metadata(ctx, testcase)
    }

    /// The coordinator's identifier.
    pub fn name(&self) -> (r: &str)
        ensures
            r@ == feedback_name(),
    {
        proof {
            reveal_strlit("Sha3WrappedFeedback");
        }
        "Sha3WrappedFeedback"
    }

    /// A printable description: the enabled flag and the wrapped oracle's name.
    pub fn debug_repr(&self) -> (r: String)
        where
            F: Named,
        ensures
            r@ == description(self.enabled, self.inner_feedback.label()),
    {
        describe(self.enabled, self.inner_feedback.name())
    }
}

/// The diagnostic text for a coordinator with flag `enabled` around an oracle
/// named `inner`.
pub fn describe(enabled: bool, inner: &str) -> (r: String)
    ensures
        r@ == description(enabled, inner@),
{
    let flag = if enabled { "true" } else { "false" };
    let mut s = String::from_str("Sha3WrappedFeedback { enabled: ");
    s.append(flag);
    s.append(", inner: ");
    s.append(inner);
    s.append(" }");
    proof {
        reveal_strlit("Sha3WrappedFeedback { enabled: ");
        reveal_strlit("true");
        reveal_strlit("false");
        reveal_strlit(", inner: ");
        reveal_strlit(" }");
    }
    s
}

} // verus!

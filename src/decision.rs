//! The per-evaluation decision: from the oracle's verdict to the effects that
//! follow it.
use vstd::prelude::*;

verus! {

/// libafl's error type: what an oracle fails with, handed back to the caller
/// unchanged.
#[verifier::external_type_specification]
#[verifier::external_body]
pub struct ExError(libafl::Error);

/// A side effect that an evaluation calls for after the oracle has answered.
#[derive(Clone, Copy, Debug, PartialEq, Eq, Structural)]
pub enum Effect {
    /// Discard every taint fact that the tracker holds.
    ResetTracker,
    /// Execute the input once more with the tracker attached.
    Replay,
}

/// Whether a verdict calls for a taint-gathering replay: the coordinator is
/// enabled, the oracle accepted the input, and the input is complete.
pub open spec fn replay_due(enabled: bool, verdict: Result<bool, libafl::Error>, is_step: bool) -> bool {
    enabled && verdict == Ok::<bool, libafl::Error>(true) && !is_step
}

/// The effects, in order, that one evaluation calls for.
pub open spec fn effects_of(enabled: bool, verdict: Result<bool, libafl::Error>, is_step: bool) -> Seq<Effect> {
    if replay_due(enabled, verdict, is_step) {
        seq![Effect::ResetTracker, Effect::Replay]
    } else {
        Seq::empty()
    }
}

/// What one evaluation calls for: the verdict it returns and the effects to
/// carry out before returning.
pub struct Decision {
    pub verdict: Result<bool, libafl::Error>,
    pub effects: Vec<Effect>,
}

/// Decides what follows the oracle's `verdict` on an input whose step marker is
/// `is_step`. The verdict is passed on as it came.
pub fn decide(enabled: bool, verdict: Result<bool, libafl::Error>, is_step: bool) -> (d: Decision)
    ensures
        d.verdict == verdict,
        d.effects@ == effects_of(enabled, verdict, is_step),
{
    let mut effects: Vec<Effect> = Vec::new();
    let accepted = match &verdict {
        Ok(v) => *v,
        Err(_) => false,
    };
    if enabled && accepted && !is_step {
        effects.push(Effect::ResetTracker);
        effects.push(Effect::Replay);
    }
    proof {
        assert(effects@ =~= effects_of(enabled, verdict, is_step));
    }
    Decision { verdict, effects }
}

/// A disabled coordinator calls for no effect, whatever the verdict and the
/// kind of input.
pub proof fn lemma_disabled_is_inert(verdict: Result<bool, libafl::Error>, is_step: bool)
    ensures
        effects_of(false, verdict, is_step) == Seq::<Effect>::empty(),
{
}

/// A reset of the tracker, and a replay of the input, are called for exactly
/// when the coordinator is enabled, the oracle accepted the input, and the
/// input is complete.
pub proof fn lemma_gating(enabled: bool, verdict: Result<bool, libafl::Error>, is_step: bool)
    ensures
        effects_of(enabled, verdict, is_step).contains(Effect::ResetTracker)
            <==> (enabled && verdict == Ok::<bool, libafl::Error>(true) && !is_step),
        effects_of(enabled, verdict, is_step).contains(Effect::Replay)
            <==> (enabled && verdict == Ok::<bool, libafl::Error>(true) && !is_step),
{
    let e = effects_of(enabled, verdict, is_step);
    if replay_due(enabled, verdict, is_step) {
        assert(e[0] == Effect::ResetTracker);
        assert(e[1] == Effect::Replay);
    }
}

/// In the effects that an evaluation calls for, every replay comes after a
/// reset of the tracker, and there is at most one replay.
pub proof fn lemma_reset_precedes_replay(enabled: bool, verdict: Result<bool, libafl::Error>, is_step: bool)
    ensures
        forall|j: int|
            0 <= j < effects_of(enabled, verdict, is_step).len()
                && #[trigger] effects_of(enabled, verdict, is_step)[j] == Effect::Replay
                ==> exists|i: int| 0 <= i < j && effects_of(enabled, verdict, is_step)[i] == Effect::ResetTracker,
        forall|j: int, k: int|
            0 <= j < effects_of(enabled, verdict, is_step).len()
                && 0 <= k < effects_of(enabled, verdict, is_step).len()
                && #[trigger] effects_of(enabled, verdict, is_step)[j] == Effect::Replay
                && #[trigger] effects_of(enabled, verdict, is_step)[k] == Effect::Replay
                ==> j == k,
{
    let e = effects_of(enabled, verdict, is_step);
    if replay_due(enabled, verdict, is_step) {
        assert forall|j: int| 0 <= j < e.len() && #[trigger] e[j] == Effect::Replay
            implies exists|i: int| 0 <= i < j && e[i] == Effect::ResetTracker by {
            assert(j == 1);
            assert(e[0] == Effect::ResetTracker);
        }
    }
}

} // verus!

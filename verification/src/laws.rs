use vstd::prelude::*;

use crate::codec::{
    action_of, code_ref_of, header_wf, is_governance, target_chain_of, ACTION_UPGRADE,
    DEPLOYMENT_CHAIN, UPGRADE_ENVELOPE_LEN,
};
use crate::digest::digest_of;
use crate::error::GovernanceError;
use crate::processor::{next_consumed, outcome};
use crate::validator::{validate, DecreeView};

verus! {

/// Targeting: a first attempt on an upgrade decree that names another
/// deployment fails with the targeting error and creates no record.
pub proof fn lemma_targeting_invariant(consumed: Set<Seq<u8>>, env: Seq<u8>, target: Seq<u8>)
    requires
        header_wf(env),
        is_governance(env),
        action_of(env) == ACTION_UPGRADE,
        env.len() == UPGRADE_ENVELOPE_LEN,
        target_chain_of(env) != DEPLOYMENT_CHAIN,
        !consumed.contains(digest_of(env)),
    ensures
        outcome(consumed, env, target) == Err::<DecreeView, GovernanceError>(
            GovernanceError::GovernanceForAnotherChain,
        ),
        next_consumed(consumed, env, target) == consumed,
{
}

/// Action type: a first attempt on a governance payload that is not an
/// upgrade fails with the action-type error before any record is created.
pub proof fn lemma_action_type_invariant(consumed: Set<Seq<u8>>, env: Seq<u8>, target: Seq<u8>)
    requires
        header_wf(env),
        is_governance(env),
        action_of(env) != ACTION_UPGRADE,
        !consumed.contains(digest_of(env)),
    ensures
        outcome(consumed, env, target) == Err::<DecreeView, GovernanceError>(
            GovernanceError::InvalidGovernanceAction,
        ),
        next_consumed(consumed, env, target) == consumed,
{
}

/// Match: a first attempt whose decree references code other than the
/// caller-supplied target fails with the mismatch error and creates no
/// record.
pub proof fn lemma_match_invariant(consumed: Set<Seq<u8>>, env: Seq<u8>, target: Seq<u8>)
    requires
        header_wf(env),
        is_governance(env),
        action_of(env) == ACTION_UPGRADE,
        env.len() == UPGRADE_ENVELOPE_LEN,
        target_chain_of(env) == DEPLOYMENT_CHAIN,
        code_ref_of(env) != target,
        !consumed.contains(digest_of(env)),
    ensures
        outcome(consumed, env, target) == Err::<DecreeView, GovernanceError>(
            GovernanceError::ImplementationMismatch,
        ),
        next_consumed(consumed, env, target) == consumed,
{
}

/// Exactly once: an attempt whose decree validates was a first attempt and
/// creates exactly the one record for its envelope; every later attempt with
/// the same envelope, whatever its target, fails with the replay error and
/// changes nothing.
pub proof fn lemma_exactly_once(
    consumed: Set<Seq<u8>>,
    env: Seq<u8>,
    target: Seq<u8>,
    later_target: Seq<u8>,
)
    requires
        outcome(consumed, env, target) is Ok,
    ensures
        !consumed.contains(digest_of(env)),
        next_consumed(consumed, env, target) == consumed.insert(digest_of(env)),
        outcome(next_consumed(consumed, env, target), env, later_target) == Err::<
            DecreeView,
            GovernanceError,
        >(GovernanceError::AlreadyConsumed),
        next_consumed(next_consumed(consumed, env, target), env, later_target) == next_consumed(
            consumed,
            env,
            target,
        ),
{
    assert(validate(env, target) is Ok);
    assert(header_wf(env));
}

/// Replay: an attempt on an envelope whose fingerprint is already recorded,
/// however the records got there and whatever the attempt's target, fails
/// with the replay error and mutates nothing.
pub proof fn lemma_replay_rejected(consumed: Set<Seq<u8>>, env: Seq<u8>, target: Seq<u8>)
    requires
        header_wf(env),
        consumed.contains(digest_of(env)),
    ensures
        outcome(consumed, env, target) == Err::<DecreeView, GovernanceError>(
            GovernanceError::AlreadyConsumed,
        ),
        next_consumed(consumed, env, target) == consumed,
{
}

/// Permanence: no attempt ever removes a consumption record, so with
/// [`lemma_replay_rejected`] an envelope once consumed is rejected by every
/// later attempt.
pub proof fn lemma_records_are_permanent(consumed: Set<Seq<u8>>, env: Seq<u8>, target: Seq<u8>)
    ensures
        consumed.subset_of(next_consumed(consumed, env, target)),
{
    assert forall|fp: Seq<u8>| consumed.contains(fp) implies next_consumed(
        consumed,
        env,
        target,
    ).contains(fp) by {}
}

/// Atomicity: a rejected attempt, whatever its error, leaves the consumption
/// records exactly as they were; only an accepted attempt returns an
/// invocation, so a rejection also authorizes no upgrade.
pub proof fn lemma_atomicity(consumed: Set<Seq<u8>>, env: Seq<u8>, target: Seq<u8>)
    requires
        outcome(consumed, env, target) is Err,
    ensures
        next_consumed(consumed, env, target) == consumed,
{
}

/// Ordering: starting from records that do not hold the envelope's
/// fingerprint, the record for the envelope exists after the attempt if and
/// only if its decree validated.
pub proof fn lemma_ordering(consumed: Set<Seq<u8>>, env: Seq<u8>, target: Seq<u8>)
    requires
        !consumed.contains(digest_of(env)),
    ensures
        next_consumed(consumed, env, target).contains(digest_of(env)) <==> outcome(
            consumed,
            env,
            target,
        ) is Ok,
{
}

} // verus!

use crate::errors::SettlerError;
use crate::state::Intent;
use crate::types::KEY_LEN;
use vstd::prelude::*;

verus! {

/// When reclamation succeeds: the caller is the intent's creator and the
/// deadline lies strictly in the past. Nothing else matters — finality,
/// attestation count and fulfillment state place no constraint on
/// reclaiming an abandoned record.
pub open spec fn claim_stale_intent_ok(intent: Intent, caller: Seq<u8>, now: u64) -> bool {
    &&& intent.intent_creator@ == caller
    &&& intent.deadline < now
}

/// Approves reclaiming a stale intent: on `Ok` the ledger closes the record
/// and returns its reserved resources to the creator. A record whose
/// deadline equals `now` is deliberately neither live nor reclaimable: the
/// live checks ask for `deadline > now` and this one for `deadline < now`,
/// so the two sets of states never overlap, at the price of a one-tick gap.
pub fn claim_stale_intent(intent: &Intent, caller: &Vec<u8>, now: u64) -> (r: Result<
    (),
    SettlerError,
>)
    requires
        intent.wf(),
        caller.len() == KEY_LEN,
    ensures
        r is Ok <==> claim_stale_intent_ok(*intent, caller@, now),
        r matches Err(e) ==> e == (if intent.intent_creator@ != caller@ {
            SettlerError::IncorrectIntentCreator
        } else {
            SettlerError::IntentNotYetExpired
        }),
{
    if !crate::bytes::bytes_eq(&intent.intent_creator, caller) {
        return Err(SettlerError::IncorrectIntentCreator);
    }
    if !(intent.deadline < now) {
        return Err(SettlerError::IntentNotYetExpired);
    }
    Ok(())
}

} // verus!

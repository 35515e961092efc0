use crate::errors::SettlerError;
use crate::state::Proposal;
use crate::types::KEY_LEN;
use vstd::prelude::*;

verus! {

/// When a batch reclamation succeeds: every candidate was created by the
/// caller and every candidate's deadline lies strictly in the past. One
/// bad candidate aborts the whole batch — there is no partial reclamation.
pub open spec fn claim_stale_proposals_ok(
    proposals: Seq<Proposal>,
    caller: Seq<u8>,
    now: u64,
) -> bool {
    forall|i: int|
        0 <= i < proposals.len() ==> (#[trigger] proposals[i]).proposal_creator@ == caller && now
            > proposals[i].deadline
}

/// The first complaint of the left-to-right candidate scan at or after
/// position `i`: a foreign creator counts before a live deadline at the
/// same position.
pub open spec fn spec_claim_err_from(
    proposals: Seq<Proposal>,
    caller: Seq<u8>,
    now: u64,
    i: int,
) -> Option<SettlerError>
    decreases proposals.len() - i,
{
    if i < 0 || i >= proposals.len() {
        None
    } else if proposals[i].proposal_creator@ != caller {
        Some(SettlerError::IncorrectProposalCreator)
    } else if !(now > proposals[i].deadline) {
        Some(SettlerError::ProposalNotYetExpired)
    } else {
        spec_claim_err_from(proposals, caller, now, i + 1)
    }
}

/// The scan reports no complaint exactly when every candidate is in order.
pub proof fn lemma_claim_err_from_none(proposals: Seq<Proposal>, caller: Seq<u8>, now: u64, i: int)
    requires
        0 <= i <= proposals.len(),
    ensures
        spec_claim_err_from(proposals, caller, now, i) is None <==> forall|j: int|
            i <= j < proposals.len() ==> (#[trigger] proposals[j]).proposal_creator@ == caller
                && now > proposals[j].deadline,
    decreases proposals.len() - i,
{
    if i < proposals.len() {
        lemma_claim_err_from_none(proposals, caller, now, i + 1);
    }
}

/// Approves reclaiming a batch of stale proposals: on `Ok` the ledger
/// closes every candidate and returns its resources to the creator; on
/// `Err` it closes none (fail-fast, all or nothing). A candidate whose
/// deadline equals `now` is deliberately neither live nor reclaimable.
#[verifier::loop_isolation(false)]
pub fn claim_stale_proposals(proposals: &Vec<Proposal>, caller: &Vec<u8>, now: u64) -> (r: Result<
    (),
    SettlerError,
>)
    requires
        caller.len() == KEY_LEN,
    ensures
        r is Ok <==> claim_stale_proposals_ok(proposals@, caller@, now),
        r matches Err(e) ==> Some(e) == spec_claim_err_from(proposals@, caller@, now, 0),
{
    let n = proposals.len();
    let mut i: usize = 0;
    while i < n
        invariant
            i <= n,
            spec_claim_err_from(proposals@, caller@, now, 0) == spec_claim_err_from(
                proposals@,
                caller@,
                now,
                i as int,
            ),
            forall|j: int|
                0 <= j < i ==> (#[trigger] proposals@[j]).proposal_creator@ == caller@ && now
                    > proposals@[j].deadline,
        decreases n - i,
    {
        if !crate::bytes::bytes_eq(&proposals[i].proposal_creator, caller) {
            return Err(SettlerError::IncorrectProposalCreator);
        }
        if !(now > proposals[i].deadline) {
            return Err(SettlerError::ProposalNotYetExpired);
        }
        i = i + 1;
    }
    proof {
        lemma_claim_err_from_none(proposals@, caller@, now, 0);
    }
    Ok(())
}

} // verus!

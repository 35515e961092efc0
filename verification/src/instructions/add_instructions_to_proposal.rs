use crate::errors::SettlerError;
use crate::state::{spec_proposal_extended_size, Proposal};
use crate::types::{ProposalInstruction, KEY_LEN};
use vstd::prelude::*;

verus! {

/// When appending staged instructions succeeds: the caller is the
/// proposal's creator, the proposal is not expired and not yet final, and
/// the grown footprint is representable.
pub open spec fn add_instructions_ok(
    proposal: Proposal,
    current_size: nat,
    caller: Seq<u8>,
    now: u64,
    more_instructions: Seq<ProposalInstruction>,
) -> bool {
    &&& proposal.proposal_creator@ == caller
    &&& proposal.deadline > now
    &&& !proposal.is_final
    &&& spec_proposal_extended_size(current_size, more_instructions) <= usize::MAX
}

/// The error appending reports, checks made in the order listed in
/// `add_instructions_ok`.
pub open spec fn add_instructions_err(
    proposal: Proposal,
    current_size: nat,
    caller: Seq<u8>,
    now: u64,
    more_instructions: Seq<ProposalInstruction>,
) -> SettlerError {
    if proposal.proposal_creator@ != caller {
        SettlerError::IncorrectProposalCreator
    } else if !(proposal.deadline > now) {
        SettlerError::ProposalIsExpired
    } else if proposal.is_final {
        SettlerError::ProposalIsFinal
    } else {
        SettlerError::MathError
    }
}

/// Appends staged instructions to an unfinalized, unexpired proposal and
/// optionally latches it final — a one-way transition. Returns the
/// record's grown storage footprint, computed from the previous footprint
/// `current_size`; the ledger zero-fills the newly acquired region before
/// it reinterprets it as typed data.
pub fn add_instructions_to_proposal(
    proposal: &mut Proposal,
    current_size: usize,
    caller: &Vec<u8>,
    now: u64,
    more_instructions: Vec<ProposalInstruction>,
    finalize: bool,
) -> (r: Result<usize, SettlerError>)
    requires
        old(proposal).wf(),
        caller.len() == KEY_LEN,
        forall|i: int|
            0 <= i < more_instructions.len() ==> (#[trigger] more_instructions[i]).wf(),
    ensures
        r is Ok <==> add_instructions_ok(
            *old(proposal),
            current_size as nat,
            caller@,
            now,
            more_instructions@,
        ),
        old(proposal).is_final ==> r is Err,
        r matches Ok(sz) ==> {
            &&& final(proposal).instructions@ == old(proposal).instructions@
                + more_instructions@
            &&& final(proposal).is_final == finalize
            &&& final(proposal).intent == old(proposal).intent
            &&& final(proposal).proposal_creator == old(proposal).proposal_creator
            &&& final(proposal).deadline == old(proposal).deadline
            &&& final(proposal).is_signed == old(proposal).is_signed
            &&& final(proposal).fees == old(proposal).fees
            &&& final(proposal).bump == old(proposal).bump
            &&& final(proposal).wf()
            &&& sz == spec_proposal_extended_size(current_size as nat, more_instructions@)
        },
        r matches Err(e) ==> {
            &&& *final(proposal) == *old(proposal)
            &&& e == add_instructions_err(
                *old(proposal),
                current_size as nat,
                caller@,
                now,
                more_instructions@,
            )
        },
{
    if !crate::bytes::bytes_eq(&proposal.proposal_creator, caller) {
        return Err(SettlerError::IncorrectProposalCreator);
    }
    if !(proposal.deadline > now) {
        return Err(SettlerError::ProposalIsExpired);
    }
    if proposal.is_final {
        return Err(SettlerError::ProposalIsFinal);
    }
    let new_size = Proposal::extended_size(current_size, &more_instructions)?;

    let mut more = more_instructions;
    proposal.instructions.append(&mut more);
    proposal.is_final = finalize;

    Ok(new_size)
}

} // verus!

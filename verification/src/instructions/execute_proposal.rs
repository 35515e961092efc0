use crate::errors::SettlerError;
use crate::state::{FulfilledIntent, Intent, Proposal};
use crate::types::{
    copy_event, copy_fee, copy_instruction, event_eqv, fee_eqv, instruction_eqv, IntentEvent,
    ProposalInstruction, TokenFee, KEY_LEN,
};
use crate::whitelist::{spec_entry_whitelists, EntityRegistry, EntityType};
use vstd::prelude::*;

verus! {

/// One emitted domain event: the wrapper the settlement step logs for each
/// entry recorded on the intent, in their original order.
#[derive(Clone, Debug)]
pub struct IntentEventEvent {
    pub event: IntentEvent,
}

/// What a successful settlement obliges the hosting ledger to do, all
/// within the same atomic step: initialize the fulfillment marker at the
/// intent's hash-derived address, close both records to their creators,
/// emit the listed events in order, run the staged instructions against
/// their targets and disburse the listed fees to the solver. The last two
/// are handed out explicitly — a host must perform them through its own
/// execution step, never silently drop them.
#[derive(Debug)]
pub struct ExecutionOutcome {
    pub marker: FulfilledIntent,
    pub emitted: Vec<IntentEventEvent>,
    pub pending_instructions: Vec<ProposalInstruction>,
    pub pending_fees: Vec<TokenFee>,
    pub proposal_rent_to: Vec<u8>,
    pub intent_rent_to: Vec<u8>,
}

/// When settlement succeeds: the caller resolves to a whitelisted solver,
/// the proposal references exactly the supplied intent, both supplied
/// creator accounts match the stored ones, the fulfillment marker does not
/// exist yet, the proposal is countersigned, and its deadline lies
/// strictly in the future.
pub open spec fn execute_ok(
    now: u64,
    solver: Seq<u8>,
    solver_registry: EntityRegistry,
    proposal: Proposal,
    intent: Intent,
    intent_key: Seq<u8>,
    proposal_creator: Seq<u8>,
    intent_creator: Seq<u8>,
    fulfilled_exists: bool,
) -> bool {
    &&& spec_entry_whitelists(solver_registry, EntityType::Solver, solver)
    &&& proposal.intent@ == intent_key
    &&& proposal.proposal_creator@ == proposal_creator
    &&& proposal.is_signed
    &&& intent.intent_creator@ == intent_creator
    &&& !fulfilled_exists
    &&& proposal.deadline > now
}

/// The error settlement reports, checks made in the order listed in
/// `execute_ok`.
pub open spec fn execute_err(
    now: u64,
    solver: Seq<u8>,
    solver_registry: EntityRegistry,
    proposal: Proposal,
    intent: Intent,
    intent_key: Seq<u8>,
    proposal_creator: Seq<u8>,
    intent_creator: Seq<u8>,
    fulfilled_exists: bool,
) -> SettlerError {
    if !spec_entry_whitelists(solver_registry, EntityType::Solver, solver) {
        SettlerError::OnlySolver
    } else if proposal.intent@ != intent_key {
        SettlerError::IncorrectIntentForProposal
    } else if proposal.proposal_creator@ != proposal_creator {
        SettlerError::IncorrectProposalCreator
    } else if !proposal.is_signed {
        SettlerError::ProposalIsNotSigned
    } else if intent.intent_creator@ != intent_creator {
        SettlerError::IncorrectIntentCreator
    } else if fulfilled_exists {
        SettlerError::IntentAlreadyFulfilled
    } else {
        SettlerError::ProposalIsExpired
    }
}

/// Settles a countersigned, unexpired proposal. On `Ok` the returned
/// outcome creates the one-time fulfillment marker for the intent's hash —
/// its prior absence is the double-execution guard — closes both records,
/// and lists every event recorded on the intent exactly once, in their
/// original order, together with the staged instructions and fees the host
/// still has to execute and disburse.
#[verifier::loop_isolation(false)]
pub fn execute_proposal(
    now: u64,
    solver: &Vec<u8>,
    solver_registry: &EntityRegistry,
    proposal: &Proposal,
    intent: &Intent,
    intent_key: &Vec<u8>,
    proposal_creator: &Vec<u8>,
    intent_creator: &Vec<u8>,
    fulfilled_exists: bool,
    marker_bump: u8,
) -> (r: Result<ExecutionOutcome, SettlerError>)
    requires
        proposal.wf(),
        intent.wf(),
        solver.len() == KEY_LEN,
        intent_key.len() == KEY_LEN,
        proposal_creator.len() == KEY_LEN,
        intent_creator.len() == KEY_LEN,
    ensures
        r is Ok <==> execute_ok(
            now,
            solver@,
            *solver_registry,
            *proposal,
            *intent,
            intent_key@,
            proposal_creator@,
            intent_creator@,
            fulfilled_exists,
        ),
        r matches Ok(out) ==> {
            &&& out.marker == FulfilledIntent { bump: marker_bump }
            &&& out.emitted.len() == intent.events.len()
            &&& forall|i: int|
                0 <= i < intent.events.len() ==> event_eqv(
                    intent.events[i],
                    (#[trigger] out.emitted[i]).event,
                )
            &&& out.pending_instructions.len() == proposal.instructions.len()
            &&& forall|i: int|
                0 <= i < proposal.instructions.len() ==> instruction_eqv(
                    proposal.instructions[i],
                    #[trigger] out.pending_instructions[i],
                )
            &&& out.pending_fees.len() == proposal.fees.len()
            &&& forall|i: int|
                0 <= i < proposal.fees.len() ==> fee_eqv(
                    proposal.fees[i],
                    #[trigger] out.pending_fees[i],
                )
            &&& out.proposal_rent_to@ == proposal.proposal_creator@
            &&& out.intent_rent_to@ == intent.intent_creator@
        },
        r matches Err(e) ==> e == execute_err(
            now,
            solver@,
            *solver_registry,
            *proposal,
            *intent,
            intent_key@,
            proposal_creator@,
            intent_creator@,
            fulfilled_exists,
        ),
{
    if !crate::whitelist::entry_whitelists(solver_registry, EntityType::Solver, solver) {
        return Err(SettlerError::OnlySolver);
    }
    if !crate::bytes::bytes_eq(&proposal.intent, intent_key) {
        return Err(SettlerError::IncorrectIntentForProposal);
    }
    if !crate::bytes::bytes_eq(&proposal.proposal_creator, proposal_creator) {
        return Err(SettlerError::IncorrectProposalCreator);
    }
    if !proposal.is_signed {
        return Err(SettlerError::ProposalIsNotSigned);
    }
    if !crate::bytes::bytes_eq(&intent.intent_creator, intent_creator) {
        return Err(SettlerError::IncorrectIntentCreator);
    }
    if fulfilled_exists {
        return Err(SettlerError::IntentAlreadyFulfilled);
    }
    if !(proposal.deadline > now) {
        return Err(SettlerError::ProposalIsExpired);
    }

    let mut emitted: Vec<IntentEventEvent> = Vec::new();
    let n_events = intent.events.len();
    let mut i: usize = 0;
    while i < n_events
        invariant
            i <= n_events,
            emitted.len() == i,
            forall|j: int|
                0 <= j < i ==> event_eqv(intent.events[j], (#[trigger] emitted[j]).event),
        decreases n_events - i,
    {
        emitted.push(IntentEventEvent { event: copy_event(&intent.events[i]) });
        i = i + 1;
    }

    let mut pending_instructions: Vec<ProposalInstruction> = Vec::new();
    let n_ix = proposal.instructions.len();
    let mut i: usize = 0;
    while i < n_ix
        invariant
            i <= n_ix,
            pending_instructions.len() == i,
            forall|j: int|
                0 <= j < i ==> instruction_eqv(
                    proposal.instructions[j],
                    #[trigger] pending_instructions[j],
                ),
        decreases n_ix - i,
    {
        pending_instructions.push(copy_instruction(&proposal.instructions[i]));
        i = i + 1;
    }

    let mut pending_fees: Vec<TokenFee> = Vec::new();
    let n_fees = proposal.fees.len();
    let mut i: usize = 0;
    while i < n_fees
        invariant
            i <= n_fees,
            pending_fees.len() == i,
            forall|j: int| 0 <= j < i ==> fee_eqv(proposal.fees[j], #[trigger] pending_fees[j]),
        decreases n_fees - i,
    {
        pending_fees.push(copy_fee(&proposal.fees[i]));
        i = i + 1;
    }

    Ok(
        ExecutionOutcome {
            marker: FulfilledIntent { bump: marker_bump },
            emitted,
            pending_instructions,
            pending_fees,
            proposal_rent_to: crate::bytes::copy_range(
                &proposal.proposal_creator,
                0,
                proposal.proposal_creator.len(),
            ),
            intent_rent_to: crate::bytes::copy_range(
                &intent.intent_creator,
                0,
                intent.intent_creator.len(),
            ),
        },
    )
}

} // verus!

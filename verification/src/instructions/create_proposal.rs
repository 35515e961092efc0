use crate::errors::SettlerError;
use crate::state::{spec_proposal_total_size, Intent, Proposal, SettlerSettings};
use crate::types::{ProposalInstruction, TokenFee, KEY_LEN};
use crate::whitelist::{spec_entry_whitelists, EntityRegistry, EntityType};
use vstd::prelude::*;

verus! {

/// Whether every fee entry matches its cap positionally: same length, same
/// asset at every position, and no amount above its cap.
pub open spec fn spec_fees_ok(fees: Seq<TokenFee>, caps: Seq<TokenFee>) -> bool {
    &&& fees.len() == caps.len()
    &&& forall|i: int|
        0 <= i < fees.len() ==> (#[trigger] fees[i]).mint@ == caps[i].mint@ && fees[i].amount
            <= caps[i].amount
}

/// The first fee complaint at or after position `i`, scanning left to
/// right: a wrong asset counts before an excessive amount at the same
/// position.
pub open spec fn spec_fee_err_from(fees: Seq<TokenFee>, caps: Seq<TokenFee>, i: int) -> Option<
    SettlerError,
>
    decreases fees.len() - i,
{
    if i < 0 || i >= fees.len() || fees.len() != caps.len() {
        None
    } else if fees[i].mint@ != caps[i].mint@ {
        Some(SettlerError::InvalidFeeMint)
    } else if fees[i].amount > caps[i].amount {
        Some(SettlerError::FeeAmountExceedsMaxFee)
    } else {
        spec_fee_err_from(fees, caps, i + 1)
    }
}

/// The scan reports no complaint exactly when every position is in order.
pub proof fn lemma_fee_err_from_none(fees: Seq<TokenFee>, caps: Seq<TokenFee>, i: int)
    requires
        fees.len() == caps.len(),
        0 <= i <= fees.len(),
    ensures
        spec_fee_err_from(fees, caps, i) is None <==> forall|j: int|
            i <= j < fees.len() ==> (#[trigger] fees[j]).mint@ == caps[j].mint@ && fees[j].amount
                <= caps[j].amount,
    decreases fees.len() - i,
{
    if i < fees.len() {
        lemma_fee_err_from_none(fees, caps, i + 1);
    }
}

/// When proposal creation succeeds: the protocol is not paused, the caller
/// resolves to a whitelisted solver, the intent is not settled, no proposal
/// of this solver lives yet at the derived address, the footprint is
/// representable, both deadlines lie strictly in the future with the
/// proposal's not exceeding the intent's, the intent is final with its
/// quorum reached, and every fee respects its cap. One bad fee position
/// aborts the whole creation.
pub open spec fn create_proposal_ok(
    settings: SettlerSettings,
    now: u64,
    solver: Seq<u8>,
    solver_registry: EntityRegistry,
    intent: Intent,
    fulfilled_exists: bool,
    proposal_exists: bool,
    instructions: Seq<ProposalInstruction>,
    fees: Seq<TokenFee>,
    deadline: u64,
) -> bool {
    &&& !settings.is_paused
    &&& spec_entry_whitelists(solver_registry, EntityType::Solver, solver)
    &&& !fulfilled_exists
    &&& !proposal_exists
    &&& spec_proposal_total_size(instructions, fees.len() as nat) <= usize::MAX
    &&& deadline > now
    &&& intent.deadline > now
    &&& deadline <= intent.deadline
    &&& intent.validations >= intent.min_validations
    &&& intent.is_final
    &&& spec_fees_ok(fees, intent.max_fees@)
}

/// The error proposal creation reports, checks made in the order listed in
/// `create_proposal_ok`, the per-position fee scan last.
pub open spec fn create_proposal_err(
    settings: SettlerSettings,
    now: u64,
    solver: Seq<u8>,
    solver_registry: EntityRegistry,
    intent: Intent,
    fulfilled_exists: bool,
    proposal_exists: bool,
    instructions: Seq<ProposalInstruction>,
    fees: Seq<TokenFee>,
    deadline: u64,
) -> SettlerError {
    if settings.is_paused {
        SettlerError::ProtocolPaused
    } else if !spec_entry_whitelists(solver_registry, EntityType::Solver, solver) {
        SettlerError::OnlySolver
    } else if fulfilled_exists {
        SettlerError::IntentAlreadyFulfilled
    } else if proposal_exists {
        SettlerError::AccountAlreadyInUse
    } else if !(spec_proposal_total_size(instructions, fees.len() as nat) <= usize::MAX) {
        SettlerError::MathError
    } else if !(deadline > now) {
        SettlerError::DeadlineIsInThePast
    } else if !(intent.deadline > now) {
        SettlerError::IntentIsExpired
    } else if !(deadline <= intent.deadline) {
        SettlerError::ProposalDeadlineExceedsIntentDeadline
    } else if !(intent.validations >= intent.min_validations) {
        SettlerError::InsufficientIntentValidations
    } else if !intent.is_final {
        SettlerError::IntentIsNotFinal
    } else if fees.len() != intent.max_fees@.len() {
        SettlerError::InvalidFeeMint
    } else {
        match spec_fee_err_from(fees, intent.max_fees@, 0) {
            Some(e) => e,
            None => SettlerError::InvalidFeeMint,
        }
    }
}

/// Stages a proposal for a finalized, unexpired, fully attested intent on
/// behalf of a whitelisted solver, and returns it together with its exact
/// storage footprint. The fee list must match the intent's fee caps
/// entry by entry; the staged instruction list is the concrete cross-chain
/// plan a later settlement will be asked to execute.
#[verifier::loop_isolation(false)]
pub fn create_proposal(
    settings: &SettlerSettings,
    now: u64,
    solver: &Vec<u8>,
    solver_registry: &EntityRegistry,
    intent: &Intent,
    intent_key: Vec<u8>,
    fulfilled_exists: bool,
    proposal_exists: bool,
    instructions: Vec<ProposalInstruction>,
    fees: Vec<TokenFee>,
    deadline: u64,
    is_final: bool,
    bump: u8,
) -> (r: Result<(Proposal, usize), SettlerError>)
    requires
        intent.wf(),
        solver.len() == KEY_LEN,
        intent_key.len() == KEY_LEN,
        forall|i: int| 0 <= i < instructions.len() ==> (#[trigger] instructions[i]).wf(),
        forall|i: int| 0 <= i < fees.len() ==> (#[trigger] fees[i]).wf(),
    ensures
        r is Ok <==> create_proposal_ok(
            *settings,
            now,
            solver@,
            *solver_registry,
            *intent,
            fulfilled_exists,
            proposal_exists,
            instructions@,
            fees@,
            deadline,
        ),
        r matches Ok(p) ==> {
            &&& p.0.intent == intent_key
            &&& p.0.proposal_creator@ == solver@
            &&& p.0.deadline == deadline
            &&& p.0.is_final == is_final
            &&& !p.0.is_signed
            &&& p.0.instructions == instructions
            &&& p.0.fees == fees
            &&& p.0.bump == bump
            &&& p.0.wf()
            &&& p.1 == spec_proposal_total_size(instructions@, fees@.len() as nat)
        },
        r matches Err(e) ==> e == create_proposal_err(
            *settings,
            now,
            solver@,
            *solver_registry,
            *intent,
            fulfilled_exists,
            proposal_exists,
            instructions@,
            fees@,
            deadline,
        ),
{
    if settings.is_paused {
        return Err(SettlerError::ProtocolPaused);
    }
    if !crate::whitelist::entry_whitelists(solver_registry, EntityType::Solver, solver) {
        return Err(SettlerError::OnlySolver);
    }
    if fulfilled_exists {
        return Err(SettlerError::IntentAlreadyFulfilled);
    }
    if proposal_exists {
        return Err(SettlerError::AccountAlreadyInUse);
    }
    let space = Proposal::total_size(&instructions, fees.len())?;
    if !(deadline > now) {
        return Err(SettlerError::DeadlineIsInThePast);
    }
    if !(intent.deadline > now) {
        return Err(SettlerError::IntentIsExpired);
    }
    if !(deadline <= intent.deadline) {
        return Err(SettlerError::ProposalDeadlineExceedsIntentDeadline);
    }
    if !(intent.validations >= intent.min_validations) {
        return Err(SettlerError::InsufficientIntentValidations);
    }
    if !intent.is_final {
        return Err(SettlerError::IntentIsNotFinal);
    }
    if fees.len() != intent.max_fees.len() {
        return Err(SettlerError::InvalidFeeMint);
    }

    let n = fees.len();
    let mut i: usize = 0;
    while i < n
        invariant
            i <= n,
            n == fees.len(),
            n == intent.max_fees.len(),
            forall|i: int| 0 <= i < fees.len() ==> (#[trigger] fees[i]).wf(),
            spec_fee_err_from(fees@, intent.max_fees@, 0) == spec_fee_err_from(
                fees@,
                intent.max_fees@,
                i as int,
            ),
            forall|j: int|
                0 <= j < i ==> (#[trigger] fees@[j]).mint@ == intent.max_fees@[j].mint@
                    && fees@[j].amount <= intent.max_fees@[j].amount,
        decreases n - i,
    {
        if !crate::bytes::bytes_eq(&fees[i].mint, &intent.max_fees[i].mint) {
            proof {
                assert(spec_fee_err_from(fees@, intent.max_fees@, i as int) == Some(
                    SettlerError::InvalidFeeMint,
                ));
            }
            return Err(SettlerError::InvalidFeeMint);
        }
        if fees[i].amount > intent.max_fees[i].amount {
            proof {
                assert(spec_fee_err_from(fees@, intent.max_fees@, i as int) == Some(
                    SettlerError::FeeAmountExceedsMaxFee,
                ));
            }
            return Err(SettlerError::FeeAmountExceedsMaxFee);
        }
        i = i + 1;
    }
    proof {
        lemma_fee_err_from_none(fees@, intent.max_fees@, 0);
    }

    let proposal = Proposal {
        intent: intent_key,
        proposal_creator: crate::bytes::copy_range(solver, 0, solver.len()),
        deadline,
        is_final,
        is_signed: false,
        instructions,
        fees,
        bump,
    };
    Ok((proposal, space))
}

} // verus!

use crate::errors::SettlerError;
use crate::state::{spec_intent_total_size, Intent, SettlerSettings};
use crate::types::{IntentEvent, OpType, TokenFee, KEY_LEN};
use crate::whitelist::{spec_entry_whitelists, EntityRegistry, EntityType};
use vstd::prelude::*;

verus! {

/// When intent creation succeeds: the protocol is not paused, the caller
/// resolves to a whitelisted solver, nothing lives yet at the hash-derived
/// intent address or at the fulfillment-marker address, the exact storage
/// footprint is representable, and the deadline lies strictly in the future.
pub open spec fn create_intent_ok(
    settings: SettlerSettings,
    now: u64,
    solver: Seq<u8>,
    solver_registry: EntityRegistry,
    intent_exists: bool,
    fulfilled_exists: bool,
    data_len: nat,
    max_fees_len: nat,
    events: Seq<IntentEvent>,
    min_validations: nat,
    deadline: u64,
) -> bool {
    &&& !settings.is_paused
    &&& spec_entry_whitelists(solver_registry, EntityType::Solver, solver)
    &&& !intent_exists
    &&& !fulfilled_exists
    &&& spec_intent_total_size(data_len, max_fees_len, events, min_validations) <= usize::MAX
    &&& deadline > now
}

/// The error intent creation reports, checks made in the order listed in
/// `create_intent_ok`.
pub open spec fn create_intent_err(
    settings: SettlerSettings,
    now: u64,
    solver: Seq<u8>,
    solver_registry: EntityRegistry,
    intent_exists: bool,
    fulfilled_exists: bool,
    data_len: nat,
    max_fees_len: nat,
    events: Seq<IntentEvent>,
    min_validations: nat,
    deadline: u64,
) -> SettlerError {
    if settings.is_paused {
        SettlerError::ProtocolPaused
    } else if !spec_entry_whitelists(solver_registry, EntityType::Solver, solver) {
        SettlerError::OnlySolver
    } else if intent_exists {
        SettlerError::AccountAlreadyInUse
    } else if fulfilled_exists {
        SettlerError::IntentAlreadyFulfilled
    } else if !(spec_intent_total_size(data_len, max_fees_len, events, min_validations)
        <= usize::MAX) {
        SettlerError::MathError
    } else {
        SettlerError::DeadlineIsInThePast
    }
}

/// Opens an intent record for `intent_hash` on behalf of a whitelisted
/// solver, and returns it together with its exact storage footprint, the
/// validator section already sized for the whole quorum. The hosting ledger
/// reports through `intent_exists` and `fulfilled_exists` whether the two
/// hash-derived addresses are already initialized; their untouchedness is
/// what enforces at-most-one live intent, and at most one settlement ever,
/// per hash.
pub fn create_intent(
    settings: &SettlerSettings,
    now: u64,
    solver: &Vec<u8>,
    solver_registry: &EntityRegistry,
    intent_exists: bool,
    fulfilled_exists: bool,
    intent_hash: Vec<u8>,
    data: Vec<u8>,
    max_fees: Vec<TokenFee>,
    events: Vec<IntentEvent>,
    min_validations: u16,
    op: OpType,
    user: Vec<u8>,
    nonce: Vec<u8>,
    deadline: u64,
    is_final: bool,
    bump: u8,
) -> (r: Result<(Intent, usize), SettlerError>)
    requires
        solver.len() == KEY_LEN,
        intent_hash.len() == KEY_LEN,
        user.len() == KEY_LEN,
        nonce.len() == KEY_LEN,
        forall|i: int| 0 <= i < max_fees.len() ==> (#[trigger] max_fees[i]).wf(),
        forall|i: int| 0 <= i < events.len() ==> (#[trigger] events[i]).wf(),
    ensures
        r is Ok <==> create_intent_ok(
            *settings,
            now,
            solver@,
            *solver_registry,
            intent_exists,
            fulfilled_exists,
            data.len() as nat,
            max_fees.len() as nat,
            events@,
            min_validations as nat,
            deadline,
        ),
        r matches Ok(p) ==> {
            &&& p.0.op == op
            &&& p.0.user == user
            &&& p.0.intent_creator@ == solver@
            &&& p.0.intent_hash == intent_hash
            &&& p.0.nonce == nonce
            &&& p.0.deadline == deadline
            &&& p.0.min_validations == min_validations
            &&& p.0.validations == 0
            &&& p.0.is_final == is_final
            &&& p.0.validators@ =~= Seq::<Vec<u8>>::empty()
            &&& p.0.intent_data == data
            &&& p.0.max_fees == max_fees
            &&& p.0.events == events
            &&& p.0.bump == bump
            &&& p.0.wf()
            &&& p.1 == spec_intent_total_size(
                data.len() as nat,
                max_fees.len() as nat,
                events@,
                min_validations as nat,
            )
        },
        r matches Err(e) ==> e == create_intent_err(
            *settings,
            now,
            solver@,
            *solver_registry,
            intent_exists,
            fulfilled_exists,
            data.len() as nat,
            max_fees.len() as nat,
            events@,
            min_validations as nat,
            deadline,
        ),
{
    if settings.is_paused {
        return Err(SettlerError::ProtocolPaused);
    }
    if !crate::whitelist::entry_whitelists(solver_registry, EntityType::Solver, solver) {
        return Err(SettlerError::OnlySolver);
    }
    if intent_exists {
        return Err(SettlerError::AccountAlreadyInUse);
    }
    if fulfilled_exists {
        return Err(SettlerError::IntentAlreadyFulfilled);
    }
    let space = Intent::total_size(data.len(), max_fees.len(), &events, min_validations)?;
    if !(deadline > now) {
        return Err(SettlerError::DeadlineIsInThePast);
    }

    let intent = Intent {
        op,
        user,
        intent_creator: crate::bytes::copy_range(solver, 0, solver.len()),
        intent_hash,
        nonce,
        deadline,
        min_validations,
        validations: 0,
        is_final,
        validators: Vec::new(),
        intent_data: data,
        max_fees,
        events,
        bump,
    };
    Ok((intent, space))
}

} // verus!

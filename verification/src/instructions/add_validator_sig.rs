use crate::bytes::contains_bytes;
use crate::errors::SettlerError;
use crate::pda::registry_address_of;
use crate::sigs::{spec_ed25519_header_ok, spec_is_ed25519_verifier, Instruction};
use crate::state::Intent;
use crate::types::KEY_LEN;
use crate::whitelist::{
    spec_entity_type_tag, spec_entry_whitelists, EntityRegistry, EntityType, WhitelistStatus,
};
use vstd::prelude::*;

verus! {

/// The public key the co-located verification instruction proves a
/// signature for: bytes 16..48 of its data.
pub open spec fn attest_signer(ix: Instruction) -> Seq<u8> {
    ix.data@.subrange(16, 48)
}

/// When an attestation is accepted (counted or not): the relaying solver is
/// whitelisted, the intent is not settled and not expired, the co-located
/// instruction is a well-formed single-signature verification of exactly
/// the intent's hash, and the supplied validator record is whitelisted and
/// lives at the address the registry scheme derives from the recovered
/// signer key — the binding is to the derived address, never to a
/// caller-asserted key.
pub open spec fn attest_ok(
    intent: Intent,
    now: u64,
    solver: Seq<u8>,
    solver_registry: EntityRegistry,
    fulfilled_exists: bool,
    validator_registry: EntityRegistry,
    validator_registry_key: Seq<u8>,
    whitelist_program: Seq<u8>,
    ix: Instruction,
) -> bool {
    &&& spec_entry_whitelists(solver_registry, EntityType::Solver, solver)
    &&& !fulfilled_exists
    &&& validator_registry.status == WhitelistStatus::Whitelisted
    &&& intent.deadline > now
    &&& spec_ed25519_header_ok(ix.data@)
    &&& spec_is_ed25519_verifier(ix)
    &&& ix.data@.subrange(112, ix.data@.len() as int) == intent.intent_hash@
    &&& registry_address_of(
        spec_entity_type_tag(EntityType::Validator),
        attest_signer(ix),
        validator_registry.bump,
        whitelist_program,
    ) == Some(validator_registry_key)
}

/// The error an attestation reports, checks made in the order listed in
/// `attest_ok`.
pub open spec fn attest_err(
    intent: Intent,
    now: u64,
    solver: Seq<u8>,
    solver_registry: EntityRegistry,
    fulfilled_exists: bool,
    validator_registry: EntityRegistry,
    validator_registry_key: Seq<u8>,
    whitelist_program: Seq<u8>,
    ix: Instruction,
) -> SettlerError {
    if !spec_entry_whitelists(solver_registry, EntityType::Solver, solver) {
        SettlerError::OnlySolver
    } else if fulfilled_exists {
        SettlerError::IntentAlreadyFulfilled
    } else if validator_registry.status != WhitelistStatus::Whitelisted {
        SettlerError::ValidatorNotWhitelisted
    } else if !(intent.deadline > now) {
        SettlerError::IntentIsExpired
    } else if !spec_ed25519_header_ok(ix.data@) {
        SettlerError::SigVerificationFailed
    } else if !spec_is_ed25519_verifier(ix) {
        SettlerError::SigVerificationFailed
    } else if ix.data@.subrange(112, ix.data@.len() as int) != intent.intent_hash@ {
        SettlerError::SigVerificationFailed
    } else {
        SettlerError::ValidatorNotWhitelisted
    }
}

/// Whether an accepted attestation leaves the intent untouched: the quorum
/// is already full, or this signer is already recorded.
pub open spec fn attest_is_noop(intent: Intent, ix: Instruction) -> bool {
    ||| intent.validators.len() == intent.min_validations
    ||| contains_bytes(intent.validators@, attest_signer(ix))
}

/// Records one validator attestation for the intent's hash, relayed by any
/// whitelisted solver alongside the signature-verification instruction that
/// the ledger executed immediately before this call.
///
/// The accumulator is idempotent and capped: a signer already recorded, or
/// an intent whose quorum is already full, leaves the record unchanged and
/// still succeeds; otherwise the signer is appended and the count grows by
/// one. The count never decreases and never exceeds the quorum.
pub fn add_validator_sig(
    intent: &mut Intent,
    now: u64,
    solver: &Vec<u8>,
    solver_registry: &EntityRegistry,
    fulfilled_exists: bool,
    validator_registry: &EntityRegistry,
    validator_registry_key: &Vec<u8>,
    whitelist_program: &Vec<u8>,
    ed25519_ix: &Instruction,
) -> (r: Result<(), SettlerError>)
    requires
        old(intent).wf(),
        solver.len() == KEY_LEN,
        validator_registry.wf(),
        validator_registry_key.len() == KEY_LEN,
        whitelist_program.len() == KEY_LEN,
    ensures
        r is Ok <==> attest_ok(
            *old(intent),
            now,
            solver@,
            *solver_registry,
            fulfilled_exists,
            *validator_registry,
            validator_registry_key@,
            whitelist_program@,
            *ed25519_ix,
        ),
        final(intent).wf(),
        final(intent).validations >= old(intent).validations,
        final(intent).validations <= final(intent).min_validations,
        r is Ok && attest_is_noop(*old(intent), *ed25519_ix) ==> *final(intent) == *old(intent),
        r is Ok && !attest_is_noop(*old(intent), *ed25519_ix) ==> {
            &&& final(intent).validations == old(intent).validations + 1
            &&& final(intent).validators@.len() == old(intent).validators@.len() + 1
            &&& forall|i: int|
                0 <= i < old(intent).validators@.len() ==> final(intent).validators@[i] == old(
                    intent,
                ).validators@[i]
            &&& final(intent).validators@.last()@ == attest_signer(*ed25519_ix)
            &&& final(intent).op == old(intent).op
            &&& final(intent).user == old(intent).user
            &&& final(intent).intent_creator == old(intent).intent_creator
            &&& final(intent).intent_hash == old(intent).intent_hash
            &&& final(intent).nonce == old(intent).nonce
            &&& final(intent).deadline == old(intent).deadline
            &&& final(intent).min_validations == old(intent).min_validations
            &&& final(intent).is_final == old(intent).is_final
            &&& final(intent).intent_data == old(intent).intent_data
            &&& final(intent).max_fees == old(intent).max_fees
            &&& final(intent).events == old(intent).events
            &&& final(intent).bump == old(intent).bump
        },
        r matches Err(e) ==> {
            &&& *final(intent) == *old(intent)
            &&& e == attest_err(
                *old(intent),
                now,
                solver@,
                *solver_registry,
                fulfilled_exists,
                *validator_registry,
                validator_registry_key@,
                whitelist_program@,
                *ed25519_ix,
            )
        },
{
    if !crate::whitelist::entry_whitelists(solver_registry, EntityType::Solver, solver) {
        return Err(SettlerError::OnlySolver);
    }
    if fulfilled_exists {
        return Err(SettlerError::IntentAlreadyFulfilled);
    }
    if validator_registry.status != WhitelistStatus::Whitelisted {
        return Err(SettlerError::ValidatorNotWhitelisted);
    }
    if !(intent.deadline > now) {
        return Err(SettlerError::IntentIsExpired);
    }

    let args = match crate::sigs::get_args_from_ed25519_ix_data(&ed25519_ix.data) {
        Ok(a) => a,
        Err(e) => {
            return Err(e);
        },
    };
    crate::sigs::check_ed25519_ix(ed25519_ix)?;

    if !crate::bytes::bytes_eq(&args.msg, &intent.intent_hash) {
        return Err(SettlerError::SigVerificationFailed);
    }

    // Re-derive the registry address from the recovered signer key; the
    // supplied record counts only if it lives exactly there.
    let derived = crate::pda::create_registry_address(
        crate::whitelist::entity_type_tag(EntityType::Validator),
        &args.pubkey,
        validator_registry.bump,
        whitelist_program,
    );
    match derived {
        Some(addr) => {
            if !crate::bytes::bytes_eq(&addr, validator_registry_key) {
                return Err(SettlerError::ValidatorNotWhitelisted);
            }
        },
        None => {
            return Err(SettlerError::ValidatorNotWhitelisted);
        },
    }

    if intent.validators.len() == intent.min_validations as usize {
        return Ok(());
    }
    if crate::bytes::contains_key(&intent.validators, &args.pubkey) {
        return Ok(());
    }

    intent.validations = intent.validations + 1;
    intent.validators.push(args.pubkey);

    Ok(())
}

} // verus!

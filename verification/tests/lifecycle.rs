use settler::errors::SettlerError;
use settler::instructions::{
    add_axia_sig, add_validator_sig, claim_stale_intent, create_intent, create_proposal,
    execute_proposal, extend_intent,
};
use settler::sigs::{ed25519_program_id, Instruction};
use settler::state::{Intent, SettlerSettings};
use settler::types::{IntentEvent, OpType, TokenFee};
use settler::whitelist::{EntityRegistry, EntityType, WhitelistStatus};

fn key(b: u8) -> Vec<u8> {
    vec![b; 32]
}

fn settings() -> SettlerSettings {
    SettlerSettings { whitelist_program: key(7), is_paused: false, bump: 0 }
}

fn registry(ty: EntityType, pk: &[u8]) -> EntityRegistry {
    EntityRegistry {
        entity_type: ty,
        entity_pubkey: pk.to_vec(),
        status: WhitelistStatus::Whitelisted,
        last_update: 1,
        updated_by: key(0xAA),
        bump: 0,
    }
}

/// A validator's registry record together with the address the registry
/// derivation scheme assigns to it.
fn validator_registry(pk: &[u8], wl_program: &[u8]) -> (EntityRegistry, Vec<u8>) {
    let wl = solana_pubkey::Pubkey::try_from(wl_program).unwrap();
    let (addr, bump) =
        solana_pubkey::Pubkey::find_program_address(&[b"entity-registry", &[2u8], pk], &wl);
    let mut reg = registry(EntityType::Validator, pk);
    reg.bump = bump;
    (reg, addr.to_bytes().to_vec())
}

fn ed25519_ix(pubkey: &[u8], msg: &[u8]) -> Instruction {
    let mut data = vec![
        1u8,
        0,
        48,
        0,
        255,
        255,
        16,
        0,
        255,
        255,
        112,
        0,
        (msg.len() % 256) as u8,
        (msg.len() / 256) as u8,
        255,
        255,
    ];
    data.extend_from_slice(pubkey);
    data.extend_from_slice(&[9u8; 64]);
    data.extend_from_slice(msg);
    Instruction { program_id: ed25519_program_id(), accounts: vec![], data }
}

const NOW: u64 = 10_000;

fn make_intent(min_validations: u16, deadline: u64, is_final: bool) -> (Intent, usize) {
    let solver = key(0x51);
    let solver_reg = registry(EntityType::Solver, &solver);
    create_intent(
        &settings(),
        NOW,
        &solver,
        &solver_reg,
        false,
        false,
        key(0x11),
        vec![1, 2, 3],
        vec![TokenFee { mint: key(0x20), amount: 100 }],
        vec![IntentEvent { topic: key(0x30), data: vec![5, 6] }],
        min_validations,
        OpType::Swap,
        key(0x55),
        key(0x66),
        deadline,
        is_final,
        254,
    )
    .unwrap()
}

fn attest(intent: &mut Intent, validator_pk: &[u8]) -> Result<(), SettlerError> {
    let solver = key(0x51);
    let solver_reg = registry(EntityType::Solver, &solver);
    let wl = settings().whitelist_program;
    let (vreg, vkey) = validator_registry(validator_pk, &wl);
    let hash = intent.intent_hash.clone();
    let ix = ed25519_ix(validator_pk, &hash);
    add_validator_sig(intent, NOW, &solver, &solver_reg, false, &vreg, &vkey, &wl, &ix)
}

fn make_proposal(
    intent: &Intent,
    fees: Vec<TokenFee>,
    deadline: u64,
    is_final: bool,
) -> Result<(settler::state::Proposal, usize), SettlerError> {
    let solver = key(0x51);
    let solver_reg = registry(EntityType::Solver, &solver);
    create_proposal(
        &settings(),
        NOW,
        &solver,
        &solver_reg,
        intent,
        key(0x77),
        false,
        false,
        vec![],
        fees,
        deadline,
        is_final,
        253,
    )
}

#[test]
fn create_intent_initializes_counters_and_footprint() {
    let (intent, space) = make_intent(2, NOW + 1000, true);
    assert_eq!(intent.validations, 0);
    assert!(intent.validators.is_empty());
    assert_eq!(intent.min_validations, 2);
    assert_eq!(intent.deadline, NOW + 1000);
    // 8 tag + 143 fixed + (4+3) data + (4+40) caps + (4+38) events + (4+64) quorum
    assert_eq!(space, 8 + 143 + 7 + 44 + 42 + 68);
    let expected =
        Intent::total_size(3, 1, &vec![IntentEvent { topic: key(0x30), data: vec![5, 6] }], 2)
            .unwrap();
    assert_eq!(space, expected);
}

#[test]
fn create_intent_rejects_past_deadline() {
    let solver = key(0x51);
    let solver_reg = registry(EntityType::Solver, &solver);
    let r = create_intent(
        &settings(),
        NOW,
        &solver,
        &solver_reg,
        false,
        false,
        key(0x11),
        vec![],
        vec![],
        vec![],
        1,
        OpType::Transfer,
        key(0x55),
        key(0x66),
        NOW,
        false,
        254,
    );
    assert_eq!(r.unwrap_err(), SettlerError::DeadlineIsInThePast);
}

#[test]
fn create_intent_rejects_non_solver() {
    let solver = key(0x51);
    let mut solver_reg = registry(EntityType::Solver, &solver);
    solver_reg.status = WhitelistStatus::Blacklisted;
    let r = create_intent(
        &settings(),
        NOW,
        &solver,
        &solver_reg,
        false,
        false,
        key(0x11),
        vec![],
        vec![],
        vec![],
        1,
        OpType::Call,
        key(0x55),
        key(0x66),
        NOW + 10,
        false,
        254,
    );
    assert_eq!(r.unwrap_err(), SettlerError::OnlySolver);
}

#[test]
fn create_intent_rejects_live_record_and_marker() {
    let solver = key(0x51);
    let solver_reg = registry(EntityType::Solver, &solver);
    let r = create_intent(
        &settings(),
        NOW,
        &solver,
        &solver_reg,
        true,
        false,
        key(0x11),
        vec![],
        vec![],
        vec![],
        1,
        OpType::Swap,
        key(0x55),
        key(0x66),
        NOW + 10,
        false,
        254,
    );
    assert_eq!(r.unwrap_err(), SettlerError::AccountAlreadyInUse);
    let r = create_intent(
        &settings(),
        NOW,
        &solver,
        &solver_reg,
        false,
        true,
        key(0x11),
        vec![],
        vec![],
        vec![],
        1,
        OpType::Swap,
        key(0x55),
        key(0x66),
        NOW + 10,
        false,
        254,
    );
    assert_eq!(r.unwrap_err(), SettlerError::IntentAlreadyFulfilled);
}

#[test]
fn create_intent_rejects_when_paused() {
    let mut s = settings();
    s.is_paused = true;
    let solver = key(0x51);
    let solver_reg = registry(EntityType::Solver, &solver);
    let r = create_intent(
        &s,
        NOW,
        &solver,
        &solver_reg,
        false,
        false,
        key(0x11),
        vec![],
        vec![],
        vec![],
        1,
        OpType::Swap,
        key(0x55),
        key(0x66),
        NOW + 10,
        false,
        254,
    );
    assert_eq!(r.unwrap_err(), SettlerError::ProtocolPaused);
}

#[test]
fn attest_counts_distinct_validators_up_to_quorum() {
    let (mut intent, _) = make_intent(2, NOW + 1000, true);
    attest(&mut intent, &[0xA1; 32]).unwrap();
    assert_eq!(intent.validations, 1);
    attest(&mut intent, &[0xB2; 32]).unwrap();
    assert_eq!(intent.validations, 2);
    // A third distinct validator still succeeds, but the count stays capped.
    attest(&mut intent, &[0xC3; 32]).unwrap();
    assert_eq!(intent.validations, 2);
    assert_eq!(intent.validators.len(), 2);
}

#[test]
fn attest_duplicate_signer_is_a_noop() {
    let (mut intent, _) = make_intent(3, NOW + 1000, true);
    attest(&mut intent, &[0xA1; 32]).unwrap();
    attest(&mut intent, &[0xA1; 32]).unwrap();
    attest(&mut intent, &[0xA1; 32]).unwrap();
    assert_eq!(intent.validations, 1);
    assert_eq!(intent.validators.len(), 1);
}

#[test]
fn attest_works_on_unfinalized_intents_too() {
    let (mut intent, _) = make_intent(2, NOW + 1000, false);
    attest(&mut intent, &[0xA1; 32]).unwrap();
    assert_eq!(intent.validations, 1);
}

#[test]
fn attest_rejects_expired_intent() {
    let (mut intent, _) = make_intent(2, NOW + 1000, true);
    intent.deadline = NOW;
    let r = attest(&mut intent, &[0xA1; 32]);
    assert_eq!(r.unwrap_err(), SettlerError::IntentIsExpired);
    assert_eq!(intent.validations, 0);
}

#[test]
fn attest_rejects_wrong_signed_message() {
    let (mut intent, _) = make_intent(2, NOW + 1000, true);
    let solver = key(0x51);
    let solver_reg = registry(EntityType::Solver, &solver);
    let wl = settings().whitelist_program;
    let (vreg, vkey) = validator_registry(&[0xA1; 32], &wl);
    let ix = ed25519_ix(&[0xA1; 32], &[0u8; 32]);
    let r = add_validator_sig(&mut intent, NOW, &solver, &solver_reg, false, &vreg, &vkey, &wl, &ix);
    assert_eq!(r.unwrap_err(), SettlerError::SigVerificationFailed);
}

#[test]
fn attest_rejects_registry_at_wrong_address() {
    let (mut intent, _) = make_intent(2, NOW + 1000, true);
    let solver = key(0x51);
    let solver_reg = registry(EntityType::Solver, &solver);
    let wl = settings().whitelist_program;
    // Derive the address for one key, then present a signature by another:
    // the supplied record no longer lives at the derived address.
    let (vreg, vkey) = validator_registry(&[0xA1; 32], &wl);
    let hash = intent.intent_hash.clone();
    let ix = ed25519_ix(&[0xB2; 32], &hash);
    let r = add_validator_sig(&mut intent, NOW, &solver, &solver_reg, false, &vreg, &vkey, &wl, &ix);
    assert_eq!(r.unwrap_err(), SettlerError::ValidatorNotWhitelisted);
    assert_eq!(intent.validations, 0);
}

#[test]
fn attest_rejects_blacklisted_validator() {
    let (mut intent, _) = make_intent(2, NOW + 1000, true);
    let solver = key(0x51);
    let solver_reg = registry(EntityType::Solver, &solver);
    let wl = settings().whitelist_program;
    let (mut vreg, vkey) = validator_registry(&[0xA1; 32], &wl);
    vreg.status = WhitelistStatus::Blacklisted;
    let hash = intent.intent_hash.clone();
    let ix = ed25519_ix(&[0xA1; 32], &hash);
    let r = add_validator_sig(&mut intent, NOW, &solver, &solver_reg, false, &vreg, &vkey, &wl, &ix);
    assert_eq!(r.unwrap_err(), SettlerError::ValidatorNotWhitelisted);
}

#[test]
fn attest_rejects_settled_intent() {
    let (mut intent, _) = make_intent(2, NOW + 1000, true);
    let solver = key(0x51);
    let solver_reg = registry(EntityType::Solver, &solver);
    let wl = settings().whitelist_program;
    let (vreg, vkey) = validator_registry(&[0xA1; 32], &wl);
    let hash = intent.intent_hash.clone();
    let ix = ed25519_ix(&[0xA1; 32], &hash);
    let r = add_validator_sig(&mut intent, NOW, &solver, &solver_reg, true, &vreg, &vkey, &wl, &ix);
    assert_eq!(r.unwrap_err(), SettlerError::IntentAlreadyFulfilled);
}

#[test]
fn extend_appends_and_latches_final() {
    let (mut intent, space) = make_intent(2, NOW + 1000, false);
    let r = extend_intent(
        &mut intent,
        space,
        &key(0x51),
        NOW,
        Some(vec![9, 9]),
        Some(vec![TokenFee { mint: key(0x21), amount: 7 }]),
        None,
        true,
    );
    let new_size = r.unwrap();
    assert_eq!(intent.intent_data, vec![1, 2, 3, 9, 9]);
    assert_eq!(intent.max_fees.len(), 2);
    assert!(intent.is_final);
    // Grown by exactly the payload of each supplied section.
    assert_eq!(new_size, space + 2 + 40);
    // The grown footprint matches the closed form for the combined fields.
    let expected = Intent::total_size(
        5,
        2,
        &vec![IntentEvent { topic: key(0x30), data: vec![5, 6] }],
        2,
    )
    .unwrap();
    assert_eq!(new_size, expected);
}

#[test]
fn extend_after_final_always_fails() {
    let (mut intent, space) = make_intent(2, NOW + 1000, true);
    // Plenty of time to the deadline: finality alone forbids the extension.
    let r = extend_intent(&mut intent, space, &key(0x51), NOW, Some(vec![9]), None, None, false);
    assert_eq!(r.unwrap_err(), SettlerError::IntentIsFinal);
    assert_eq!(intent.intent_data, vec![1, 2, 3]);
}

#[test]
fn extend_rejects_foreign_caller_and_expiry() {
    let (mut intent, space) = make_intent(2, NOW + 1000, false);
    let r = extend_intent(&mut intent, space, &key(0x52), NOW, None, None, None, false);
    assert_eq!(r.unwrap_err(), SettlerError::IncorrectIntentCreator);
    intent.deadline = NOW;
    let r = extend_intent(&mut intent, space, &key(0x51), NOW, None, None, None, false);
    assert_eq!(r.unwrap_err(), SettlerError::IntentIsExpired);
}

#[test]
fn claim_stale_intent_only_after_deadline() {
    let (mut intent, _) = make_intent(2, NOW + 1000, false);
    let r = claim_stale_intent(&intent, &key(0x51), NOW);
    assert_eq!(r.unwrap_err(), SettlerError::IntentNotYetExpired);
    intent.deadline = NOW - 1;
    claim_stale_intent(&intent, &key(0x51), NOW).unwrap();
    // At deadline == now the record is deliberately not reclaimable yet.
    intent.deadline = NOW;
    let r = claim_stale_intent(&intent, &key(0x51), NOW);
    assert_eq!(r.unwrap_err(), SettlerError::IntentNotYetExpired);
    intent.deadline = NOW - 1;
    let r = claim_stale_intent(&intent, &key(0x52), NOW);
    assert_eq!(r.unwrap_err(), SettlerError::IncorrectIntentCreator);
}

#[test]
fn full_settlement_scenario() {
    // A solver creates intent H with a quorum of two and a long deadline.
    let (mut intent, _) = make_intent(2, NOW + 1000, true);

    // Validators A and B attest; a third distinct validator is a no-op.
    attest(&mut intent, &[0xA1; 32]).unwrap();
    attest(&mut intent, &[0xB2; 32]).unwrap();
    assert_eq!(intent.validations, 2);
    attest(&mut intent, &[0xC3; 32]).unwrap();
    assert_eq!(intent.validations, 2);

    // The solver stages a proposal with one fee at its cap and a shorter
    // deadline.
    let (mut proposal, _) = make_proposal(
        &intent,
        vec![TokenFee { mint: key(0x20), amount: 100 }],
        NOW + 500,
        true,
    )
    .unwrap();
    assert!(!proposal.is_signed);

    // The bridging authority countersigns the proposal's own address.
    let solver = key(0x51);
    let solver_reg = registry(EntityType::Solver, &solver);
    let axia_pk = key(0xAB);
    let axia_reg = registry(EntityType::Axia, &axia_pk);
    let proposal_key = key(0x99);
    let ix = ed25519_ix(&axia_pk, &proposal_key);
    add_axia_sig(&mut proposal, &proposal_key, NOW, &solver, &solver_reg, &axia_reg, &ix).unwrap();
    assert!(proposal.is_signed);

    // Countersigning twice is a successful no-op.
    add_axia_sig(&mut proposal, &proposal_key, NOW, &solver, &solver_reg, &axia_reg, &ix).unwrap();
    assert!(proposal.is_signed);

    // Settlement closes both records, creates the marker and emits every
    // recorded event exactly once, in order.
    proposal.intent = key(0x77);
    let out = execute_proposal(
        NOW,
        &solver,
        &solver_reg,
        &proposal,
        &intent,
        &key(0x77),
        &proposal.proposal_creator.clone(),
        &intent.intent_creator.clone(),
        false,
        251,
    )
    .unwrap();
    assert_eq!(out.marker.bump, 251);
    assert_eq!(out.emitted.len(), 1);
    assert_eq!(out.emitted[0].event.topic, key(0x30));
    assert_eq!(out.emitted[0].event.data, vec![5, 6]);
    assert_eq!(out.pending_fees.len(), 1);
    assert_eq!(out.pending_fees[0].amount, 100);
    assert_eq!(out.intent_rent_to, key(0x51));

    // With the marker in place, creating the same intent again, staging
    // another proposal for it, or settling again, all fail.
    let solver_reg2 = registry(EntityType::Solver, &solver);
    let r = create_intent(
        &settings(),
        NOW,
        &solver,
        &solver_reg2,
        false,
        true,
        key(0x11),
        vec![],
        vec![],
        vec![],
        2,
        OpType::Swap,
        key(0x55),
        key(0x66),
        NOW + 1000,
        true,
        254,
    );
    assert_eq!(r.unwrap_err(), SettlerError::IntentAlreadyFulfilled);
    let r = create_proposal(
        &settings(),
        NOW,
        &solver,
        &solver_reg2,
        &intent,
        key(0x77),
        true,
        false,
        vec![],
        vec![TokenFee { mint: key(0x20), amount: 1 }],
        NOW + 500,
        true,
        253,
    );
    assert_eq!(r.unwrap_err(), SettlerError::IntentAlreadyFulfilled);
    let r = execute_proposal(
        NOW,
        &solver,
        &solver_reg2,
        &proposal,
        &intent,
        &key(0x77),
        &proposal.proposal_creator.clone(),
        &intent.intent_creator.clone(),
        true,
        251,
    );
    assert_eq!(r.unwrap_err(), SettlerError::IntentAlreadyFulfilled);
}

#[test]
fn execute_rejects_unsigned_and_expired() {
    let (mut intent, _) = make_intent(1, NOW + 1000, true);
    attest(&mut intent, &[0xA1; 32]).unwrap();
    let (mut proposal, _) = make_proposal(
        &intent,
        vec![TokenFee { mint: key(0x20), amount: 50 }],
        NOW + 500,
        true,
    )
    .unwrap();
    proposal.intent = key(0x77);
    let solver = key(0x51);
    let solver_reg = registry(EntityType::Solver, &solver);
    let r = execute_proposal(
        NOW,
        &solver,
        &solver_reg,
        &proposal,
        &intent,
        &key(0x77),
        &proposal.proposal_creator.clone(),
        &intent.intent_creator.clone(),
        false,
        251,
    );
    assert_eq!(r.unwrap_err(), SettlerError::ProposalIsNotSigned);
    proposal.is_signed = true;
    proposal.deadline = NOW;
    let r = execute_proposal(
        NOW,
        &solver,
        &solver_reg,
        &proposal,
        &intent,
        &key(0x77),
        &proposal.proposal_creator.clone(),
        &intent.intent_creator.clone(),
        false,
        251,
    );
    assert_eq!(r.unwrap_err(), SettlerError::ProposalIsExpired);
}

#[test]
fn execute_rejects_mismatched_records() {
    let (mut intent, _) = make_intent(1, NOW + 1000, true);
    attest(&mut intent, &[0xA1; 32]).unwrap();
    let (mut proposal, _) = make_proposal(
        &intent,
        vec![TokenFee { mint: key(0x20), amount: 50 }],
        NOW + 500,
        true,
    )
    .unwrap();
    proposal.is_signed = true;
    let solver = key(0x51);
    let solver_reg = registry(EntityType::Solver, &solver);
    // The proposal references key(0x77); present a different intent account.
    let r = execute_proposal(
        NOW,
        &solver,
        &solver_reg,
        &proposal,
        &intent,
        &key(0x78),
        &proposal.proposal_creator.clone(),
        &intent.intent_creator.clone(),
        false,
        251,
    );
    assert_eq!(r.unwrap_err(), SettlerError::IncorrectIntentForProposal);
    let r = execute_proposal(
        NOW,
        &solver,
        &solver_reg,
        &proposal,
        &intent,
        &key(0x77),
        &key(0x01),
        &intent.intent_creator.clone(),
        false,
        251,
    );
    assert_eq!(r.unwrap_err(), SettlerError::IncorrectProposalCreator);
    let r = execute_proposal(
        NOW,
        &solver,
        &solver_reg,
        &proposal,
        &intent,
        &key(0x77),
        &proposal.proposal_creator.clone(),
        &key(0x02),
        false,
        251,
    );
    assert_eq!(r.unwrap_err(), SettlerError::IncorrectIntentCreator);
}


#[test]
fn countersign_rejects_bad_authority_and_state() {
    let (mut intent, _) = make_intent(1, NOW + 1000, true);
    attest(&mut intent, &[0xA1; 32]).unwrap();
    let (mut proposal, _) = make_proposal(
        &intent,
        vec![TokenFee { mint: key(0x20), amount: 50 }],
        NOW + 500,
        true,
    )
    .unwrap();
    let solver = key(0x51);
    let solver_reg = registry(EntityType::Solver, &solver);
    let axia_pk = key(0xAB);
    let proposal_key = key(0x99);
    let ix = ed25519_ix(&axia_pk, &proposal_key);

    // A blacklisted authority record is refused.
    let mut bad_axia = registry(EntityType::Axia, &axia_pk);
    bad_axia.status = WhitelistStatus::Blacklisted;
    let r = add_axia_sig(&mut proposal, &proposal_key, NOW, &solver, &solver_reg, &bad_axia, &ix);
    assert_eq!(r.unwrap_err(), SettlerError::AxiaNotWhitelisted);

    // A record of the wrong role is refused.
    let wrong_role = registry(EntityType::Validator, &axia_pk);
    let r = add_axia_sig(&mut proposal, &proposal_key, NOW, &solver, &solver_reg, &wrong_role, &ix);
    assert_eq!(r.unwrap_err(), SettlerError::AxiaNotWhitelisted);

    // A signer other than the recorded authority key is refused.
    let axia_reg = registry(EntityType::Axia, &axia_pk);
    let other_signer = ed25519_ix(&key(0xCD), &proposal_key);
    let r = add_axia_sig(
        &mut proposal,
        &proposal_key,
        NOW,
        &solver,
        &solver_reg,
        &axia_reg,
        &other_signer,
    );
    assert_eq!(r.unwrap_err(), SettlerError::AxiaNotWhitelisted);

    // A signature over anything but the proposal's own address is refused.
    let wrong_msg = ed25519_ix(&axia_pk, &key(0x98));
    let r = add_axia_sig(&mut proposal, &proposal_key, NOW, &solver, &solver_reg, &axia_reg, &wrong_msg);
    assert_eq!(r.unwrap_err(), SettlerError::SigVerificationFailed);

    // Only a whitelisted solver may relay the countersignature.
    let mut bad_solver = registry(EntityType::Solver, &solver);
    bad_solver.status = WhitelistStatus::Blacklisted;
    let r = add_axia_sig(&mut proposal, &proposal_key, NOW, &solver, &bad_solver, &axia_reg, &ix);
    assert_eq!(r.unwrap_err(), SettlerError::OnlySolver);

    assert!(!proposal.is_signed);
}

#[test]
fn countersign_requires_final_unexpired_proposal() {
    let (mut intent, _) = make_intent(1, NOW + 1000, true);
    attest(&mut intent, &[0xA1; 32]).unwrap();
    let (mut proposal, _) = make_proposal(
        &intent,
        vec![TokenFee { mint: key(0x20), amount: 50 }],
        NOW + 500,
        false,
    )
    .unwrap();
    let solver = key(0x51);
    let solver_reg = registry(EntityType::Solver, &solver);
    let axia_pk = key(0xAB);
    let axia_reg = registry(EntityType::Axia, &axia_pk);
    let proposal_key = key(0x99);
    let ix = ed25519_ix(&axia_pk, &proposal_key);

    let r = add_axia_sig(&mut proposal, &proposal_key, NOW, &solver, &solver_reg, &axia_reg, &ix);
    assert_eq!(r.unwrap_err(), SettlerError::ProposalIsNotFinal);

    proposal.is_final = true;
    proposal.deadline = NOW;
    let r = add_axia_sig(&mut proposal, &proposal_key, NOW, &solver, &solver_reg, &axia_reg, &ix);
    assert_eq!(r.unwrap_err(), SettlerError::ProposalIsExpired);

    // Already-signed proposals skip every remaining check: even an expired
    // proposal reports success without changing anything.
    proposal.is_signed = true;
    add_axia_sig(&mut proposal, &proposal_key, NOW, &solver, &solver_reg, &axia_reg, &ix).unwrap();
}

#[test]
fn extend_appends_events_and_keeps_attestations() {
    let (mut intent, space) = make_intent(2, NOW + 1000, false);
    attest(&mut intent, &[0xA1; 32]).unwrap();
    let more = vec![
        IntentEvent { topic: key(0x31), data: vec![1] },
        IntentEvent { topic: key(0x32), data: vec![] },
    ];
    let new_size = extend_intent(
        &mut intent,
        space,
        &key(0x51),
        NOW,
        None,
        None,
        Some(more),
        false,
    )
    .unwrap();
    assert_eq!(intent.events.len(), 3);
    assert_eq!(intent.events[1].topic, key(0x31));
    assert_eq!(intent.events[2].topic, key(0x32));
    assert_eq!(new_size, space + 37 + 36);
    assert!(!intent.is_final);
    // Attestations gathered so far survive the extension untouched.
    assert_eq!(intent.validations, 1);
    assert_eq!(intent.validators.len(), 1);
}

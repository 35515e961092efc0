use settler::errors::SettlerError;
use settler::math;
use settler::serial::{serialize_intent, serialize_proposal};
use settler::state::{Intent, Proposal};
use settler::types::{
    IntentEvent, OpType, ProposalInstruction, ProposalInstructionAccountMeta, TokenFee,
};

fn key(b: u8) -> Vec<u8> {
    vec![b; 32]
}

#[test]
fn checked_math_reports_overflow() {
    assert_eq!(math::add(2, 3).unwrap(), 5);
    assert_eq!(math::add(usize::MAX, 1).unwrap_err(), SettlerError::MathError);
    assert_eq!(math::sub(5, 2).unwrap(), 3);
    assert_eq!(math::sub(2, 5).unwrap_err(), SettlerError::MathError);
    assert_eq!(math::mul(6, 7).unwrap(), 42);
    assert_eq!(math::mul(usize::MAX, 2).unwrap_err(), SettlerError::MathError);
}

#[test]
fn intent_section_sizes_are_exact() {
    assert_eq!(Intent::data_size(10).unwrap(), 14);
    assert_eq!(Intent::max_fees_size(3).unwrap(), 4 + 120);
    assert_eq!(Intent::validators_size(5).unwrap(), 4 + 160);
    let events = vec![
        IntentEvent { topic: key(1), data: vec![] },
        IntentEvent { topic: key(2), data: vec![0; 10] },
    ];
    assert_eq!(Intent::events_size(&events).unwrap(), 4 + 36 + 46);
    assert_eq!(events[1].size(), 46);
}

#[test]
fn intent_total_size_is_the_sum_of_its_sections() {
    let events = vec![IntentEvent { topic: key(1), data: vec![0; 3] }];
    let total = Intent::total_size(7, 2, &events, 4).unwrap();
    assert_eq!(total, 8 + 143 + (4 + 7) + (4 + 80) + (4 + 39) + (4 + 128));
}

#[test]
fn intent_extended_size_adds_exact_payloads() {
    let total = Intent::total_size(7, 2, &vec![], 4).unwrap();
    let grown = Intent::extended_size(
        total,
        &Some(vec![0; 5]),
        &Some(vec![TokenFee { mint: key(9), amount: 1 }]),
        &Some(vec![IntentEvent { topic: key(1), data: vec![0; 2] }]),
    )
    .unwrap();
    assert_eq!(grown, total + 5 + 40 + 38);
    // Growing equals creating with the combined field lengths.
    let combined =
        Intent::total_size(12, 3, &vec![IntentEvent { topic: key(1), data: vec![0; 2] }], 4)
            .unwrap();
    assert_eq!(grown, combined);
    // Absent sections cost nothing.
    assert_eq!(Intent::extended_size(total, &None, &None, &None).unwrap(), total);
}

fn sample_instruction() -> ProposalInstruction {
    ProposalInstruction {
        program_id: key(0x41),
        accounts: vec![
            ProposalInstructionAccountMeta {
                pubkey: key(0x42),
                is_signer: true,
                is_writable: false,
            },
            ProposalInstructionAccountMeta {
                pubkey: key(0x43),
                is_signer: false,
                is_writable: true,
            },
        ],
        data: vec![1, 2, 3, 4, 5],
    }
}

#[test]
fn proposal_sizes_are_exact() {
    let ix = sample_instruction();
    assert_eq!(ix.size(), 32 + (4 + 68) + (4 + 5));
    let total = Proposal::total_size(&vec![ix], 3).unwrap();
    assert_eq!(total, 8 + 75 + (4 + 113) + (4 + 120));
    let grown = Proposal::extended_size(total, &vec![sample_instruction()]).unwrap();
    assert_eq!(grown, total + 113);
}

fn sample_intent() -> Intent {
    Intent {
        op: OpType::Transfer,
        user: key(0x55),
        intent_creator: key(0x51),
        intent_hash: key(0x11),
        nonce: key(0x66),
        deadline: 0x0102030405060708,
        min_validations: 2,
        validations: 1,
        is_final: true,
        validators: vec![key(0xA1)],
        intent_data: vec![9, 8, 7],
        max_fees: vec![TokenFee { mint: key(0x20), amount: 300 }],
        events: vec![IntentEvent { topic: key(0x30), data: vec![5, 6] }],
        bump: 254,
    }
}

#[test]
fn serialized_intent_length_matches_footprint_up_to_reservation() {
    let intent = sample_intent();
    let image = serialize_intent(&intent).unwrap();
    let footprint = Intent::total_size(3, 1, &intent.events, 2).unwrap();
    // One attestation is still to come: exactly 32 reserved bytes are unused.
    assert_eq!(image.len() + 32, footprint);
}

#[test]
fn serialized_intent_at_quorum_matches_footprint_exactly() {
    let mut intent = sample_intent();
    intent.validators = vec![key(0xA1), key(0xB2)];
    intent.validations = 2;
    let image = serialize_intent(&intent).unwrap();
    let footprint = Intent::total_size(3, 1, &intent.events, 2).unwrap();
    assert_eq!(image.len(), footprint);
}

#[test]
fn serialized_intent_layout_is_fixed() {
    let intent = sample_intent();
    let image = serialize_intent(&intent).unwrap();
    // Record tag, then the operation byte.
    assert_eq!(&image[0..8], b"intent\0\0");
    assert_eq!(image[8], 2);
    // Fixed keys in declaration order.
    assert_eq!(&image[9..41], key(0x55).as_slice());
    assert_eq!(&image[41..73], key(0x51).as_slice());
    assert_eq!(&image[73..105], key(0x11).as_slice());
    assert_eq!(&image[105..137], key(0x66).as_slice());
    // Little-endian deadline, quorum, count, finality flag.
    assert_eq!(&image[137..145], &[8, 7, 6, 5, 4, 3, 2, 1]);
    assert_eq!(&image[145..147], &[2, 0]);
    assert_eq!(&image[147..149], &[1, 0]);
    assert_eq!(image[149], 1);
    // Length-prefixed validator list.
    assert_eq!(&image[150..154], &[1, 0, 0, 0]);
    assert_eq!(&image[154..186], key(0xA1).as_slice());
    // Length-prefixed data section.
    assert_eq!(&image[186..190], &[3, 0, 0, 0]);
    assert_eq!(&image[190..193], &[9, 8, 7]);
    // The derivation byte comes last.
    assert_eq!(*image.last().unwrap(), 254);
}

#[test]
fn serialized_proposal_length_matches_footprint() {
    let proposal = Proposal {
        intent: key(0x77),
        proposal_creator: key(0x51),
        deadline: 12_345,
        is_final: true,
        is_signed: false,
        instructions: vec![sample_instruction()],
        fees: vec![TokenFee { mint: key(0x20), amount: 100 }],
        bump: 253,
    };
    let image = serialize_proposal(&proposal).unwrap();
    let footprint = Proposal::total_size(&proposal.instructions, 1).unwrap();
    assert_eq!(image.len(), footprint);
    assert_eq!(&image[0..8], b"proposal");
    assert_eq!(*image.last().unwrap(), 253);
}

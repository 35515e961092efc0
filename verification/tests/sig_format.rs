use settler::errors::SettlerError;
use settler::sigs::{
    check_ed25519_ix, ed25519_program_id, get_args_from_ed25519_ix_data, Instruction,
};
use settler::types::ProposalInstructionAccountMeta;

fn well_formed_data(pubkey: &[u8; 32], msg: &[u8]) -> Vec<u8> {
    let mut data = vec![
        1u8,
        0,
        48,
        0,
        255,
        255,
        16,
        0,
        255,
        255,
        112,
        0,
        (msg.len() % 256) as u8,
        (msg.len() / 256) as u8,
        255,
        255,
    ];
    data.extend_from_slice(pubkey);
    data.extend_from_slice(&[7u8; 64]);
    data.extend_from_slice(msg);
    data
}

#[test]
fn parses_a_single_signature_request() {
    let data = well_formed_data(&[3u8; 32], b"hello settlement");
    let args = get_args_from_ed25519_ix_data(&data).unwrap();
    assert_eq!(args.pubkey, vec![3u8; 32]);
    assert_eq!(args.sig, vec![7u8; 64]);
    assert_eq!(args.msg, b"hello settlement".to_vec());
}

#[test]
fn parses_an_empty_message() {
    let data = well_formed_data(&[3u8; 32], b"");
    let args = get_args_from_ed25519_ix_data(&data).unwrap();
    assert_eq!(args.msg.len(), 0);
    assert_eq!(data.len(), 112);
}

#[test]
fn encodes_long_message_sizes_in_two_bytes() {
    let msg = vec![0xEEu8; 300];
    let data = well_formed_data(&[3u8; 32], &msg);
    assert_eq!(data[12], 44);
    assert_eq!(data[13], 1);
    let args = get_args_from_ed25519_ix_data(&data).unwrap();
    assert_eq!(args.msg, msg);
}

#[test]
fn rejects_short_buffers() {
    let data = vec![1u8; 111];
    assert_eq!(
        get_args_from_ed25519_ix_data(&data).unwrap_err(),
        SettlerError::SigVerificationFailed
    );
}

#[test]
fn rejects_multi_signature_requests() {
    let mut data = well_formed_data(&[3u8; 32], b"m");
    data[0] = 2;
    assert_eq!(
        get_args_from_ed25519_ix_data(&data).unwrap_err(),
        SettlerError::SigVerificationFailed
    );
}

#[test]
fn rejects_nonzero_padding() {
    let mut data = well_formed_data(&[3u8; 32], b"m");
    data[1] = 1;
    assert_eq!(
        get_args_from_ed25519_ix_data(&data).unwrap_err(),
        SettlerError::SigVerificationFailed
    );
}

#[test]
fn rejects_shifted_offsets() {
    for pos in [2usize, 6, 10] {
        let mut data = well_formed_data(&[3u8; 32], b"m");
        data[pos] = data[pos].wrapping_add(1);
        assert_eq!(
            get_args_from_ed25519_ix_data(&data).unwrap_err(),
            SettlerError::SigVerificationFailed
        );
    }
}

#[test]
fn rejects_cross_instruction_references() {
    // Any index field other than "current instruction" is refused.
    for pos in [4usize, 8, 14] {
        let mut data = well_formed_data(&[3u8; 32], b"m");
        data[pos] = 0;
        assert_eq!(
            get_args_from_ed25519_ix_data(&data).unwrap_err(),
            SettlerError::SigVerificationFailed
        );
    }
}

#[test]
fn rejects_wrong_message_size_field() {
    let mut data = well_formed_data(&[3u8; 32], b"mm");
    data[12] = 3;
    assert_eq!(
        get_args_from_ed25519_ix_data(&data).unwrap_err(),
        SettlerError::SigVerificationFailed
    );
}

#[test]
fn accepts_only_the_verifier_program_without_accounts() {
    let ok = Instruction { program_id: ed25519_program_id(), accounts: vec![], data: vec![] };
    check_ed25519_ix(&ok).unwrap();

    let wrong_program =
        Instruction { program_id: vec![0u8; 32], accounts: vec![], data: vec![] };
    assert_eq!(check_ed25519_ix(&wrong_program).unwrap_err(), SettlerError::SigVerificationFailed);

    let with_accounts = Instruction {
        program_id: ed25519_program_id(),
        accounts: vec![ProposalInstructionAccountMeta {
            pubkey: vec![1u8; 32],
            is_signer: false,
            is_writable: false,
        }],
        data: vec![],
    };
    assert_eq!(check_ed25519_ix(&with_accounts).unwrap_err(), SettlerError::SigVerificationFailed);
}

#[test]
fn verifier_program_id_is_the_ledgers() {
    // The constant is the base58 address Ed25519SigVerify111111111111111111111111111.
    let expected = solana_pubkey::Pubkey::from_str_const(
        "Ed25519SigVerify111111111111111111111111111",
    );
    assert_eq!(ed25519_program_id(), expected.to_bytes().to_vec());
}

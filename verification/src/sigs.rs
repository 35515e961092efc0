use crate::bytes::{bytes_eq, copy_range};
use crate::errors::SettlerError;
use crate::types::ProposalInstructionAccountMeta;
use vstd::prelude::*;

verus! {

/// One instruction of the enclosing atomic transaction, as the ledger hands
/// it to the core: the program it addresses, the accounts it touches, and
/// its raw data.
#[derive(Clone, Debug)]
pub struct Instruction {
    pub program_id: Vec<u8>,
    pub accounts: Vec<ProposalInstructionAccountMeta>,
    pub data: Vec<u8>,
}

/// The parts of a well-formed single-signature verification instruction:
/// the signer's public key, the signature, and the signed message.
#[derive(Clone, Debug)]
pub struct Ed25519Args {
    pub pubkey: Vec<u8>,
    pub sig: Vec<u8>,
    pub msg: Vec<u8>,
}

/// Address of the ledger's ed25519 signature-verification program.
pub open spec fn spec_ed25519_program_id() -> Seq<u8> {
    seq![
        3u8, 125u8, 70u8, 214u8, 124u8, 147u8, 251u8, 190u8, 18u8, 249u8, 66u8, 143u8, 131u8,
        141u8, 64u8, 255u8, 5u8, 112u8, 116u8, 73u8, 39u8, 244u8, 138u8, 100u8, 252u8, 202u8,
        112u8, 68u8, 128u8, 0u8, 0u8, 0u8,
    ]
}

/// Address of the ledger's ed25519 signature-verification program.
pub fn ed25519_program_id() -> (r: Vec<u8>)
    ensures
        r@ == spec_ed25519_program_id(),
{
    let r: Vec<u8> = vec![
        3u8, 125u8, 70u8, 214u8, 124u8, 147u8, 251u8, 190u8, 18u8, 249u8, 66u8, 143u8, 131u8,
        141u8, 64u8, 255u8, 5u8, 112u8, 116u8, 73u8, 39u8, 244u8, 138u8, 100u8, 252u8, 202u8,
        112u8, 68u8, 128u8, 0u8, 0u8, 0u8,
    ];
    proof {
        assert(r@ =~= spec_ed25519_program_id());
    }
    r
}

/// Whether an instruction addresses the ed25519 verification program and
/// carries no accounts, as a verification request must.
pub open spec fn spec_is_ed25519_verifier(ix: Instruction) -> bool {
    &&& ix.program_id@ == spec_ed25519_program_id()
    &&& ix.accounts.len() == 0
}

/// Checks that the co-located instruction addresses the ed25519
/// verification program and touches no accounts.
pub fn check_ed25519_ix(ix: &Instruction) -> (r: Result<(), SettlerError>)
    ensures
        r is Ok <==> spec_is_ed25519_verifier(*ix),
        r matches Err(e) ==> e == SettlerError::SigVerificationFailed,
{
    let expected = ed25519_program_id();
    if !bytes_eq(&ix.program_id, &expected) || ix.accounts.len() != 0 {
        return Err(SettlerError::SigVerificationFailed);
    }
    Ok(())
}

/// Whether the raw data of a verification instruction has exactly the fixed
/// layout of a single-signature request: a count of one, no padding, and
/// every offset and index field pointing at the fixed positions inside the
/// current instruction (public key at byte 16, signature at byte 48, message
/// from byte 112 to the end).
pub open spec fn spec_ed25519_header_ok(d: Seq<u8>) -> bool {
    &&& d.len() >= 112
    &&& d.len() - 112 <= u16::MAX
    &&& d[0] == 1u8  // exactly one signature
    &&& d[1] == 0u8  // padding
    &&& d[2] == 48u8 && d[3] == 0u8  // signature offset
    &&& d[4] == 255u8 && d[5] == 255u8  // signature in this instruction
    &&& d[6] == 16u8 && d[7] == 0u8  // public-key offset
    &&& d[8] == 255u8 && d[9] == 255u8  // public key in this instruction
    &&& d[10] == 112u8 && d[11] == 0u8  // message offset
    &&& d[12] == (d.len() - 112) % 256  // message size, low byte
    &&& d[13] == (d.len() - 112) / 256  // message size, high byte
    &&& d[14] == 255u8 && d[15] == 255u8  // message in this instruction
}

/// Extracts public key, signature and message from the raw data of a
/// single-signature verification instruction, rejecting any data that does
/// not have exactly the fixed single-signature layout.
pub fn get_args_from_ed25519_ix_data(data: &Vec<u8>) -> (r: Result<Ed25519Args, SettlerError>)
    ensures
        r is Ok <==> spec_ed25519_header_ok(data@),
        r matches Ok(a) ==> {
            &&& a.pubkey@ == data@.subrange(16, 48)
            &&& a.sig@ == data@.subrange(48, 112)
            &&& a.msg@ == data@.subrange(112, data@.len() as int)
        },
        r matches Err(e) ==> e == SettlerError::SigVerificationFailed,
{
    if data.len() < 112 {
        return Err(SettlerError::SigVerificationFailed);
    }
    let msg_len = data.len() - 112;
    if msg_len > 65535 {
        return Err(SettlerError::SigVerificationFailed);
    }
    let msg_len_lo = (msg_len % 256) as u8;
    let msg_len_hi = (msg_len / 256) as u8;

    if data[0] != 1 || data[1] != 0 || data[2] != 48 || data[3] != 0 || data[4] != 255 || data[5]
        != 255 || data[6] != 16 || data[7] != 0 || data[8] != 255 || data[9] != 255 || data[10]
        != 112 || data[11] != 0 || data[12] != msg_len_lo || data[13] != msg_len_hi || data[14]
        != 255 || data[15] != 255 {
        return Err(SettlerError::SigVerificationFailed);
    }

    Ok(
        Ed25519Args {
            pubkey: copy_range(data, 16, 48),
            sig: copy_range(data, 48, 112),
            msg: copy_range(data, 112, data.len()),
        },
    )
}

} // verus!

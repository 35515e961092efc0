use crate::errors::SettlerError;
use crate::state::SettlerSettings;
use crate::types::KEY_LEN;
use vstd::prelude::*;

verus! {

/// Creates the settlement core's settings record, unpaused and pointing at
/// the given whitelist collaborator. Only the configured deployer may call
/// this; the ledger's derived settings address makes it happen at most
/// once.
pub fn initialize(
    caller: &Vec<u8>,
    deployer: &Vec<u8>,
    whitelist_program: Vec<u8>,
    bump: u8,
) -> (r: Result<SettlerSettings, SettlerError>)
    requires
        whitelist_program.len() == KEY_LEN,
    ensures
        r is Ok <==> caller@ == deployer@,
        r matches Ok(s) ==> {
            &&& s.whitelist_program == whitelist_program
            &&& !s.is_paused
            &&& s.bump == bump
            &&& s.wf()
        },
        r matches Err(e) ==> e == SettlerError::OnlyDeployer,
{
    if !crate::bytes::bytes_eq(caller, deployer) {
        return Err(SettlerError::OnlyDeployer);
    }
    Ok(SettlerSettings { whitelist_program, is_paused: false, bump })
}

} // verus!

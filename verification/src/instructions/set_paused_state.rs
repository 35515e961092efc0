use crate::bytes::{bytes_eq, copy_range};
use crate::errors::WhitelistError;
use crate::state::SettlerSettings;
use crate::types::KEY_LEN;
use crate::whitelist::GlobalSettings;
use vstd::prelude::*;

verus! {

/// Emitted when the pause flag is toggled.
#[derive(Clone, Debug)]
pub struct SetPausedStateEvent {
    pub changed_at: u64,
    pub changed_by: Vec<u8>,
    pub is_paused: bool,
}

/// Toggles the pause flag that gates new-record creation. Only the
/// whitelist collaborator's administrator may call this. While paused,
/// intents and proposals cannot be created; attestation, countersigning,
/// settlement and reclamation stay available so that records already in
/// flight can still terminate.
pub fn set_paused_state(
    settings: &mut SettlerSettings,
    whitelist_settings: &GlobalSettings,
    caller: &Vec<u8>,
    is_paused: bool,
    now: u64,
) -> (r: Result<SetPausedStateEvent, WhitelistError>)
    requires
        old(settings).wf(),
        whitelist_settings.wf(),
        caller.len() == KEY_LEN,
    ensures
        r is Ok <==> whitelist_settings.admin@ == caller@,
        r matches Ok(ev) ==> {
            &&& final(settings).is_paused == is_paused
            &&& final(settings).whitelist_program == old(settings).whitelist_program
            &&& final(settings).bump == old(settings).bump
            &&& final(settings).wf()
            &&& ev.changed_at == now
            &&& ev.changed_by@ == caller@
            &&& ev.is_paused == is_paused
        },
        r matches Err(e) ==> {
            &&& *final(settings) == *old(settings)
            &&& e == WhitelistError::OnlyAdmin
        },
{
    if !bytes_eq(&whitelist_settings.admin, caller) {
        return Err(WhitelistError::OnlyAdmin);
    }
    settings.is_paused = is_paused;
    Ok(
        SetPausedStateEvent {
            changed_at: now,
            changed_by: copy_range(caller, 0, caller.len()),
            is_paused,
        },
    )
}

/// Points the settlement core at another whitelist collaborator. Only the
/// current collaborator's administrator may call this.
pub fn change_whitelist_program(
    settings: &mut SettlerSettings,
    whitelist_settings: &GlobalSettings,
    caller: &Vec<u8>,
    new_program: Vec<u8>,
) -> (r: Result<(), WhitelistError>)
    requires
        old(settings).wf(),
        whitelist_settings.wf(),
        caller.len() == KEY_LEN,
        new_program.len() == KEY_LEN,
    ensures
        r is Ok <==> whitelist_settings.admin@ == caller@,
        r is Ok ==> {
            &&& final(settings).whitelist_program == new_program
            &&& final(settings).is_paused == old(settings).is_paused
            &&& final(settings).bump == old(settings).bump
            &&& final(settings).wf()
        },
        r matches Err(e) ==> {
            &&& *final(settings) == *old(settings)
            &&& e == WhitelistError::OnlyAdmin
        },
{
    if !bytes_eq(&whitelist_settings.admin, caller) {
        return Err(WhitelistError::OnlyAdmin);
    }
    settings.whitelist_program = new_program;
    Ok(())
}

} // verus!

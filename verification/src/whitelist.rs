use crate::bytes::{bytes_eq, copy_range};
use crate::errors::WhitelistError;
use crate::types::KEY_LEN;
use vstd::prelude::*;

verus! {

/// Longest admin-handoff cooldown the whitelist collaborator accepts.
pub const MAX_COOLDOWN: u64 = 3600 * 24 * 30;

/// The roles an entity can be registered under.
#[derive(Clone, Copy, Debug, PartialEq, Eq, Structural)]
pub enum EntityType {
    Validator,
    Axia,
    Solver,
}

/// Whether a registered entity may act.
#[derive(Clone, Copy, Debug, PartialEq, Eq, Structural)]
pub enum WhitelistStatus {
    Whitelisted,
    Blacklisted,
}

/// The derivation tag byte of an entity type: the role's wire code offset
/// by one, as the registry's fixed derivation scheme prescribes.
pub open spec fn spec_entity_type_tag(t: EntityType) -> u8 {
    match t {
        EntityType::Validator => 2u8,
        EntityType::Axia => 3u8,
        EntityType::Solver => 4u8,
    }
}

/// The derivation tag byte of an entity type.
pub fn entity_type_tag(t: EntityType) -> (r: u8)
    ensures
        r == spec_entity_type_tag(t),
{
    match t {
        EntityType::Validator => 2,
        EntityType::Axia => 3,
        EntityType::Solver => 4,
    }
}

/// One whitelist entry, living at the address derived from its entity type
/// and public key. The core only reads these records.
#[derive(Clone, Debug)]
pub struct EntityRegistry {
    pub entity_type: EntityType,
    pub entity_pubkey: Vec<u8>,
    pub status: WhitelistStatus,
    pub last_update: u64,
    pub updated_by: Vec<u8>,
    pub bump: u8,
}

impl EntityRegistry {
    /// Structural invariant: every key-sized field is a full key.
    pub open spec fn wf(self) -> bool {
        &&& self.entity_pubkey.len() == KEY_LEN
        &&& self.updated_by.len() == KEY_LEN
    }
}

/// Whether a registry record vouches for `key` as a whitelisted entity of
/// role `t`: the record must carry that role, that key, and a whitelisted
/// status.
pub open spec fn spec_entry_whitelists(reg: EntityRegistry, t: EntityType, key: Seq<u8>) -> bool {
    &&& reg.status == WhitelistStatus::Whitelisted
    &&& reg.entity_type == t
    &&& reg.entity_pubkey@ == key
}

/// Whether a registry record vouches for `key` as a whitelisted entity of
/// role `t`.
pub fn entry_whitelists(reg: &EntityRegistry, t: EntityType, key: &Vec<u8>) -> (r: bool)
    ensures
        r == spec_entry_whitelists(*reg, t, key@),
{
    reg.status == WhitelistStatus::Whitelisted && reg.entity_type == t && bytes_eq(
        &reg.entity_pubkey,
        key,
    )
}

/// Process-wide settings of the whitelist collaborator: the current
/// administrator and the cooldown-gated handoff to a proposed successor.
#[derive(Clone, Debug)]
pub struct GlobalSettings {
    pub admin: Vec<u8>,
    pub proposed_admin: Option<Vec<u8>>,
    pub proposed_admin_cooldown: u64,
    pub proposed_admin_next_change_timestamp: u64,
    pub bump: u8,
}

impl GlobalSettings {
    /// Structural invariant: every key-sized field is a full key.
    pub open spec fn wf(self) -> bool {
        &&& self.admin.len() == KEY_LEN
        &&& match self.proposed_admin {
            Some(k) => k.len() == KEY_LEN,
            None => true,
        }
    }
}

/// Emitted when an entity's whitelist status changes.
#[derive(Clone, Debug)]
pub struct SetEntityWhitelistStatusEvent {
    pub entity_type: EntityType,
    pub entity_pubkey: Vec<u8>,
    pub status: WhitelistStatus,
    pub timestamp: u64,
    pub updated_by: Vec<u8>,
}

/// Emitted when the administration is handed over.
#[derive(Clone, Debug)]
pub struct SetProposedAdminEvent {
    pub old_admin: Vec<u8>,
    pub new_admin: Vec<u8>,
}

/// Creates the collaborator's settings record. Only the configured deployer
/// may call this, and the cooldown must be positive and bounded.
pub fn initialize(
    caller: &Vec<u8>,
    deployer: &Vec<u8>,
    admin: Vec<u8>,
    proposed_admin_cooldown: u64,
    bump: u8,
) -> (r: Result<GlobalSettings, WhitelistError>)
    requires
        admin.len() == KEY_LEN,
    ensures
        r is Ok <==> caller@ == deployer@ && 0 < proposed_admin_cooldown <= MAX_COOLDOWN,
        r matches Ok(gs) ==> {
            &&& gs.admin == admin
            &&& gs.proposed_admin is None
            &&& gs.proposed_admin_cooldown == proposed_admin_cooldown
            &&& gs.proposed_admin_next_change_timestamp == u64::MAX
            &&& gs.bump == bump
            &&& gs.wf()
        },
        r matches Err(e) ==> e == (if caller@ != deployer@ {
            WhitelistError::OnlyDeployer
        } else if proposed_admin_cooldown == 0 {
            WhitelistError::CooldownCantBeZero
        } else {
            WhitelistError::CooldownTooLarge
        }),
{
    if !bytes_eq(caller, deployer) {
        return Err(WhitelistError::OnlyDeployer);
    }
    if proposed_admin_cooldown == 0 {
        return Err(WhitelistError::CooldownCantBeZero);
    }
    if proposed_admin_cooldown > MAX_COOLDOWN {
        return Err(WhitelistError::CooldownTooLarge);
    }
    Ok(
        GlobalSettings {
            admin,
            proposed_admin: None,
            proposed_admin_cooldown,
            proposed_admin_next_change_timestamp: u64::MAX,
            bump,
        },
    )
}

/// Proposes a successor administrator. Only the current administrator may
/// call this, at most one proposal may be pending, and the handoff becomes
/// possible only once the cooldown has elapsed.
pub fn propose_admin(
    gs: &mut GlobalSettings,
    caller: &Vec<u8>,
    proposed_admin: Vec<u8>,
    now: u64,
) -> (r: Result<(), WhitelistError>)
    requires
        old(gs).wf(),
        proposed_admin.len() == KEY_LEN,
    ensures
        r is Ok <==> old(gs).admin@ == caller@ && old(gs).proposed_admin is None && now + old(
            gs,
        ).proposed_admin_cooldown <= u64::MAX,
        r is Ok ==> {
            &&& final(gs).admin == old(gs).admin
            &&& final(gs).proposed_admin matches Some(p) && p == proposed_admin
            &&& final(gs).proposed_admin_cooldown == old(gs).proposed_admin_cooldown
            &&& final(gs).proposed_admin_next_change_timestamp == now + old(
                gs,
            ).proposed_admin_cooldown
            &&& final(gs).bump == old(gs).bump
            &&& final(gs).wf()
        },
        r matches Err(e) ==> {
            &&& *final(gs) == *old(gs)
            &&& e == (if old(gs).admin@ != caller@ {
                WhitelistError::OnlyAdmin
            } else if old(gs).proposed_admin is Some {
                WhitelistError::ProposedAdminIsAlreadySet
            } else {
                WhitelistError::MathError
            })
        },
{
    if !bytes_eq(&gs.admin, caller) {
        return Err(WhitelistError::OnlyAdmin);
    }
    if gs.proposed_admin.is_some() {
        return Err(WhitelistError::ProposedAdminIsAlreadySet);
    }
    let next = match now.checked_add(gs.proposed_admin_cooldown) {
        Some(v) => v,
        None => {
            return Err(WhitelistError::MathError);
        },
    };
    gs.proposed_admin = Some(proposed_admin);
    gs.proposed_admin_next_change_timestamp = next;
    Ok(())
}

/// Completes an admin handoff. Only the proposed administrator may call
/// this, and only strictly after the recorded change timestamp.
pub fn set_proposed_admin(gs: &mut GlobalSettings, caller: &Vec<u8>, now: u64) -> (r: Result<
    SetProposedAdminEvent,
    WhitelistError,
>)
    requires
        old(gs).wf(),
        caller.len() == KEY_LEN,
    ensures
        r is Ok <==> (old(gs).proposed_admin matches Some(p) && p@ == caller@) && old(
            gs,
        ).proposed_admin_next_change_timestamp < now,
        r matches Ok(ev) ==> {
            &&& final(gs).admin@ == caller@
            &&& final(gs).proposed_admin is None
            &&& final(gs).proposed_admin_cooldown == old(gs).proposed_admin_cooldown
            &&& final(gs).proposed_admin_next_change_timestamp == u64::MAX
            &&& final(gs).bump == old(gs).bump
            &&& final(gs).wf()
            &&& ev.old_admin@ == old(gs).admin@
            &&& ev.new_admin@ == caller@
        },
        r matches Err(e) ==> {
            &&& *final(gs) == *old(gs)
            &&& e == (if !(old(gs).proposed_admin matches Some(p) && p@ == caller@) {
                WhitelistError::OnlyProposedAdmin
            } else {
                WhitelistError::SetProposedAdminError
            })
        },
{
    let authorized = match &gs.proposed_admin {
        Some(p) => bytes_eq(p, caller),
        None => false,
    };
    if !authorized {
        return Err(WhitelistError::OnlyProposedAdmin);
    }
    if !(gs.proposed_admin_next_change_timestamp < now) {
        return Err(WhitelistError::SetProposedAdminError);
    }
    let old_admin = copy_range(&gs.admin, 0, gs.admin.len());
    gs.admin = copy_range(caller, 0, caller.len());
    gs.proposed_admin = None;
    gs.proposed_admin_next_change_timestamp = u64::MAX;
    Ok(
        SetProposedAdminEvent {
            old_admin,
            new_admin: copy_range(caller, 0, caller.len()),
        },
    )
}

/// Creates or updates one whitelist entry. Only the current administrator
/// may call this; a fresh entry (one never updated) takes its identity from
/// the arguments, an existing one only changes status.
pub fn set_entity_whitelist_status(
    registry: &mut EntityRegistry,
    gs: &GlobalSettings,
    caller: &Vec<u8>,
    entity_type: EntityType,
    entity_pubkey: Vec<u8>,
    status: WhitelistStatus,
    now: u64,
    bump: u8,
) -> (r: Result<SetEntityWhitelistStatusEvent, WhitelistError>)
    requires
        old(registry).wf(),
        gs.wf(),
        caller.len() == KEY_LEN,
        entity_pubkey.len() == KEY_LEN,
    ensures
        r is Ok <==> gs.admin@ == caller@,
        r matches Ok(ev) ==> {
            &&& final(registry).entity_type == (if old(registry).last_update == 0 {
                entity_type
            } else {
                old(registry).entity_type
            })
            &&& final(registry).entity_pubkey@ == (if old(registry).last_update == 0 {
                entity_pubkey@
            } else {
                old(registry).entity_pubkey@
            })
            &&& final(registry).bump == (if old(registry).last_update == 0 {
                bump
            } else {
                old(registry).bump
            })
            &&& final(registry).status == status
            &&& final(registry).last_update == now
            &&& final(registry).updated_by@ == caller@
            &&& final(registry).wf()
            &&& ev.entity_type == entity_type
            &&& ev.status == status
            &&& ev.timestamp == now
            &&& ev.updated_by@ == caller@
        },
        r matches Err(e) ==> {
            &&& *final(registry) == *old(registry)
            &&& e == WhitelistError::OnlyAdmin
        },
{
    if !bytes_eq(&gs.admin, caller) {
        return Err(WhitelistError::OnlyAdmin);
    }
    let ev_pubkey = copy_range(&entity_pubkey, 0, entity_pubkey.len());
    if registry.last_update == 0 {
        registry.entity_type = entity_type;
        registry.entity_pubkey = entity_pubkey;
        registry.bump = bump;
    }
    registry.status = status;
    registry.last_update = now;
    registry.updated_by = copy_range(caller, 0, caller.len());
    Ok(
        SetEntityWhitelistStatusEvent {
            entity_type,
            entity_pubkey: ev_pubkey,
            status,
            timestamp: now,
            updated_by: copy_range(caller, 0, caller.len()),
        },
    )
}

} // verus!

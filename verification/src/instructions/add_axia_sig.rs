use crate::errors::SettlerError;
use crate::sigs::{spec_ed25519_header_ok, spec_is_ed25519_verifier, Instruction};
use crate::state::Proposal;
use crate::types::KEY_LEN;
use crate::whitelist::{spec_entry_whitelists, EntityRegistry, EntityType, WhitelistStatus};
use vstd::prelude::*;

verus! {

/// Whether the supplied record is a whitelisted bridging-authority entry.
pub open spec fn axia_entry_ok(axia_registry: EntityRegistry) -> bool {
    &&& axia_registry.status == WhitelistStatus::Whitelisted
    &&& axia_registry.entity_type == EntityType::Axia
}

/// When countersigning succeeds: the relaying solver is whitelisted, the
/// supplied bridging-authority record is whitelisted, and either the
/// proposal is already signed (a no-op) or it is final, unexpired, and the
/// co-located instruction proves the authority's signature over exactly
/// the proposal's own address.
pub open spec fn sign_ok(
    proposal: Proposal,
    proposal_key: Seq<u8>,
    now: u64,
    solver: Seq<u8>,
    solver_registry: EntityRegistry,
    axia_registry: EntityRegistry,
    ix: Instruction,
) -> bool {
    &&& spec_entry_whitelists(solver_registry, EntityType::Solver, solver)
    &&& axia_entry_ok(axia_registry)
    &&& (proposal.is_signed || {
        &&& proposal.deadline > now
        &&& proposal.is_final
        &&& spec_ed25519_header_ok(ix.data@)
        &&& spec_is_ed25519_verifier(ix)
        &&& ix.data@.subrange(112, ix.data@.len() as int) == proposal_key
        &&& ix.data@.subrange(16, 48) == axia_registry.entity_pubkey@
    })
}

/// The error countersigning reports, checks made in the order listed in
/// `sign_ok`.
pub open spec fn sign_err(
    proposal: Proposal,
    proposal_key: Seq<u8>,
    now: u64,
    solver: Seq<u8>,
    solver_registry: EntityRegistry,
    axia_registry: EntityRegistry,
    ix: Instruction,
) -> SettlerError {
    if !spec_entry_whitelists(solver_registry, EntityType::Solver, solver) {
        SettlerError::OnlySolver
    } else if !axia_entry_ok(axia_registry) {
        SettlerError::AxiaNotWhitelisted
    } else if !(proposal.deadline > now) {
        SettlerError::ProposalIsExpired
    } else if !proposal.is_final {
        SettlerError::ProposalIsNotFinal
    } else if !spec_ed25519_header_ok(ix.data@) {
        SettlerError::SigVerificationFailed
    } else if !spec_is_ed25519_verifier(ix) {
        SettlerError::SigVerificationFailed
    } else if ix.data@.subrange(112, ix.data@.len() as int) != proposal_key {
        SettlerError::SigVerificationFailed
    } else {
        SettlerError::AxiaNotWhitelisted
    }
}

/// Marks a proposal as countersigned by the bridging authority, relayed by
/// any whitelisted solver alongside the signature-verification instruction
/// that the ledger executed immediately before this call. The signed
/// message must be the proposal's own derived address, and the signer the
/// whitelisted authority's key. An already-signed proposal succeeds as a
/// no-op; once set, `is_signed` never clears.
pub fn add_axia_sig(
    proposal: &mut Proposal,
    proposal_key: &Vec<u8>,
    now: u64,
    solver: &Vec<u8>,
    solver_registry: &EntityRegistry,
    axia_registry: &EntityRegistry,
    ed25519_ix: &Instruction,
) -> (r: Result<(), SettlerError>)
    requires
        old(proposal).wf(),
        proposal_key.len() == KEY_LEN,
        solver.len() == KEY_LEN,
        axia_registry.wf(),
    ensures
        r is Ok <==> sign_ok(
            *old(proposal),
            proposal_key@,
            now,
            solver@,
            *solver_registry,
            *axia_registry,
            *ed25519_ix,
        ),
        r is Ok && old(proposal).is_signed ==> *final(proposal) == *old(proposal),
        r is Ok ==> {
            &&& final(proposal).is_signed
            &&& final(proposal).intent == old(proposal).intent
            &&& final(proposal).proposal_creator == old(proposal).proposal_creator
            &&& final(proposal).deadline == old(proposal).deadline
            &&& final(proposal).is_final == old(proposal).is_final
            &&& final(proposal).instructions == old(proposal).instructions
            &&& final(proposal).fees == old(proposal).fees
            &&& final(proposal).bump == old(proposal).bump
            &&& final(proposal).wf()
        },
        r matches Err(e) ==> {
            &&& *final(proposal) == *old(proposal)
            &&& e == sign_err(
                *old(proposal),
                proposal_key@,
                now,
                solver@,
                *solver_registry,
                *axia_registry,
                *ed25519_ix,
            )
        },
{
    if !crate::whitelist::entry_whitelists(solver_registry, EntityType::Solver, solver) {
        return Err(SettlerError::OnlySolver);
    }
    if !(axia_registry.status == WhitelistStatus::Whitelisted && axia_registry.entity_type
        == EntityType::Axia) {
        return Err(SettlerError::AxiaNotWhitelisted);
    }

    // Idempotent: a second countersignature is a successful no-op.
    if proposal.is_signed {
        return Ok(());
    }

    if !(proposal.deadline > now) {
        return Err(SettlerError::ProposalIsExpired);
    }
    if !proposal.is_final {
        return Err(SettlerError::ProposalIsNotFinal);
    }

    let args = match crate::sigs::get_args_from_ed25519_ix_data(&ed25519_ix.data) {
        Ok(a) => a,
        Err(e) => {
            return Err(e);
        },
    };
    crate::sigs::check_ed25519_ix(ed25519_ix)?;

    if !crate::bytes::bytes_eq(&args.msg, proposal_key) {
        return Err(SettlerError::SigVerificationFailed);
    }
    if !crate::bytes::bytes_eq(&args.pubkey, &axia_registry.entity_pubkey) {
        return Err(SettlerError::AxiaNotWhitelisted);
    }

    proposal.is_signed = true;
    Ok(())
}

} // verus!

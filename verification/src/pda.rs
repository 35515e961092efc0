use vstd::prelude::*;

verus! {

/// The address the registry derivation scheme assigns to the entity with
/// this tag byte, public key and bump under the given program, or `None`
/// where the scheme yields no valid address for that bump.
pub uninterp spec fn registry_address_of(
    entity_tag: u8,
    entity_key: Seq<u8>,
    bump: u8,
    program_id: Seq<u8>,
) -> Option<Seq<u8>>;

/// Relies on anchor_lang's `Pubkey::create_program_address`: the derived
/// address is a function of the seed material and the program id alone, and
/// derivation fails exactly when the scheme yields no off-curve address for
/// this bump. The seed material used here is the registry scheme's: the
/// literal `entity-registry`, the entity-type tag byte, the entity's public
/// key, and the derivation bump byte.
#[verifier::external_body]
pub(crate) fn create_registry_address(
    entity_tag: u8,
    entity_key: &Vec<u8>,
    bump: u8,
    program_id: &Vec<u8>,
) -> (r: Option<Vec<u8>>)
    requires
        entity_key.len() == 32,
        program_id.len() == 32,
    ensures
        match registry_address_of(entity_tag, entity_key@, bump, program_id@) {
            Some(a) => r matches Some(v) && v@ == a && a.len() == 32,
            None => r is None,
        },
{
    let program = anchor_lang::prelude::Pubkey::try_from(program_id.as_slice()).unwrap();
    let seeds: &[&[u8]] = &[b"entity-registry", &[entity_tag], entity_key.as_slice(), &[bump]];
    match anchor_lang::prelude::Pubkey::create_program_address(seeds, &program) {
        Ok(addr) => Some(addr.to_bytes().to_vec()),
        Err(_) => None,
    }
}

} // verus!

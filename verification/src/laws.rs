//! The protocol's cross-operation guarantees, stated once and proved from
//! the same spec functions the operations' contracts use.

use crate::instructions::add_validator_sig::attest_ok;
use crate::instructions::create_intent::create_intent_ok;
use crate::instructions::create_proposal::create_proposal_ok;
use crate::instructions::execute_proposal::execute_ok;
use crate::sigs::Instruction;
use crate::state::{
    lemma_sum_event_sizes_concat, spec_intent_extended_size, spec_intent_total_size,
    spec_proposal_extended_size, spec_proposal_total_size, Intent, Proposal,
    SettlerSettings,
};
use crate::types::{IntentEvent, ProposalInstruction, TokenFee};
use crate::whitelist::EntityRegistry;
use vstd::prelude::*;

verus! {

/// Once the fulfillment marker for a hash exists, no operation that could
/// act on that hash again can succeed: a second intent creation, a second
/// proposal creation, a further attestation and a second settlement all
/// fail. The marker is never removed, so settlement happens at most once
/// per hash.
pub proof fn lemma_fulfilled_marker_blocks(
    settings: SettlerSettings,
    now: u64,
    solver: Seq<u8>,
    solver_registry: EntityRegistry,
    intent_exists: bool,
    proposal_exists: bool,
    data_len: nat,
    max_fees_len: nat,
    events: Seq<IntentEvent>,
    min_validations: nat,
    deadline: u64,
    intent: Intent,
    proposal: Proposal,
    instructions: Seq<ProposalInstruction>,
    fees: Seq<TokenFee>,
    intent_key: Seq<u8>,
    proposal_creator: Seq<u8>,
    intent_creator: Seq<u8>,
    validator_registry: EntityRegistry,
    validator_registry_key: Seq<u8>,
    whitelist_program: Seq<u8>,
    ix: Instruction,
)
    ensures
        !create_intent_ok(
            settings,
            now,
            solver,
            solver_registry,
            intent_exists,
            true,
            data_len,
            max_fees_len,
            events,
            min_validations,
            deadline,
        ),
        !create_proposal_ok(
            settings,
            now,
            solver,
            solver_registry,
            intent,
            true,
            proposal_exists,
            instructions,
            fees,
            deadline,
        ),
        !attest_ok(
            intent,
            now,
            solver,
            solver_registry,
            true,
            validator_registry,
            validator_registry_key,
            whitelist_program,
            ix,
        ),
        !execute_ok(
            now,
            solver,
            solver_registry,
            proposal,
            intent,
            intent_key,
            proposal_creator,
            intent_creator,
            true,
        ),
{
}

/// Growing an intent record costs exactly the difference of the two
/// closed-form footprints: the footprint of a record extended by the
/// supplied sections equals the footprint a record created with the
/// combined sections would have. The validator reservation never changes.
pub proof fn lemma_intent_growth_exact(
    data_len: nat,
    max_fees_len: nat,
    events: Seq<IntentEvent>,
    min_validations: nat,
    more_data: Option<Vec<u8>>,
    more_max_fees: Option<Vec<TokenFee>>,
    more_events: Option<Vec<IntentEvent>>,
)
    ensures
        spec_intent_extended_size(
            spec_intent_total_size(data_len, max_fees_len, events, min_validations),
            more_data,
            more_max_fees,
            more_events,
        ) == spec_intent_total_size(
            data_len + (match more_data {
                Some(d) => d.len() as nat,
                None => 0,
            }),
            max_fees_len + (match more_max_fees {
                Some(f) => f.len() as nat,
                None => 0,
            }),
            events + (match more_events {
                Some(e) => e@,
                None => Seq::<IntentEvent>::empty(),
            }),
            min_validations,
        ),
{
    match more_events {
        Some(e) => {
            lemma_sum_event_sizes_concat(events, e@);
        },
        None => {
            assert(events + Seq::<IntentEvent>::empty() =~= events);
        },
    }
}

/// Growing a proposal record costs exactly the difference of the two
/// closed-form footprints.
pub proof fn lemma_proposal_growth_exact(
    instructions: Seq<ProposalInstruction>,
    fees_len: nat,
    more_instructions: Seq<ProposalInstruction>,
)
    ensures
        spec_proposal_extended_size(
            spec_proposal_total_size(instructions, fees_len),
            more_instructions,
        ) == spec_proposal_total_size(instructions + more_instructions, fees_len),
{
    crate::state::lemma_sum_instruction_sizes_concat(instructions, more_instructions);
}

} // verus!

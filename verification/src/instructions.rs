//! The protocol's operations, one module per entry point.

pub mod add_axia_sig;
pub mod add_instructions_to_proposal;
pub mod add_validator_sig;
pub mod claim_stale_intent;
pub mod claim_stale_proposals;
pub mod create_intent;
pub mod create_proposal;
pub mod execute_proposal;
pub mod extend_intent;
pub mod initialize;
pub mod set_paused_state;

pub use add_axia_sig::add_axia_sig;
pub use add_instructions_to_proposal::add_instructions_to_proposal;
pub use add_validator_sig::add_validator_sig;
pub use claim_stale_intent::claim_stale_intent;
pub use claim_stale_proposals::claim_stale_proposals;
pub use create_intent::create_intent;
pub use create_proposal::create_proposal;
pub use execute_proposal::execute_proposal;
pub use extend_intent::extend_intent;
pub use initialize::initialize;
pub use set_paused_state::change_whitelist_program;
pub use set_paused_state::set_paused_state;

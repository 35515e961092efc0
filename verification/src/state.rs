use crate::errors::SettlerError;
use crate::math;
use crate::types::{
    spec_event_size, spec_instruction_size, IntentEvent, OpType, ProposalInstruction, TokenFee,
    KEY_LEN, TOKEN_FEE_SPACE,
};
use vstd::prelude::*;

verus! {

/// Leading record tag: every persisted record starts with an 8-byte tag.
pub const RECORD_TAG_LEN: usize = 8;

/// Size of the fixed fields of an `Intent` record, the trailing derivation
/// byte included, the leading record tag excluded.
pub const INTENT_BASE_LEN: usize = 143;

/// Size of the fixed fields of a `Proposal` record, the trailing derivation
/// byte included, the leading record tag excluded.
pub const PROPOSAL_BASE_LEN: usize = 75;

/// Storage footprint of a fulfillment marker: record tag + derivation byte.
pub const FULFILLED_INTENT_SPACE: usize = 9;

/// Storage footprint of the settler settings record.
pub const SETTLER_SETTINGS_SPACE: usize = 42;

// ---------------------------------------------------------------------------
// Sums of variable-length element sizes
// ---------------------------------------------------------------------------

/// Total serialized size of a sequence of events, length prefix excluded.
pub open spec fn sum_event_sizes(s: Seq<IntentEvent>) -> nat
    decreases s.len(),
{
    if s.len() == 0 {
        0
    } else {
        sum_event_sizes(s.drop_last()) + spec_event_size(s.last())
    }
}

/// Total serialized size of a sequence of staged instructions, length prefix
/// excluded.
pub open spec fn sum_instruction_sizes(s: Seq<ProposalInstruction>) -> nat
    decreases s.len(),
{
    if s.len() == 0 {
        0
    } else {
        sum_instruction_sizes(s.drop_last()) + spec_instruction_size(s.last())
    }
}

pub proof fn lemma_sum_event_sizes_push(s: Seq<IntentEvent>, e: IntentEvent)
    ensures
        sum_event_sizes(s.push(e)) == sum_event_sizes(s) + spec_event_size(e),
{
    assert(s.push(e).drop_last() =~= s);
}

pub proof fn lemma_sum_instruction_sizes_push(s: Seq<ProposalInstruction>, ix: ProposalInstruction)
    ensures
        sum_instruction_sizes(s.push(ix)) == sum_instruction_sizes(s) + spec_instruction_size(ix),
{
    assert(s.push(ix).drop_last() =~= s);
}

/// Appending event lists adds their sizes.
pub proof fn lemma_sum_event_sizes_concat(a: Seq<IntentEvent>, b: Seq<IntentEvent>)
    ensures
        sum_event_sizes(a + b) == sum_event_sizes(a) + sum_event_sizes(b),
    decreases b.len(),
{
    if b.len() == 0 {
        assert(a + b =~= a);
    } else {
        lemma_sum_event_sizes_concat(a, b.drop_last());
        assert((a + b).drop_last() =~= a + b.drop_last());
    }
}

/// Appending instruction lists adds their sizes.
pub proof fn lemma_sum_instruction_sizes_concat(
    a: Seq<ProposalInstruction>,
    b: Seq<ProposalInstruction>,
)
    ensures
        sum_instruction_sizes(a + b) == sum_instruction_sizes(a) + sum_instruction_sizes(b),
    decreases b.len(),
{
    if b.len() == 0 {
        assert(a + b =~= a);
    } else {
        lemma_sum_instruction_sizes_concat(a, b.drop_last());
        assert((a + b).drop_last() =~= a + b.drop_last());
    }
}

/// A prefix never outweighs the whole sequence.
pub proof fn lemma_sum_event_sizes_prefix(s: Seq<IntentEvent>, k: int)
    requires
        0 <= k <= s.len(),
    ensures
        sum_event_sizes(s.subrange(0, k)) <= sum_event_sizes(s),
    decreases s.len() - k,
{
    if k == s.len() {
        assert(s.subrange(0, k) =~= s);
    } else {
        assert(s.subrange(0, k + 1).drop_last() =~= s.subrange(0, k));
        lemma_sum_event_sizes_prefix(s, k + 1);
    }
}

/// A prefix never outweighs the whole sequence.
pub proof fn lemma_sum_instruction_sizes_prefix(s: Seq<ProposalInstruction>, k: int)
    requires
        0 <= k <= s.len(),
    ensures
        sum_instruction_sizes(s.subrange(0, k)) <= sum_instruction_sizes(s),
    decreases s.len() - k,
{
    if k == s.len() {
        assert(s.subrange(0, k) =~= s);
    } else {
        assert(s.subrange(0, k + 1).drop_last() =~= s.subrange(0, k));
        lemma_sum_instruction_sizes_prefix(s, k + 1);
    }
}

/// Sum of the event sizes, or `MathError` if it does not fit in `usize`.
fn sum_event_sizes_exec(events: &Vec<IntentEvent>) -> (r: Result<usize, SettlerError>)
    ensures
        r is Ok <==> sum_event_sizes(events@) <= usize::MAX,
        r matches Ok(v) ==> v == sum_event_sizes(events@),
        r matches Err(e) ==> e == SettlerError::MathError,
{
    let n = events.len();
    let mut sum: usize = 0;
    let mut i: usize = 0;
    while i < n
        invariant
            i <= n,
            n == events.len(),
            sum == sum_event_sizes(events@.subrange(0, i as int)),
        decreases n - i,
    {
        proof {
            assert(events@.subrange(0, i + 1).drop_last() =~= events@.subrange(0, i as int));
            lemma_sum_event_sizes_prefix(events@, i + 1);
        }
        let e = &events[i];
        if e.data.len() > usize::MAX - 36 {
            return Err(SettlerError::MathError);
        }
        let sz = e.size();
        sum = match math::add(sum, sz) {
            Ok(v) => v,
            Err(err) => {
                return Err(err);
            },
        };
        i = i + 1;
    }
    proof {
        assert(events@.subrange(0, n as int) =~= events@);
    }
    Ok(sum)
}

/// Sum of the staged-instruction sizes, or `MathError` if it does not fit.
fn sum_instruction_sizes_exec(instructions: &Vec<ProposalInstruction>) -> (r: Result<
    usize,
    SettlerError,
>)
    ensures
        r is Ok <==> sum_instruction_sizes(instructions@) <= usize::MAX,
        r matches Ok(v) ==> v == sum_instruction_sizes(instructions@),
        r matches Err(e) ==> e == SettlerError::MathError,
{
    let n = instructions.len();
    let mut sum: usize = 0;
    let mut i: usize = 0;
    while i < n
        invariant
            i <= n,
            n == instructions.len(),
            sum == sum_instruction_sizes(instructions@.subrange(0, i as int)),
        decreases n - i,
    {
        proof {
            assert(instructions@.subrange(0, i + 1).drop_last() =~= instructions@.subrange(
                0,
                i as int,
            ));
            lemma_sum_instruction_sizes_prefix(instructions@, i + 1);
        }
        let ix = &instructions[i];
        if ix.accounts.len() > (usize::MAX - 40) / 34 || ix.data.len() > usize::MAX - 40
            - ix.accounts.len() * 34 {
            return Err(SettlerError::MathError);
        }
        let sz = ix.size();
        sum = match math::add(sum, sz) {
            Ok(v) => v,
            Err(err) => {
                return Err(err);
            },
        };
        i = i + 1;
    }
    proof {
        assert(instructions@.subrange(0, n as int) =~= instructions@);
    }
    Ok(sum)
}

// ---------------------------------------------------------------------------
// Intent
// ---------------------------------------------------------------------------

/// A user's declared request, opened by a solver, attested by validators.
#[derive(Clone, Debug)]
pub struct Intent {
    pub op: OpType,
    pub user: Vec<u8>,
    pub intent_creator: Vec<u8>,
    pub intent_hash: Vec<u8>,
    pub nonce: Vec<u8>,
    pub deadline: u64,
    pub min_validations: u16,
    pub validations: u16,
    pub is_final: bool,
    pub validators: Vec<Vec<u8>>,
    pub intent_data: Vec<u8>,
    pub max_fees: Vec<TokenFee>,
    pub events: Vec<IntentEvent>,
    pub bump: u8,
}

/// Serialized size of the data section: length prefix + payload.
pub open spec fn spec_data_size(len: nat) -> nat {
    (4 + len) as nat
}

/// Serialized size of the fee-cap section: length prefix + fixed entries.
pub open spec fn spec_max_fees_size(len: nat) -> nat {
    (4 + TOKEN_FEE_SPACE * len) as nat
}

/// Serialized size of the event section: length prefix + entries.
pub open spec fn spec_events_size(events: Seq<IntentEvent>) -> nat {
    (4 + sum_event_sizes(events)) as nat
}

/// Reserved size of the validator section: length prefix + one key per
/// possible attestation, reserved up front for the whole quorum.
pub open spec fn spec_validators_size(min_validations: nat) -> nat {
    (4 + 32 * min_validations) as nat
}

/// Exact storage footprint of an intent record created with these field
/// lengths: record tag, fixed fields, then each variable section.
pub open spec fn spec_intent_total_size(
    data_len: nat,
    max_fees_len: nat,
    events: Seq<IntentEvent>,
    min_validations: nat,
) -> nat {
    (RECORD_TAG_LEN + INTENT_BASE_LEN + spec_data_size(data_len) + spec_max_fees_size(max_fees_len)
        + spec_events_size(events) + spec_validators_size(min_validations)) as nat
}

/// Exact storage footprint after an extension: the previous footprint plus
/// the payload of each supplied section (their length prefixes already
/// exist in the record).
pub open spec fn spec_intent_extended_size(
    size: nat,
    more_data: Option<Vec<u8>>,
    more_max_fees: Option<Vec<TokenFee>>,
    more_events: Option<Vec<IntentEvent>>,
) -> nat {
    (size + (match more_data {
        Some(d) => d.len() as int,
        None => 0,
    }) + (match more_max_fees {
        Some(f) => TOKEN_FEE_SPACE * f.len(),
        None => 0,
    }) + (match more_events {
        Some(e) => sum_event_sizes(e@) as int,
        None => 0,
    })) as nat
}

impl Intent {
    /// Structural invariant: every key-sized field is a full key, the
    /// attestation counter equals the number of recorded validators, the
    /// recorded validators never outnumber the quorum and hold no duplicate.
    pub open spec fn wf(self) -> bool {
        &&& self.user.len() == KEY_LEN
        &&& self.intent_creator.len() == KEY_LEN
        &&& self.intent_hash.len() == KEY_LEN
        &&& self.nonce.len() == KEY_LEN
        &&& self.validations == self.validators.len()
        &&& self.validators.len() <= self.min_validations
        &&& forall|i: int|
            0 <= i < self.validators.len() ==> (#[trigger] self.validators[i]).len() == KEY_LEN
        &&& forall|i: int, j: int|
            0 <= i < j < self.validators.len() ==> self.validators[i]@ != self.validators[j]@
        &&& forall|i: int| 0 <= i < self.max_fees.len() ==> (#[trigger] self.max_fees[i]).wf()
        &&& forall|i: int| 0 <= i < self.events.len() ==> (#[trigger] self.events[i]).wf()
    }

    /// Exact storage footprint of a fresh intent record with these field
    /// lengths, validator capacity reserved for the whole quorum.
    pub fn total_size(
        data_len: usize,
        max_fees_len: usize,
        events: &Vec<IntentEvent>,
        min_validations: u16,
    ) -> (r: Result<usize, SettlerError>)
        ensures
            r is Ok <==> spec_intent_total_size(
                data_len as nat,
                max_fees_len as nat,
                events@,
                min_validations as nat,
            ) <= usize::MAX,
            r matches Ok(v) ==> v == spec_intent_total_size(
                data_len as nat,
                max_fees_len as nat,
                events@,
                min_validations as nat,
            ),
            r matches Err(e) ==> e == SettlerError::MathError,
    {
        let size = math::add(RECORD_TAG_LEN, INTENT_BASE_LEN)?;
        let size = math::add(size, Self::data_size(data_len)?)?;
        let size = math::add(size, Self::max_fees_size(max_fees_len)?)?;
        let size = math::add(size, Self::events_size(events)?)?;
        let size = math::add(size, Self::validators_size(min_validations)?)?;
        Ok(size)
    }

    /// Serialized size of the data section.
    pub fn data_size(len: usize) -> (r: Result<usize, SettlerError>)
        ensures
            r is Ok <==> spec_data_size(len as nat) <= usize::MAX,
            r matches Ok(v) ==> v == spec_data_size(len as nat),
            r matches Err(e) ==> e == SettlerError::MathError,
    {
        math::add(4, len)
    }

    /// Serialized size of the fee-cap section.
    pub fn max_fees_size(len: usize) -> (r: Result<usize, SettlerError>)
        ensures
            r is Ok <==> spec_max_fees_size(len as nat) <= usize::MAX,
            r matches Ok(v) ==> v == spec_max_fees_size(len as nat),
            r matches Err(e) ==> e == SettlerError::MathError,
    {
        math::add(4, math::mul(TOKEN_FEE_SPACE, len)?)
    }

    /// Serialized size of the event section.
    pub fn events_size(events: &Vec<IntentEvent>) -> (r: Result<usize, SettlerError>)
        ensures
            r is Ok <==> spec_events_size(events@) <= usize::MAX,
            r matches Ok(v) ==> v == spec_events_size(events@),
            r matches Err(e) ==> e == SettlerError::MathError,
    {
        let sum = sum_event_sizes_exec(events)?;
        math::add(4, sum)
    }

    /// Reserved size of the validator section for this quorum.
    pub fn validators_size(min_validations: u16) -> (r: Result<usize, SettlerError>)
        ensures
            r is Ok <==> spec_validators_size(min_validations as nat) <= usize::MAX,
            r matches Ok(v) ==> v == spec_validators_size(min_validations as nat),
            r matches Err(e) ==> e == SettlerError::MathError,
    {
        math::add(4, math::mul(min_validations as usize, 32)?)
    }

    /// Storage footprint after growing a record of footprint `size` by the
    /// supplied sections.
    pub fn extended_size(
        size: usize,
        more_data: &Option<Vec<u8>>,
        more_max_fees: &Option<Vec<TokenFee>>,
        more_events: &Option<Vec<IntentEvent>>,
    ) -> (r: Result<usize, SettlerError>)
        ensures
            r is Ok <==> spec_intent_extended_size(
                size as nat,
                *more_data,
                *more_max_fees,
                *more_events,
            ) <= usize::MAX,
            r matches Ok(v) ==> v == spec_intent_extended_size(
                size as nat,
                *more_data,
                *more_max_fees,
                *more_events,
            ),
            r matches Err(e) ==> e == SettlerError::MathError,
    {
        let mut size = size;

        if let Some(v) = more_data {
            size = math::add(size, v.len())?;
        }

        if let Some(v) = more_max_fees {
            size = math::add(size, math::mul(TOKEN_FEE_SPACE, v.len())?)?;
        }

        if let Some(v) = more_events {
            size = math::add(size, sum_event_sizes_exec(v)?)?;
        }

        Ok(size)
    }
}

// ---------------------------------------------------------------------------
// Proposal
// ---------------------------------------------------------------------------

/// One solver's concrete execution plan for one intent.
#[derive(Clone, Debug)]
pub struct Proposal {
    pub intent: Vec<u8>,
    pub proposal_creator: Vec<u8>,
    pub deadline: u64,
    pub is_final: bool,
    pub is_signed: bool,
    pub instructions: Vec<ProposalInstruction>,
    pub fees: Vec<TokenFee>,
    pub bump: u8,
}

/// Serialized size of the staged-instruction section: prefix + entries.
pub open spec fn spec_instructions_size(instructions: Seq<ProposalInstruction>) -> nat {
    (4 + sum_instruction_sizes(instructions)) as nat
}

/// Serialized size of the fee section: length prefix + fixed entries.
pub open spec fn spec_fees_size(len: nat) -> nat {
    (4 + TOKEN_FEE_SPACE * len) as nat
}

/// Exact storage footprint of a proposal record with these contents.
pub open spec fn spec_proposal_total_size(
    instructions: Seq<ProposalInstruction>,
    fees_len: nat,
) -> nat {
    (RECORD_TAG_LEN + PROPOSAL_BASE_LEN + spec_instructions_size(instructions) + spec_fees_size(
        fees_len,
    )) as nat
}

/// Exact storage footprint after appending staged instructions to a record
/// of footprint `size`.
pub open spec fn spec_proposal_extended_size(
    size: nat,
    more_instructions: Seq<ProposalInstruction>,
) -> nat {
    (size + sum_instruction_sizes(more_instructions)) as nat
}

impl Proposal {
    /// Structural invariant: every key-sized field is a full key.
    pub open spec fn wf(self) -> bool {
        &&& self.intent.len() == KEY_LEN
        &&& self.proposal_creator.len() == KEY_LEN
        &&& forall|i: int|
            0 <= i < self.instructions.len() ==> (#[trigger] self.instructions[i]).wf()
        &&& forall|i: int| 0 <= i < self.fees.len() ==> (#[trigger] self.fees[i]).wf()
    }

    /// Exact storage footprint of a fresh proposal record.
    pub fn total_size(instructions: &Vec<ProposalInstruction>, fees_len: usize) -> (r: Result<
        usize,
        SettlerError,
    >)
        ensures
            r is Ok <==> spec_proposal_total_size(instructions@, fees_len as nat) <= usize::MAX,
            r matches Ok(v) ==> v == spec_proposal_total_size(instructions@, fees_len as nat),
            r matches Err(e) ==> e == SettlerError::MathError,
    {
        let size = math::add(RECORD_TAG_LEN, PROPOSAL_BASE_LEN)?;
        let size = math::add(size, Self::instructions_size(instructions)?)?;
        let size = math::add(size, Self::fees_size(fees_len)?)?;
        Ok(size)
    }

    /// Serialized size of the staged-instruction section.
    pub fn instructions_size(instructions: &Vec<ProposalInstruction>) -> (r: Result<
        usize,
        SettlerError,
    >)
        ensures
            r is Ok <==> spec_instructions_size(instructions@) <= usize::MAX,
            r matches Ok(v) ==> v == spec_instructions_size(instructions@),
            r matches Err(e) ==> e == SettlerError::MathError,
    {
        let sum = sum_instruction_sizes_exec(instructions)?;
        math::add(4, sum)
    }

    /// Serialized size of the fee section.
    pub fn fees_size(len: usize) -> (r: Result<usize, SettlerError>)
        ensures
            r is Ok <==> spec_fees_size(len as nat) <= usize::MAX,
            r matches Ok(v) ==> v == spec_fees_size(len as nat),
            r matches Err(e) ==> e == SettlerError::MathError,
    {
        math::add(4, math::mul(TOKEN_FEE_SPACE, len)?)
    }

    /// Storage footprint after appending staged instructions to a record of
    /// footprint `size`.
    pub fn extended_size(size: usize, more_instructions: &Vec<ProposalInstruction>) -> (r: Result<
        usize,
        SettlerError,
    >)
        ensures
            r is Ok <==> spec_proposal_extended_size(size as nat, more_instructions@) <= usize::MAX,
            r matches Ok(v) ==> v == spec_proposal_extended_size(size as nat, more_instructions@),
            r matches Err(e) ==> e == SettlerError::MathError,
    {
        let sum = sum_instruction_sizes_exec(more_instructions)?;
        math::add(size, sum)
    }
}

// ---------------------------------------------------------------------------
// Fulfillment marker and settings
// ---------------------------------------------------------------------------

/// A minimal existence record keyed by intent hash. Its presence at the
/// hash-derived address is the one-time replay guard of settlement: intent
/// and proposal creation require the address to be untouched, settlement
/// initializes it exactly once, and nothing ever updates or removes it.
#[derive(Clone, Copy, Debug, PartialEq, Eq, Structural)]
pub struct FulfilledIntent {
    pub bump: u8,
}

/// Process-wide settings of the settlement core: which whitelist collaborator
/// it consults, and whether new-record creation is paused.
#[derive(Clone, Debug)]
pub struct SettlerSettings {
    pub whitelist_program: Vec<u8>,
    pub is_paused: bool,
    pub bump: u8,
}

impl SettlerSettings {
    /// Structural invariant: the collaborator address is a full key.
    pub open spec fn wf(self) -> bool {
        self.whitelist_program.len() == KEY_LEN
    }
}

} // verus!

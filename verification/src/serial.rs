//! The persisted layout of the two records: fixed fields first, every
//! variable-length section length-prefixed with four bytes, a one-byte
//! derivation discriminant last, and an 8-byte record tag in front. The
//! serialized image of a record is exactly as long as the closed-form
//! storage footprint says, up to the validator capacity an intent reserves
//! for attestations still to come.

use crate::errors::SettlerError;
use crate::state::{
    spec_intent_total_size, spec_proposal_total_size, sum_event_sizes, sum_instruction_sizes,
    Intent, Proposal,
};
use crate::types::{
    spec_event_size, spec_instruction_size, IntentEvent, OpType, ProposalInstruction,
    ProposalInstructionAccountMeta, TokenFee,
};
use vstd::prelude::*;

verus! {

// ---------------------------------------------------------------------------
// Little-endian encoders
// ---------------------------------------------------------------------------

/// The two little-endian bytes of a 16-bit value.
pub open spec fn u16_le(x: u16) -> Seq<u8> {
    seq![(x % 256) as u8, ((x / 256) % 256) as u8]
}

/// The four little-endian bytes of a 32-bit value.
pub open spec fn u32_le(x: u32) -> Seq<u8> {
    seq![
        (x % 256) as u8,
        ((x / 256) % 256) as u8,
        ((x / 65536) % 256) as u8,
        ((x / 16777216) % 256) as u8,
    ]
}

/// The eight little-endian bytes of a 64-bit value.
pub open spec fn u64_le(x: u64) -> Seq<u8> {
    seq![
        (x % 256) as u8,
        ((x / 256) % 256) as u8,
        ((x / 65536) % 256) as u8,
        ((x / 16777216) % 256) as u8,
        ((x / 4294967296) % 256) as u8,
        ((x / 1099511627776) % 256) as u8,
        ((x / 281474976710656) % 256) as u8,
        ((x / 72057594037927936) % 256) as u8,
    ]
}

/// The byte a flag serializes to.
pub open spec fn bool_byte(b: bool) -> u8 {
    if b {
        1u8
    } else {
        0u8
    }
}

/// The byte an operation kind serializes to.
pub open spec fn spec_op_byte(op: OpType) -> u8 {
    match op {
        OpType::Swap => 1u8,
        OpType::Transfer => 2u8,
        OpType::Call => 3u8,
    }
}

fn push_u16_le(out: &mut Vec<u8>, x: u16)
    ensures
        final(out)@ == old(out)@ + u16_le(x),
{
    out.push((x % 256) as u8);
    out.push(((x / 256) % 256) as u8);
    proof {
        assert(out@ =~= old(out)@ + u16_le(x));
    }
}

fn push_u32_le(out: &mut Vec<u8>, x: u32)
    ensures
        final(out)@ == old(out)@ + u32_le(x),
{
    out.push((x % 256) as u8);
    out.push(((x / 256) % 256) as u8);
    out.push(((x / 65536) % 256) as u8);
    out.push(((x / 16777216) % 256) as u8);
    proof {
        assert(out@ =~= old(out)@ + u32_le(x));
    }
}

fn push_u64_le(out: &mut Vec<u8>, x: u64)
    ensures
        final(out)@ == old(out)@ + u64_le(x),
{
    out.push((x % 256) as u8);
    out.push(((x / 256) % 256) as u8);
    out.push(((x / 65536) % 256) as u8);
    out.push(((x / 16777216) % 256) as u8);
    out.push(((x / 4294967296) % 256) as u8);
    out.push(((x / 1099511627776) % 256) as u8);
    out.push(((x / 281474976710656) % 256) as u8);
    out.push(((x / 72057594037927936) % 256) as u8);
    proof {
        assert(out@ =~= old(out)@ + u64_le(x));
    }
}

fn push_bool(out: &mut Vec<u8>, b: bool)
    ensures
        final(out)@ == old(out)@ + seq![bool_byte(b)],
{
    out.push(if b { 1 } else { 0 });
    proof {
        assert(out@ =~= old(out)@ + seq![bool_byte(b)]);
    }
}

fn push_bytes(out: &mut Vec<u8>, src: &Vec<u8>)
    ensures
        final(out)@ == old(out)@ + src@,
{
    let n = src.len();
    let mut i: usize = 0;
    proof {
        assert(out@ =~= old(out)@ + src@.subrange(0, 0));
    }
    while i < n
        invariant
            i <= n,
            n == src.len(),
            out@ == old(out)@ + src@.subrange(0, i as int),
        decreases n - i,
    {
        out.push(src[i]);
        proof {
            assert(out@ =~= old(out)@ + src@.subrange(0, i + 1 as int));
        }
        i = i + 1;
    }
    proof {
        assert(src@.subrange(0, n as int) =~= src@);
    }
}

// ---------------------------------------------------------------------------
// Section encodings
// ---------------------------------------------------------------------------

/// One serialized fee entry: asset identifier, then the amount.
pub open spec fn spec_ser_fee(f: TokenFee) -> Seq<u8> {
    f.mint@ + u64_le(f.amount)
}

/// The serialized fee entries, in order, without a length prefix.
pub open spec fn spec_ser_fees(s: Seq<TokenFee>) -> Seq<u8>
    decreases s.len(),
{
    if s.len() == 0 {
        Seq::empty()
    } else {
        spec_ser_fees(s.drop_last()) + spec_ser_fee(s.last())
    }
}

/// One serialized event: topic, then the length-prefixed payload.
pub open spec fn spec_ser_event(e: IntentEvent) -> Seq<u8> {
    e.topic@ + u32_le(e.data.len() as u32) + e.data@
}

/// The serialized events, in order, without a length prefix.
pub open spec fn spec_ser_events(s: Seq<IntentEvent>) -> Seq<u8>
    decreases s.len(),
{
    if s.len() == 0 {
        Seq::empty()
    } else {
        spec_ser_events(s.drop_last()) + spec_ser_event(s.last())
    }
}

/// One serialized account reference: address, then the two flag bytes.
pub open spec fn spec_ser_meta(m: ProposalInstructionAccountMeta) -> Seq<u8> {
    m.pubkey@ + seq![bool_byte(m.is_signer), bool_byte(m.is_writable)]
}

/// The serialized account references, in order, without a length prefix.
pub open spec fn spec_ser_metas(s: Seq<ProposalInstructionAccountMeta>) -> Seq<u8>
    decreases s.len(),
{
    if s.len() == 0 {
        Seq::empty()
    } else {
        spec_ser_metas(s.drop_last()) + spec_ser_meta(s.last())
    }
}

/// One serialized staged instruction: target, then the length-prefixed
/// account references, then the length-prefixed call data.
pub open spec fn spec_ser_instruction(ix: ProposalInstruction) -> Seq<u8> {
    ix.program_id@ + u32_le(ix.accounts.len() as u32) + spec_ser_metas(ix.accounts@) + u32_le(
        ix.data.len() as u32,
    ) + ix.data@
}

/// The serialized staged instructions, in order, without a length prefix.
pub open spec fn spec_ser_instructions(s: Seq<ProposalInstruction>) -> Seq<u8>
    decreases s.len(),
{
    if s.len() == 0 {
        Seq::empty()
    } else {
        spec_ser_instructions(s.drop_last()) + spec_ser_instruction(s.last())
    }
}

/// The serialized validator keys, in order, without a length prefix.
pub open spec fn spec_ser_validators(s: Seq<Vec<u8>>) -> Seq<u8>
    decreases s.len(),
{
    if s.len() == 0 {
        Seq::empty()
    } else {
        spec_ser_validators(s.drop_last()) + s.last()@
    }
}

/// The 8-byte record tag of an intent.
pub open spec fn intent_record_tag() -> Seq<u8> {
    seq![105u8, 110u8, 116u8, 101u8, 110u8, 116u8, 0u8, 0u8]
}

/// The 8-byte record tag of a proposal.
pub open spec fn proposal_record_tag() -> Seq<u8> {
    seq![112u8, 114u8, 111u8, 112u8, 111u8, 115u8, 97u8, 108u8]
}

/// The full serialized image of an intent record, fields in declaration
/// order, the derivation byte last.
pub open spec fn spec_serialize_intent(i: Intent) -> Seq<u8> {
    intent_record_tag() + seq![spec_op_byte(i.op)] + i.user@ + i.intent_creator@ + i.intent_hash@
        + i.nonce@ + u64_le(i.deadline) + u16_le(i.min_validations) + u16_le(i.validations)
        + seq![bool_byte(i.is_final)] + u32_le(i.validators.len() as u32) + spec_ser_validators(
        i.validators@,
    ) + u32_le(i.intent_data.len() as u32) + i.intent_data@ + u32_le(i.max_fees.len() as u32)
        + spec_ser_fees(i.max_fees@) + u32_le(i.events.len() as u32) + spec_ser_events(i.events@)
        + seq![i.bump]
}

/// The full serialized image of a proposal record, fields in declaration
/// order, the derivation byte last.
pub open spec fn spec_serialize_proposal(p: Proposal) -> Seq<u8> {
    proposal_record_tag() + p.intent@ + p.proposal_creator@ + u64_le(p.deadline)
        + seq![bool_byte(p.is_final), bool_byte(p.is_signed)] + u32_le(
        p.instructions.len() as u32,
    ) + spec_ser_instructions(p.instructions@) + u32_le(p.fees.len() as u32) + spec_ser_fees(
        p.fees@,
    ) + seq![p.bump]
}

// ---------------------------------------------------------------------------
// Section lengths
// ---------------------------------------------------------------------------

/// Serialized fee entries take forty bytes each.
pub proof fn lemma_ser_fees_len(s: Seq<TokenFee>)
    requires
        forall|i: int| 0 <= i < s.len() ==> (#[trigger] s[i]).wf(),
    ensures
        spec_ser_fees(s).len() == 40 * s.len(),
    decreases s.len(),
{
    if s.len() > 0 {
        lemma_ser_fees_len(s.drop_last());
    }
}

/// A serialized event takes its exact size.
pub proof fn lemma_ser_events_len(s: Seq<IntentEvent>)
    requires
        forall|i: int| 0 <= i < s.len() ==> (#[trigger] s[i]).wf(),
    ensures
        spec_ser_events(s).len() == sum_event_sizes(s),
    decreases s.len(),
{
    if s.len() > 0 {
        lemma_ser_events_len(s.drop_last());
        assert(spec_ser_event(s.last()).len() == spec_event_size(s.last()));
    }
}

/// Serialized account references take thirty-four bytes each.
pub proof fn lemma_ser_metas_len(s: Seq<ProposalInstructionAccountMeta>)
    requires
        forall|i: int| 0 <= i < s.len() ==> (#[trigger] s[i]).wf(),
    ensures
        spec_ser_metas(s).len() == 34 * s.len(),
    decreases s.len(),
{
    if s.len() > 0 {
        lemma_ser_metas_len(s.drop_last());
    }
}

/// A serialized staged instruction takes its exact size.
pub proof fn lemma_ser_instruction_len(ix: ProposalInstruction)
    requires
        ix.wf(),
    ensures
        spec_ser_instruction(ix).len() == spec_instruction_size(ix),
{
    lemma_ser_metas_len(ix.accounts@);
}

/// Serialized staged instructions take their exact summed size.
pub proof fn lemma_ser_instructions_len(s: Seq<ProposalInstruction>)
    requires
        forall|i: int| 0 <= i < s.len() ==> (#[trigger] s[i]).wf(),
    ensures
        spec_ser_instructions(s).len() == sum_instruction_sizes(s),
    decreases s.len(),
{
    if s.len() > 0 {
        lemma_ser_instructions_len(s.drop_last());
        lemma_ser_instruction_len(s.last());
    }
}

/// Serialized validator keys take thirty-two bytes each.
pub proof fn lemma_ser_validators_len(s: Seq<Vec<u8>>)
    requires
        forall|i: int| 0 <= i < s.len() ==> (#[trigger] s[i]).len() == 32,
    ensures
        spec_ser_validators(s).len() == 32 * s.len(),
    decreases s.len(),
{
    if s.len() > 0 {
        lemma_ser_validators_len(s.drop_last());
    }
}

/// The footprint round trip for intents: the serialized image, padded by
/// the thirty-two bytes reserved for each attestation still to come, is
/// exactly as long as the closed-form footprint computed from the field
/// lengths.
#[verifier::rlimit(100)]
pub proof fn lemma_intent_footprint(i: Intent)
    requires
        i.wf(),
    ensures
        spec_serialize_intent(i).len() + 32 * (i.min_validations - i.validators.len())
            == spec_intent_total_size(
            i.intent_data.len() as nat,
            i.max_fees.len() as nat,
            i.events@,
            i.min_validations as nat,
        ),
{
    lemma_ser_validators_len(i.validators@);
    lemma_ser_fees_len(i.max_fees@);
    lemma_ser_events_len(i.events@);
}

/// The footprint round trip for intents whose quorum is fully recorded:
/// the serialized image is exactly as long as the closed-form footprint.
pub proof fn lemma_intent_footprint_at_capacity(i: Intent)
    requires
        i.wf(),
        i.validators.len() == i.min_validations,
    ensures
        spec_serialize_intent(i).len() == spec_intent_total_size(
            i.intent_data.len() as nat,
            i.max_fees.len() as nat,
            i.events@,
            i.min_validations as nat,
        ),
{
    lemma_intent_footprint(i);
}

/// The footprint round trip for proposals: the serialized image is exactly
/// as long as the closed-form footprint computed from the contents.
pub proof fn lemma_proposal_footprint(p: Proposal)
    requires
        p.wf(),
    ensures
        spec_serialize_proposal(p).len() == spec_proposal_total_size(
            p.instructions@,
            p.fees.len() as nat,
        ),
{
    lemma_ser_instructions_len(p.instructions@);
    lemma_ser_fees_len(p.fees@);
}

// ---------------------------------------------------------------------------
// Executable serializers
// ---------------------------------------------------------------------------

fn push_fees(out: &mut Vec<u8>, fees: &Vec<TokenFee>)
    ensures
        final(out)@ == old(out)@ + spec_ser_fees(fees@),
{
    let n = fees.len();
    let mut i: usize = 0;
    proof {
        assert(fees@.subrange(0, 0) =~= Seq::<TokenFee>::empty());
        assert(out@ =~= old(out)@ + spec_ser_fees(fees@.subrange(0, 0)));
    }
    while i < n
        invariant
            i <= n,
            n == fees.len(),
            out@ == old(out)@ + spec_ser_fees(fees@.subrange(0, i as int)),
        decreases n - i,
    {
        push_bytes(out, &fees[i].mint);
        push_u64_le(out, fees[i].amount);
        proof {
            assert(fees@.subrange(0, i + 1 as int).drop_last() =~= fees@.subrange(0, i as int));
            assert(out@ =~= old(out)@ + spec_ser_fees(fees@.subrange(0, i + 1 as int)));
        }
        i = i + 1;
    }
    proof {
        assert(fees@.subrange(0, n as int) =~= fees@);
    }
}

fn push_events(out: &mut Vec<u8>, events: &Vec<IntentEvent>)
    requires
        forall|i: int| 0 <= i < events.len() ==> (#[trigger] events[i]).data.len() <= u32::MAX,
    ensures
        final(out)@ == old(out)@ + spec_ser_events(events@),
{
    let n = events.len();
    let mut i: usize = 0;
    proof {
        assert(events@.subrange(0, 0) =~= Seq::<IntentEvent>::empty());
        assert(out@ =~= old(out)@ + spec_ser_events(events@.subrange(0, 0)));
    }
    while i < n
        invariant
            i <= n,
            n == events.len(),
            forall|j: int| 0 <= j < events.len() ==> (#[trigger] events[j]).data.len() <= u32::MAX,
            out@ == old(out)@ + spec_ser_events(events@.subrange(0, i as int)),
        decreases n - i,
    {
        push_bytes(out, &events[i].topic);
        push_u32_le(out, events[i].data.len() as u32);
        push_bytes(out, &events[i].data);
        proof {
            assert(events@.subrange(0, i + 1 as int).drop_last() =~= events@.subrange(0, i as int));
            assert(out@ =~= old(out)@ + spec_ser_events(events@.subrange(0, i + 1 as int)));
        }
        i = i + 1;
    }
    proof {
        assert(events@.subrange(0, n as int) =~= events@);
    }
}

fn push_metas(out: &mut Vec<u8>, metas: &Vec<ProposalInstructionAccountMeta>)
    ensures
        final(out)@ == old(out)@ + spec_ser_metas(metas@),
{
    let n = metas.len();
    let mut i: usize = 0;
    proof {
        assert(metas@.subrange(0, 0) =~= Seq::<ProposalInstructionAccountMeta>::empty());
        assert(out@ =~= old(out)@ + spec_ser_metas(metas@.subrange(0, 0)));
    }
    while i < n
        invariant
            i <= n,
            n == metas.len(),
            out@ == old(out)@ + spec_ser_metas(metas@.subrange(0, i as int)),
        decreases n - i,
    {
        push_bytes(out, &metas[i].pubkey);
        push_bool(out, metas[i].is_signer);
        push_bool(out, metas[i].is_writable);
        proof {
            assert(metas@.subrange(0, i + 1 as int).drop_last() =~= metas@.subrange(0, i as int));
            assert(out@ =~= old(out)@ + spec_ser_metas(metas@.subrange(0, i + 1 as int)));
        }
        i = i + 1;
    }
    proof {
        assert(metas@.subrange(0, n as int) =~= metas@);
    }
}

fn push_instructions(out: &mut Vec<u8>, instructions: &Vec<ProposalInstruction>)
    requires
        forall|i: int|
            0 <= i < instructions.len() ==> (#[trigger] instructions[i]).accounts.len()
                <= u32::MAX && instructions[i].data.len() <= u32::MAX,
    ensures
        final(out)@ == old(out)@ + spec_ser_instructions(instructions@),
{
    let n = instructions.len();
    let mut i: usize = 0;
    proof {
        assert(instructions@.subrange(0, 0) =~= Seq::<ProposalInstruction>::empty());
        assert(out@ =~= old(out)@ + spec_ser_instructions(instructions@.subrange(0, 0)));
    }
    while i < n
        invariant
            i <= n,
            n == instructions.len(),
            forall|j: int|
                0 <= j < instructions.len() ==> (#[trigger] instructions[j]).accounts.len()
                    <= u32::MAX && instructions[j].data.len() <= u32::MAX,
            out@ == old(out)@ + spec_ser_instructions(instructions@.subrange(0, i as int)),
        decreases n - i,
    {
        push_bytes(out, &instructions[i].program_id);
        push_u32_le(out, instructions[i].accounts.len() as u32);
        push_metas(out, &instructions[i].accounts);
        push_u32_le(out, instructions[i].data.len() as u32);
        push_bytes(out, &instructions[i].data);
        proof {
            assert(instructions@.subrange(0, i + 1 as int).drop_last() =~= instructions@.subrange(
                0,
                i as int,
            ));
            assert(out@ =~= old(out)@ + spec_ser_instructions(
                instructions@.subrange(0, i + 1 as int),
            ));
        }
        i = i + 1;
    }
    proof {
        assert(instructions@.subrange(0, n as int) =~= instructions@);
    }
}

fn push_validators(out: &mut Vec<u8>, validators: &Vec<Vec<u8>>)
    ensures
        final(out)@ == old(out)@ + spec_ser_validators(validators@),
{
    let n = validators.len();
    let mut i: usize = 0;
    proof {
        assert(validators@.subrange(0, 0) =~= Seq::<Vec<u8>>::empty());
        assert(out@ =~= old(out)@ + spec_ser_validators(validators@.subrange(0, 0)));
    }
    while i < n
        invariant
            i <= n,
            n == validators.len(),
            out@ == old(out)@ + spec_ser_validators(validators@.subrange(0, i as int)),
        decreases n - i,
    {
        push_bytes(out, &validators[i]);
        proof {
            assert(validators@.subrange(0, i + 1 as int).drop_last() =~= validators@.subrange(
                0,
                i as int,
            ));
            assert(out@ =~= old(out)@ + spec_ser_validators(
                validators@.subrange(0, i + 1 as int),
            ));
        }
        i = i + 1;
    }
    proof {
        assert(validators@.subrange(0, n as int) =~= validators@);
    }
}

/// The byte an operation kind serializes to.
pub fn op_byte(op: OpType) -> (r: u8)
    ensures
        r == spec_op_byte(op),
{
    match op {
        OpType::Swap => 1,
        OpType::Transfer => 2,
        OpType::Call => 3,
    }
}

/// Serializes an intent record into its persisted image. Every
/// variable-length section must be short enough for its four-byte length
/// prefix; overlong sections are refused.
pub fn serialize_intent(i: &Intent) -> (r: Result<Vec<u8>, SettlerError>)
    ensures
        r is Ok <==> {
            &&& i.validators.len() <= u32::MAX
            &&& i.intent_data.len() <= u32::MAX
            &&& i.max_fees.len() <= u32::MAX
            &&& i.events.len() <= u32::MAX
            &&& forall|j: int|
                0 <= j < i.events.len() ==> (#[trigger] i.events[j]).data.len() <= u32::MAX
        },
        r matches Ok(v) ==> v@ == spec_serialize_intent(*i),
        r matches Err(e) ==> e == SettlerError::MathError,
{
    if i.validators.len() > 4294967295 || i.intent_data.len() > 4294967295 || i.max_fees.len()
        > 4294967295 || i.events.len() > 4294967295 {
        return Err(SettlerError::MathError);
    }
    let n_events = i.events.len();
    let mut k: usize = 0;
    while k < n_events
        invariant
            k <= n_events,
            n_events == i.events.len(),
            forall|j: int| 0 <= j < k ==> (#[trigger] i.events[j]).data.len() <= u32::MAX,
        decreases n_events - k,
    {
        if i.events[k].data.len() > 4294967295 {
            return Err(SettlerError::MathError);
        }
        k = k + 1;
    }

    let mut out: Vec<u8> = Vec::new();
    out.push(105);
    out.push(110);
    out.push(116);
    out.push(101);
    out.push(110);
    out.push(116);
    out.push(0);
    out.push(0);
    proof {
        assert(out@ =~= intent_record_tag());
    }
    out.push(op_byte(i.op));
    push_bytes(&mut out, &i.user);
    push_bytes(&mut out, &i.intent_creator);
    push_bytes(&mut out, &i.intent_hash);
    push_bytes(&mut out, &i.nonce);
    push_u64_le(&mut out, i.deadline);
    push_u16_le(&mut out, i.min_validations);
    push_u16_le(&mut out, i.validations);
    push_bool(&mut out, i.is_final);
    push_u32_le(&mut out, i.validators.len() as u32);
    push_validators(&mut out, &i.validators);
    push_u32_le(&mut out, i.intent_data.len() as u32);
    push_bytes(&mut out, &i.intent_data);
    push_u32_le(&mut out, i.max_fees.len() as u32);
    push_fees(&mut out, &i.max_fees);
    push_u32_le(&mut out, i.events.len() as u32);
    push_events(&mut out, &i.events);
    out.push(i.bump);
    proof {
        assert(out@ =~= spec_serialize_intent(*i));
    }
    Ok(out)
}

/// Serializes a proposal record into its persisted image. Every
/// variable-length section must be short enough for its four-byte length
/// prefix; overlong sections are refused.
pub fn serialize_proposal(p: &Proposal) -> (r: Result<Vec<u8>, SettlerError>)
    ensures
        r is Ok <==> {
            &&& p.instructions.len() <= u32::MAX
            &&& p.fees.len() <= u32::MAX
            &&& forall|j: int|
                0 <= j < p.instructions.len() ==> (#[trigger] p.instructions[j]).accounts.len()
                    <= u32::MAX && p.instructions[j].data.len() <= u32::MAX
        },
        r matches Ok(v) ==> v@ == spec_serialize_proposal(*p),
        r matches Err(e) ==> e == SettlerError::MathError,
{
    if p.instructions.len() > 4294967295 || p.fees.len() > 4294967295 {
        return Err(SettlerError::MathError);
    }
    let n_ix = p.instructions.len();
    let mut k: usize = 0;
    while k < n_ix
        invariant
            k <= n_ix,
            n_ix == p.instructions.len(),
            forall|j: int|
                0 <= j < k ==> (#[trigger] p.instructions[j]).accounts.len() <= u32::MAX
                    && p.instructions[j].data.len() <= u32::MAX,
        decreases n_ix - k,
    {
        if p.instructions[k].accounts.len() > 4294967295 || p.instructions[k].data.len()
            > 4294967295 {
            return Err(SettlerError::MathError);
        }
        k = k + 1;
    }

    let mut out: Vec<u8> = Vec::new();
    out.push(112);
    out.push(114);
    out.push(111);
    out.push(112);
    out.push(111);
    out.push(115);
    out.push(97);
    out.push(108);
    proof {
        assert(out@ =~= proposal_record_tag());
    }
    push_bytes(&mut out, &p.intent);
    push_bytes(&mut out, &p.proposal_creator);
    push_u64_le(&mut out, p.deadline);
    push_bool(&mut out, p.is_final);
    push_bool(&mut out, p.is_signed);
    push_u32_le(&mut out, p.instructions.len() as u32);
    push_instructions(&mut out, &p.instructions);
    push_u32_le(&mut out, p.fees.len() as u32);
    push_fees(&mut out, &p.fees);
    out.push(p.bump);
    proof {
        assert(out@ =~= spec_serialize_proposal(*p));
    }
    Ok(out)
}

} // verus!

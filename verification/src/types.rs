use crate::bytes::copy_bytes;
use vstd::prelude::*;

verus! {

/// Number of bytes of a public key, an account address, an intent hash, a
/// nonce, an event topic and an asset identifier alike.
pub const KEY_LEN: usize = 32;

/// Serialized size of one `TokenFee`: 32-byte asset identifier + 64-bit amount.
pub const TOKEN_FEE_SPACE: usize = 40;

/// The operation an intent asks for.
#[derive(Clone, Copy, Debug, PartialEq, Eq, Structural)]
pub enum OpType {
    Swap,
    Transfer,
    Call,
}

/// A fee entry: an asset identifier and an amount. In an intent's `max_fees`
/// the amount is a ceiling; in a proposal's `fees` it is the offered fee.
#[derive(Clone, Debug)]
pub struct TokenFee {
    pub mint: Vec<u8>,
    pub amount: u64,
}

impl TokenFee {
    /// A fee entry is well formed when its asset identifier is a full key.
    pub open spec fn wf(self) -> bool {
        self.mint.len() == KEY_LEN
    }
}

/// A domain event recorded on an intent and emitted once at execution.
#[derive(Clone, Debug)]
pub struct IntentEvent {
    pub topic: Vec<u8>,
    pub data: Vec<u8>,
}

/// Serialized size of one event: 32-byte topic + length prefix + payload.
pub open spec fn spec_event_size(e: IntentEvent) -> nat {
    (36 + e.data.len()) as nat
}

impl IntentEvent {
    /// An event is well formed when its topic is a full key.
    pub open spec fn wf(self) -> bool {
        self.topic.len() == KEY_LEN
    }

    /// Serialized size of this event.
    pub fn size(&self) -> (r: usize)
        requires
            spec_event_size(*self) <= usize::MAX,
        ensures
            r == spec_event_size(*self),
    {
        32 + 4 + self.data.len()
    }
}

/// One account reference inside a staged cross-chain instruction.
#[derive(Clone, Debug)]
pub struct ProposalInstructionAccountMeta {
    pub pubkey: Vec<u8>,
    pub is_signer: bool,
    pub is_writable: bool,
}

impl ProposalInstructionAccountMeta {
    /// A meta entry is well formed when its address is a full key.
    pub open spec fn wf(self) -> bool {
        self.pubkey.len() == KEY_LEN
    }
}

/// One staged cross-chain instruction of a proposal: a target, the accounts
/// it touches, and opaque call data.
#[derive(Clone, Debug)]
pub struct ProposalInstruction {
    pub program_id: Vec<u8>,
    pub accounts: Vec<ProposalInstructionAccountMeta>,
    pub data: Vec<u8>,
}

/// Serialized size of one staged instruction: 32-byte target, then the
/// length-prefixed account list, then the length-prefixed call data.
pub open spec fn spec_instruction_size(ix: ProposalInstruction) -> nat {
    (32 + (4 + ix.accounts.len() * 34) + (4 + ix.data.len())) as nat
}

impl ProposalInstruction {
    /// An instruction is well formed when every address in it is a full key.
    pub open spec fn wf(self) -> bool {
        &&& self.program_id.len() == KEY_LEN
        &&& forall|i: int| 0 <= i < self.accounts.len() ==> (#[trigger] self.accounts[i]).wf()
    }

    /// Serialized size of this instruction.
    pub fn size(&self) -> (r: usize)
        requires
            spec_instruction_size(*self) <= usize::MAX,
        ensures
            r == spec_instruction_size(*self),
    {
        let accounts_size = 4 + self.accounts.len() * (32 + 1 + 1);
        let data_size = 4 + self.data.len();

        32 + accounts_size + data_size
    }
}

/// Whether two fee entries carry the same asset and amount.
pub open spec fn fee_eqv(a: TokenFee, b: TokenFee) -> bool {
    a.mint@ == b.mint@ && a.amount == b.amount
}

/// Whether two events carry the same topic and payload.
pub open spec fn event_eqv(a: IntentEvent, b: IntentEvent) -> bool {
    a.topic@ == b.topic@ && a.data@ == b.data@
}

/// Whether two account references are byte-for-byte the same.
pub open spec fn meta_eqv(a: ProposalInstructionAccountMeta, b: ProposalInstructionAccountMeta) -> bool {
    a.pubkey@ == b.pubkey@ && a.is_signer == b.is_signer && a.is_writable == b.is_writable
}

/// Whether two staged instructions are byte-for-byte the same.
pub open spec fn instruction_eqv(a: ProposalInstruction, b: ProposalInstruction) -> bool {
    &&& a.program_id@ == b.program_id@
    &&& a.data@ == b.data@
    &&& a.accounts.len() == b.accounts.len()
    &&& forall|i: int| 0 <= i < a.accounts.len() ==> meta_eqv(#[trigger] a.accounts[i], b.accounts[i])
}

/// A byte-for-byte copy of a fee entry.
pub fn copy_fee(f: &TokenFee) -> (r: TokenFee)
    ensures
        fee_eqv(*f, r),
        f.wf() ==> r.wf(),
{
    TokenFee { mint: copy_bytes(&f.mint), amount: f.amount }
}

/// A byte-for-byte copy of an event.
pub fn copy_event(e: &IntentEvent) -> (r: IntentEvent)
    ensures
        event_eqv(*e, r),
        e.wf() ==> r.wf(),
{
    IntentEvent {
        topic: copy_bytes(&e.topic),
        data: copy_bytes(&e.data),
    }
}

/// A byte-for-byte copy of an account reference.
pub fn copy_meta(m: &ProposalInstructionAccountMeta) -> (r: ProposalInstructionAccountMeta)
    ensures
        meta_eqv(*m, r),
        m.wf() ==> r.wf(),
{
    ProposalInstructionAccountMeta {
        pubkey: copy_bytes(&m.pubkey),
        is_signer: m.is_signer,
        is_writable: m.is_writable,
    }
}

/// A byte-for-byte copy of a staged instruction.
pub fn copy_instruction(ix: &ProposalInstruction) -> (r: ProposalInstruction)
    ensures
        instruction_eqv(*ix, r),
        ix.wf() ==> r.wf(),
{
    let mut accounts: Vec<ProposalInstructionAccountMeta> = Vec::new();
    let n = ix.accounts.len();
    let mut i: usize = 0;
    while i < n
        invariant
            i <= n,
            n == ix.accounts.len(),
            accounts.len() == i,
            forall|j: int| 0 <= j < i ==> meta_eqv(ix.accounts[j], #[trigger] accounts[j]),
            forall|j: int|
                0 <= j < i ==> ((#[trigger] ix.accounts[j]).wf() ==> accounts[j].wf()),
        decreases n - i,
    {
        accounts.push(copy_meta(&ix.accounts[i]));
        i = i + 1;
    }
    ProposalInstruction {
        program_id: copy_bytes(&ix.program_id),
        accounts,
        data: copy_bytes(&ix.data),
    }
}

} // verus!

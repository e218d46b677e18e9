//! Plain values of the Solana wire model: addresses, instructions, messages and
//! transactions, with the mathematical views that contracts speak of.
use vstd::arithmetic::div_mod::lemma_div_denominator;
use vstd::arithmetic::power::{lemma_pow0, lemma_pow_positive, pow};
use vstd::prelude::*;

verus! {

/// An account address or program id.
pub type Pubkey = [u8; 32];

/// The hash of a recent block.
pub type Blockhash = [u8; 32];

/// An Ed25519 signature.
pub type Signature = [u8; 64];

/// An account that an instruction touches, and how.
#[derive(Clone, Copy, Debug, PartialEq, Eq)]
pub struct AccountMeta {
    pub pubkey: Pubkey,
    pub is_signer: bool,
    pub is_writable: bool,
}

/// A call of one on-chain program.
#[derive(Debug, PartialEq, Eq)]
pub struct Instruction {
    pub program_id: Pubkey,
    pub accounts: Vec<AccountMeta>,
    pub data: Vec<u8>,
}

/// The view of an [`Instruction`].
#[verifier::ext_equal]
pub struct InstructionView {
    pub program_id: Pubkey,
    pub accounts: Seq<AccountMeta>,
    pub data: Seq<u8>,
}

impl View for Instruction {
    type V = InstructionView;

    open spec fn view(&self) -> InstructionView {
        InstructionView {
            program_id: self.program_id,
            accounts: self.accounts@,
            data: self.data@,
        }
    }
}

impl Clone for Instruction {
    fn clone(&self) -> (copy: Self)
        ensures
            copy@ == self@,
    {
        let accounts = self.accounts.clone();
        let data = self.data.clone();
        assert(accounts@ =~= self.accounts@);
        assert(data@ =~= self.data@);
        Instruction { program_id: self.program_id, accounts, data }
    }
}

/// An instruction whose accounts are indices into the key list of its message.
#[derive(Debug, PartialEq, Eq)]
pub struct CompiledInstruction {
    pub program_id_index: u8,
    pub accounts: Vec<u8>,
    pub data: Vec<u8>,
}

/// The view of a [`CompiledInstruction`].
#[verifier::ext_equal]
pub struct CompiledInstructionView {
    pub program_id_index: u8,
    pub accounts: Seq<u8>,
    pub data: Seq<u8>,
}

impl View for CompiledInstruction {
    type V = CompiledInstructionView;

    open spec fn view(&self) -> CompiledInstructionView {
        CompiledInstructionView {
            program_id_index: self.program_id_index,
            accounts: self.accounts@,
            data: self.data@,
        }
    }
}

/// A compiled message without address table lookups. The key list starts with
/// the signers, of which the last few are read-only, and ends with the read-only
/// accounts that do not sign.
#[derive(Debug, PartialEq, Eq)]
pub struct Message {
    pub num_required_signatures: u8,
    pub num_readonly_signed_accounts: u8,
    pub num_readonly_unsigned_accounts: u8,
    pub account_keys: Vec<Pubkey>,
    pub recent_blockhash: Blockhash,
    pub instructions: Vec<CompiledInstruction>,
}

/// The view of a [`Message`].
#[verifier::ext_equal]
pub struct MessageView {
    pub num_required_signatures: u8,
    pub num_readonly_signed_accounts: u8,
    pub num_readonly_unsigned_accounts: u8,
    pub account_keys: Seq<Pubkey>,
    pub recent_blockhash: Blockhash,
    pub instructions: Seq<CompiledInstructionView>,
}

impl View for Message {
    type V = MessageView;

    open spec fn view(&self) -> MessageView {
        MessageView {
            num_required_signatures: self.num_required_signatures,
            num_readonly_signed_accounts: self.num_readonly_signed_accounts,
            num_readonly_unsigned_accounts: self.num_readonly_unsigned_accounts,
            account_keys: self.account_keys@,
            recent_blockhash: self.recent_blockhash,
            instructions: self.instructions@.map_values(|c: CompiledInstruction| c@),
        }
    }
}

/// A signed transaction around a legacy message.
#[derive(Debug, PartialEq, Eq)]
pub struct Transaction {
    pub signatures: Vec<Signature>,
    pub message: Message,
}

/// A signed transaction around a version 0 message.
#[derive(Debug, PartialEq, Eq)]
pub struct VersionedTransaction {
    pub signatures: Vec<Signature>,
    pub message: Message,
}

/// The view of a [`Transaction`] or a [`VersionedTransaction`].
#[verifier::ext_equal]
pub struct TransactionView {
    pub signatures: Seq<Signature>,
    pub message: MessageView,
}

impl View for Transaction {
    type V = TransactionView;

    open spec fn view(&self) -> TransactionView {
        TransactionView { signatures: self.signatures@, message: self.message@ }
    }
}

impl View for VersionedTransaction {
    type V = TransactionView;

    open spec fn view(&self) -> TransactionView {
        TransactionView { signatures: self.signatures@, message: self.message@ }
    }
}

/// The views of a list of instructions.
pub open spec fn views(instructions: Seq<Instruction>) -> Seq<InstructionView> {
    instructions.map_values(|i: Instruction| i@)
}

/// The low `width` base-256 digits of `value`, least significant first.
pub open spec fn le_bytes(value: nat, width: nat) -> Seq<u8>
    decreases width,
{
    if width == 0 {
        Seq::empty()
    } else {
        seq![(value % 256) as u8] + le_bytes(value / 256, (width - 1) as nat)
    }
}

/// Whether two addresses have the same bytes.
pub fn same_key(left: &Pubkey, right: &Pubkey) -> (same: bool)
    ensures
        same == (*left == *right),
{
    let mut i: usize = 0;
    while i < 32
        invariant
            i <= 32,
            forall|j: int| 0 <= j < i ==> left[j] == right[j],
        decreases 32 - i,
    {
        if left[i] != right[i] {
            return false;
        }
        i += 1;
    }
    assert(*left =~= *right);
    true
}

/// The bytes of a number are its base-256 digits: as many as asked for, the one at `i`
/// standing for the multiples of 256 to the power `i`.
pub proof fn law_le_bytes_are_digits(value: nat, width: nat)
    ensures
        le_bytes(value, width).len() == width,
        forall|i: int|
            0 <= i < width ==> #[trigger] le_bytes(value, width)[i] == (value as int / pow(
                256,
                i as nat,
            )) % 256,
    decreases width,
{
    if width > 0 {
        let rest = (width - 1) as nat;
        law_le_bytes_are_digits(value / 256, rest);
        assert forall|i: int| 0 <= i < width implies #[trigger] le_bytes(value, width)[i] == (
        value as int / pow(256, i as nat)) % 256 by {
            if i == 0 {
                lemma_pow0(256);
                assert(value as int / 1 == value);
            } else {
                let before = (i - 1) as nat;
                assert(le_bytes(value, width)[i] == le_bytes(value / 256, rest)[i - 1]);
                lemma_pow_positive(256, before);
                lemma_div_denominator(value as int, 256, pow(256, before));
                reveal(pow);
                assert(pow(256, i as nat) == 256 * pow(256, before));
            }
        }
    }
}

/// A view holds everything that the value holds.
pub proof fn law_views_are_complete(
    instruction: Instruction,
    compiled: CompiledInstruction,
    message: Message,
    plain: Transaction,
    versioned: VersionedTransaction,
)
    ensures
        instruction@.program_id == instruction.program_id,
        instruction@.accounts == instruction.accounts@,
        instruction@.data == instruction.data@,
        compiled@.program_id_index == compiled.program_id_index,
        compiled@.accounts == compiled.accounts@,
        compiled@.data == compiled.data@,
        message@.num_required_signatures == message.num_required_signatures,
        message@.num_readonly_signed_accounts == message.num_readonly_signed_accounts,
        message@.num_readonly_unsigned_accounts == message.num_readonly_unsigned_accounts,
        message@.account_keys == message.account_keys@,
        message@.recent_blockhash == message.recent_blockhash,
        message@.instructions.len() == message.instructions@.len(),
        forall|i: int|
            0 <= i < message.instructions@.len() ==> #[trigger] message@.instructions[i]
                == message.instructions@[i]@,
        plain@.signatures == plain.signatures@,
        plain@.message == plain.message@,
        versioned@.signatures == versioned.signatures@,
        versioned@.message == versioned.message@,
{
}

/// The views of a list are those of its elements, in their order.
pub proof fn law_list_views_are_complete(instructions: Seq<Instruction>)
    ensures
        views(instructions).len() == instructions.len(),
        forall|i: int|
            0 <= i < instructions.len() ==> #[trigger] views(instructions)[i] == instructions[i]@,
{
}

} // verus!

//! The calls into the Solana SDK and the associated token account crate. Each
//! wrapper converts plain values, makes one call, and states what the call does.
use solana_sdk::compute_budget::ComputeBudgetInstruction;
use solana_sdk::instruction::{AccountMeta as SdkMeta, Instruction as SdkInstruction};
use solana_sdk::message::compiled_instruction::CompiledInstruction as SdkCompiled;
use solana_sdk::message::v0::Message as SdkV0Message;
use solana_sdk::message::{Message as SdkMessage, MessageHeader as SdkHeader, VersionedMessage};
use solana_sdk::pubkey::{ParsePubkeyError as SdkParseError, Pubkey as SdkPubkey};
use solana_sdk::signature::{Keypair as SdkKeypair, Signer};
use solana_sdk::signer::SignerError as SdkSignerError;
use solana_sdk::transaction::{
    Transaction as SdkTransaction, VersionedTransaction as SdkVersionedTransaction,
};
use vstd::prelude::*;

use crate::chain::{
    le_bytes, views, AccountMeta, Blockhash, CompiledInstruction, Instruction, InstructionView,
    Message, MessageView, Pubkey, Signature,
};
use crate::keys::{
    carries, indexable, message_keys, readonly_keys, readonly_last, signer_keys, MAX_LIST_LEN,
};

verus! {

/// The program that takes compute budget requests.
pub const COMPUTE_BUDGET_PROGRAM: Pubkey = [
    3, 6, 70, 111, 229, 33, 23, 50, 255, 236, 173, 186, 114, 195, 155, 231, 188, 140, 229, 187, 197,
    247, 18, 107, 44, 67, 155, 58, 64, 0, 0, 0,
];

/// The program that owns plain accounts and moves lamports.
pub const SYSTEM_PROGRAM: Pubkey = [
    0, 0, 0, 0, 0, 0, 0, 0, 0, 0, 0, 0, 0, 0, 0, 0, 0, 0, 0, 0, 0, 0, 0, 0, 0, 0, 0, 0, 0, 0, 0, 0,
];

/// The program that creates associated token accounts.
pub const ASSOCIATED_TOKEN_PROGRAM: Pubkey = [
    140, 151, 37, 143, 78, 36, 137, 241, 187, 61, 16, 41, 20, 142, 13, 131, 11, 90, 19, 153, 218,
    255, 16, 132, 4, 142, 123, 216, 219, 233, 248, 89,
];

/// A request to the compute budget program: a tag byte, then a number.
pub open spec fn compute_budget_call(tag: u8, number: Seq<u8>) -> InstructionView {
    InstructionView {
        program_id: COMPUTE_BUDGET_PROGRAM,
        accounts: Seq::empty(),
        data: seq![tag] + number,
    }
}

/// Limits the account data that a transaction loads to `bytes` bytes.
pub open spec fn data_size_limit_call(bytes: u32) -> InstructionView {
    compute_budget_call(4, le_bytes(bytes as nat, 4))
}

/// Offers `micro_lamports` for each compute unit.
pub open spec fn unit_price_call(micro_lamports: u64) -> InstructionView {
    compute_budget_call(3, le_bytes(micro_lamports as nat, 8))
}

/// Limits a transaction to `units` compute units.
pub open spec fn unit_limit_call(units: u32) -> InstructionView {
    compute_budget_call(2, le_bytes(units as nat, 4))
}

/// Moves `lamports` from one account, which signs, to another.
pub open spec fn transfer_call(from: Pubkey, to: Pubkey, lamports: u64) -> InstructionView {
    InstructionView {
        program_id: SYSTEM_PROGRAM,
        accounts: seq![
            AccountMeta { pubkey: from, is_signer: true, is_writable: true },
            AccountMeta { pubkey: to, is_signer: false, is_writable: true },
        ],
        data: le_bytes(2, 4) + le_bytes(lamports as nat, 8),
    }
}

/// Creates the token account of `wallet` for `mint` at `address`, unless it is there.
pub open spec fn create_token_account_call(
    funder: Pubkey,
    address: Pubkey,
    wallet: Pubkey,
    mint: Pubkey,
    token_program: Pubkey,
) -> InstructionView {
    InstructionView {
        program_id: ASSOCIATED_TOKEN_PROGRAM,
        accounts: seq![
            AccountMeta { pubkey: funder, is_signer: true, is_writable: true },
            AccountMeta { pubkey: address, is_signer: false, is_writable: true },
            AccountMeta { pubkey: wallet, is_signer: false, is_writable: false },
            AccountMeta { pubkey: mint, is_signer: false, is_writable: false },
            AccountMeta { pubkey: SYSTEM_PROGRAM, is_signer: false, is_writable: false },
            AccountMeta { pubkey: token_program, is_signer: false, is_writable: false },
        ],
        data: seq![1u8],
    }
}

/// The address that `Pubkey::try_find_program_address` derives from seeds and a program id.
pub uninterp spec fn program_address(seeds: Seq<Seq<u8>>, program_id: Pubkey) -> Option<Pubkey>;

/// Where the token account of `wallet` for `mint` lives, if the address can be derived.
pub open spec fn token_account(
    wallet: Pubkey,
    mint: Pubkey,
    token_program: Pubkey,
) -> Option<Pubkey> {
    program_address(seq![wallet@, token_program@, mint@], ASSOCIATED_TOKEN_PROGRAM)
}

/// The public key that Ed25519 derives from a secret key.
pub uninterp spec fn derived_public_key(secret: Seq<u8>) -> Pubkey;

/// Why a text is not an address.
#[derive(Clone, Copy, Debug, PartialEq, Eq)]
pub enum ParsePubkeyError {
    WrongSize,
    Invalid,
}

/// What `Pubkey::from_str` makes of a text.
pub uninterp spec fn decoded_pubkey(text: Seq<char>) -> Result<Pubkey, ParsePubkeyError>;

/// The legacy message that `Message::new_with_blockhash` compiles.
pub uninterp spec fn legacy_message(
    instructions: Seq<InstructionView>,
    payer: Pubkey,
    recent_blockhash: Blockhash,
) -> MessageView;

/// The version 0 message that `v0::Message::try_compile` compiles.
pub uninterp spec fn v0_message(
    payer: Pubkey,
    instructions: Seq<InstructionView>,
    recent_blockhash: Blockhash,
) -> MessageView;

/// The signature that `Transaction::new` puts on a legacy message.
pub uninterp spec fn legacy_signature(secret: Seq<u8>, message: MessageView) -> Signature;

/// The signature that `VersionedTransaction::try_new` puts on a version 0 message.
pub uninterp spec fn v0_signature(secret: Seq<u8>, message: MessageView) -> Signature;

/// Why a version 0 message could not be signed.
#[derive(Clone, Copy, Debug, PartialEq, Eq)]
pub enum SignerError {
    InvalidMessage,
    NotEnoughSigners,
    TooManySigners,
    KeypairPubkeyMismatch,
}

/// The wire format can count every list of the message.
pub open spec fn encodable(message: MessageView) -> bool {
    &&& message.account_keys.len() <= MAX_LIST_LEN
    &&& message.instructions.len() <= MAX_LIST_LEN
    &&& forall|i: int|
        0 <= i < message.instructions.len() ==> (#[trigger] message.instructions[i]).accounts.len()
            <= MAX_LIST_LEN && message.instructions[i].data.len() <= MAX_LIST_LEN
}

/// `Keypair::new_from_array`, then `Signer::pubkey`: the public key of a secret key.
#[verifier::external_body]
pub(crate) fn derive_public_key(secret: &[u8; 32]) -> (key: Pubkey)
    ensures
        key == derived_public_key(secret@),
{
    SdkKeypair::new_from_array(*secret).pubkey().to_bytes()
}

/// `Pubkey::from_str`: the address that a base-58 text stands for.
#[verifier::external_body]
pub(crate) fn parse_pubkey(text: &str) -> (key: Result<Pubkey, ParsePubkeyError>)
    ensures
        key == decoded_pubkey(text@),
{
    match text.parse::<SdkPubkey>() {
        Ok(key) => Ok(key.to_bytes()),
        Err(SdkParseError::WrongSize) => Err(ParsePubkeyError::WrongSize),
        Err(SdkParseError::Invalid) => Err(ParsePubkeyError::Invalid),
    }
}

/// `ComputeBudgetInstruction::set_loaded_accounts_data_size_limit`: tag 4 and the
/// four little-endian bytes of the limit, for the compute budget program.
#[verifier::external_body]
pub(crate) fn set_loaded_accounts_data_size_limit(bytes: u32) -> (call: Instruction)
    ensures
        call@ == data_size_limit_call(bytes),
{
    let call = ComputeBudgetInstruction::set_loaded_accounts_data_size_limit(bytes);
    Instruction {
        program_id: call.program_id.to_bytes(),
        accounts: call.accounts.into_iter().map(|m| AccountMeta {
            pubkey: m.pubkey.to_bytes(),
            is_signer: m.is_signer,
            is_writable: m.is_writable,
        }).collect(),
        data: call.data,
    }
}

/// `ComputeBudgetInstruction::set_compute_unit_price`: tag 3 and the eight
/// little-endian bytes of the price, for the compute budget program.
#[verifier::external_body]
pub(crate) fn set_compute_unit_price(micro_lamports: u64) -> (call: Instruction)
    ensures
        call@ == unit_price_call(micro_lamports),
{
    let call = ComputeBudgetInstruction::set_compute_unit_price(micro_lamports);
    Instruction {
        program_id: call.program_id.to_bytes(),
        accounts: call.accounts.into_iter().map(|m| AccountMeta {
            pubkey: m.pubkey.to_bytes(),
            is_signer: m.is_signer,
            is_writable: m.is_writable,
        }).collect(),
        data: call.data,
    }
}

/// `ComputeBudgetInstruction::set_compute_unit_limit`: tag 2 and the four
/// little-endian bytes of the limit, for the compute budget program.
#[verifier::external_body]
pub(crate) fn set_compute_unit_limit(units: u32) -> (call: Instruction)
    ensures
        call@ == unit_limit_call(units),
{
    let call = ComputeBudgetInstruction::set_compute_unit_limit(units);
    Instruction {
        program_id: call.program_id.to_bytes(),
        accounts: call.accounts.into_iter().map(|m| AccountMeta {
            pubkey: m.pubkey.to_bytes(),
            is_signer: m.is_signer,
            is_writable: m.is_writable,
        }).collect(),
        data: call.data,
    }
}

/// `system_instruction::transfer`: the system program's transfer, whose variant
/// number 2 takes four bytes and whose amount takes eight, both little-endian.
#[verifier::external_body]
pub(crate) fn transfer(from: &Pubkey, to: &Pubkey, lamports: u64) -> (call: Instruction)
    ensures
        call@ == transfer_call(*from, *to, lamports),
{
    let call = solana_sdk::system_instruction::transfer(&(*from).into(), &(*to).into(), lamports);
    Instruction {
        program_id: call.program_id.to_bytes(),
        accounts: call.accounts.into_iter().map(|m| AccountMeta {
            pubkey: m.pubkey.to_bytes(),
            is_signer: m.is_signer,
            is_writable: m.is_writable,
        }).collect(),
        data: call.data,
    }
}

/// `Pubkey::try_find_program_address` on three addresses as seeds.
#[verifier::external_body]
pub(crate) fn find_program_address(
    first: &Pubkey,
    second: &Pubkey,
    third: &Pubkey,
    program_id: &Pubkey,
) -> (address: Option<Pubkey>)
    ensures
        address == program_address(seq![first@, second@, third@], *program_id),
{
    let found = SdkPubkey::try_find_program_address(&[first, second, third], &(*program_id).into());
    found.map(|(address, _)| address.to_bytes())
}

/// `create_associated_token_account_idempotent`: the account is derived from the
/// wallet, the token program and the mint, and the call panics where that
/// derivation finds no address.
#[verifier::external_body]
pub(crate) fn create_token_account(
    funder: &Pubkey,
    wallet: &Pubkey,
    mint: &Pubkey,
    token_program: &Pubkey,
) -> (call: Instruction)
    requires
        token_account(*wallet, *mint, *token_program) is Some,
    ensures
        call@ == create_token_account_call(
            *funder,
            token_account(*wallet, *mint, *token_program)->0,
            *wallet,
            *mint,
            *token_program,
        ),
{
    let call = spl_associated_token_account::instruction::create_associated_token_account_idempotent(
        &(*funder).into(), &(*wallet).into(), &(*mint).into(), &(*token_program).into());
    Instruction {
        program_id: call.program_id.to_bytes(),
        accounts: call.accounts.into_iter().map(|m| AccountMeta {
            pubkey: m.pubkey.to_bytes(),
            is_signer: m.is_signer,
            is_writable: m.is_writable,
        }).collect(),
        data: call.data,
    }
}

/// `Message::new_with_blockhash`: a legacy message over `instructions`. It panics
/// where more than 255 keys sign or are read-only. The key list holds every
/// address once, the payer first, who may be written to, and the addresses that
/// neither sign nor are written last; where it has at most 256 keys, each
/// instruction can be read back from it.
#[verifier::external_body]
pub(crate) fn compile_legacy(
    instructions: Vec<Instruction>,
    payer: &Pubkey,
    recent_blockhash: Blockhash,
) -> (message: Message)
    requires
        signer_keys(views(instructions@), *payer).len() <= 255,
        readonly_keys(views(instructions@), *payer).len() <= 255,
    ensures
        message@ == legacy_message(views(instructions@), *payer, recent_blockhash),
        message@.recent_blockhash == recent_blockhash,
        message@.num_required_signatures == signer_keys(views(instructions@), *payer).len(),
        message@.num_readonly_signed_accounts < message@.num_required_signatures,
        readonly_last(message@, views(instructions@), *payer),
        message@.num_required_signatures <= message@.account_keys.len(),
        message@.account_keys[0] == *payer,
        message@.account_keys.no_duplicates(),
        message@.account_keys.to_set() == message_keys(views(instructions@), *payer),
        message@.instructions.len() == instructions@.len(),
        forall|i: int|
            0 <= i < instructions@.len() ==> (#[trigger] message@.instructions[i]).accounts.len()
                == instructions@[i]@.accounts.len() && message@.instructions[i].data
                == instructions@[i]@.data,
        message_keys(views(instructions@), *payer).len() <= 256 ==> carries(
            message@,
            views(instructions@),
        ),
{
    let calls = Vec::from_iter(instructions.into_iter().map(|Instruction { program_id, accounts, data }| SdkInstruction {
        program_id: program_id.into(),
        accounts: accounts.into_iter().map(|AccountMeta { pubkey, is_signer, is_writable }|
            SdkMeta { pubkey: pubkey.into(), is_signer, is_writable }).collect(),
        data,
    }));
    let SdkMessage { header: SdkHeader { num_required_signatures, num_readonly_signed_accounts, num_readonly_unsigned_accounts }, account_keys, instructions, .. } =
        SdkMessage::new_with_blockhash(&calls, Some(&(*payer).into()), &recent_blockhash.into());
    Message {
        num_required_signatures, num_readonly_signed_accounts, num_readonly_unsigned_accounts, recent_blockhash,
        account_keys: account_keys.into_iter().map(SdkPubkey::to_bytes).collect(),
        instructions: instructions.into_iter().map(|SdkCompiled { program_id_index, accounts, data }|
            CompiledInstruction { program_id_index, accounts, data }).collect(),
    }
}

/// `v0::Message::try_compile` without lookup tables. It fails, always with
/// `AccountIndexOverflow`, exactly where there are more than 256 keys or more
/// than 255 signers. The key list holds every address once, the payer first, who
/// may be written to, and the addresses that neither sign nor are written last;
/// each instruction can be read back from it.
#[verifier::external_body]
pub(crate) fn compile_v0(
    payer: Pubkey,
    instructions: Vec<Instruction>,
    recent_blockhash: Blockhash,
) -> (message: Option<Message>)
    ensures
        message is Some <==> indexable(views(instructions@), payer),
        message matches Some(m) ==> {
            &&& m@ == v0_message(payer, views(instructions@), recent_blockhash)
            &&& m@.recent_blockhash == recent_blockhash
            &&& m@.num_required_signatures == signer_keys(views(instructions@), payer).len()
            &&& m@.num_readonly_signed_accounts < m@.num_required_signatures
            &&& readonly_last(m@, views(instructions@), payer)
            &&& m@.num_required_signatures <= m@.account_keys.len()
            &&& m@.account_keys[0] == payer
            &&& m@.account_keys.no_duplicates()
            &&& m@.account_keys.to_set() == message_keys(views(instructions@), payer)
            &&& carries(m@, views(instructions@))
        },
{
    let calls = Vec::from_iter(instructions.into_iter().map(|Instruction { program_id, accounts, data }| SdkInstruction {
        program_id: program_id.into(),
        accounts: accounts.into_iter().map(|AccountMeta { pubkey, is_signer, is_writable }|
            SdkMeta { pubkey: pubkey.into(), is_signer, is_writable }).collect(),
        data,
    }));
    SdkV0Message::try_compile(&payer.into(), &calls, &[], recent_blockhash.into()).ok().map(|SdkV0Message { header: SdkHeader { num_required_signatures, num_readonly_signed_accounts, num_readonly_unsigned_accounts }, account_keys, instructions, .. }| Message {
        num_required_signatures, num_readonly_signed_accounts, num_readonly_unsigned_accounts, recent_blockhash,
        account_keys: account_keys.into_iter().map(SdkPubkey::to_bytes).collect(),
        instructions: instructions.into_iter().map(|SdkCompiled { program_id_index, accounts, data }|
            CompiledInstruction { program_id_index, accounts, data }).collect(),
    })
}

/// `Transaction::new` with one key pair and the message's own blockhash: the
/// signature of the message. It panics where the key is not the only signer that
/// the message asks for, and where a list is too long to be encoded.
#[verifier::external_body]
pub(crate) fn sign_legacy(secret: &[u8; 32], message: &Message) -> (signature: Signature)
    requires
        message@.num_required_signatures == 1,
        message@.account_keys.len() > 0,
        message@.account_keys[0] == derived_public_key(secret@),
        encodable(message@),
    ensures
        signature == legacy_signature(secret@, message@),
{
    let sdk = SdkMessage {
        header: SdkHeader {
            num_required_signatures: message.num_required_signatures,
            num_readonly_signed_accounts: message.num_readonly_signed_accounts,
            num_readonly_unsigned_accounts: message.num_readonly_unsigned_accounts,
        },
        account_keys: message.account_keys.iter().copied().map(SdkPubkey::from).collect(),
        recent_blockhash: message.recent_blockhash.into(),
        instructions: message.instructions.iter().map(|c| SdkCompiled {
            program_id_index: c.program_id_index, accounts: c.accounts.clone(), data: c.data.clone() }).collect(),
    };
    let key = SdkKeypair::new_from_array(*secret);
    SdkTransaction::new(&[key], sdk, message.recent_blockhash.into()).signatures[0].into()
}

/// `VersionedTransaction::try_new` on a version 0 message without lookup tables
/// and with one key pair: the message must ask for exactly one signer, who must be
/// the key pair. It panics where a message with one signer has a list too long to
/// be encoded.
#[verifier::external_body]
pub(crate) fn sign_v0(secret: &[u8; 32], message: &Message) -> (signature: Result<
    Signature,
    SignerError,
>)
    requires
        message@.num_required_signatures == 1 && message@.account_keys.len() > 0 ==> encodable(
            message@,
        ),
    ensures
        signature == if message@.account_keys.len() < message@.num_required_signatures {
            Err(SignerError::InvalidMessage)
        } else if message@.num_required_signatures == 0 {
            Err(SignerError::TooManySigners)
        } else if message@.num_required_signatures > 1 {
            Err(SignerError::NotEnoughSigners)
        } else if message@.account_keys[0] != derived_public_key(secret@) {
            Err(SignerError::KeypairPubkeyMismatch)
        } else {
            Ok(v0_signature(secret@, message@))
        },
{
    let sdk = SdkV0Message {
        header: SdkHeader { num_required_signatures: message.num_required_signatures, num_readonly_signed_accounts: message.num_readonly_signed_accounts, num_readonly_unsigned_accounts: message.num_readonly_unsigned_accounts },
        account_keys: message.account_keys.iter().copied().map(SdkPubkey::from).collect(),
        recent_blockhash: message.recent_blockhash.into(),
        instructions: message.instructions.iter().map(|c| SdkCompiled {
            program_id_index: c.program_id_index, accounts: c.accounts.clone(), data: c.data.clone() }).collect(),
        ..SdkV0Message::default()
    };
    SdkVersionedTransaction::try_new(VersionedMessage::V0(sdk), &[SdkKeypair::new_from_array(*secret)])
        .map(|signed| signed.signatures[0].into()).map_err(|error| match error {
            SdkSignerError::NotEnoughSigners => SignerError::NotEnoughSigners,
            SdkSignerError::TooManySigners => SignerError::TooManySigners,
            SdkSignerError::KeypairPubkeyMismatch => SignerError::KeypairPubkeyMismatch,
            _ => SignerError::InvalidMessage
        })
}

/// A compute budget request touches no account. Its data are its tag (4 for the data
/// size, 3 for the unit price, 2 for the unit limit) and the number, least
/// significant byte first.
pub proof fn law_budget_requests_spelled_out(bytes: u32, micro_lamports: u64, units: u32)
    ensures
        data_size_limit_call(bytes).program_id == COMPUTE_BUDGET_PROGRAM,
        data_size_limit_call(bytes).accounts.len() == 0,
        data_size_limit_call(bytes).data == seq![4u8] + le_bytes(bytes as nat, 4),
        unit_price_call(micro_lamports).program_id == COMPUTE_BUDGET_PROGRAM,
        unit_price_call(micro_lamports).accounts.len() == 0,
        unit_price_call(micro_lamports).data == seq![3u8] + le_bytes(micro_lamports as nat, 8),
        unit_limit_call(units).program_id == COMPUTE_BUDGET_PROGRAM,
        unit_limit_call(units).accounts.len() == 0,
        unit_limit_call(units).data == seq![2u8] + le_bytes(units as nat, 4),
{
}

/// A transfer is signed by its sender, writes to both accounts, and names the amount
/// after the number of its variant.
pub proof fn law_transfer_spelled_out(from: Pubkey, to: Pubkey, lamports: u64)
    ensures
        transfer_call(from, to, lamports).program_id == SYSTEM_PROGRAM,
        transfer_call(from, to, lamports).accounts.len() == 2,
        transfer_call(from, to, lamports).accounts[0].pubkey == from,
        transfer_call(from, to, lamports).accounts[0].is_signer,
        transfer_call(from, to, lamports).accounts[0].is_writable,
        transfer_call(from, to, lamports).accounts[1].pubkey == to,
        !transfer_call(from, to, lamports).accounts[1].is_signer,
        transfer_call(from, to, lamports).accounts[1].is_writable,
        transfer_call(from, to, lamports).data == le_bytes(2, 4) + le_bytes(lamports as nat, 8),
{
}

/// A token account is created where its wallet, its mint and the token program put it;
/// the funder signs, and only the funder and the account are written.
pub proof fn law_token_account_spelled_out(
    funder: Pubkey,
    wallet: Pubkey,
    mint: Pubkey,
    token_program: Pubkey,
    address: Pubkey,
)
    ensures
        token_account(wallet, mint, token_program) == program_address(
            seq![wallet@, token_program@, mint@],
            ASSOCIATED_TOKEN_PROGRAM,
        ),
        ({
            let call = create_token_account_call(funder, address, wallet, mint, token_program);
            &&& call.program_id == ASSOCIATED_TOKEN_PROGRAM
            &&& call.data == seq![1u8]
            &&& call.accounts.len() == 6
            &&& call.accounts[0].pubkey == funder
            &&& call.accounts[1].pubkey == address
            &&& call.accounts[2].pubkey == wallet
            &&& call.accounts[3].pubkey == mint
            &&& call.accounts[4].pubkey == SYSTEM_PROGRAM
            &&& call.accounts[5].pubkey == token_program
            &&& forall|i: int|
                0 <= i < 6 ==> ((#[trigger] call.accounts[i]).is_signer <==> i == 0)
                    && (call.accounts[i].is_writable <==> i <= 1)
        }),
{
}

} // verus!

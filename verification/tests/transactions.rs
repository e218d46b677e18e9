use pumpfun::chain::{AccountMeta, Instruction, Message};
use pumpfun::common::PriorityFee;
use pumpfun::keypair::Keypair;
use pumpfun::keys::{is_legacy_signable, is_versioned_encodable};
use pumpfun::pumpfun::buy::{
    build_buy_transaction, build_buy_transaction_with_tip, can_build_buy_transaction,
    can_build_buy_transaction_with_tip, BuildError,
};
use pumpfun::sdk::{
    SignerError, ASSOCIATED_TOKEN_PROGRAM, COMPUTE_BUDGET_PROGRAM, SYSTEM_PROGRAM,
};
use solana_sdk::compute_budget::ComputeBudgetInstruction;
use solana_sdk::instruction::{AccountMeta as SdkMeta, Instruction as SdkInstruction};
use solana_sdk::message::compiled_instruction::CompiledInstruction as SdkCompiled;
use solana_sdk::message::v0::Message as SdkV0Message;
use solana_sdk::message::{Message as SdkMessage, MessageHeader as SdkHeader, VersionedMessage};
use solana_sdk::pubkey::Pubkey as SdkPubkey;
use solana_sdk::signature::{Keypair as SdkKeypair, Signature as SdkSignature, Signer};
use solana_sdk::transaction::{
    Transaction as SdkTransaction, VersionedTransaction as SdkVersionedTransaction,
};

const FEE: PriorityFee =
    PriorityFee { unit_limit: 78_000, unit_price: 500_000, buy_tip_lamports: 1_500_000 };

fn sdk_key() -> SdkKeypair {
    SdkKeypair::new_from_array([7; 32])
}

fn own_key() -> Keypair {
    Keypair::from_secret([7; 32])
}

fn sdk_calls(calls: &[Instruction]) -> Vec<SdkInstruction> {
    calls
        .iter()
        .map(|call| SdkInstruction {
            program_id: SdkPubkey::new_from_array(call.program_id),
            accounts: call
                .accounts
                .iter()
                .map(|meta| SdkMeta {
                    pubkey: SdkPubkey::new_from_array(meta.pubkey),
                    is_signer: meta.is_signer,
                    is_writable: meta.is_writable,
                })
                .collect(),
            data: call.data.clone(),
        })
        .collect()
}

fn sdk_header(message: &Message) -> SdkHeader {
    SdkHeader {
        num_required_signatures: message.num_required_signatures,
        num_readonly_signed_accounts: message.num_readonly_signed_accounts,
        num_readonly_unsigned_accounts: message.num_readonly_unsigned_accounts,
    }
}

fn sdk_keys(message: &Message) -> Vec<SdkPubkey> {
    message.account_keys.iter().map(|key| SdkPubkey::new_from_array(*key)).collect()
}

fn sdk_compiled(message: &Message) -> Vec<SdkCompiled> {
    message
        .instructions
        .iter()
        .map(|call| SdkCompiled {
            program_id_index: call.program_id_index,
            accounts: call.accounts.clone(),
            data: call.data.clone(),
        })
        .collect()
}

fn meta(byte: u8, is_signer: bool, is_writable: bool) -> AccountMeta {
    AccountMeta { pubkey: [byte; 32], is_signer, is_writable }
}

fn some_calls() -> Vec<Instruction> {
    let payer = own_key().pubkey();
    vec![
        Instruction {
            program_id: [40; 32],
            accounts: vec![
                AccountMeta { pubkey: payer, is_signer: true, is_writable: true },
                meta(41, false, true),
                meta(42, false, false),
            ],
            data: vec![1],
        },
        Instruction {
            program_id: [43; 32],
            accounts: vec![
                meta(44, false, false),
                meta(41, false, false),
                AccountMeta { pubkey: payer, is_signer: true, is_writable: false },
            ],
            data: vec![9, 8, 7],
        },
    ]
}

fn wide_call(accounts: usize, is_writable: bool) -> Instruction {
    let mut metas = Vec::new();
    for n in 0..accounts {
        let mut pubkey = [200u8; 32];
        pubkey[0] = (n % 256) as u8;
        pubkey[1] = (n / 256) as u8;
        metas.push(AccountMeta { pubkey, is_signer: false, is_writable });
    }
    Instruction { program_id: [40; 32], accounts: metas, data: vec![] }
}

#[test]
fn program_ids_are_those_of_the_chain() {
    assert_eq!(COMPUTE_BUDGET_PROGRAM, solana_sdk::compute_budget::id().to_bytes());
    assert_eq!(
        ASSOCIATED_TOKEN_PROGRAM,
        spl_associated_token_account::instruction::create_associated_token_account_idempotent(
            &SdkPubkey::new_from_array([1; 32]),
            &SdkPubkey::new_from_array([1; 32]),
            &SdkPubkey::new_from_array([2; 32]),
            &SdkPubkey::new_from_array([3; 32]),
        )
        .program_id
        .to_bytes()
    );
    assert_eq!(SYSTEM_PROGRAM, [0; 32]);
}

#[test]
fn a_key_pair_has_the_public_key_of_its_secret() {
    assert_eq!(own_key().pubkey(), sdk_key().pubkey().to_bytes());
    assert_ne!(own_key().pubkey(), [7; 32]);
}

#[test]
fn a_plain_transaction_is_the_one_of_the_sdk() {
    let blockhash = [11; 32];
    let calls = some_calls();
    assert!(can_build_buy_transaction(&own_key(), &FEE, &calls));
    let mut expected_calls = vec![
        ComputeBudgetInstruction::set_loaded_accounts_data_size_limit(250000),
        ComputeBudgetInstruction::set_compute_unit_price(FEE.unit_price),
        ComputeBudgetInstruction::set_compute_unit_limit(FEE.unit_limit),
    ];
    expected_calls.extend(sdk_calls(&calls));
    let key = sdk_key();
    let expected = SdkTransaction::new_signed_with_payer(
        &expected_calls,
        Some(&key.pubkey()),
        &[&key],
        blockhash.into(),
    );
    let built = build_buy_transaction(&own_key(), &FEE, calls, blockhash);
    let converted = SdkTransaction {
        signatures: built.signatures.iter().map(|s| SdkSignature::from(*s)).collect(),
        message: SdkMessage {
            header: sdk_header(&built.message),
            account_keys: sdk_keys(&built.message),
            recent_blockhash: built.message.recent_blockhash.into(),
            instructions: sdk_compiled(&built.message),
        },
    };
    assert_eq!(converted, expected);
    assert!(converted.verify().is_ok());
}

#[test]
fn budget_requests_are_encoded_little_endian() {
    let built = build_buy_transaction(&own_key(), &FEE, some_calls(), [11; 32]);
    let data: Vec<Vec<u8>> =
        built.message.instructions.iter().map(|call| call.data.clone()).collect();
    assert_eq!(data[0], vec![4, 144, 208, 3, 0]);
    assert_eq!(data[1], vec![3, 32, 161, 7, 0, 0, 0, 0, 0]);
    assert_eq!(data[2], vec![2, 176, 48, 1, 0]);
    assert_eq!(data[3], vec![1]);
    assert_eq!(data[4], vec![9, 8, 7]);
    for call in &built.message.instructions[0..3] {
        assert_eq!(
            built.message.account_keys[call.program_id_index as usize],
            COMPUTE_BUDGET_PROGRAM
        );
        assert!(call.accounts.is_empty());
    }
}

#[test]
#[allow(deprecated)]
fn a_tipped_transaction_is_the_one_of_the_sdk() {
    let blockhash = [12; 32];
    let tip_account = [77; 32];
    let calls = some_calls();
    assert!(can_build_buy_transaction_with_tip(&tip_account, &own_key(), &FEE, &calls));
    let key = sdk_key();
    let mut expected_calls = vec![
        ComputeBudgetInstruction::set_loaded_accounts_data_size_limit(250000),
        ComputeBudgetInstruction::set_compute_unit_price(FEE.unit_price),
        ComputeBudgetInstruction::set_compute_unit_limit(FEE.unit_limit),
        solana_sdk::system_instruction::transfer(
            &key.pubkey(),
            &SdkPubkey::new_from_array(tip_account),
            FEE.buy_tip_lamports,
        ),
    ];
    expected_calls.extend(sdk_calls(&calls));
    let message =
        SdkV0Message::try_compile(&key.pubkey(), &expected_calls, &[], blockhash.into()).unwrap();
    let expected =
        SdkVersionedTransaction::try_new(VersionedMessage::V0(message), &[&key]).unwrap();
    let built = build_buy_transaction_with_tip(&tip_account, &own_key(), &FEE, calls, blockhash);
    let built = built.unwrap();
    let converted = SdkVersionedTransaction {
        signatures: built.signatures.iter().map(|s| SdkSignature::from(*s)).collect(),
        message: VersionedMessage::V0(SdkV0Message {
            header: sdk_header(&built.message),
            account_keys: sdk_keys(&built.message),
            recent_blockhash: built.message.recent_blockhash.into(),
            instructions: sdk_compiled(&built.message),
            address_table_lookups: vec![],
        }),
    };
    assert_eq!(converted, expected);
    assert!(converted.verify_with_results().iter().all(|ok| *ok));
}

#[test]
fn a_tip_is_one_more_call_after_the_budget() {
    let plain = build_buy_transaction(&own_key(), &FEE, some_calls(), [12; 32]);
    let tipped =
        build_buy_transaction_with_tip(&[77; 32], &own_key(), &FEE, some_calls(), [12; 32])
            .unwrap();
    assert_eq!(tipped.message.instructions.len(), plain.message.instructions.len() + 1);
    let tip = &tipped.message.instructions[3];
    let keys = &tipped.message.account_keys;
    assert_eq!(keys[tip.program_id_index as usize], SYSTEM_PROGRAM);
    assert_eq!(keys[tip.accounts[0] as usize], own_key().pubkey());
    assert_eq!(keys[tip.accounts[1] as usize], [77; 32]);
    assert_eq!(tip.data, vec![2, 0, 0, 0, 96, 227, 22, 0, 0, 0, 0, 0]);
    let plain_data: Vec<&Vec<u8>> = plain.message.instructions.iter().map(|c| &c.data).collect();
    let mut tipped_data: Vec<&Vec<u8>> =
        tipped.message.instructions.iter().map(|c| &c.data).collect();
    tipped_data.remove(3);
    assert_eq!(plain_data, tipped_data);
}

#[test]
fn the_payer_pays_and_signs_alone() {
    let built = build_buy_transaction(&own_key(), &FEE, some_calls(), [13; 32]);
    assert_eq!(built.message.account_keys[0], own_key().pubkey());
    assert_eq!(built.message.num_required_signatures, 1);
    assert_eq!(built.signatures.len(), 1);
    assert_eq!(built.message.recent_blockhash, [13; 32]);
}

#[test]
fn only_written_accounts_can_be_written() {
    let built = build_buy_transaction(&own_key(), &FEE, some_calls(), [13; 32]);
    let message = built.message;
    assert_eq!(message.num_readonly_signed_accounts, 0);
    assert_eq!(message.num_readonly_unsigned_accounts, 5);
    assert_eq!(message.account_keys[0..2], [own_key().pubkey(), [41; 32]]);
    let idle = [COMPUTE_BUDGET_PROGRAM, [40; 32], [42; 32], [43; 32], [44; 32]];
    assert_eq!(message.account_keys.len(), 7);
    for key in &message.account_keys[2..] {
        assert!(idle.contains(key));
    }
}

#[test]
fn another_signer_is_refused() {
    let calls = vec![Instruction {
        program_id: [40; 32],
        accounts: vec![meta(41, true, true)],
        data: vec![],
    }];
    assert!(!can_build_buy_transaction(&own_key(), &FEE, &calls));
    let built = build_buy_transaction_with_tip(&[77; 32], &own_key(), &FEE, calls, [0; 32]);
    assert_eq!(built, Err(BuildError::Signer(SignerError::NotEnoughSigners)));
}

#[test]
fn too_many_accounts_overflow_the_index() {
    // The payer, the tip account, three programs and the accounts of the call.
    let fits =
        build_buy_transaction_with_tip(&[77; 32], &own_key(), &FEE, vec![wide_call(251, true)], [0; 32]);
    assert_eq!(fits.unwrap().message.account_keys.len(), 256);
    let overflows =
        build_buy_transaction_with_tip(&[77; 32], &own_key(), &FEE, vec![wide_call(252, true)], [0; 32]);
    assert_eq!(overflows, Err(BuildError::AccountIndexOverflow));
}

#[test]
fn too_many_readonly_accounts_cannot_be_signed() {
    // Two programs are read-only as well.
    assert!(can_build_buy_transaction(&own_key(), &FEE, &vec![wide_call(253, false)]));
    assert!(!can_build_buy_transaction(&own_key(), &FEE, &vec![wide_call(254, false)]));
    assert!(can_build_buy_transaction(&own_key(), &FEE, &vec![wide_call(254, true)]));
    let built = build_buy_transaction(&own_key(), &FEE, vec![wide_call(253, false)], [0; 32]);
    assert_eq!(built.message.num_readonly_unsigned_accounts, 255);
    assert_eq!(built.message.account_keys.len(), 256);
}

#[test]
fn too_long_lists_cannot_be_encoded() {
    let payer = own_key().pubkey();
    let long = vec![Instruction { program_id: [40; 32], accounts: vec![], data: vec![0; 65536] }];
    let short = vec![Instruction { program_id: [40; 32], accounts: vec![], data: vec![0; 65535] }];
    assert!(!is_legacy_signable(&long, &payer));
    assert!(is_legacy_signable(&short, &payer));
    assert!(!is_versioned_encodable(&long, &payer));
    assert!(is_versioned_encodable(&short, &payer));
    assert!(!can_build_buy_transaction_with_tip(&[77; 32], &own_key(), &FEE, &long));
    let built = build_buy_transaction_with_tip(&[77; 32], &own_key(), &FEE, short, [0; 32]);
    assert_eq!(built.unwrap().message.instructions[4].data.len(), 65535);
}

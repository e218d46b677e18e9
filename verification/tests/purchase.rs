use pumpfun::chain::{AccountMeta, Instruction, VersionedTransaction};
use pumpfun::common::PriorityFee;
use pumpfun::keypair::Keypair;
use pumpfun::pumpfun::buy::{
    begin_buy, begin_buy_instructions, begin_buy_with_tip, build_buy_instructions,
    build_buy_transaction, build_buy_transaction_with_tip, buy, buy_instructions, buy_with_tip,
    report, BuildError, BuyContext, BuyError, BuyEvent, BuyState, InstructionsEvent,
    InstructionsStep, PendingInstructions, SendOutcome, TipBuyEvent, TipBuyState,
};
use pumpfun::pumpfun::order::{BuyOrder, Quote};
use pumpfun::sdk::{ParsePubkeyError, SignerError};
use solana_sdk::pubkey::Pubkey as SdkPubkey;

const MINT: [u8; 32] = [21; 32];
const TOKEN_PROGRAM: [u8; 32] = [22; 32];
const BLOCKHASH: [u8; 32] = [23; 32];

fn key() -> Keypair {
    Keypair::from_secret([5; 32])
}

fn fee() -> PriorityFee {
    PriorityFee { unit_limit: 1000, unit_price: 2000, buy_tip_lamports: 3000 }
}

fn context() -> BuyContext {
    BuyContext {
        payer: key(),
        priority_fee: fee(),
        token_program: TOKEN_PROGRAM,
        fee_recipient: [24; 32],
    }
}

fn quote() -> Quote {
    Quote {
        bonding_curve: [31; 32],
        creator_vault: [32; 32],
        max_sol_cost: 20_000_000,
        token_amount: 5,
    }
}

fn encoded() -> Instruction {
    Instruction {
        program_id: [33; 32],
        accounts: vec![AccountMeta {
            pubkey: key().pubkey(),
            is_signer: true,
            is_writable: true,
        }],
        data: vec![102, 6],
    }
}

fn foreign() -> Instruction {
    Instruction {
        program_id: [33; 32],
        accounts: vec![AccountMeta { pubkey: [34; 32], is_signer: true, is_writable: true }],
        data: vec![],
    }
}

fn order() -> BuyOrder {
    BuyOrder {
        payer: key().pubkey(),
        mint: MINT,
        bonding_curve: [31; 32],
        creator_vault: [32; 32],
        fee_recipient: [24; 32],
        amount: 25_547_619_000_000,
        max_sol_cost: 20_000_000,
    }
}

fn quoted(answer: Result<Quote, String>) -> InstructionsEvent<String> {
    InstructionsEvent::Quoted(answer)
}

fn calls() -> Vec<Instruction> {
    buy_instructions(&order(), &TOKEN_PROGRAM, encoded())
}

fn at_tip_account(clients: usize) -> TipBuyState<String> {
    let state = TipBuyState::Blockhash(calls());
    buy_with_tip(&context(), clients, state, TipBuyEvent::Blockhash(Ok(BLOCKHASH)))
}

fn answer(clients: usize, state: TipBuyState<String>, text: String) -> TipBuyState<String> {
    buy_with_tip(&context(), clients, state, TipBuyEvent::TipAccount(Ok(text)))
}

fn base58(key: [u8; 32]) -> String {
    SdkPubkey::new_from_array(key).to_string()
}

fn tip_transaction(tip_account: [u8; 32]) -> VersionedTransaction {
    build_buy_transaction_with_tip(&tip_account, &key(), &fee(), calls(), BLOCKHASH).unwrap()
}

fn failure(state: TipBuyState<String>) -> BuyError<String> {
    match state {
        TipBuyState::Failed(error) => error,
        _ => panic!("the purchase has not failed"),
    }
}

#[test]
fn a_purchase_for_nothing_is_refused_at_once() {
    let first: Result<PendingInstructions, BuyError<String>> =
        begin_buy_instructions(&MINT, 0, Some(5));
    let error = first.unwrap_err();
    assert_eq!(error, BuyError::ZeroAmount);
    assert_eq!(error.message(), Some("Amount cannot be zero"));
    assert_eq!(BuyError::Service(String::from("down")).message(), None);
    let state: BuyState<String> = begin_buy(&MINT, 0, None);
    let later = buy(&context(), state, BuyEvent::Blockhash(Ok(BLOCKHASH)));
    assert!(matches!(later, BuyState::Failed(BuyError::ZeroAmount)));
    assert_eq!(failure(begin_buy_with_tip(&MINT, 0, None)), BuyError::ZeroAmount);
}

#[test]
fn no_slippage_means_a_hundred_basis_points() {
    let none: Result<PendingInstructions, BuyError<String>> =
        begin_buy_instructions(&MINT, 9, None);
    let hundred: Result<PendingInstructions, BuyError<String>> =
        begin_buy_instructions(&MINT, 9, Some(100));
    assert_eq!(none, hundred);
    match none.unwrap() {
        PendingInstructions::Quote(request) => {
            assert_eq!(request.mint, MINT);
            assert_eq!(request.buy_sol_cost, 9);
            assert_eq!(request.slippage_basis_points, 100);
        }
        _ => panic!("a purchase starts with a quote"),
    }
    let named: Result<PendingInstructions, BuyError<String>> =
        begin_buy_instructions(&MINT, 9, Some(0));
    match named.unwrap() {
        PendingInstructions::Quote(request) => assert_eq!(request.slippage_basis_points, 0),
        _ => panic!("a purchase starts with a quote"),
    }
}

#[test]
fn a_quote_leads_to_an_order() {
    let first: Result<PendingInstructions, BuyError<String>> =
        begin_buy_instructions(&MINT, 9, None);
    let next = build_buy_instructions(&context(), first.unwrap(), quoted(Ok(quote())));
    match next {
        Ok(InstructionsStep::Pending(PendingInstructions::Encode(found))) => {
            assert_eq!(found, order())
        }
        _ => panic!("an order was expected"),
    }
}

#[test]
fn a_failed_lookup_fails_the_purchase() {
    let first: Result<PendingInstructions, BuyError<String>> =
        begin_buy_instructions(&MINT, 9, None);
    let next = build_buy_instructions(
        &context(),
        first.unwrap(),
        quoted(Err(String::from("no such account"))),
    );
    match next {
        Err(error) => assert_eq!(error, BuyError::Service(String::from("no such account"))),
        Ok(_) => panic!("a failure was expected"),
    }
}

#[test]
fn an_unasked_answer_changes_nothing() {
    let first: Result<PendingInstructions, BuyError<String>> =
        begin_buy_instructions(&MINT, 9, None);
    let pending = first.unwrap();
    match build_buy_instructions(&context(), pending, InstructionsEvent::<String>::Encoded(encoded())) {
        Ok(InstructionsStep::Pending(still)) => assert_eq!(still, pending),
        _ => panic!("nothing should have changed"),
    }
    let state: BuyState<String> = BuyState::Done;
    assert!(matches!(buy(&context(), state, BuyEvent::Sent(Err(String::from("late")))), BuyState::Done));
}

#[test]
fn a_purchase_creates_the_token_account_first() {
    let pending = PendingInstructions::Encode(order());
    let next =
        build_buy_instructions(&context(), pending, InstructionsEvent::<String>::Encoded(encoded()));
    let built = match next {
        Ok(InstructionsStep::Ready(built)) => built,
        _ => panic!("instructions were expected"),
    };
    let expected =
        spl_associated_token_account::instruction::create_associated_token_account_idempotent(
            &SdkPubkey::new_from_array(key().pubkey()),
            &SdkPubkey::new_from_array(key().pubkey()),
            &SdkPubkey::new_from_array(MINT),
            &SdkPubkey::new_from_array(TOKEN_PROGRAM),
        );
    assert_eq!(built.len(), 2);
    assert_eq!(built[0].program_id, expected.program_id.to_bytes());
    assert_eq!(built[0].data, vec![1]);
    assert_eq!(built[0].accounts.len(), 6);
    for (own, sdk) in built[0].accounts.iter().zip(expected.accounts.iter()) {
        assert_eq!(own.pubkey, sdk.pubkey.to_bytes());
        assert_eq!(own.is_signer, sdk.is_signer);
        assert_eq!(own.is_writable, sdk.is_writable);
    }
    assert_eq!(built[0].accounts[3].pubkey, MINT);
    assert_eq!(built[1], encoded());
}

#[test]
fn a_purchase_runs_to_its_confirmation() {
    let context = context();
    let state: BuyState<String> = begin_buy(&MINT, 9, None);
    let state = buy(&context, state, BuyEvent::Instructions(quoted(Ok(quote()))));
    assert!(matches!(state, BuyState::Instructions(PendingInstructions::Encode(_))));
    let state =
        buy(&context, state, BuyEvent::Instructions(InstructionsEvent::Encoded(encoded())));
    match &state {
        BuyState::Blockhash(waiting) => assert_eq!(*waiting, calls()),
        _ => panic!("a blockhash was to be asked for"),
    }
    let state = buy(&context, state, BuyEvent::Blockhash(Ok(BLOCKHASH)));
    match &state {
        BuyState::Send(transaction) => {
            assert_eq!(*transaction, build_buy_transaction(&key(), &fee(), calls(), BLOCKHASH));
            assert_eq!(transaction.message.recent_blockhash, BLOCKHASH);
        }
        _ => panic!("a transaction was to be sent"),
    }
    assert!(matches!(buy(&context, state, BuyEvent::Sent(Ok(()))), BuyState::Done));
}

#[test]
fn a_missing_blockhash_or_confirmation_fails_the_purchase() {
    let state = BuyState::Blockhash(calls());
    match buy(&context(), state, BuyEvent::Blockhash(Err(String::from("timeout")))) {
        BuyState::Failed(error) => assert_eq!(error, BuyError::Service(String::from("timeout"))),
        _ => panic!("a failure was expected"),
    }
    let state = BuyState::Send(build_buy_transaction(&key(), &fee(), calls(), BLOCKHASH));
    match buy(&context(), state, BuyEvent::Sent(Err(String::from("dropped")))) {
        BuyState::Failed(error) => assert_eq!(error, BuyError::Service(String::from("dropped"))),
        _ => panic!("a failure was expected"),
    }
}

#[test]
fn a_buy_instruction_for_another_signer_is_not_sent() {
    let state: BuyState<String> = BuyState::Blockhash(vec![foreign()]);
    let state = buy(&context(), state, BuyEvent::Blockhash(Ok(BLOCKHASH)));
    assert!(matches!(state, BuyState::Failed(BuyError::Unsignable)));
}

#[test]
fn each_fee_client_gets_its_own_tip() {
    let state = at_tip_account(2);
    match &state {
        TipBuyState::TipAccount { transactions, blockhash, .. } => {
            assert_eq!(transactions.len(), 0);
            assert_eq!(*blockhash, BLOCKHASH);
        }
        _ => panic!("a tip account was to be asked for"),
    }
    let state = answer(2, state, base58([51; 32]));
    match &state {
        TipBuyState::TipAccount { transactions, .. } => {
            assert_eq!(*transactions, vec![tip_transaction([51; 32])])
        }
        _ => panic!("a tip account was to be asked for"),
    }
    let state = answer(2, state, base58([52; 32]));
    match state {
        TipBuyState::Send(transactions) => {
            assert_eq!(transactions, vec![tip_transaction([51; 32]), tip_transaction([52; 32])])
        }
        _ => panic!("the transactions were to be sent"),
    }
}

#[test]
fn a_tip_purchase_starts_like_any_other() {
    let context = context();
    let state: TipBuyState<String> = begin_buy_with_tip(&MINT, 9, None);
    let state = buy_with_tip(&context, 1, state, TipBuyEvent::Instructions(quoted(Ok(quote()))));
    let state = buy_with_tip(
        &context,
        1,
        state,
        TipBuyEvent::Instructions(InstructionsEvent::Encoded(encoded())),
    );
    match state {
        TipBuyState::Blockhash(waiting) => assert_eq!(waiting, calls()),
        _ => panic!("a blockhash was to be asked for"),
    }
    let state: TipBuyState<String> = begin_buy_with_tip(&MINT, 9, None);
    let lost = quoted(Err(String::from("gone")));
    let state = buy_with_tip(&context, 1, state, TipBuyEvent::Instructions(lost));
    assert_eq!(failure(state), BuyError::Service(String::from("gone")));
}

#[test]
fn without_fee_clients_nothing_is_sent() {
    match at_tip_account(0) {
        TipBuyState::Send(transactions) => assert!(transactions.is_empty()),
        _ => panic!("there was nobody to ask"),
    }
}

#[test]
fn one_bad_fee_client_stops_all() {
    let state = answer(2, at_tip_account(2), base58([51; 32]));
    let down = TipBuyEvent::TipAccount(Err(String::from("unreachable")));
    let state = buy_with_tip(&context(), 2, state, down);
    assert_eq!(failure(state), BuyError::Service(String::from("unreachable")));
    let state = buy_with_tip(
        &context(),
        2,
        TipBuyState::Blockhash(calls()),
        TipBuyEvent::Blockhash(Err(String::from("timeout"))),
    );
    assert_eq!(failure(state), BuyError::Service(String::from("timeout")));
}

#[test]
fn a_tip_account_must_be_an_address() {
    let invalid = answer(1, at_tip_account(1), String::from("0OIl0OIl0OIl0OIl0OIl0OIl0OIl0OIl"));
    assert_eq!(failure(invalid), BuyError::TipAccount(ParsePubkeyError::Invalid));
    let short = answer(1, at_tip_account(1), String::from("abc"));
    assert_eq!(failure(short), BuyError::TipAccount(ParsePubkeyError::WrongSize));
    let long = answer(1, at_tip_account(1), "1".repeat(45));
    assert_eq!(failure(long), BuyError::TipAccount(ParsePubkeyError::WrongSize));
}

#[test]
fn an_unbuildable_tip_transaction_fails_the_purchase() {
    let state: TipBuyState<String> = TipBuyState::TipAccount {
        instructions: vec![foreign()],
        blockhash: BLOCKHASH,
        transactions: vec![],
    };
    let state = answer(1, state, base58([51; 32]));
    assert_eq!(
        failure(state),
        BuyError::Build(BuildError::Signer(SignerError::NotEnoughSigners))
    );
    let mut many = Vec::new();
    for n in 0..300u32 {
        let mut pubkey = [200u8; 32];
        pubkey[0..4].copy_from_slice(&n.to_le_bytes());
        many.push(AccountMeta { pubkey, is_signer: false, is_writable: false });
    }
    let state: TipBuyState<String> = TipBuyState::TipAccount {
        instructions: vec![Instruction { program_id: [33; 32], accounts: many, data: vec![] }],
        blockhash: BLOCKHASH,
        transactions: vec![],
    };
    let state = answer(1, state, base58([51; 32]));
    assert_eq!(failure(state), BuyError::Build(BuildError::AccountIndexOverflow));
    let state: TipBuyState<String> = TipBuyState::TipAccount {
        instructions: vec![Instruction {
            program_id: [33; 32],
            accounts: vec![],
            data: vec![0; 65536],
        }],
        blockhash: BLOCKHASH,
        transactions: vec![],
    };
    let state = answer(1, state, base58([51; 32]));
    assert_eq!(failure(state), BuyError::Unsignable);
}

#[test]
fn send_failures_do_not_fail_the_purchase() {
    let state: TipBuyState<String> = TipBuyState::Send(vec![
        tip_transaction([51; 32]),
        tip_transaction([52; 32]),
        tip_transaction([53; 32]),
    ]);
    let outcomes = vec![
        SendOutcome::Rejected(String::from("rate limit")),
        SendOutcome::Delivered,
        SendOutcome::Lost(String::from("cancelled")),
    ];
    match buy_with_tip(&context(), 3, state, TipBuyEvent::Sent(outcomes)) {
        TipBuyState::Done(lines) => assert_eq!(
            lines,
            vec![
                String::from("Error in task: rate limit"),
                String::from("Task join error: cancelled"),
            ]
        ),
        _ => panic!("the purchase should be over"),
    }
    let state: TipBuyState<String> = TipBuyState::Send(vec![tip_transaction([51; 32])]);
    match buy_with_tip(&context(), 1, state, TipBuyEvent::Sent(vec![SendOutcome::Delivered])) {
        TipBuyState::Done(lines) => assert!(lines.is_empty()),
        _ => panic!("the purchase should be over"),
    }
    assert_eq!(report(&SendOutcome::Delivered), None);
}

#[test]
fn a_tip_purchase_waits_for_every_outcome() {
    let sent = || vec![tip_transaction([51; 32]), tip_transaction([52; 32])];
    let state: TipBuyState<String> = TipBuyState::Send(sent());
    let state = buy_with_tip(&context(), 2, state, TipBuyEvent::Sent(vec![]));
    let state =
        buy_with_tip(&context(), 2, state, TipBuyEvent::Sent(vec![SendOutcome::Delivered]));
    match &state {
        TipBuyState::Send(transactions) => assert_eq!(*transactions, sent()),
        _ => panic!("an outcome is missing"),
    }
    let outcomes = vec![SendOutcome::Delivered, SendOutcome::Lost(String::from("cancelled"))];
    match buy_with_tip(&context(), 2, state, TipBuyEvent::Sent(outcomes)) {
        TipBuyState::Done(lines) => {
            assert_eq!(lines, vec![String::from("Task join error: cancelled")])
        }
        _ => panic!("the purchase should be over"),
    }
    let state: TipBuyState<String> = TipBuyState::Send(vec![]);
    let state = buy_with_tip(&context(), 0, state, TipBuyEvent::Sent(vec![]));
    assert!(matches!(state, TipBuyState::Done(_)));
}

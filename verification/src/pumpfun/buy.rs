//! Buying tokens: what to order, which instructions a purchase is made of, and
//! how a purchase proceeds while its caller talks to the chain.
use vstd::prelude::*;

use crate::chain::{
    views, Blockhash, Instruction, InstructionView, Message, Pubkey, Signature, Transaction,
    TransactionView, VersionedTransaction,
};
use crate::common::PriorityFee;
use crate::keypair::Keypair;
use crate::keys::{
    carries, indexable, is_legacy_signable, is_versioned_encodable, legacy_signable,
    lemma_message_keys_finite, lemma_sole_signer, message_keys, readonly_last, short_lists,
    signer_keys, sole_signer, versioned_encodable, MAX_LIST_LEN,
};
use crate::pumpfun::order::{
    make_order, order_for, BuyOrder, Quote, QuoteRequest, DEFAULT_SLIPPAGE_BASIS_POINTS,
};
use crate::sdk::{
    compile_legacy, compile_v0, create_token_account, create_token_account_call,
    data_size_limit_call, decoded_pubkey, find_program_address, legacy_message,
    legacy_signature, parse_pubkey, set_compute_unit_limit, set_compute_unit_price,
    set_loaded_accounts_data_size_limit, token_account, transfer, transfer_call, unit_limit_call,
    unit_price_call, v0_message, v0_signature, ParsePubkeyError, SignerError,
    ASSOCIATED_TOKEN_PROGRAM,
};

verus! {

/// The most account data that a purchase loads, in bytes.
pub const MAX_LOADED_ACCOUNTS_DATA_SIZE_LIMIT: u32 = 250000;

/// The instructions of a purchase: the buyer's token account, then the buy itself.
pub open spec fn buy_calls(
    order: BuyOrder,
    token_program: Pubkey,
    encoded: InstructionView,
) -> Seq<InstructionView> {
    seq![
        create_token_account_call(
            order.payer,
            token_account(order.payer, order.mint, token_program)->0,
            order.payer,
            order.mint,
            token_program,
        ),
        encoded,
    ]
}

/// The compute budget requests that every transaction starts with.
pub open spec fn budget_calls(fee: PriorityFee) -> Seq<InstructionView> {
    seq![
        data_size_limit_call(MAX_LOADED_ACCOUNTS_DATA_SIZE_LIMIT),
        unit_price_call(fee.unit_price),
        unit_limit_call(fee.unit_limit),
    ]
}

/// Everything that a transaction without a tip does.
pub open spec fn plain_calls(
    fee: PriorityFee,
    calls: Seq<InstructionView>,
) -> Seq<InstructionView> {
    budget_calls(fee) + calls
}

/// Everything that a transaction with a tip does.
pub open spec fn tipped_calls(
    fee: PriorityFee,
    payer: Pubkey,
    tip_account: Pubkey,
    calls: Seq<InstructionView>,
) -> Seq<InstructionView> {
    budget_calls(fee) + seq![transfer_call(payer, tip_account, fee.buy_tip_lamports)] + calls
}

/// The transaction that `payer` signs over a compiled legacy message.
pub open spec fn plain_transaction(
    payer: Keypair,
    fee: PriorityFee,
    calls: Seq<InstructionView>,
    recent_blockhash: Blockhash,
) -> TransactionView {
    let message = legacy_message(plain_calls(fee, calls), payer.public_key(), recent_blockhash);
    TransactionView {
        signatures: seq![legacy_signature(payer.secret_key(), message)],
        message,
    }
}

/// The transaction that `payer` signs over a compiled version 0 message.
pub open spec fn tipped_transaction(
    tip_account: Pubkey,
    payer: Keypair,
    fee: PriorityFee,
    calls: Seq<InstructionView>,
    recent_blockhash: Blockhash,
) -> TransactionView {
    let message = v0_message(
        payer.public_key(),
        tipped_calls(fee, payer.public_key(), tip_account, calls),
        recent_blockhash,
    );
    TransactionView { signatures: seq![v0_signature(payer.secret_key(), message)], message }
}

/// `payer` alone pays and signs for `transaction`, which is tied to `blockhash`, may
/// write to the payer and where `calls` write, and does exactly `calls`, in their
/// order. The last is only sure where one-byte indices can tell all addresses apart.
pub open spec fn executes(
    transaction: TransactionView,
    payer: Pubkey,
    blockhash: Blockhash,
    calls: Seq<InstructionView>,
) -> bool {
    &&& transaction.signatures.len() == 1
    &&& transaction.message.num_required_signatures == 1
    &&& transaction.message.num_readonly_signed_accounts == 0
    &&& readonly_last(transaction.message, calls, payer)
    &&& transaction.message.account_keys.len() > 0
    &&& transaction.message.account_keys[0] == payer
    &&& transaction.message.recent_blockhash == blockhash
    &&& message_keys(calls, payer).len() <= 256 ==> carries(transaction.message, calls)
}

/// Why a transaction with a tip could not be built.
#[derive(Clone, Copy, Debug, PartialEq, Eq)]
pub enum BuildError {
    /// The transaction touches more accounts than a message can index.
    AccountIndexOverflow,
    /// The payer cannot sign for the transaction alone.
    Signer(SignerError),
}

/// The compute budget requests, in the order in which they are sent.
fn budget_instructions(fee: &PriorityFee) -> (calls: Vec<Instruction>)
    ensures
        views(calls@) == budget_calls(*fee),
{
    let mut calls: Vec<Instruction> = Vec::new();
    calls.push(set_loaded_accounts_data_size_limit(MAX_LOADED_ACCOUNTS_DATA_SIZE_LIMIT));
    calls.push(set_compute_unit_price(fee.unit_price));
    calls.push(set_compute_unit_limit(fee.unit_limit));
    assert(views(calls@) =~= budget_calls(*fee));
    calls
}

/// A copy of a list of instructions.
fn copy_instructions(calls: &Vec<Instruction>) -> (copy: Vec<Instruction>)
    ensures
        views(copy@) == views(calls@),
{
    let copy = calls.clone();
    assert(views(copy@) =~= views(calls@));
    copy
}

/// The budget requests, the tip and the instructions of a purchase, in this order.
fn tipped_instructions(
    tip_account: &Pubkey,
    payer: &Pubkey,
    fee: &PriorityFee,
    calls: Vec<Instruction>,
) -> (all: Vec<Instruction>)
    ensures
        views(all@) == tipped_calls(*fee, *payer, *tip_account, views(calls@)),
{
    let ghost given = calls@;
    let mut all = budget_instructions(fee);
    all.push(transfer(payer, tip_account, fee.buy_tip_lamports));
    let mut calls = calls;
    all.append(&mut calls);
    assert(views(all@) =~= tipped_calls(*fee, *payer, *tip_account, views(given)));
    all
}

/// The budget requests and the instructions of a purchase, in this order.
fn plain_instructions(fee: &PriorityFee, calls: Vec<Instruction>) -> (all: Vec<Instruction>)
    ensures
        views(all@) == plain_calls(*fee, views(calls@)),
{
    let ghost given = calls@;
    let mut all = budget_instructions(fee);
    let mut calls = calls;
    all.append(&mut calls);
    assert(views(all@) =~= plain_calls(*fee, views(given)));
    all
}

/// Whether [`build_buy_transaction`] can be called: the payer can sign alone, and
/// the transaction can be encoded.
pub fn can_build_buy_transaction(
    payer: &Keypair,
    priority_fee: &PriorityFee,
    build_instructions: &Vec<Instruction>,
) -> (can: bool)
    ensures
        can == legacy_signable(
            plain_calls(*priority_fee, views(build_instructions@)),
            payer.public_key(),
        ),
{
    let all = plain_instructions(priority_fee, copy_instructions(build_instructions));
    is_legacy_signable(&all, &payer.pubkey())
}

/// Whether [`build_buy_transaction_with_tip`] can be called: if the transaction
/// can be compiled and signed, it can be encoded.
pub fn can_build_buy_transaction_with_tip(
    tip_account: &Pubkey,
    payer: &Keypair,
    priority_fee: &PriorityFee,
    build_instructions: &Vec<Instruction>,
) -> (can: bool)
    ensures
        can == versioned_encodable(
            tipped_calls(
                *priority_fee,
                payer.public_key(),
                *tip_account,
                views(build_instructions@),
            ),
            payer.public_key(),
        ),
{
    let key: Pubkey = payer.pubkey();
    let all = tipped_instructions(
        tip_account,
        &key,
        priority_fee,
        copy_instructions(build_instructions),
    );
    is_versioned_encodable(&all, &key)
}

/// Puts compute budget requests before the instructions of a purchase, and has
/// the payer sign for the whole.
pub fn build_buy_transaction(
    payer: &Keypair,
    priority_fee: &PriorityFee,
    build_instructions: Vec<Instruction>,
    recent_blockhash: Blockhash,
) -> (transaction: Transaction)
    requires
        legacy_signable(
            plain_calls(*priority_fee, views(build_instructions@)),
            payer.public_key(),
        ),
    ensures
        transaction@ == plain_transaction(
            *payer,
            *priority_fee,
            views(build_instructions@),
            recent_blockhash,
        ),
        executes(
            transaction@,
            payer.public_key(),
            recent_blockhash,
            plain_calls(*priority_fee, views(build_instructions@)),
        ),
        transaction@.message == legacy_message(
            plain_calls(*priority_fee, views(build_instructions@)),
            payer.public_key(),
            recent_blockhash,
        ),
        transaction@.signatures == seq![legacy_signature(payer.secret_key(), transaction@.message)],
        transaction.message.recent_blockhash == recent_blockhash,
        transaction.message.account_keys@[0] == payer.public_key(),
{
    let ghost all = plain_calls(*priority_fee, views(build_instructions@));
    let instructions = plain_instructions(priority_fee, build_instructions);
    let key: Pubkey = payer.pubkey();
    proof {
        lemma_sole_signer(all, key);
    }
    let ghost given = instructions@;
    let message: Message = compile_legacy(instructions, &key, recent_blockhash);
    proof {
        message@.account_keys.unique_seq_to_set();
        assert forall|i: int| 0 <= i < message@.instructions.len() implies (
        #[trigger] message@.instructions[i]).accounts.len() <= MAX_LIST_LEN
            && message@.instructions[i].data.len() <= MAX_LIST_LEN by {
            assert(all[i].short());
            assert(all[i] == given[i]@);
        }
    }
    let signature = payer.sign_legacy_message(&message);
    let mut signatures: Vec<Signature> = Vec::new();
    signatures.push(signature);
    assert(signatures@ =~= seq![signature]);
    Transaction { signatures, message }
}

/// Puts compute budget requests and a tip before the instructions of a purchase,
/// and has the payer sign for the whole.
pub fn build_buy_transaction_with_tip(
    tip_account: &Pubkey,
    payer: &Keypair,
    priority_fee: &PriorityFee,
    build_instructions: Vec<Instruction>,
    blockhash: Blockhash,
) -> (transaction: Result<VersionedTransaction, BuildError>)
    requires
        versioned_encodable(
            tipped_calls(
                *priority_fee,
                payer.public_key(),
                *tip_account,
                views(build_instructions@),
            ),
            payer.public_key(),
        ),
    ensures
        ({
            let all = tipped_calls(
                *priority_fee,
                payer.public_key(),
                *tip_account,
                views(build_instructions@),
            );
            match transaction {
                Ok(t) => {
                    &&& indexable(all, payer.public_key())
                    &&& sole_signer(all, payer.public_key())
                    &&& t@ == tipped_transaction(
                        *tip_account,
                        *payer,
                        *priority_fee,
                        views(build_instructions@),
                        blockhash,
                    )
                    &&& executes(t@, payer.public_key(), blockhash, all)
                    &&& carries(t@.message, all)
                    &&& t@.message == v0_message(payer.public_key(), all, blockhash)
                    &&& t@.signatures == seq![v0_signature(payer.secret_key(), t@.message)]
                    &&& t.message.recent_blockhash == blockhash
                    &&& t.message.account_keys@[0] == payer.public_key()
                },
                Err(BuildError::AccountIndexOverflow) => !indexable(all, payer.public_key()),
                Err(BuildError::Signer(error)) => {
                    &&& error == SignerError::NotEnoughSigners
                    &&& indexable(all, payer.public_key())
                    &&& !sole_signer(all, payer.public_key())
                },
            }
        }),
{
    let key: Pubkey = payer.pubkey();
    let ghost all = tipped_calls(*priority_fee, key, *tip_account, views(build_instructions@));
    let instructions = tipped_instructions(tip_account, &key, priority_fee, build_instructions);
    let message: Message = match compile_v0(key, instructions, blockhash) {
        Some(message) => message,
        None => {
            return Err(BuildError::AccountIndexOverflow);
        },
    };
    proof {
        lemma_sole_signer(all, key);
        lemma_message_keys_finite(all, key);
        assert(signer_keys(all, key).contains(key));
        assert(signer_keys(all, key).len() > 0);
        message@.account_keys.unique_seq_to_set();
        if message@.num_required_signatures == 1 {
            assert forall|i: int| 0 <= i < message@.instructions.len() implies (
            #[trigger] message@.instructions[i]).accounts.len() <= MAX_LIST_LEN
                && message@.instructions[i].data.len() <= MAX_LIST_LEN by {
                assert(all[i].short());
            }
        }
    }
    match payer.sign_v0_message(&message) {
        Ok(signature) => {
            let mut signatures: Vec<Signature> = Vec::new();
            signatures.push(signature);
            assert(signatures@ =~= seq![signature]);
            Ok(VersionedTransaction { signatures, message })
        },
        Err(error) => Err(BuildError::Signer(error)),
    }
}

/// Everything that stays the same while a purchase proceeds.
pub struct BuyContext {
    pub payer: Keypair,
    pub priority_fee: PriorityFee,
    /// The program that owns the token accounts.
    pub token_program: Pubkey,
    /// The account that the trading program pays its fees to.
    pub fee_recipient: Pubkey,
}

/// Why a purchase ended without being sent. `E` is what the services of the
/// caller report.
#[derive(Debug, PartialEq, Eq)]
pub enum BuyError<E> {
    /// The purchase was for nothing.
    ZeroAmount,
    /// A service that the purchase depends on failed.
    Service(E),
    /// A fee client named a tip account that is not an address.
    TipAccount(ParsePubkeyError),
    /// The transaction could not be compiled or signed.
    Build(BuildError),
    /// The buyer's token account has no address.
    NoTokenAccount,
    /// The buy instruction needs other signers, or the transaction cannot be encoded.
    Unsignable,
}

impl<E> BuyError<E> {
    /// What a buyer is told of an error that no service reported, if the error is
    /// one of the buyer's making.
    pub fn message(&self) -> (text: Option<&'static str>)
        ensures
            self is ZeroAmount ==> text is Some && text->0@ == "Amount cannot be zero"@,
            !(self is ZeroAmount) ==> text is None,
    {
        match self {
            BuyError::ZeroAmount => Some("Amount cannot be zero"),
            _ => None,
        }
    }
}

/// What is still missing before the instructions of a purchase are known.
#[derive(Clone, Copy, Debug, PartialEq, Eq)]
pub enum PendingInstructions {
    /// The bonding curve has to be looked up and priced.
    Quote(QuoteRequest),
    /// The buy instruction has to be encoded for the trading program.
    Encode(BuyOrder),
}

/// What a caller found out for a purchase that waits for its instructions.
pub enum InstructionsEvent<E> {
    Quoted(Result<Quote, E>),
    Encoded(Instruction),
}

/// How far the instructions of a purchase have come.
pub enum InstructionsStep {
    Pending(PendingInstructions),
    Ready(Vec<Instruction>),
}

/// The view of an [`InstructionsStep`].
#[verifier::ext_equal]
pub enum InstructionsStepView {
    Pending(PendingInstructions),
    Ready(Seq<InstructionView>),
}

impl View for InstructionsStep {
    type V = InstructionsStepView;

    open spec fn view(&self) -> InstructionsStepView {
        match self {
            InstructionsStep::Pending(pending) => InstructionsStepView::Pending(*pending),
            InstructionsStep::Ready(calls) => InstructionsStepView::Ready(views(calls@)),
        }
    }
}

/// The first thing that a purchase asks for: nothing, where it is for nothing.
pub open spec fn first_request<E>(
    mint: Pubkey,
    buy_sol_cost: u64,
    slippage_basis_points: Option<u64>,
) -> Result<PendingInstructions, BuyError<E>> {
    if buy_sol_cost == 0 {
        Err(BuyError::ZeroAmount)
    } else {
        Ok(
            PendingInstructions::Quote(
                QuoteRequest {
                    mint,
                    buy_sol_cost,
                    slippage_basis_points: match slippage_basis_points {
                        Some(points) => points,
                        None => DEFAULT_SLIPPAGE_BASIS_POINTS,
                    },
                },
            ),
        )
    }
}

/// What follows once the caller has found something out. An answer to a question
/// that was not asked changes nothing.
pub open spec fn next_instructions<E>(
    context: BuyContext,
    pending: PendingInstructions,
    event: InstructionsEvent<E>,
) -> Result<InstructionsStepView, BuyError<E>> {
    match (pending, event) {
        (PendingInstructions::Quote(request), InstructionsEvent::Quoted(Ok(quote))) => Ok(
            InstructionsStepView::Pending(
                PendingInstructions::Encode(
                    order_for(context.payer.public_key(), context.fee_recipient, request, quote),
                ),
            ),
        ),
        (PendingInstructions::Quote(_), InstructionsEvent::Quoted(Err(error))) => Err(
            BuyError::Service(error),
        ),
        (PendingInstructions::Encode(order), InstructionsEvent::Encoded(encoded)) => {
            if token_account(order.payer, order.mint, context.token_program) is Some {
                Ok(
                    InstructionsStepView::Ready(buy_calls(order, context.token_program, encoded@)),
                )
            } else {
                Err(BuyError::NoTokenAccount)
            }
        },
        _ => Ok(InstructionsStepView::Pending(pending)),
    }
}

/// Creates the buyer's token account, then buys.
pub fn buy_instructions(
    order: &BuyOrder,
    token_program: &Pubkey,
    encoded: Instruction,
) -> (calls: Vec<Instruction>)
    requires
        token_account(order.payer, order.mint, *token_program) is Some,
    ensures
        views(calls@) == buy_calls(*order, *token_program, encoded@),
        calls@.len() == 2,
        calls@[1]@ == encoded@,
{
    let mut calls: Vec<Instruction> = Vec::new();
    calls.push(create_token_account(&order.payer, &order.payer, &order.mint, token_program));
    calls.push(encoded);
    assert(views(calls@) =~= buy_calls(*order, *token_program, encoded@));
    calls
}

/// Starts the instructions of a purchase.
pub fn begin_buy_instructions<E>(
    mint: &Pubkey,
    buy_sol_cost: u64,
    slippage_basis_points: Option<u64>,
) -> (first: Result<PendingInstructions, BuyError<E>>)
    ensures
        first == first_request::<E>(*mint, buy_sol_cost, slippage_basis_points),
        first is Ok <==> buy_sol_cost > 0,
        first matches Err(error) ==> error is ZeroAmount,
        first matches Ok(pending) ==> pending matches PendingInstructions::Quote(request) && {
            &&& request.mint == *mint
            &&& request.buy_sol_cost == buy_sol_cost
            &&& slippage_basis_points matches Some(points) ==> request.slippage_basis_points
                == points
            &&& slippage_basis_points is None ==> request.slippage_basis_points == 100
        },
{
    if buy_sol_cost == 0 {
        return Err(BuyError::ZeroAmount);
    }
    Ok(
        PendingInstructions::Quote(
            QuoteRequest {
                mint: *mint,
                buy_sol_cost,
                slippage_basis_points: slippage_basis_points.unwrap_or(
                    DEFAULT_SLIPPAGE_BASIS_POINTS,
                ),
            },
        ),
    )
}

/// Brings the instructions of a purchase one step further.
pub fn build_buy_instructions<E>(
    context: &BuyContext,
    pending: PendingInstructions,
    event: InstructionsEvent<E>,
) -> (next: Result<InstructionsStep, BuyError<E>>)
    ensures
        match next {
            Ok(step) => next_instructions(*context, pending, event) == Ok::<
                InstructionsStepView,
                BuyError<E>,
            >(step@),
            Err(error) => next_instructions(*context, pending, event) == Err::<
                InstructionsStepView,
                BuyError<E>,
            >(error),
        },
{
    match (pending, event) {
        (PendingInstructions::Quote(request), InstructionsEvent::Quoted(Ok(quote))) => {
            let order = make_order(
                &context.payer.pubkey(),
                &context.fee_recipient,
                &request,
                &quote,
            );
            Ok(InstructionsStep::Pending(PendingInstructions::Encode(order)))
        },
        (PendingInstructions::Quote(_), InstructionsEvent::Quoted(Err(error))) => Err(
            BuyError::Service(error),
        ),
        (PendingInstructions::Encode(order), InstructionsEvent::Encoded(encoded)) => {
            let address = find_program_address(
                &order.payer,
                &context.token_program,
                &order.mint,
                &ASSOCIATED_TOKEN_PROGRAM,
            );
            if address.is_none() {
                return Err(BuyError::NoTokenAccount);
            }
            Ok(InstructionsStep::Ready(buy_instructions(&order, &context.token_program, encoded)))
        },
        _ => Ok(InstructionsStep::Pending(pending)),
    }
}

/// Where a purchase stands, and what it asks its caller to do next.
pub enum BuyState<E> {
    /// Find out what the instructions depend on.
    Instructions(PendingInstructions),
    /// Fetch a recent blockhash.
    Blockhash(Vec<Instruction>),
    /// Send the transaction and wait for its confirmation.
    Send(Transaction),
    /// The purchase is confirmed.
    Done,
    /// The purchase has failed.
    Failed(BuyError<E>),
}

/// The view of a [`BuyState`].
#[verifier::ext_equal]
pub enum BuyStateView<E> {
    Instructions(PendingInstructions),
    Blockhash(Seq<InstructionView>),
    Send(TransactionView),
    Done,
    Failed(BuyError<E>),
}

impl<E> View for BuyState<E> {
    type V = BuyStateView<E>;

    open spec fn view(&self) -> BuyStateView<E> {
        match self {
            BuyState::Instructions(pending) => BuyStateView::Instructions(*pending),
            BuyState::Blockhash(calls) => BuyStateView::Blockhash(views(calls@)),
            BuyState::Send(transaction) => BuyStateView::Send(transaction@),
            BuyState::Done => BuyStateView::Done,
            BuyState::Failed(error) => BuyStateView::Failed(*error),
        }
    }
}

/// What came of a request of a purchase.
pub enum BuyEvent<E> {
    Instructions(InstructionsEvent<E>),
    Blockhash(Result<Blockhash, E>),
    Sent(Result<(), E>),
}

/// Where a purchase starts.
pub open spec fn first_buy_state<E>(
    mint: Pubkey,
    amount_sol: u64,
    slippage_basis_points: Option<u64>,
) -> BuyStateView<E> {
    match first_request::<E>(mint, amount_sol, slippage_basis_points) {
        Ok(pending) => BuyStateView::Instructions(pending),
        Err(error) => BuyStateView::Failed(error),
    }
}

/// Where a purchase stands after `event`. An answer to a question that was not
/// asked changes nothing.
pub open spec fn next_buy_state<E>(
    context: BuyContext,
    state: BuyStateView<E>,
    event: BuyEvent<E>,
) -> BuyStateView<E> {
    match (state, event) {
        (BuyStateView::Instructions(pending), BuyEvent::Instructions(found)) => {
            match next_instructions(context, pending, found) {
                Ok(InstructionsStepView::Pending(next)) => BuyStateView::Instructions(next),
                Ok(InstructionsStepView::Ready(calls)) => BuyStateView::Blockhash(calls),
                Err(error) => BuyStateView::Failed(error),
            }
        },
        (BuyStateView::Blockhash(calls), BuyEvent::Blockhash(Ok(blockhash))) => {
            if legacy_signable(
                plain_calls(context.priority_fee, calls),
                context.payer.public_key(),
            ) {
                BuyStateView::Send(
                    plain_transaction(context.payer, context.priority_fee, calls, blockhash),
                )
            } else {
                BuyStateView::Failed(BuyError::Unsignable)
            }
        },
        (BuyStateView::Blockhash(_), BuyEvent::Blockhash(Err(error))) => BuyStateView::Failed(
            BuyError::Service(error),
        ),
        (BuyStateView::Send(_), BuyEvent::Sent(Ok(_))) => BuyStateView::Done,
        (BuyStateView::Send(_), BuyEvent::Sent(Err(error))) => BuyStateView::Failed(
            BuyError::Service(error),
        ),
        _ => state,
    }
}

/// Starts a purchase of `mint` for `amount_sol` lamports.
pub fn begin_buy<E>(mint: &Pubkey, amount_sol: u64, slippage_basis_points: Option<u64>) -> (state:
    BuyState<E>)
    ensures
        state@ == first_buy_state::<E>(*mint, amount_sol, slippage_basis_points),
        state is Failed <==> amount_sol == 0,
        state matches BuyState::Failed(error) ==> error is ZeroAmount,
        amount_sol > 0 ==> (state matches BuyState::Instructions(
            PendingInstructions::Quote(request),
        ) && {
            &&& request.mint == *mint
            &&& request.buy_sol_cost == amount_sol
            &&& slippage_basis_points matches Some(points) ==> request.slippage_basis_points
                == points
            &&& slippage_basis_points is None ==> request.slippage_basis_points == 100
        }),
{
    match begin_buy_instructions(mint, amount_sol, slippage_basis_points) {
        Ok(pending) => BuyState::Instructions(pending),
        Err(error) => BuyState::Failed(error),
    }
}

/// Brings a purchase one step further.
pub fn buy<E>(context: &BuyContext, state: BuyState<E>, event: BuyEvent<E>) -> (next: BuyState<E>)
    ensures
        next@ == next_buy_state(*context, state@, event),
        state@ matches BuyStateView::Blockhash(calls) ==> event matches BuyEvent::Blockhash(
            Ok(blockhash),
        ) ==> next@ matches BuyStateView::Send(transaction) ==> executes(
            transaction,
            context.payer.public_key(),
            blockhash,
            plain_calls(context.priority_fee, calls),
        ),
        state is Blockhash ==> (event matches BuyEvent::Blockhash(Ok(blockhash)) ==> (
        next matches BuyState::Send(transaction) ==> transaction.message.recent_blockhash
            == blockhash)),
{
    match (state, event) {
        (BuyState::Instructions(pending), BuyEvent::Instructions(found)) => {
            match build_buy_instructions(context, pending, found) {
                Ok(InstructionsStep::Pending(next)) => BuyState::Instructions(next),
                Ok(InstructionsStep::Ready(calls)) => BuyState::Blockhash(calls),
                Err(error) => BuyState::Failed(error),
            }
        },
        (BuyState::Blockhash(calls), BuyEvent::Blockhash(Ok(blockhash))) => {
            if !can_build_buy_transaction(&context.payer, &context.priority_fee, &calls) {
                return BuyState::Failed(BuyError::Unsignable);
            }
            BuyState::Send(
                build_buy_transaction(&context.payer, &context.priority_fee, calls, blockhash),
            )
        },
        (BuyState::Blockhash(_), BuyEvent::Blockhash(Err(error))) => BuyState::Failed(
            BuyError::Service(error),
        ),
        (BuyState::Send(_), BuyEvent::Sent(Ok(_))) => BuyState::Done,
        (BuyState::Send(_), BuyEvent::Sent(Err(error))) => BuyState::Failed(
            BuyError::Service(error),
        ),
        (state, _) => state,
    }
}

/// What came of sending one transaction through its fee client.
#[derive(Debug, PartialEq, Eq)]
pub enum SendOutcome {
    /// The fee client took the transaction.
    Delivered,
    /// The fee client refused the transaction, for the given reason.
    Rejected(String),
    /// The task that was to send the transaction broke down, for the given reason.
    Lost(String),
}

/// Where a purchase through fee clients stands, and what it asks its caller to do next.
pub enum TipBuyState<E> {
    /// Find out what the instructions depend on.
    Instructions(PendingInstructions),
    /// Fetch a recent blockhash.
    Blockhash(Vec<Instruction>),
    /// Ask the fee client that has no transaction yet, the one after those of
    /// `transactions`, for its tip account.
    TipAccount {
        instructions: Vec<Instruction>,
        blockhash: Blockhash,
        transactions: Vec<VersionedTransaction>,
    },
    /// Send each transaction through its own fee client, all at once, and wait for
    /// the outcome of each.
    Send(Vec<VersionedTransaction>),
    /// Every transaction was sent or given up; these are the lines that report the failures.
    Done(Vec<String>),
    /// The purchase has failed.
    Failed(BuyError<E>),
}

/// The view of a [`TipBuyState`].
#[verifier::ext_equal]
pub enum TipBuyStateView<E> {
    Instructions(PendingInstructions),
    Blockhash(Seq<InstructionView>),
    TipAccount {
        instructions: Seq<InstructionView>,
        blockhash: Blockhash,
        transactions: Seq<TransactionView>,
    },
    Send(Seq<TransactionView>),
    Done(Seq<Seq<char>>),
    Failed(BuyError<E>),
}

/// The views of a list of transactions.
pub open spec fn transaction_views(
    transactions: Seq<VersionedTransaction>,
) -> Seq<TransactionView> {
    transactions.map_values(|t: VersionedTransaction| t@)
}

/// The views of a list of texts.
pub open spec fn text_views(texts: Seq<String>) -> Seq<Seq<char>> {
    texts.map_values(|t: String| t@)
}

impl<E> View for TipBuyState<E> {
    type V = TipBuyStateView<E>;

    open spec fn view(&self) -> TipBuyStateView<E> {
        match self {
            TipBuyState::Instructions(pending) => TipBuyStateView::Instructions(*pending),
            TipBuyState::Blockhash(calls) => TipBuyStateView::Blockhash(views(calls@)),
            TipBuyState::TipAccount { instructions, blockhash, transactions } =>
                TipBuyStateView::TipAccount {
                instructions: views(instructions@),
                blockhash: *blockhash,
                transactions: transaction_views(transactions@),
            },
            TipBuyState::Send(transactions) => TipBuyStateView::Send(
                transaction_views(transactions@),
            ),
            TipBuyState::Done(lines) => TipBuyStateView::Done(text_views(lines@)),
            TipBuyState::Failed(error) => TipBuyStateView::Failed(*error),
        }
    }
}

/// What came of a request of a purchase through fee clients.
pub enum TipBuyEvent<E> {
    Instructions(InstructionsEvent<E>),
    Blockhash(Result<Blockhash, E>),
    TipAccount(Result<String, E>),
    /// The outcome of each transaction, in their order.
    Sent(Vec<SendOutcome>),
}

/// The line that reports an outcome, if it calls for one.
pub open spec fn report_line(outcome: SendOutcome) -> Option<Seq<char>> {
    match outcome {
        SendOutcome::Delivered => None,
        SendOutcome::Rejected(reason) => Some("Error in task: "@ + reason@),
        SendOutcome::Lost(reason) => Some("Task join error: "@ + reason@),
    }
}

/// The lines that report a list of outcomes, in their order.
pub open spec fn report_lines(outcomes: Seq<SendOutcome>) -> Seq<Seq<char>>
    decreases outcomes.len(),
{
    if outcomes.len() == 0 {
        Seq::empty()
    } else {
        let before = report_lines(outcomes.drop_last());
        match report_line(outcomes.last()) {
            Some(line) => before.push(line),
            None => before,
        }
    }
}

/// The transaction that tips the account which `text` names.
pub open spec fn named_transaction<E>(
    context: BuyContext,
    calls: Seq<InstructionView>,
    blockhash: Blockhash,
    text: Seq<char>,
) -> Result<TransactionView, BuyError<E>> {
    match decoded_pubkey(text) {
        Err(error) => Err(BuyError::TipAccount(error)),
        Ok(tip_account) => {
            let payer = context.payer.public_key();
            let all = tipped_calls(context.priority_fee, payer, tip_account, calls);
            if !indexable(all, payer) {
                Err(BuyError::Build(BuildError::AccountIndexOverflow))
            } else if !sole_signer(all, payer) {
                Err(BuyError::Build(BuildError::Signer(SignerError::NotEnoughSigners)))
            } else if !short_lists(all) {
                Err(BuyError::Unsignable)
            } else {
                Ok(
                    tipped_transaction(
                        tip_account,
                        context.payer,
                        context.priority_fee,
                        calls,
                        blockhash,
                    ),
                )
            }
        },
    }
}

/// Where a purchase stands once it has a blockhash and `transactions` for the
/// first few of `clients` fee clients: it sends when none is left to be asked.
pub open spec fn tip_progress<E>(
    clients: nat,
    instructions: Seq<InstructionView>,
    blockhash: Blockhash,
    transactions: Seq<TransactionView>,
) -> TipBuyStateView<E> {
    if transactions.len() < clients {
        TipBuyStateView::TipAccount { instructions, blockhash, transactions }
    } else {
        TipBuyStateView::Send(transactions)
    }
}

/// Where a purchase through fee clients starts.
pub open spec fn first_tip_buy_state<E>(
    mint: Pubkey,
    amount_sol: u64,
    slippage_basis_points: Option<u64>,
) -> TipBuyStateView<E> {
    match first_request::<E>(mint, amount_sol, slippage_basis_points) {
        Ok(pending) => TipBuyStateView::Instructions(pending),
        Err(error) => TipBuyStateView::Failed(error),
    }
}

/// Where a purchase through `clients` fee clients stands after `event`. It is over
/// once there is an outcome for each transaction. An answer to a question that was
/// not asked changes nothing.
pub open spec fn next_tip_buy_state<E>(
    context: BuyContext,
    clients: nat,
    state: TipBuyStateView<E>,
    event: TipBuyEvent<E>,
) -> TipBuyStateView<E> {
    match (state, event) {
        (TipBuyStateView::Instructions(pending), TipBuyEvent::Instructions(found)) => {
            match next_instructions(context, pending, found) {
                Ok(InstructionsStepView::Pending(next)) => TipBuyStateView::Instructions(next),
                Ok(InstructionsStepView::Ready(calls)) => TipBuyStateView::Blockhash(calls),
                Err(error) => TipBuyStateView::Failed(error),
            }
        },
        (TipBuyStateView::Blockhash(calls), TipBuyEvent::Blockhash(Ok(blockhash))) => tip_progress(
            clients,
            calls,
            blockhash,
            Seq::empty(),
        ),
        (TipBuyStateView::Blockhash(_), TipBuyEvent::Blockhash(Err(error))) =>
            TipBuyStateView::Failed(BuyError::Service(error)),
        (
            TipBuyStateView::TipAccount { instructions, blockhash, transactions },
            TipBuyEvent::TipAccount(Ok(text)),
        ) => match named_transaction::<E>(context, instructions, blockhash, text@) {
            Ok(transaction) => tip_progress(
                clients,
                instructions,
                blockhash,
                transactions.push(transaction),
            ),
            Err(error) => TipBuyStateView::Failed(error),
        },
        (TipBuyStateView::TipAccount { .. }, TipBuyEvent::TipAccount(Err(error))) =>
            TipBuyStateView::Failed(BuyError::Service(error)),
        (TipBuyStateView::Send(transactions), TipBuyEvent::Sent(outcomes)) => {
            if outcomes@.len() == transactions.len() {
                TipBuyStateView::Done(report_lines(outcomes@))
            } else {
                state
            }
        },
        _ => state,
    }
}

/// The line that reports an outcome, if it calls for one.
pub fn report(outcome: &SendOutcome) -> (line: Option<String>)
    ensures
        match *outcome {
            SendOutcome::Delivered => line is None,
            SendOutcome::Rejected(reason) => line matches Some(text) && text@
                == "Error in task: "@ + reason@,
            SendOutcome::Lost(reason) => line matches Some(text) && text@ == "Task join error: "@
                + reason@,
        },
        line is Some <==> report_line(*outcome) is Some,
        line matches Some(text) ==> report_line(*outcome) == Some(text@),
{
    match outcome {
        SendOutcome::Delivered => None,
        SendOutcome::Rejected(reason) => Some(
            "Error in task: ".to_owned().concat(reason.as_str()),
        ),
        SendOutcome::Lost(reason) => Some("Task join error: ".to_owned().concat(reason.as_str())),
    }
}

/// The lines that report a list of outcomes, in their order.
fn report_all(outcomes: &Vec<SendOutcome>) -> (lines: Vec<String>)
    ensures
        text_views(lines@) == report_lines(outcomes@),
{
    let mut lines: Vec<String> = Vec::new();
    let mut i: usize = 0;
    assert(text_views(lines@) =~= report_lines(outcomes@.take(0)));
    while i < outcomes.len()
        invariant
            i <= outcomes.len(),
            text_views(lines@) == report_lines(outcomes@.take(i as int)),
        decreases outcomes.len() - i,
    {
        let ghost before = lines@;
        assert(outcomes@.take(i + 1).drop_last() =~= outcomes@.take(i as int));
        if let Some(line) = report(&outcomes[i]) {
            lines.push(line);
            assert(text_views(lines@) =~= text_views(before).push(line@));
        }
        i += 1;
    }
    assert(outcomes@.take(outcomes.len() as int) =~= outcomes@);
    lines
}

/// Builds the transaction that tips the account which `text` names.
fn build_named_transaction<E>(
    context: &BuyContext,
    instructions: &Vec<Instruction>,
    blockhash: Blockhash,
    text: &String,
) -> (transaction: Result<VersionedTransaction, BuyError<E>>)
    ensures
        match transaction {
            Ok(t) => named_transaction::<E>(*context, views(instructions@), blockhash, text@)
                == Ok::<TransactionView, BuyError<E>>(t@) && executes(
                t@,
                context.payer.public_key(),
                blockhash,
                tipped_calls(
                    context.priority_fee,
                    context.payer.public_key(),
                    decoded_pubkey(text@)->Ok_0,
                    views(instructions@),
                ),
            ),
            Err(error) => named_transaction::<E>(*context, views(instructions@), blockhash, text@)
                == Err::<TransactionView, BuyError<E>>(error),
        },
{
    let tip_account: Pubkey = match parse_pubkey(text.as_str()) {
        Ok(key) => key,
        Err(error) => {
            return Err(BuyError::TipAccount(error));
        },
    };
    if !can_build_buy_transaction_with_tip(
        &tip_account,
        &context.payer,
        &context.priority_fee,
        instructions,
    ) {
        return Err(BuyError::Unsignable);
    }
    match build_buy_transaction_with_tip(
        &tip_account,
        &context.payer,
        &context.priority_fee,
        copy_instructions(instructions),
        blockhash,
    ) {
        Ok(transaction) => Ok(transaction),
        Err(error) => Err(BuyError::Build(error)),
    }
}

/// Starts a purchase of `mint` for `amount_sol` lamports through fee clients.
pub fn begin_buy_with_tip<E>(
    mint: &Pubkey,
    amount_sol: u64,
    slippage_basis_points: Option<u64>,
) -> (state: TipBuyState<E>)
    ensures
        state@ == first_tip_buy_state::<E>(*mint, amount_sol, slippage_basis_points),
        state is Failed <==> amount_sol == 0,
        state matches TipBuyState::Failed(error) ==> error is ZeroAmount,
        amount_sol > 0 ==> (state matches TipBuyState::Instructions(
            PendingInstructions::Quote(request),
        ) && {
            &&& request.mint == *mint
            &&& request.buy_sol_cost == amount_sol
            &&& slippage_basis_points matches Some(points) ==> request.slippage_basis_points
                == points
            &&& slippage_basis_points is None ==> request.slippage_basis_points == 100
        }),
{
    match begin_buy_instructions(mint, amount_sol, slippage_basis_points) {
        Ok(pending) => TipBuyState::Instructions(pending),
        Err(error) => TipBuyState::Failed(error),
    }
}

/// Asks the next fee client for its tip account, or sends if all have answered.
fn ask_or_send<E>(
    clients: usize,
    instructions: Vec<Instruction>,
    blockhash: Blockhash,
    transactions: Vec<VersionedTransaction>,
) -> (state: TipBuyState<E>)
    ensures
        state@ == tip_progress::<E>(
            clients as nat,
            views(instructions@),
            blockhash,
            transaction_views(transactions@),
        ),
{
    if transactions.len() < clients {
        TipBuyState::TipAccount { instructions, blockhash, transactions }
    } else {
        TipBuyState::Send(transactions)
    }
}

/// Brings a purchase through `clients` fee clients one step further.
pub fn buy_with_tip<E>(
    context: &BuyContext,
    clients: usize,
    state: TipBuyState<E>,
    event: TipBuyEvent<E>,
) -> (next: TipBuyState<E>)
    ensures
        next@ == next_tip_buy_state(*context, clients as nat, state@, event),
        state@ matches TipBuyStateView::TipAccount { instructions, blockhash, .. }
            ==> event matches TipBuyEvent::TipAccount(Ok(text)) ==> named_transaction::<E>(
            *context,
            instructions,
            blockhash,
            text@,
        ) matches Ok(transaction) ==> executes(
            transaction,
            context.payer.public_key(),
            blockhash,
            tipped_calls(
                context.priority_fee,
                context.payer.public_key(),
                decoded_pubkey(text@)->Ok_0,
                instructions,
            ),
        ),
        state matches TipBuyState::Blockhash(calls) ==> (event matches TipBuyEvent::Blockhash(
            Ok(answered),
        ) ==> {
            &&& clients > 0 ==> (next@ matches TipBuyStateView::TipAccount {
                instructions,
                blockhash,
                transactions,
            } && instructions == views(calls@) && blockhash == answered && transactions.len() == 0)
            &&& clients == 0 ==> (next@ matches TipBuyStateView::Send(transactions)
                && transactions.len() == 0)
        }),
        state@ matches TipBuyStateView::TipAccount { instructions, blockhash, transactions } ==> (
        (forall|i: int|
            0 <= i < transactions.len() ==> (#[trigger] transactions[i]).message.recent_blockhash
                == blockhash) ==> match next@ {
            TipBuyStateView::TipAccount {
                instructions: kept,
                blockhash: same,
                transactions: grown,
            } => {
                &&& kept == instructions
                &&& same == blockhash
                &&& forall|i: int|
                    0 <= i < grown.len() ==> (#[trigger] grown[i]).message.recent_blockhash
                        == blockhash
            },
            TipBuyStateView::Send(grown) => forall|i: int|
                0 <= i < grown.len() ==> (#[trigger] grown[i]).message.recent_blockhash
                    == blockhash,
            _ => true,
        }),
{
    match (state, event) {
        (TipBuyState::Instructions(pending), TipBuyEvent::Instructions(found)) => {
            match build_buy_instructions(context, pending, found) {
                Ok(InstructionsStep::Pending(next)) => TipBuyState::Instructions(next),
                Ok(InstructionsStep::Ready(calls)) => TipBuyState::Blockhash(calls),
                Err(error) => TipBuyState::Failed(error),
            }
        },
        (TipBuyState::Blockhash(calls), TipBuyEvent::Blockhash(Ok(blockhash))) => {
            let transactions: Vec<VersionedTransaction> = Vec::new();
            assert(transaction_views(transactions@) =~= Seq::empty());
            ask_or_send(clients, calls, blockhash, transactions)
        },
        (TipBuyState::Blockhash(_), TipBuyEvent::Blockhash(Err(error))) => TipBuyState::Failed(
            BuyError::Service(error),
        ),
        (
            TipBuyState::TipAccount { instructions, blockhash, transactions },
            TipBuyEvent::TipAccount(Ok(text)),
        ) => match build_named_transaction(context, &instructions, blockhash, &text) {
            Ok(transaction) => {
                let ghost before = transactions@;
                let mut transactions = transactions;
                transactions.push(transaction);
                assert(transaction_views(transactions@) =~= transaction_views(before).push(
                    transaction@,
                ));
                ask_or_send(clients, instructions, blockhash, transactions)
            },
            Err(error) => TipBuyState::Failed(error),
        },
        (TipBuyState::TipAccount { .. }, TipBuyEvent::TipAccount(Err(error))) =>
            TipBuyState::Failed(BuyError::Service(error)),
        (TipBuyState::Send(transactions), TipBuyEvent::Sent(outcomes)) => {
            if outcomes.len() == transactions.len() {
                TipBuyState::Done(report_all(&outcomes))
            } else {
                TipBuyState::Send(transactions)
            }
        },
        (state, _) => state,
    }
}

} // verus!

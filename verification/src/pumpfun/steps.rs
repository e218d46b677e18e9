//! What each answer does to a purchase, and what comes of the answers together.
use vstd::prelude::*;

use crate::chain::{
    le_bytes, Blockhash, Instruction, InstructionView, Pubkey, TransactionView,
    VersionedTransaction,
};
use crate::common::PriorityFee;
use crate::keypair::Keypair;
use crate::keys::{
    carries, indexable, legacy_signable, message_keys, readonly_keys, short_lists, sole_signer,
};
use crate::pumpfun::buy::{
    buy_calls, executes, first_buy_state, first_request, first_tip_buy_state, named_transaction,
    next_buy_state, next_instructions, next_tip_buy_state, plain_calls, plain_transaction,
    report_line, report_lines, text_views, tip_progress, tipped_calls, tipped_transaction,
    transaction_views, BuildError, BuyContext, BuyError, BuyEvent, BuyState, BuyStateView,
    InstructionsEvent, InstructionsStep, InstructionsStepView, PendingInstructions, SendOutcome,
    TipBuyEvent, TipBuyState, TipBuyStateView,
};
use crate::pumpfun::laws::{
    law_each_client_gets_its_own_tip, named_accounts, run_buy, run_tip_buy,
};
use crate::pumpfun::order::{BuyOrder, Quote, QuoteRequest};
use crate::sdk::{
    decoded_pubkey, legacy_message, legacy_signature, program_address, token_account, v0_message,
    v0_signature, SignerError, ASSOCIATED_TOKEN_PROGRAM, COMPUTE_BUDGET_PROGRAM, SYSTEM_PROGRAM,
};

verus! {

/// A purchase for something always starts, with or without tips: it asks for a quote on
/// the mint and the cost that the buyer named, at the slippage that they named or at one
/// percent. A purchase for nothing is refused, and no other.
pub proof fn law_every_purchase_for_something_starts<E>(
    mint: Pubkey,
    amount_sol: u64,
    slippage_basis_points: Option<u64>,
    asked: QuoteRequest,
)
    requires
        asked.mint == mint,
        asked.buy_sol_cost == amount_sol,
        slippage_basis_points matches Some(points) ==> asked.slippage_basis_points == points,
        slippage_basis_points is None ==> asked.slippage_basis_points == 100,
    ensures
        amount_sol > 0 ==> {
            &&& first_request::<E>(mint, amount_sol, slippage_basis_points) == Ok::<
                PendingInstructions,
                BuyError<E>,
            >(PendingInstructions::Quote(asked))
            &&& first_buy_state::<E>(mint, amount_sol, slippage_basis_points)
                == BuyStateView::<E>::Instructions(PendingInstructions::Quote(asked))
            &&& first_tip_buy_state::<E>(mint, amount_sol, slippage_basis_points)
                == TipBuyStateView::<E>::Instructions(PendingInstructions::Quote(asked))
        },
        amount_sol == 0 ==> {
            &&& first_request::<E>(mint, amount_sol, slippage_basis_points) == Err::<
                PendingInstructions,
                BuyError<E>,
            >(BuyError::ZeroAmount)
            &&& first_buy_state::<E>(mint, amount_sol, slippage_basis_points) == BuyStateView::<
                E,
            >::Failed(BuyError::ZeroAmount)
            &&& first_tip_buy_state::<E>(mint, amount_sol, slippage_basis_points)
                == TipBuyStateView::<E>::Failed(BuyError::ZeroAmount)
        },
{
}

/// A quote leads to an order for the mint that was asked about, in the payer's name, with
/// the curve, the vault and the highest cost of the quote. A lookup that fails ends the
/// purchase with its own error.
pub proof fn law_quote_becomes_an_order<E>(
    context: BuyContext,
    request: QuoteRequest,
    quote: Quote,
    error: E,
)
    ensures
        next_instructions(
            context,
            PendingInstructions::Quote(request),
            InstructionsEvent::<E>::Quoted(Ok(quote)),
        ) matches Ok(InstructionsStepView::Pending(PendingInstructions::Encode(order))) && {
            &&& order.payer == context.payer.public_key()
            &&& order.fee_recipient == context.fee_recipient
            &&& order.mint == request.mint
            &&& order.bonding_curve == quote.bonding_curve
            &&& order.creator_vault == quote.creator_vault
            &&& order.max_sol_cost == quote.max_sol_cost
            &&& quote.token_amount > 100_000_000 ==> order.amount == quote.token_amount
            &&& quote.token_amount <= 100_000_000 && quote.max_sol_cost > 10_000_000
                ==> order.amount == 25_547_619_000_000
            &&& quote.token_amount <= 100_000_000 && quote.max_sol_cost <= 10_000_000
                ==> order.amount == 255_476_000_000
        },
        next_instructions(
            context,
            PendingInstructions::Quote(request),
            InstructionsEvent::<E>::Quoted(Err(error)),
        ) == Err::<InstructionsStepView, BuyError<E>>(BuyError::Service(error)),
{
}

/// An order leads to two instructions: the payer's own token account for the mint is
/// created, and then the buy instruction is run just as it was encoded. Only a token
/// account without an address prevents that.
pub proof fn law_order_becomes_two_instructions<E>(
    context: BuyContext,
    order: BuyOrder,
    encoded: Instruction,
)
    ensures
        ({
            let address = program_address(
                seq![order.payer@, context.token_program@, order.mint@],
                ASSOCIATED_TOKEN_PROGRAM,
            );
            let next = next_instructions(
                context,
                PendingInstructions::Encode(order),
                InstructionsEvent::<E>::Encoded(encoded),
            );
            &&& address is None ==> next == Err::<InstructionsStepView, BuyError<E>>(
                BuyError::NoTokenAccount,
            )
            &&& address is Some ==> (next matches Ok(InstructionsStepView::Ready(calls)) && {
                &&& calls.len() == 2
                &&& calls[1] == encoded@
                &&& calls[0].program_id == ASSOCIATED_TOKEN_PROGRAM
                &&& calls[0].data == seq![1u8]
                &&& calls[0].accounts.len() == 6
                &&& calls[0].accounts[0].pubkey == order.payer
                &&& calls[0].accounts[1].pubkey == address->0
                &&& calls[0].accounts[2].pubkey == order.payer
                &&& calls[0].accounts[3].pubkey == order.mint
                &&& calls[0].accounts[4].pubkey == SYSTEM_PROGRAM
                &&& calls[0].accounts[5].pubkey == context.token_program
                &&& forall|i: int|
                    0 <= i < 6 ==> ((#[trigger] calls[0].accounts[i]).is_signer <==> i == 0)
                        && (calls[0].accounts[i].is_writable <==> i <= 1)
            })
        }),
{
}

/// A transaction asks for at most 250000 bytes of account data, the unit price and the
/// unit limit of the fee, and then does what the purchase does, with nothing added,
/// left out or moved. With a tip, the payer moves the tip to the tip account in between.
pub proof fn law_calls_of_a_transaction(
    fee: PriorityFee,
    payer: Pubkey,
    tip_account: Pubkey,
    calls: Seq<InstructionView>,
)
    ensures
        ({
            let plain = plain_calls(fee, calls);
            let tipped = tipped_calls(fee, payer, tip_account, calls);
            &&& plain.len() == 3 + calls.len()
            &&& tipped.len() == 4 + calls.len()
            &&& forall|i: int|
                0 <= i < 3 ==> {
                    &&& (#[trigger] plain[i]).program_id == COMPUTE_BUDGET_PROGRAM
                    &&& plain[i].accounts.len() == 0
                    &&& tipped[i] == plain[i]
                }
            &&& plain[0].data == seq![4u8] + le_bytes(250000, 4)
            &&& plain[1].data == seq![3u8] + le_bytes(fee.unit_price as nat, 8)
            &&& plain[2].data == seq![2u8] + le_bytes(fee.unit_limit as nat, 4)
            &&& tipped[3].program_id == SYSTEM_PROGRAM
            &&& tipped[3].accounts.len() == 2
            &&& tipped[3].accounts[0].pubkey == payer
            &&& tipped[3].accounts[0].is_signer
            &&& tipped[3].accounts[0].is_writable
            &&& tipped[3].accounts[1].pubkey == tip_account
            &&& !tipped[3].accounts[1].is_signer
            &&& tipped[3].accounts[1].is_writable
            &&& tipped[3].data == le_bytes(2, 4) + le_bytes(fee.buy_tip_lamports as nat, 8)
            &&& forall|i: int|
                0 <= i < calls.len() ==> plain[3 + i] == #[trigger] calls[i] && tipped[4 + i]
                    == calls[i]
        }),
{
}

/// A transaction is the message over its calls, compiled for the payer on the given
/// blockhash, and the one signature of the payer over that message.
pub proof fn law_transactions_are_signed_messages(
    payer: Keypair,
    fee: PriorityFee,
    tip_account: Pubkey,
    calls: Seq<InstructionView>,
    blockhash: Blockhash,
)
    ensures
        ({
            let plain = plain_transaction(payer, fee, calls, blockhash);
            let tipped = tipped_transaction(tip_account, payer, fee, calls, blockhash);
            &&& plain.message == legacy_message(
                plain_calls(fee, calls),
                payer.public_key(),
                blockhash,
            )
            &&& plain.signatures == seq![legacy_signature(payer.secret_key(), plain.message)]
            &&& tipped.message == v0_message(
                payer.public_key(),
                tipped_calls(fee, payer.public_key(), tip_account, calls),
                blockhash,
            )
            &&& tipped.signatures == seq![v0_signature(payer.secret_key(), tipped.message)]
        }),
{
}

/// A transaction that executes calls is paid for and signed by the payer alone, is tied
/// to the blockhash, lets only the payer and what the calls write be written, and holds
/// the calls.
pub proof fn law_executing_is_all_of_this(
    transaction: TransactionView,
    payer: Pubkey,
    blockhash: Blockhash,
    calls: Seq<InstructionView>,
    i: int,
)
    requires
        executes(transaction, payer, blockhash, calls),
        0 <= i < transaction.message.account_keys.len(),
    ensures
        transaction.signatures.len() == 1,
        transaction.message.num_required_signatures == 1,
        transaction.message.num_readonly_signed_accounts == 0,
        transaction.message.account_keys[0] == payer,
        transaction.message.recent_blockhash == blockhash,
        transaction.message.account_keys.len() - transaction.message.num_readonly_unsigned_accounts
            <= i <==> readonly_keys(calls, payer).contains(transaction.message.account_keys[i]),
        message_keys(calls, payer).len() <= 256 ==> carries(transaction.message, calls),
{
}

/// An answer that the instructions of a purchase do not wait for changes nothing.
pub proof fn law_unasked_answers_leave_the_instructions<E>(
    context: BuyContext,
    pending: PendingInstructions,
    event: InstructionsEvent<E>,
)
    requires
        !(pending is Quote && event is Quoted),
        !(pending is Encode && event is Encoded),
    ensures
        next_instructions(context, pending, event) == Ok::<InstructionsStepView, BuyError<E>>(
            InstructionsStepView::Pending(pending),
        ),
{
}

/// Both kinds of purchase get their instructions alike: what is still pending is asked
/// for next, finished instructions lead to a blockhash, and an error is the end.
pub proof fn law_instructions_lead_on<E>(
    context: BuyContext,
    clients: nat,
    pending: PendingInstructions,
    found: InstructionsEvent<E>,
)
    ensures
        ({
            let plain = next_buy_state(
                context,
                BuyStateView::Instructions(pending),
                BuyEvent::Instructions(found),
            );
            let tipped = next_tip_buy_state(
                context,
                clients,
                TipBuyStateView::Instructions(pending),
                TipBuyEvent::Instructions(found),
            );
            match next_instructions(context, pending, found) {
                Ok(InstructionsStepView::Pending(next)) => {
                    &&& plain == BuyStateView::<E>::Instructions(next)
                    &&& tipped == TipBuyStateView::<E>::Instructions(next)
                },
                Ok(InstructionsStepView::Ready(calls)) => {
                    &&& plain == BuyStateView::<E>::Blockhash(calls)
                    &&& tipped == TipBuyStateView::<E>::Blockhash(calls)
                },
                Err(error) => {
                    &&& plain == BuyStateView::<E>::Failed(error)
                    &&& tipped == TipBuyStateView::<E>::Failed(error)
                },
            }
        }),
{
}

/// A purchase signs what it waits to send on the very blockhash that was answered, and
/// refuses only what the payer cannot sign alone. Without a blockhash it fails.
pub proof fn law_buy_signs_on_the_answered_blockhash<E>(
    context: BuyContext,
    calls: Seq<InstructionView>,
    blockhash: Blockhash,
    error: E,
)
    ensures
        ({
            let all = plain_calls(context.priority_fee, calls);
            let payer = context.payer.public_key();
            let next = next_buy_state(
                context,
                BuyStateView::Blockhash(calls),
                BuyEvent::<E>::Blockhash(Ok(blockhash)),
            );
            &&& legacy_signable(all, payer) ==> (next matches BuyStateView::Send(transaction) && {
                &&& transaction.message == legacy_message(all, payer, blockhash)
                &&& transaction.signatures == seq![
                    legacy_signature(context.payer.secret_key(), transaction.message),
                ]
            })
            &&& !legacy_signable(all, payer) ==> next == BuyStateView::<E>::Failed(
                BuyError::Unsignable,
            )
        }),
        next_buy_state(
            context,
            BuyStateView::Blockhash(calls),
            BuyEvent::<E>::Blockhash(Err(error)),
        ) == BuyStateView::<E>::Failed(BuyError::Service(error)),
{
}

/// A purchase that was sent is done when it is confirmed, and fails with the error of the
/// service when it is not.
pub proof fn law_confirmation_ends_the_buy<E>(
    context: BuyContext,
    transaction: TransactionView,
    error: E,
)
    ensures
        next_buy_state(
            context,
            BuyStateView::Send(transaction),
            BuyEvent::<E>::Sent(Ok(())),
        ) is Done,
        next_buy_state(
            context,
            BuyStateView::Send(transaction),
            BuyEvent::<E>::Sent(Err(error)),
        ) == BuyStateView::<E>::Failed(BuyError::Service(error)),
{
}

/// An event of another sort than the one that a purchase waits for changes nothing.
pub proof fn law_unasked_events_leave_a_buy<E>(
    context: BuyContext,
    state: BuyStateView<E>,
    event: BuyEvent<E>,
)
    requires
        !(state is Instructions && event is Instructions),
        !(state is Blockhash && event is Blockhash),
        !(state is Send && event is Sent),
    ensures
        next_buy_state(context, state, event) == state,
{
}

/// The blockhash that was answered is the one that a purchase through fee clients goes on
/// with, however many clients there are. It then asks the first of them for its tip
/// account, or sends nothing where there is none. Without a blockhash it fails.
pub proof fn law_tip_buy_keeps_the_answered_blockhash<E>(
    context: BuyContext,
    clients: nat,
    calls: Seq<InstructionView>,
    answered: Blockhash,
    error: E,
)
    ensures
        ({
            let next = next_tip_buy_state(
                context,
                clients,
                TipBuyStateView::Blockhash(calls),
                TipBuyEvent::<E>::Blockhash(Ok(answered)),
            );
            &&& clients > 0 ==> (next matches TipBuyStateView::TipAccount {
                instructions,
                blockhash,
                transactions,
            } && instructions == calls && blockhash == answered && transactions.len() == 0)
            &&& clients == 0 ==> (next matches TipBuyStateView::Send(transactions)
                && transactions.len() == 0)
        }),
        next_tip_buy_state(
            context,
            clients,
            TipBuyStateView::Blockhash(calls),
            TipBuyEvent::<E>::Blockhash(Err(error)),
        ) == TipBuyStateView::<E>::Failed(BuyError::Service(error)),
{
}

/// A tip account that was named adds one transaction, which tips that account and is
/// signed by the payer on the blockhash at hand. The others stay, the instructions and
/// the blockhash stay, and the purchase sends once there is one for each client.
pub proof fn law_named_account_adds_its_transaction<E>(
    context: BuyContext,
    clients: nat,
    calls: Seq<InstructionView>,
    blockhash: Blockhash,
    transactions: Seq<TransactionView>,
    text: String,
    tip_account: Pubkey,
)
    requires
        decoded_pubkey(text@) == Ok::<_, crate::sdk::ParsePubkeyError>(tip_account),
        indexable(
            tipped_calls(context.priority_fee, context.payer.public_key(), tip_account, calls),
            context.payer.public_key(),
        ),
        sole_signer(
            tipped_calls(context.priority_fee, context.payer.public_key(), tip_account, calls),
            context.payer.public_key(),
        ),
        short_lists(
            tipped_calls(context.priority_fee, context.payer.public_key(), tip_account, calls),
        ),
    ensures
        ({
            let payer = context.payer.public_key();
            let message = v0_message(
                payer,
                tipped_calls(context.priority_fee, payer, tip_account, calls),
                blockhash,
            );
            let added = TransactionView {
                signatures: seq![v0_signature(context.payer.secret_key(), message)],
                message,
            };
            let next = next_tip_buy_state(
                context,
                clients,
                TipBuyStateView::TipAccount { instructions: calls, blockhash, transactions },
                TipBuyEvent::<E>::TipAccount(Ok(text)),
            );
            &&& transactions.len() + 1 < clients ==> next == (TipBuyStateView::<E>::TipAccount {
                instructions: calls,
                blockhash,
                transactions: transactions.push(added),
            })
            &&& transactions.len() + 1 >= clients ==> next == TipBuyStateView::<E>::Send(
                transactions.push(added),
            )
        }),
{
}

/// A tip account ends the purchase only where it is no address, where a message cannot
/// index all accounts, where others would have to sign, or where the message is too
/// long, in this order; and each of these has its own error. A client that does not
/// answer ends it with the client's error.
pub proof fn law_why_a_tip_account_is_refused<E>(
    context: BuyContext,
    clients: nat,
    calls: Seq<InstructionView>,
    blockhash: Blockhash,
    transactions: Seq<TransactionView>,
    text: String,
    error: E,
)
    ensures
        ({
            let payer = context.payer.public_key();
            let at = TipBuyStateView::<E>::TipAccount {
                instructions: calls,
                blockhash,
                transactions,
            };
            let next = next_tip_buy_state(context, clients, at, TipBuyEvent::TipAccount(Ok(text)));
            &&& decoded_pubkey(text@) matches Err(why) ==> next == TipBuyStateView::<E>::Failed(
                BuyError::TipAccount(why),
            )
            &&& decoded_pubkey(text@) matches Ok(tip_account) ==> {
                let all = tipped_calls(context.priority_fee, payer, tip_account, calls);
                &&& !indexable(all, payer) ==> next == TipBuyStateView::<E>::Failed(
                    BuyError::Build(BuildError::AccountIndexOverflow),
                )
                &&& indexable(all, payer) && !sole_signer(all, payer) ==> next
                    == TipBuyStateView::<E>::Failed(
                    BuyError::Build(BuildError::Signer(SignerError::NotEnoughSigners)),
                )
                &&& indexable(all, payer) && sole_signer(all, payer) && !short_lists(all) ==> next
                    == TipBuyStateView::<E>::Failed(BuyError::Unsignable)
            }
            &&& next_tip_buy_state(context, clients, at, TipBuyEvent::TipAccount(Err(error)))
                == TipBuyStateView::<E>::Failed(BuyError::Service(error))
        }),
{
}

/// A purchase through fee clients that was sent is over when there are as many outcomes
/// as transactions, and waits otherwise.
pub proof fn law_outcomes_end_the_tip_buy<E>(
    context: BuyContext,
    clients: nat,
    transactions: Seq<TransactionView>,
    outcomes: Vec<SendOutcome>,
)
    ensures
        ({
            let next = next_tip_buy_state(
                context,
                clients,
                TipBuyStateView::<E>::Send(transactions),
                TipBuyEvent::Sent(outcomes),
            );
            &&& outcomes@.len() == transactions.len() ==> next == TipBuyStateView::<E>::Done(
                report_lines(outcomes@),
            )
            &&& outcomes@.len() != transactions.len() ==> next == TipBuyStateView::<E>::Send(
                transactions,
            )
        }),
{
}

/// An event of another sort than the one that a purchase through fee clients waits for
/// changes nothing.
pub proof fn law_unasked_events_leave_a_tip_buy<E>(
    context: BuyContext,
    clients: nat,
    state: TipBuyStateView<E>,
    event: TipBuyEvent<E>,
)
    requires
        !(state is Instructions && event is Instructions),
        !(state is Blockhash && event is Blockhash),
        !(state is TipAccount && event is TipAccount),
        !(state is Send && event is Sent),
    ensures
        next_tip_buy_state(context, clients, state, event) == state,
{
}

/// A delivered transaction is not reported; each other is, on one line that says what
/// went wrong, with the reason in full.
pub proof fn law_lines_of_single_outcomes(reason: String)
    ensures
        report_line(SendOutcome::Delivered) is None,
        report_line(SendOutcome::Rejected(reason)) == Some("Error in task: "@ + reason@),
        report_line(SendOutcome::Lost(reason)) == Some("Task join error: "@ + reason@),
        report_lines(Seq::empty()) == Seq::<Seq<char>>::empty(),
        report_lines(seq![SendOutcome::Delivered]) == Seq::<Seq<char>>::empty(),
        report_lines(seq![SendOutcome::Rejected(reason)]) == seq!["Error in task: "@ + reason@],
        report_lines(seq![SendOutcome::Lost(reason)]) == seq!["Task join error: "@ + reason@],
{
    reveal_with_fuel(report_lines, 2);
    assert(report_lines(seq![SendOutcome::Rejected(reason)]) =~= seq![
        "Error in task: "@ + reason@,
    ]);
    assert(report_lines(seq![SendOutcome::Lost(reason)]) =~= seq!["Task join error: "@ + reason@]);
}

/// The report on two lists of outcomes, one after the other, is the report on the first
/// and then that on the second.
pub proof fn law_reports_follow_the_outcomes(earlier: Seq<SendOutcome>, later: Seq<SendOutcome>)
    ensures
        report_lines(earlier + later) == report_lines(earlier) + report_lines(later),
    decreases later.len(),
{
    if later.len() == 0 {
        assert(earlier + later =~= earlier);
        assert(report_lines(earlier) + report_lines(later) =~= report_lines(earlier));
    } else {
        law_reports_follow_the_outcomes(earlier, later.drop_last());
        assert((earlier + later).drop_last() =~= earlier + later.drop_last());
        assert(report_lines(earlier + later) =~= report_lines(earlier) + report_lines(later));
    }
}

/// A purchase for something whose services all answer, whose buyer has a token account
/// and whose transaction the payer can sign sends the order that the quote calls for,
/// signed on the blockhash that was answered, and is done when that is confirmed.
pub proof fn law_answered_buy_is_done<E>(
    context: BuyContext,
    mint: Pubkey,
    amount_sol: u64,
    slippage_basis_points: Option<u64>,
    quote: Quote,
    order: BuyOrder,
    encoded: Instruction,
    blockhash: Blockhash,
)
    requires
        amount_sol > 0,
        order.payer == context.payer.public_key(),
        order.fee_recipient == context.fee_recipient,
        order.mint == mint,
        order.bonding_curve == quote.bonding_curve,
        order.creator_vault == quote.creator_vault,
        order.max_sol_cost == quote.max_sol_cost,
        order.amount == if quote.token_amount > 100_000_000 {
            quote.token_amount
        } else if quote.max_sol_cost > 10_000_000 {
            25_547_619_000_000
        } else {
            255_476_000_000
        },
        token_account(order.payer, mint, context.token_program) is Some,
        legacy_signable(
            plain_calls(
                context.priority_fee,
                buy_calls(order, context.token_program, encoded@),
            ),
            context.payer.public_key(),
        ),
    ensures
        ({
            let start = first_buy_state::<E>(mint, amount_sol, slippage_basis_points);
            let quoted = BuyEvent::<E>::Instructions(InstructionsEvent::Quoted(Ok(quote)));
            let written = BuyEvent::<E>::Instructions(InstructionsEvent::Encoded(encoded));
            let fetched = BuyEvent::<E>::Blockhash(Ok(blockhash));
            let confirmed = BuyEvent::<E>::Sent(Ok(()));
            let message = legacy_message(
                plain_calls(
                    context.priority_fee,
                    buy_calls(order, context.token_program, encoded@),
                ),
                context.payer.public_key(),
                blockhash,
            );
            &&& run_buy(context, start, seq![quoted]) == BuyStateView::<E>::Instructions(
                PendingInstructions::Encode(order),
            )
            &&& run_buy(context, start, seq![quoted, written, fetched]) == BuyStateView::<E>::Send(
                TransactionView {
                    signatures: seq![legacy_signature(context.payer.secret_key(), message)],
                    message,
                },
            )
            &&& run_buy(context, start, seq![quoted, written, fetched, confirmed]) is Done
        }),
{
    let quoted = BuyEvent::<E>::Instructions(InstructionsEvent::Quoted(Ok(quote)));
    let written = BuyEvent::<E>::Instructions(InstructionsEvent::Encoded(encoded));
    let fetched = BuyEvent::<E>::Blockhash(Ok(blockhash));
    let confirmed = BuyEvent::<E>::Sent(Ok(()));
    reveal_with_fuel(run_buy, 5);
    assert(seq![quoted].drop_last() =~= Seq::empty());
    assert(seq![quoted, written].drop_last() =~= seq![quoted]);
    assert(seq![quoted, written, fetched].drop_last() =~= seq![quoted, written]);
    assert(seq![quoted, written, fetched, confirmed].drop_last() =~= seq![quoted, written, fetched]);
}

proof fn lemma_tip_run_in_two<E>(
    context: BuyContext,
    clients: nat,
    state: TipBuyStateView<E>,
    earlier: Seq<TipBuyEvent<E>>,
    later: Seq<TipBuyEvent<E>>,
)
    ensures
        run_tip_buy(context, clients, state, earlier + later) == run_tip_buy(
            context,
            clients,
            run_tip_buy(context, clients, state, earlier),
            later,
        ),
    decreases later.len(),
{
    if later.len() == 0 {
        assert(earlier + later =~= earlier);
    } else {
        lemma_tip_run_in_two(context, clients, state, earlier, later.drop_last());
        assert((earlier + later).drop_last() =~= earlier + later.drop_last());
    }
}

/// A purchase through fee clients whose services all answer sends one transaction for
/// each client: the one at `i` is signed by the payer, on the blockhash that was
/// answered, over the order that the quote calls for and a tip to the account that
/// client `i` named. It is done when each has an outcome.
pub proof fn law_answered_tip_buy_is_done<E>(
    context: BuyContext,
    mint: Pubkey,
    amount_sol: u64,
    slippage_basis_points: Option<u64>,
    quote: Quote,
    order: BuyOrder,
    encoded: Instruction,
    blockhash: Blockhash,
    texts: Seq<String>,
    tips: Seq<Pubkey>,
    outcomes: Vec<SendOutcome>,
)
    requires
        amount_sol > 0,
        order.payer == context.payer.public_key(),
        order.fee_recipient == context.fee_recipient,
        order.mint == mint,
        order.bonding_curve == quote.bonding_curve,
        order.creator_vault == quote.creator_vault,
        order.max_sol_cost == quote.max_sol_cost,
        order.amount == if quote.token_amount > 100_000_000 {
            quote.token_amount
        } else if quote.max_sol_cost > 10_000_000 {
            25_547_619_000_000
        } else {
            255_476_000_000
        },
        token_account(order.payer, mint, context.token_program) is Some,
        tips.len() == texts.len(),
        outcomes@.len() == texts.len(),
        forall|i: int|
            0 <= i < texts.len() ==> decoded_pubkey((#[trigger] texts[i])@) == Ok::<
                Pubkey,
                crate::sdk::ParsePubkeyError,
            >(tips[i]),
        forall|i: int|
            0 <= i < tips.len() ==> ({
                let all = tipped_calls(
                    context.priority_fee,
                    order.payer,
                    #[trigger] tips[i],
                    buy_calls(order, context.token_program, encoded@),
                );
                indexable(all, order.payer) && sole_signer(all, order.payer) && short_lists(all)
            }),
    ensures
        ({
            let asked = seq![
                TipBuyEvent::<E>::Instructions(InstructionsEvent::Quoted(Ok(quote))),
                TipBuyEvent::<E>::Instructions(InstructionsEvent::Encoded(encoded)),
                TipBuyEvent::<E>::Blockhash(Ok(blockhash)),
            ];
            let start = first_tip_buy_state::<E>(mint, amount_sol, slippage_basis_points);
            let sent = run_tip_buy(
                context,
                texts.len(),
                start,
                asked + named_accounts::<E>(texts),
            );
            &&& sent matches TipBuyStateView::Send(transactions) && {
                &&& transactions.len() == texts.len()
                &&& forall|i: int|
                    0 <= i < texts.len() ==> {
                        &&& (#[trigger] transactions[i]).message == v0_message(
                            context.payer.public_key(),
                            tipped_calls(
                                context.priority_fee,
                                context.payer.public_key(),
                                tips[i],
                                buy_calls(order, context.token_program, encoded@),
                            ),
                            blockhash,
                        )
                        &&& transactions[i].signatures == seq![
                            v0_signature(context.payer.secret_key(), transactions[i].message),
                        ]
                    }
            }
            &&& run_tip_buy(
                context,
                texts.len(),
                start,
                (asked + named_accounts::<E>(texts)).push(TipBuyEvent::Sent(outcomes)),
            ) == TipBuyStateView::<E>::Done(report_lines(outcomes@))
        }),
{
    let clients = texts.len();
    let calls = buy_calls(order, context.token_program, encoded@);
    let quoted = TipBuyEvent::<E>::Instructions(InstructionsEvent::Quoted(Ok(quote)));
    let written = TipBuyEvent::<E>::Instructions(InstructionsEvent::Encoded(encoded));
    let fetched = TipBuyEvent::<E>::Blockhash(Ok(blockhash));
    let asked = seq![quoted, written, fetched];
    let start = first_tip_buy_state::<E>(mint, amount_sol, slippage_basis_points);
    reveal_with_fuel(run_tip_buy, 4);
    assert(seq![quoted].drop_last() =~= Seq::empty());
    assert(seq![quoted, written].drop_last() =~= seq![quoted]);
    assert(asked.drop_last() =~= seq![quoted, written]);
    assert(run_tip_buy(context, clients, start, seq![quoted]) == TipBuyStateView::<E>::Instructions(
        PendingInstructions::Encode(order),
    ));
    assert(run_tip_buy(context, clients, start, seq![quoted, written]) == TipBuyStateView::<
        E,
    >::Blockhash(calls));
    let ready = tip_progress::<E>(clients, calls, blockhash, Seq::empty());
    assert(run_tip_buy(context, clients, start, asked) == ready);
    assert forall|i: int| 0 <= i < texts.len() implies named_transaction::<E>(
        context,
        calls,
        blockhash,
        (#[trigger] texts[i])@,
    ) is Ok by {
        let tip_account = tips[i];
    }
    law_each_client_gets_its_own_tip::<E>(context, clients, calls, blockhash, texts);
    lemma_tip_run_in_two(context, clients, start, asked, named_accounts::<E>(texts));
    let all = asked + named_accounts::<E>(texts);
    let built = Seq::new(
        texts.len(),
        |i: int| named_transaction::<E>(context, calls, blockhash, texts[i]@)->Ok_0,
    );
    assert(run_tip_buy(context, clients, start, all) == TipBuyStateView::<E>::Send(built));
    assert forall|i: int| 0 <= i < texts.len() implies (#[trigger] built[i]).message == v0_message(
        context.payer.public_key(),
        tipped_calls(context.priority_fee, context.payer.public_key(), tips[i], calls),
        blockhash,
    ) && built[i].signatures == seq![
        v0_signature(context.payer.secret_key(), built[i].message),
    ] by {
        let text = texts[i];
        assert(named_transaction::<E>(context, calls, blockhash, text@) is Ok);
    }
    assert(all.push(TipBuyEvent::Sent(outcomes)).drop_last() =~= all);
}

/// `events` answer, at `i`, a purchase that waits for a blockhash to do `calls`.
pub open spec fn answered_at<E>(
    context: BuyContext,
    start: BuyStateView<E>,
    events: Seq<BuyEvent<E>>,
    i: int,
    calls: Seq<InstructionView>,
    blockhash: Blockhash,
) -> bool {
    &&& 0 <= i < events.len()
    &&& events[i] == BuyEvent::<E>::Blockhash(Ok(blockhash))
    &&& run_buy(context, start, events.take(i)) == BuyStateView::<E>::Blockhash(calls)
}

/// Whatever its services answer, what a purchase sends is the message over the calls that
/// it had when it waited for a blockhash, compiled on the blockhash that it was then
/// answered.
pub proof fn law_buy_sends_on_the_blockhash_of_its_run<E>(
    context: BuyContext,
    mint: Pubkey,
    amount_sol: u64,
    slippage_basis_points: Option<u64>,
    events: Seq<BuyEvent<E>>,
)
    ensures
        ({
            let start = first_buy_state::<E>(mint, amount_sol, slippage_basis_points);
            run_buy(context, start, events) matches BuyStateView::Send(transaction) ==> exists|
                i: int,
                calls: Seq<InstructionView>,
                blockhash: Blockhash,
            |
                #[trigger] answered_at(context, start, events, i, calls, blockhash)
                    && transaction.message == legacy_message(
                    plain_calls(context.priority_fee, calls),
                    context.payer.public_key(),
                    blockhash,
                )
        }),
    decreases events.len(),
{
    let start = first_buy_state::<E>(mint, amount_sol, slippage_basis_points);
    if events.len() > 0 {
        let rest = events.drop_last();
        law_buy_sends_on_the_blockhash_of_its_run(
            context,
            mint,
            amount_sol,
            slippage_basis_points,
            rest,
        );
        let before = run_buy(context, start, rest);
        let end = events.len() - 1;
        assert(events.take(end) =~= rest);
        if let BuyStateView::Send(transaction) = run_buy(context, start, events) {
            if let BuyStateView::Send(sent) = before {
                let (i, calls, blockhash) = choose|
                    i: int,
                    calls: Seq<InstructionView>,
                    blockhash: Blockhash,
                |
                    #[trigger] answered_at(context, start, rest, i, calls, blockhash)
                        && sent.message == legacy_message(
                        plain_calls(context.priority_fee, calls),
                        context.payer.public_key(),
                        blockhash,
                    );
                assert(events.take(i) =~= rest.take(i));
                assert(answered_at(context, start, events, i, calls, blockhash));
            } else {
                let calls = before->Blockhash_0;
                let blockhash = events.last()->Blockhash_0->Ok_0;
                assert(answered_at(context, start, events, end, calls, blockhash));
            }
        }
    }
}

/// `events` answer, at `i`, a purchase through fee clients that waits for a blockhash to
/// do `calls`.
pub open spec fn tip_answered_at<E>(
    context: BuyContext,
    clients: nat,
    start: TipBuyStateView<E>,
    events: Seq<TipBuyEvent<E>>,
    i: int,
    calls: Seq<InstructionView>,
    blockhash: Blockhash,
) -> bool {
    &&& 0 <= i < events.len()
    &&& events[i] == TipBuyEvent::<E>::Blockhash(Ok(blockhash))
    &&& run_tip_buy(context, clients, start, events.take(i)) == TipBuyStateView::<E>::Blockhash(
        calls,
    )
}

/// `transaction` is a tip and `calls`, compiled for the payer on `blockhash`.
pub open spec fn compiled_on(
    context: BuyContext,
    calls: Seq<InstructionView>,
    blockhash: Blockhash,
    transaction: TransactionView,
) -> bool {
    exists|tip_account: Pubkey|
        transaction.message == v0_message(
            context.payer.public_key(),
            #[trigger] tipped_calls(
                context.priority_fee,
                context.payer.public_key(),
                tip_account,
                calls,
            ),
            blockhash,
        )
}

/// All of `transactions` do `calls`, as `events` had it when they answered `blockhash`.
pub open spec fn all_on_the_answer<E>(
    context: BuyContext,
    clients: nat,
    start: TipBuyStateView<E>,
    events: Seq<TipBuyEvent<E>>,
    i: int,
    calls: Seq<InstructionView>,
    blockhash: Blockhash,
    transactions: Seq<TransactionView>,
) -> bool {
    &&& tip_answered_at(context, clients, start, events, i, calls, blockhash)
    &&& forall|k: int|
        0 <= k < transactions.len() ==> compiled_on(
            context,
            calls,
            blockhash,
            #[trigger] transactions[k],
        )
}

/// All of `transactions` do `calls` on `blockhash`, which `events` answered when the
/// purchase waited for it.
pub open spec fn traced<E>(
    context: BuyContext,
    clients: nat,
    start: TipBuyStateView<E>,
    events: Seq<TipBuyEvent<E>>,
    calls: Seq<InstructionView>,
    blockhash: Blockhash,
    transactions: Seq<TransactionView>,
) -> bool {
    exists|i: int| #[trigger]
        all_on_the_answer(context, clients, start, events, i, calls, blockhash, transactions)
}

/// All of `transactions` do the same calls on one blockhash, which `events` answered when
/// the purchase waited for it.
pub open spec fn all_traced<E>(
    context: BuyContext,
    clients: nat,
    start: TipBuyStateView<E>,
    events: Seq<TipBuyEvent<E>>,
    transactions: Seq<TransactionView>,
) -> bool {
    exists|calls: Seq<InstructionView>, blockhash: Blockhash| #[trigger]
        traced(context, clients, start, events, calls, blockhash, transactions)
}

/// Whatever its services answer, all that a purchase through fee clients holds and sends
/// is compiled on the one blockhash that it was answered when it waited for it, and does
/// the calls that it had then.
pub proof fn law_tip_buy_sends_on_the_blockhash_of_its_run<E>(
    context: BuyContext,
    clients: nat,
    mint: Pubkey,
    amount_sol: u64,
    slippage_basis_points: Option<u64>,
    events: Seq<TipBuyEvent<E>>,
)
    ensures
        ({
            let start = first_tip_buy_state::<E>(mint, amount_sol, slippage_basis_points);
            match run_tip_buy(context, clients, start, events) {
                TipBuyStateView::TipAccount { instructions, blockhash, transactions } => traced(
                    context,
                    clients,
                    start,
                    events,
                    instructions,
                    blockhash,
                    transactions,
                ),
                TipBuyStateView::Send(transactions) => all_traced(
                    context,
                    clients,
                    start,
                    events,
                    transactions,
                ),
                _ => true,
            }
        }),
    decreases events.len(),
{
    let start = first_tip_buy_state::<E>(mint, amount_sol, slippage_basis_points);
    if events.len() > 0 {
        let rest = events.drop_last();
        law_tip_buy_sends_on_the_blockhash_of_its_run(
            context,
            clients,
            mint,
            amount_sol,
            slippage_basis_points,
            rest,
        );
        let before = run_tip_buy(context, clients, start, rest);
        let after = run_tip_buy(context, clients, start, events);
        let event = events.last();
        let end = events.len() - 1;
        assert(events.take(end) =~= rest);
        match before {
            TipBuyStateView::Blockhash(calls) => {
                if let TipBuyEvent::Blockhash(Ok(blockhash)) = event {
                    let none = Seq::<TransactionView>::empty();
                    assert(all_on_the_answer(
                        context,
                        clients,
                        start,
                        events,
                        end,
                        calls,
                        blockhash,
                        none,
                    ));
                    assert(traced(context, clients, start, events, calls, blockhash, none));
                    assert(all_traced(context, clients, start, events, none));
                }
            },
            TipBuyStateView::TipAccount { instructions, blockhash, transactions } => {
                let i = choose|i: int|
                    #[trigger] all_on_the_answer(
                        context,
                        clients,
                        start,
                        rest,
                        i,
                        instructions,
                        blockhash,
                        transactions,
                    );
                assert(events.take(i) =~= rest.take(i));
                assert(all_on_the_answer(
                    context,
                    clients,
                    start,
                    events,
                    i,
                    instructions,
                    blockhash,
                    transactions,
                ));
                if let TipBuyEvent::TipAccount(Ok(text)) = event {
                    if let Ok(added) = named_transaction::<E>(
                        context,
                        instructions,
                        blockhash,
                        text@,
                    ) {
                        let tip_account = decoded_pubkey(text@)->Ok_0;
                        assert(added.message == v0_message(
                            context.payer.public_key(),
                            tipped_calls(
                                context.priority_fee,
                                context.payer.public_key(),
                                tip_account,
                                instructions,
                            ),
                            blockhash,
                        ));
                        assert(compiled_on(context, instructions, blockhash, added));
                        let grown = transactions.push(added);
                        assert forall|k: int| 0 <= k < grown.len() implies compiled_on(
                            context,
                            instructions,
                            blockhash,
                            #[trigger] grown[k],
                        ) by {
                            if k < transactions.len() {
                                assert(grown[k] == transactions[k]);
                            }
                        }
                        assert(all_on_the_answer(
                            context,
                            clients,
                            start,
                            events,
                            i,
                            instructions,
                            blockhash,
                            grown,
                        ));
                        assert(traced(
                            context,
                            clients,
                            start,
                            events,
                            instructions,
                            blockhash,
                            grown,
                        ));
                        assert(all_traced(context, clients, start, events, grown));
                    }
                }
            },
            TipBuyStateView::Send(transactions) => {
                let (calls, blockhash) = choose|calls: Seq<InstructionView>, blockhash: Blockhash|
                    #[trigger]
                    traced(context, clients, start, rest, calls, blockhash, transactions);
                let i = choose|i: int| #[trigger]
                    all_on_the_answer(
                        context,
                        clients,
                        start,
                        rest,
                        i,
                        calls,
                        blockhash,
                        transactions,
                    );
                assert(events.take(i) =~= rest.take(i));
                assert(all_on_the_answer(
                    context,
                    clients,
                    start,
                    events,
                    i,
                    calls,
                    blockhash,
                    transactions,
                ));
                assert(traced(context, clients, start, events, calls, blockhash, transactions));
            },
            _ => {},
        }
    }
}

/// The view of a purchase holds everything that the purchase holds.
pub proof fn law_purchase_views_are_complete<E>(
    step: InstructionsStep,
    plain: BuyState<E>,
    tipped: TipBuyState<E>,
)
    ensures
        match step {
            InstructionsStep::Pending(pending) => step@ == InstructionsStepView::Pending(pending),
            InstructionsStep::Ready(calls) => step@ matches InstructionsStepView::Ready(seen)
                && seen == crate::chain::views(calls@),
        },
        match plain {
            BuyState::Instructions(pending) => plain@ == BuyStateView::<E>::Instructions(pending),
            BuyState::Blockhash(calls) => plain@ matches BuyStateView::Blockhash(seen) && seen
                == crate::chain::views(calls@),
            BuyState::Send(transaction) => plain@ == BuyStateView::<E>::Send(transaction@),
            BuyState::Done => plain@ is Done,
            BuyState::Failed(error) => plain@ == BuyStateView::<E>::Failed(error),
        },
        match tipped {
            TipBuyState::Instructions(pending) => tipped@ == TipBuyStateView::<E>::Instructions(
                pending,
            ),
            TipBuyState::Blockhash(calls) => tipped@ matches TipBuyStateView::Blockhash(seen)
                && seen == crate::chain::views(calls@),
            TipBuyState::TipAccount { instructions, blockhash, transactions } => tipped@ == (
            TipBuyStateView::<E>::TipAccount {
                instructions: crate::chain::views(instructions@),
                blockhash,
                transactions: transaction_views(transactions@),
            }),
            TipBuyState::Send(transactions) => tipped@ == TipBuyStateView::<E>::Send(
                transaction_views(transactions@),
            ),
            TipBuyState::Done(lines) => tipped@ == TipBuyStateView::<E>::Done(text_views(lines@)),
            TipBuyState::Failed(error) => tipped@ == TipBuyStateView::<E>::Failed(error),
        },
{
}

/// The views of lists are those of their elements, in their order.
pub proof fn law_purchase_lists_are_complete(
    transactions: Seq<VersionedTransaction>,
    texts: Seq<String>,
)
    ensures
        transaction_views(transactions).len() == transactions.len(),
        forall|i: int|
            0 <= i < transactions.len() ==> #[trigger] transaction_views(transactions)[i]
                == transactions[i]@,
        text_views(texts).len() == texts.len(),
        forall|i: int| 0 <= i < texts.len() ==> #[trigger] text_views(texts)[i] == texts[i]@,
{
}

} // verus!

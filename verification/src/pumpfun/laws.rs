//! What holds of every purchase, whatever its services answer.
use vstd::prelude::*;

use crate::chain::{Blockhash, InstructionView, Pubkey, TransactionView};
use crate::common::PriorityFee;
use crate::keys::{indexable, legacy_signable, short_lists, sole_signer};
use crate::pumpfun::buy::{
    budget_calls, buy_calls, first_buy_state, first_request, first_tip_buy_state, named_transaction,
    next_buy_state, next_instructions, next_tip_buy_state, plain_calls, plain_transaction,
    report_line, report_lines, tip_progress, tipped_calls, tipped_transaction, BuyContext, BuyError,
    BuyEvent, BuyStateView, InstructionsEvent, InstructionsStepView, PendingInstructions,
    SendOutcome, TipBuyEvent, TipBuyStateView,
};
use crate::pumpfun::order::{order_for, Quote, QuoteRequest, DEFAULT_SLIPPAGE_BASIS_POINTS};
use crate::sdk::{decoded_pubkey, token_account, transfer_call};

verus! {

/// Where a purchase stands after all of `events`.
pub open spec fn run_buy<E>(
    context: BuyContext,
    state: BuyStateView<E>,
    events: Seq<BuyEvent<E>>,
) -> BuyStateView<E>
    decreases events.len(),
{
    if events.len() == 0 {
        state
    } else {
        next_buy_state(context, run_buy(context, state, events.drop_last()), events.last())
    }
}

/// Where a purchase through fee clients stands after all of `events`.
pub open spec fn run_tip_buy<E>(
    context: BuyContext,
    clients: nat,
    state: TipBuyStateView<E>,
    events: Seq<TipBuyEvent<E>>,
) -> TipBuyStateView<E>
    decreases events.len(),
{
    if events.len() == 0 {
        state
    } else {
        next_tip_buy_state(
            context,
            clients,
            run_tip_buy(context, clients, state, events.drop_last()),
            events.last(),
        )
    }
}

/// The request that a purchase starts with.
pub open spec fn opening_request(
    mint: Pubkey,
    amount_sol: u64,
    slippage_basis_points: Option<u64>,
) -> QuoteRequest {
    QuoteRequest {
        mint,
        buy_sol_cost: amount_sol,
        slippage_basis_points: match slippage_basis_points {
            Some(points) => points,
            None => DEFAULT_SLIPPAGE_BASIS_POINTS,
        },
    }
}

/// `calls` are what a purchase that began with `request` does after the quote
/// `quote`, where `encoded` is its buy instruction.
pub open spec fn purchase_calls(
    context: BuyContext,
    request: QuoteRequest,
    quote: Quote,
    encoded: InstructionView,
    calls: Seq<InstructionView>,
) -> bool {
    let order = order_for(context.payer.public_key(), context.fee_recipient, request, quote);
    &&& token_account(order.payer, order.mint, context.token_program) is Some
    &&& calls == buy_calls(order, context.token_program, encoded)
}

/// `calls` are what a purchase that began with `request` does after some quote.
pub open spec fn purchased(
    context: BuyContext,
    request: QuoteRequest,
    calls: Seq<InstructionView>,
) -> bool {
    exists|quote: Quote, encoded: InstructionView| #[trigger]
        purchase_calls(context, request, quote, encoded, calls)
}

/// `transaction` is the one for a purchase that does `calls`.
pub open spec fn purchase_transaction(
    context: BuyContext,
    calls: Seq<InstructionView>,
    blockhash: Blockhash,
    transaction: TransactionView,
) -> bool {
    &&& legacy_signable(plain_calls(context.priority_fee, calls), context.payer.public_key())
    &&& transaction == plain_transaction(context.payer, context.priority_fee, calls, blockhash)
}

/// `transaction` is the one for what a purchase that began with `request` does
/// after some quote.
pub open spec fn purchase_signed(
    context: BuyContext,
    request: QuoteRequest,
    transaction: TransactionView,
) -> bool {
    exists|calls: Seq<InstructionView>, blockhash: Blockhash|
        #![trigger purchase_transaction(context, calls, blockhash, transaction)]
        purchased(context, request, calls) && purchase_transaction(
            context,
            calls,
            blockhash,
            transaction,
        )
}

/// `pending` is what a purchase that began with `request` waits for.
pub open spec fn pending_for(
    context: BuyContext,
    request: QuoteRequest,
    pending: PendingInstructions,
) -> bool {
    match pending {
        PendingInstructions::Quote(asked) => asked == request,
        PendingInstructions::Encode(order) => exists|quote: Quote|
            order == #[trigger] order_for(
                context.payer.public_key(),
                context.fee_recipient,
                request,
                quote,
            ),
    }
}

/// Everything that a purchase holds goes back to its request and to answers that
/// it was given.
pub open spec fn buy_sound<E>(
    context: BuyContext,
    request: QuoteRequest,
    state: BuyStateView<E>,
) -> bool {
    match state {
        BuyStateView::Instructions(pending) => request.buy_sol_cost > 0 && pending_for(
            context,
            request,
            pending,
        ),
        BuyStateView::Blockhash(calls) => request.buy_sol_cost > 0 && purchased(
            context,
            request,
            calls,
        ),
        BuyStateView::Send(transaction) => request.buy_sol_cost > 0 && purchase_signed(
            context,
            request,
            transaction,
        ),
        BuyStateView::Done => request.buy_sol_cost > 0,
        BuyStateView::Failed(_) => true,
    }
}

/// How many answers a purchase may still need.
pub open spec fn buy_rank<E>(state: BuyStateView<E>) -> nat {
    match state {
        BuyStateView::Instructions(PendingInstructions::Quote(_)) => 4,
        BuyStateView::Instructions(PendingInstructions::Encode(_)) => 3,
        BuyStateView::Blockhash(_) => 2,
        BuyStateView::Send(_) => 1,
        BuyStateView::Done | BuyStateView::Failed(_) => 0,
    }
}

/// `event` answers what the purchase asks for.
pub open spec fn buy_answers<E>(state: BuyStateView<E>, event: BuyEvent<E>) -> bool {
    match (state, event) {
        (
            BuyStateView::Instructions(PendingInstructions::Quote(_)),
            BuyEvent::Instructions(InstructionsEvent::Quoted(_)),
        ) => true,
        (
            BuyStateView::Instructions(PendingInstructions::Encode(_)),
            BuyEvent::Instructions(InstructionsEvent::Encoded(_)),
        ) => true,
        (BuyStateView::Blockhash(_), BuyEvent::Blockhash(_)) => true,
        (BuyStateView::Send(_), BuyEvent::Sent(_)) => true,
        _ => false,
    }
}

/// The most answers that a purchase through `clients` fee clients may still need.
pub open spec fn tip_buy_rank<E>(clients: nat, state: TipBuyStateView<E>) -> int {
    match state {
        TipBuyStateView::Instructions(PendingInstructions::Quote(_)) => clients as int + 4,
        TipBuyStateView::Instructions(PendingInstructions::Encode(_)) => clients as int + 3,
        TipBuyStateView::Blockhash(_) => clients as int + 2,
        TipBuyStateView::TipAccount { transactions, .. } => 1 + clients - transactions.len(),
        TipBuyStateView::Send(_) => 1,
        TipBuyStateView::Done(_) | TipBuyStateView::Failed(_) => 0,
    }
}

/// `event` answers what the purchase through fee clients asks for.
pub open spec fn tip_buy_answers<E>(state: TipBuyStateView<E>, event: TipBuyEvent<E>) -> bool {
    match (state, event) {
        (
            TipBuyStateView::Instructions(PendingInstructions::Quote(_)),
            TipBuyEvent::Instructions(InstructionsEvent::Quoted(_)),
        ) => true,
        (
            TipBuyStateView::Instructions(PendingInstructions::Encode(_)),
            TipBuyEvent::Instructions(InstructionsEvent::Encoded(_)),
        ) => true,
        (TipBuyStateView::Blockhash(_), TipBuyEvent::Blockhash(_)) => true,
        (TipBuyStateView::TipAccount { .. }, TipBuyEvent::TipAccount(_)) => true,
        (TipBuyStateView::Send(transactions), TipBuyEvent::Sent(outcomes)) => outcomes@.len()
            == transactions.len(),
        _ => false,
    }
}

/// `transaction` tips `tip_account` for a purchase that does `calls`.
pub open spec fn tips_for(
    context: BuyContext,
    calls: Seq<InstructionView>,
    blockhash: Blockhash,
    tip_account: Pubkey,
    transaction: TransactionView,
) -> bool {
    let payer = context.payer.public_key();
    let all = tipped_calls(context.priority_fee, payer, tip_account, calls);
    &&& indexable(all, payer)
    &&& sole_signer(all, payer)
    &&& short_lists(all)
    &&& transaction == tipped_transaction(
        tip_account,
        context.payer,
        context.priority_fee,
        calls,
        blockhash,
    )
}

/// `transaction` tips some account for a purchase that does `calls`.
pub open spec fn tips_someone(
    context: BuyContext,
    calls: Seq<InstructionView>,
    blockhash: Blockhash,
    transaction: TransactionView,
) -> bool {
    exists|tip_account: Pubkey| #[trigger]
        tips_for(context, calls, blockhash, tip_account, transaction)
}

/// Every one of `transactions` tips some account for a purchase that does `calls`
/// on `blockhash`.
pub open spec fn all_tip_for(
    context: BuyContext,
    calls: Seq<InstructionView>,
    blockhash: Blockhash,
    transactions: Seq<TransactionView>,
) -> bool {
    forall|i: int|
        0 <= i < transactions.len() ==> tips_someone(
            context,
            calls,
            blockhash,
            #[trigger] transactions[i],
        )
}

/// `transactions` are those for what a purchase that began with `request` does after
/// some quote, all on the same blockhash.
pub open spec fn tip_purchase_signed(
    context: BuyContext,
    request: QuoteRequest,
    transactions: Seq<TransactionView>,
) -> bool {
    exists|calls: Seq<InstructionView>, blockhash: Blockhash|
        #![trigger all_tip_for(context, calls, blockhash, transactions)]
        purchased(context, request, calls) && all_tip_for(context, calls, blockhash, transactions)
}

/// `lines` report the outcome of one transaction for each of `clients` fee clients.
pub open spec fn reports(clients: nat, outcomes: Seq<SendOutcome>, lines: Seq<Seq<char>>) -> bool {
    outcomes.len() == clients && lines == report_lines(outcomes)
}

/// `lines` report some outcome for each of `clients` fee clients.
pub open spec fn all_joined(clients: nat, lines: Seq<Seq<char>>) -> bool {
    exists|outcomes: Seq<SendOutcome>| #[trigger] reports(clients, outcomes, lines)
}

/// Everything that a purchase through fee clients holds goes back to its request
/// and to answers that it was given.
pub open spec fn tip_buy_sound<E>(
    context: BuyContext,
    clients: nat,
    request: QuoteRequest,
    state: TipBuyStateView<E>,
) -> bool {
    match state {
        TipBuyStateView::Instructions(pending) => request.buy_sol_cost > 0 && pending_for(
            context,
            request,
            pending,
        ),
        TipBuyStateView::Blockhash(calls) => request.buy_sol_cost > 0 && purchased(
            context,
            request,
            calls,
        ),
        TipBuyStateView::TipAccount { instructions, blockhash, transactions } => {
            &&& request.buy_sol_cost > 0
            &&& transactions.len() < clients
            &&& all_tip_for(context, instructions, blockhash, transactions)
            &&& purchased(context, request, instructions)
        },
        TipBuyStateView::Send(transactions) => {
            &&& request.buy_sol_cost > 0
            &&& transactions.len() == clients
            &&& tip_purchase_signed(context, request, transactions)
        },
        TipBuyStateView::Done(lines) => {
            &&& request.buy_sol_cost > 0
            &&& all_joined(clients, lines)
        },
        TipBuyStateView::Failed(_) => true,
    }
}

/// A tip transaction does what the transaction without a tip does, and one thing
/// more: after the three budget requests, it pays the tip.
pub proof fn law_tip_is_one_more_call(
    fee: PriorityFee,
    payer: Pubkey,
    tip_account: Pubkey,
    calls: Seq<InstructionView>,
)
    ensures
        plain_calls(fee, calls).take(3) == budget_calls(fee),
        plain_calls(fee, calls).skip(3) == calls,
        tipped_calls(fee, payer, tip_account, calls) == plain_calls(fee, calls).insert(
            3,
            transfer_call(payer, tip_account, fee.buy_tip_lamports),
        ),
{
    assert(plain_calls(fee, calls).take(3) =~= budget_calls(fee));
    assert(plain_calls(fee, calls).skip(3) =~= calls);
    assert(tipped_calls(fee, payer, tip_account, calls) =~= plain_calls(fee, calls).insert(
        3,
        transfer_call(payer, tip_account, fee.buy_tip_lamports),
    ));
}

/// A purchase that names no slippage is the purchase that names the default.
pub proof fn law_default_slippage<E>(mint: Pubkey, amount_sol: u64)
    ensures
        first_request::<E>(mint, amount_sol, None) == first_request::<E>(
            mint,
            amount_sol,
            Some(DEFAULT_SLIPPAGE_BASIS_POINTS),
        ),
{
}

/// A purchase that is confirmed or has failed stays so.
pub proof fn law_settled_buy_stays<E>(
    context: BuyContext,
    state: BuyStateView<E>,
    events: Seq<BuyEvent<E>>,
)
    requires
        state is Done || state is Failed,
    ensures
        run_buy(context, state, events) == state,
    decreases events.len(),
{
    if events.len() > 0 {
        law_settled_buy_stays(context, state, events.drop_last());
    }
}

/// A purchase through fee clients that is over stays so.
pub proof fn law_settled_tip_buy_stays<E>(
    context: BuyContext,
    clients: nat,
    state: TipBuyStateView<E>,
    events: Seq<TipBuyEvent<E>>,
)
    requires
        state is Done || state is Failed,
    ensures
        run_tip_buy(context, clients, state, events) == state,
    decreases events.len(),
{
    if events.len() > 0 {
        law_settled_tip_buy_stays(context, clients, state, events.drop_last());
    }
}

/// A purchase for nothing fails with nothing asked or sent, whatever happens.
pub proof fn law_zero_purchase_asks_nothing<E>(
    context: BuyContext,
    clients: nat,
    mint: Pubkey,
    slippage_basis_points: Option<u64>,
    events: Seq<BuyEvent<E>>,
    tip_events: Seq<TipBuyEvent<E>>,
)
    ensures
        run_buy(context, first_buy_state::<E>(mint, 0, slippage_basis_points), events)
            == BuyStateView::<E>::Failed(BuyError::ZeroAmount),
        run_tip_buy(
            context,
            clients,
            first_tip_buy_state::<E>(mint, 0, slippage_basis_points),
            tip_events,
        ) == TipBuyStateView::<E>::Failed(BuyError::ZeroAmount),
{
    law_settled_buy_stays(
        context,
        first_buy_state::<E>(mint, 0, slippage_basis_points),
        events,
    );
    law_settled_tip_buy_stays(
        context,
        clients,
        first_tip_buy_state::<E>(mint, 0, slippage_basis_points),
        tip_events,
    );
}

/// Every answer brings a purchase closer to its end, and nothing else moves it.
pub proof fn law_answers_move_a_buy<E>(
    context: BuyContext,
    state: BuyStateView<E>,
    event: BuyEvent<E>,
)
    ensures
        buy_answers(state, event) ==> buy_rank(next_buy_state(context, state, event)) < buy_rank(
            state,
        ),
        !buy_answers(state, event) ==> next_buy_state(context, state, event) == state,
{
}

/// Every answer brings a purchase through fee clients closer to its end, and
/// nothing else moves it.
pub proof fn law_answers_move_a_tip_buy<E>(
    context: BuyContext,
    clients: nat,
    state: TipBuyStateView<E>,
    event: TipBuyEvent<E>,
)
    requires
        state matches TipBuyStateView::TipAccount { transactions, .. } ==> transactions.len()
            < clients,
    ensures
        tip_buy_answers(state, event) ==> 0 <= tip_buy_rank(
            clients,
            next_tip_buy_state(context, clients, state, event),
        ) < tip_buy_rank(clients, state),
        !tip_buy_answers(state, event) ==> next_tip_buy_state(context, clients, state, event)
            == state,
{
}

/// A purchase is done only when the transaction that it sent was confirmed.
pub proof fn law_done_means_confirmed<E>(
    context: BuyContext,
    state: BuyStateView<E>,
    event: BuyEvent<E>,
)
    requires
        !(state is Done),
        next_buy_state(context, state, event) is Done,
    ensures
        state is Send,
        event matches BuyEvent::Sent(Ok(_)),
{
}

/// Whatever its services answer, a purchase only ever sends the signed
/// transaction for the order that follows from its request and a quote, and a
/// purchase for nothing never gets that far.
pub proof fn law_buy_sends_its_order<E>(
    context: BuyContext,
    mint: Pubkey,
    amount_sol: u64,
    slippage_basis_points: Option<u64>,
    events: Seq<BuyEvent<E>>,
)
    ensures
        buy_sound(
            context,
            opening_request(mint, amount_sol, slippage_basis_points),
            run_buy(
                context,
                first_buy_state::<E>(mint, amount_sol, slippage_basis_points),
                events,
            ),
        ),
    decreases events.len(),
{
    let request = opening_request(mint, amount_sol, slippage_basis_points);
    let start = first_buy_state::<E>(mint, amount_sol, slippage_basis_points);
    if events.len() > 0 {
        law_buy_sends_its_order(
            context,
            mint,
            amount_sol,
            slippage_basis_points,
            events.drop_last(),
        );
        lemma_buy_step_sound(
            context,
            request,
            run_buy(context, start, events.drop_last()),
            events.last(),
        );
    }
}

/// Whatever a purchase that waits for its instructions is told, it still holds
/// what follows from its request.
proof fn lemma_instructions_step_sound<E>(
    context: BuyContext,
    request: QuoteRequest,
    pending: PendingInstructions,
    found: InstructionsEvent<E>,
)
    requires
        pending_for(context, request, pending),
    ensures
        match next_instructions(context, pending, found) {
            Ok(InstructionsStepView::Pending(next)) => pending_for(context, request, next),
            Ok(InstructionsStepView::Ready(calls)) => purchased(context, request, calls),
            Err(_) => true,
        },
{
    match (pending, found) {
        (PendingInstructions::Quote(_), InstructionsEvent::Quoted(Ok(quote))) => {
            let order = order_for(
                context.payer.public_key(),
                context.fee_recipient,
                request,
                quote,
            );
            assert(pending_for(context, request, PendingInstructions::Encode(order)));
        },
        (PendingInstructions::Encode(order), InstructionsEvent::Encoded(encoded)) => {
            let quote = choose|quote: Quote|
                order == #[trigger] order_for(
                    context.payer.public_key(),
                    context.fee_recipient,
                    request,
                    quote,
                );
            if token_account(order.payer, order.mint, context.token_program) is Some {
                assert(purchase_calls(
                    context,
                    request,
                    quote,
                    encoded@,
                    buy_calls(order, context.token_program, encoded@),
                ));
            }
        },
        _ => {},
    }
}

proof fn lemma_buy_step_sound<E>(
    context: BuyContext,
    request: QuoteRequest,
    state: BuyStateView<E>,
    event: BuyEvent<E>,
)
    requires
        buy_sound(context, request, state),
    ensures
        buy_sound(context, request, next_buy_state(context, state, event)),
{
    match (state, event) {
        (BuyStateView::Instructions(pending), BuyEvent::Instructions(found)) => {
            lemma_instructions_step_sound(context, request, pending, found);
        },
        (BuyStateView::Blockhash(calls), BuyEvent::Blockhash(Ok(blockhash))) => {
            if legacy_signable(
                plain_calls(context.priority_fee, calls),
                context.payer.public_key(),
            ) {
                let transaction = plain_transaction(
                    context.payer,
                    context.priority_fee,
                    calls,
                    blockhash,
                );
                assert(purchase_transaction(context, calls, blockhash, transaction));
            }
        },
        _ => {},
    }
}

/// Whatever its services answer, a purchase through fee clients sends nothing
/// before it holds one transaction for each of them; all of those tip some
/// account for the same order, on the same blockhash. It is done only once there
/// is an outcome for each of them.
pub proof fn law_tip_buy_sends_one_per_client<E>(
    context: BuyContext,
    clients: nat,
    mint: Pubkey,
    amount_sol: u64,
    slippage_basis_points: Option<u64>,
    events: Seq<TipBuyEvent<E>>,
)
    ensures
        tip_buy_sound(
            context,
            clients,
            opening_request(mint, amount_sol, slippage_basis_points),
            run_tip_buy(
                context,
                clients,
                first_tip_buy_state::<E>(mint, amount_sol, slippage_basis_points),
                events,
            ),
        ),
    decreases events.len(),
{
    let request = opening_request(mint, amount_sol, slippage_basis_points);
    let start = first_tip_buy_state::<E>(mint, amount_sol, slippage_basis_points);
    if events.len() > 0 {
        law_tip_buy_sends_one_per_client(
            context,
            clients,
            mint,
            amount_sol,
            slippage_basis_points,
            events.drop_last(),
        );
        lemma_tip_buy_step_sound(
            context,
            clients,
            request,
            run_tip_buy(context, clients, start, events.drop_last()),
            events.last(),
        );
    }
}

proof fn lemma_tip_buy_step_sound<E>(
    context: BuyContext,
    clients: nat,
    request: QuoteRequest,
    state: TipBuyStateView<E>,
    event: TipBuyEvent<E>,
)
    requires
        tip_buy_sound(context, clients, request, state),
    ensures
        tip_buy_sound(context, clients, request, next_tip_buy_state(context, clients, state, event)),
{
    match (state, event) {
        (TipBuyStateView::Instructions(pending), TipBuyEvent::Instructions(found)) => {
            lemma_instructions_step_sound(context, request, pending, found);
        },
        (TipBuyStateView::Blockhash(calls), TipBuyEvent::Blockhash(Ok(blockhash))) => {
            let none = Seq::<TransactionView>::empty();
            assert(all_tip_for(context, calls, blockhash, none));
            assert(tip_purchase_signed(context, request, none));
        },
        (
            TipBuyStateView::TipAccount { instructions, blockhash, transactions },
            TipBuyEvent::TipAccount(Ok(text)),
        ) => {
            if let Ok(transaction) = named_transaction::<E>(
                context,
                instructions,
                blockhash,
                text@,
            ) {
                let grown = transactions.push(transaction);
                assert(tips_for(
                    context,
                    instructions,
                    blockhash,
                    decoded_pubkey(text@)->Ok_0,
                    transaction,
                ));
                assert(tips_someone(context, instructions, blockhash, transaction));
                assert forall|i: int| 0 <= i < grown.len() implies tips_someone(
                    context,
                    instructions,
                    blockhash,
                    #[trigger] grown[i],
                ) by {
                    if i < transactions.len() {
                        assert(grown[i] == transactions[i]);
                    }
                }
                assert(all_tip_for(context, instructions, blockhash, grown));
                assert(tip_purchase_signed(context, request, grown));
            }
        },
        (TipBuyStateView::Send(transactions), TipBuyEvent::Sent(outcomes)) => {
            if outcomes@.len() == transactions.len() {
                assert(reports(clients, outcomes@, report_lines(outcomes@)));
            }
        },
        _ => {},
    }
}

/// The answers of fee clients, one after the other.
pub open spec fn named_accounts<E>(texts: Seq<String>) -> Seq<TipBuyEvent<E>> {
    texts.map_values(|text: String| TipBuyEvent::<E>::TipAccount(Ok(text)))
}

/// When each fee client names an account that a transaction can tip, the
/// transaction that goes out through a client tips the account that this very
/// client named.
pub proof fn law_each_client_gets_its_own_tip<E>(
    context: BuyContext,
    clients: nat,
    calls: Seq<InstructionView>,
    blockhash: Blockhash,
    texts: Seq<String>,
)
    requires
        texts.len() <= clients,
        forall|i: int|
            0 <= i < texts.len() ==> named_transaction::<E>(
                context,
                calls,
                blockhash,
                (#[trigger] texts[i])@,
            ) is Ok,
    ensures
        run_tip_buy(
            context,
            clients,
            tip_progress::<E>(clients, calls, blockhash, Seq::empty()),
            named_accounts::<E>(texts),
        ) == tip_progress::<E>(
            clients,
            calls,
            blockhash,
            Seq::new(
                texts.len(),
                |i: int| named_transaction::<E>(context, calls, blockhash, texts[i]@)->Ok_0,
            ),
        ),
    decreases texts.len(),
{
    let built = |i: int| named_transaction::<E>(context, calls, blockhash, texts[i]@)->Ok_0;
    if texts.len() == 0 {
        assert(Seq::new(0, built) =~= Seq::empty());
    } else {
        let rest = texts.drop_last();
        law_each_client_gets_its_own_tip::<E>(context, clients, calls, blockhash, rest);
        assert(named_accounts::<E>(texts).drop_last() =~= named_accounts::<E>(rest));
        let done = Seq::new(
            rest.len(),
            |i: int| named_transaction::<E>(context, calls, blockhash, rest[i]@)->Ok_0,
        );
        let last = texts[texts.len() - 1];
        assert(named_transaction::<E>(context, calls, blockhash, last@) is Ok);
        assert(done.push(
            named_transaction::<E>(context, calls, blockhash, last@)->Ok_0,
        ) =~= Seq::new(texts.len(), built));
    }
}

/// One fee client that names no account, or one that no transaction can tip, ends
/// the purchase for all of them, and nothing is sent.
pub proof fn law_one_bad_client_stops_all<E>(
    context: BuyContext,
    clients: nat,
    calls: Seq<InstructionView>,
    blockhash: Blockhash,
    transactions: Seq<TransactionView>,
    answer: Result<String, E>,
    later: Seq<TipBuyEvent<E>>,
)
    requires
        answer matches Ok(text) ==> named_transaction::<E>(context, calls, blockhash, text@) is Err,
    ensures
        run_tip_buy(
            context,
            clients,
            next_tip_buy_state(
                context,
                clients,
                TipBuyStateView::TipAccount { instructions: calls, blockhash, transactions },
                TipBuyEvent::TipAccount(answer),
            ),
            later,
        ) is Failed,
{
    law_settled_tip_buy_stays(
        context,
        clients,
        next_tip_buy_state(
            context,
            clients,
            TipBuyStateView::TipAccount { instructions: calls, blockhash, transactions },
            TipBuyEvent::TipAccount(answer),
        ),
        later,
    );
}

/// A purchase through fee clients is done only when every transaction that it sent
/// has an outcome: none is still on its way.
pub proof fn law_done_means_all_joined<E>(
    context: BuyContext,
    clients: nat,
    state: TipBuyStateView<E>,
    event: TipBuyEvent<E>,
)
    requires
        !(state is Done),
        next_tip_buy_state(context, clients, state, event) is Done,
    ensures
        state matches TipBuyStateView::Send(transactions) && event matches TipBuyEvent::Sent(
            outcomes,
        ) && outcomes@.len() == transactions.len(),
{
}

/// Once each of its transactions has an outcome, a purchase succeeds however they
/// fared; it reports at most one line for each of them, and none if and only if all
/// were delivered.
pub proof fn law_send_failures_do_not_fail_the_buy<E>(
    context: BuyContext,
    clients: nat,
    transactions: Seq<TransactionView>,
    outcomes: Vec<SendOutcome>,
)
    requires
        outcomes@.len() == transactions.len(),
    ensures
        next_tip_buy_state(
            context,
            clients,
            TipBuyStateView::<E>::Send(transactions),
            TipBuyEvent::Sent(outcomes),
        ) == TipBuyStateView::<E>::Done(report_lines(outcomes@)),
        report_lines(outcomes@).len() <= transactions.len(),
        report_lines(outcomes@).len() == 0 <==> forall|i: int|
            0 <= i < outcomes@.len() ==> #[trigger] outcomes@[i] is Delivered,
{
    lemma_report_lines(outcomes@);
}

proof fn lemma_report_lines(outcomes: Seq<SendOutcome>)
    ensures
        report_lines(outcomes).len() <= outcomes.len(),
        report_lines(outcomes).len() == 0 <==> forall|i: int|
            0 <= i < outcomes.len() ==> #[trigger] outcomes[i] is Delivered,
    decreases outcomes.len(),
{
    if outcomes.len() > 0 {
        let rest = outcomes.drop_last();
        lemma_report_lines(rest);
        assert(forall|i: int| 0 <= i < rest.len() ==> rest[i] == #[trigger] outcomes[i]);
        assert(report_line(outcomes.last()) is None <==> outcomes.last() is Delivered);
        assert(outcomes.last() == outcomes[outcomes.len() - 1]);
        if forall|i: int| 0 <= i < rest.len() ==> #[trigger] rest[i] is Delivered {
            if outcomes.last() is Delivered {
                assert forall|i: int| 0 <= i < outcomes.len() implies #[trigger] outcomes[i] is Delivered by {
                    if i < rest.len() {
                        assert(rest[i] is Delivered);
                    }
                }
            }
        } else {
            let i = choose|i: int| 0 <= i < rest.len() && !(#[trigger] rest[i] is Delivered);
            assert(!(outcomes[i] is Delivered));
        }
    }
}

} // verus!

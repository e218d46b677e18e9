//! How the cached blockhash is kept fresh: a wait, a fetch, and so on, until a fetch
//! fails.
use vstd::prelude::*;

use crate::chain::Blockhash;
use crate::BlockhashCache;

verus! {

/// Where the refreshing of a cache stands, and what it asks its caller to do next.
#[derive(Debug, PartialEq, Eq)]
pub enum RefreshState<E> {
    /// Wait for [`crate::BLOCKHASH_REFRESH_SECONDS`].
    Waiting,
    /// Fetch the latest blockhash.
    Fetching,
    /// Nothing: a fetch has failed, and the cache stays as it is.
    Stopped(E),
}

/// What came of a request of the refreshing.
#[derive(Debug, PartialEq, Eq)]
pub enum RefreshEvent<E> {
    Waited,
    Fetched(Result<Blockhash, E>),
}

/// The cache and the refreshing after `event`. An answer to a question that was not
/// asked changes nothing.
pub open spec fn next_refresh<E>(
    cache: BlockhashCache,
    state: RefreshState<E>,
    event: RefreshEvent<E>,
) -> (BlockhashCache, RefreshState<E>) {
    match (state, event) {
        (RefreshState::Waiting, RefreshEvent::Waited) => (cache, RefreshState::Fetching),
        (RefreshState::Fetching, RefreshEvent::Fetched(Ok(blockhash))) => (
            cache.refreshed(blockhash),
            RefreshState::Waiting,
        ),
        (RefreshState::Fetching, RefreshEvent::Fetched(Err(error))) => (
            cache,
            RefreshState::Stopped(error),
        ),
        _ => (cache, state),
    }
}

/// The cache and the refreshing after all of `events`.
pub open spec fn run_refresh<E>(
    cache: BlockhashCache,
    state: RefreshState<E>,
    events: Seq<RefreshEvent<E>>,
) -> (BlockhashCache, RefreshState<E>)
    decreases events.len(),
{
    if events.len() == 0 {
        (cache, state)
    } else {
        let before = run_refresh(cache, state, events.drop_last());
        next_refresh(before.0, before.1, events.last())
    }
}

/// Starts the refreshing of a cache that has just been filled.
pub fn begin_refresh<E>() -> (state: RefreshState<E>)
    ensures
        state == RefreshState::<E>::Waiting,
{
    RefreshState::Waiting
}

/// Brings the refreshing of `cache` one step further.
pub fn refresh_step<E>(
    cache: &mut BlockhashCache,
    state: RefreshState<E>,
    event: RefreshEvent<E>,
) -> (next: RefreshState<E>)
    ensures
        (*final(cache), next) == next_refresh(*old(cache), state, event),
{
    match (state, event) {
        (RefreshState::Waiting, RefreshEvent::Waited) => RefreshState::Fetching,
        (RefreshState::Fetching, RefreshEvent::Fetched(Ok(blockhash))) => {
            cache.refresh(blockhash);
            RefreshState::Waiting
        },
        (RefreshState::Fetching, RefreshEvent::Fetched(Err(error))) => RefreshState::Stopped(error),
        (state, _) => state,
    }
}

/// A wait and a fetch for each of `hashes`, one after the other.
pub open spec fn rounds<E>(hashes: Seq<Blockhash>) -> Seq<RefreshEvent<E>>
    decreases hashes.len(),
{
    if hashes.len() == 0 {
        Seq::empty()
    } else {
        rounds::<E>(hashes.drop_last()).push(RefreshEvent::Waited).push(
            RefreshEvent::Fetched(Ok(hashes.last())),
        )
    }
}

/// While fetches succeed, each hash is written in its turn, and the refreshing goes on.
pub proof fn law_refreshing_writes_in_order<E>(cache: BlockhashCache, hashes: Seq<Blockhash>)
    ensures
        run_refresh(cache, RefreshState::<E>::Waiting, rounds::<E>(hashes)) == (
            cache.after(hashes),
            RefreshState::<E>::Waiting,
        ),
    decreases hashes.len(),
{
    if hashes.len() > 0 {
        law_refreshing_writes_in_order::<E>(cache, hashes.drop_last());
        lemma_round(cache, hashes.drop_last(), Ok::<Blockhash, E>(hashes.last()));
    }
}

/// The hashes are written in order up to the first fetch that fails. From then on
/// nothing changes, whatever happens.
pub proof fn law_failed_fetch_ends_the_refreshing<E>(
    cache: BlockhashCache,
    hashes: Seq<Blockhash>,
    error: E,
    later: Seq<RefreshEvent<E>>,
)
    ensures
        run_refresh(
            cache,
            RefreshState::<E>::Waiting,
            rounds::<E>(hashes).push(RefreshEvent::Waited).push(RefreshEvent::Fetched(Err(error)))
                + later,
        ) == (cache.after(hashes), RefreshState::Stopped(error)),
    decreases later.len(),
{
    let failed = rounds::<E>(hashes).push(RefreshEvent::Waited).push(
        RefreshEvent::Fetched(Err(error)),
    );
    if later.len() == 0 {
        law_refreshing_writes_in_order::<E>(cache, hashes);
        lemma_round(cache, hashes, Err::<Blockhash, E>(error));
        assert(failed + later =~= failed);
    } else {
        law_failed_fetch_ends_the_refreshing(cache, hashes, error, later.drop_last());
        assert((failed + later).drop_last() =~= failed + later.drop_last());
    }
}

/// The cache only changes by a fetch that was asked for, and each fetch is asked for
/// only after a wait.
pub proof fn law_each_write_follows_a_wait<E>(
    cache: BlockhashCache,
    state: RefreshState<E>,
    event: RefreshEvent<E>,
)
    ensures
        next_refresh(cache, state, event).0 != cache ==> state is Fetching && next_refresh(
            cache,
            state,
            event,
        ).1 is Waiting,
        next_refresh(cache, state, event).1 is Fetching ==> state is Fetching || (state is Waiting
            && event is Waited),
        state is Fetching && event is Fetched ==> !(next_refresh(cache, state, event).1 is Fetching),
{
}

/// Whatever happens, the cache holds the hash that it started with or one that a
/// fetch has answered.
pub proof fn law_cache_holds_an_answer<E>(
    cache: BlockhashCache,
    state: RefreshState<E>,
    events: Seq<RefreshEvent<E>>,
)
    ensures
        run_refresh(cache, state, events).0 == cache || events.contains(
            RefreshEvent::Fetched(Ok(run_refresh(cache, state, events).0.latest)),
        ),
    decreases events.len(),
{
    if events.len() > 0 {
        let rest = events.drop_last();
        law_cache_holds_an_answer(cache, state, rest);
        let before = run_refresh(cache, state, rest);
        let answered = RefreshEvent::<E>::Fetched(Ok(before.0.latest));
        if rest.contains(answered) {
            let i = choose|i: int| 0 <= i < rest.len() && rest[i] == answered;
            assert(events[i] == answered);
        }
        assert(events[events.len() - 1] == events.last());
    }
}

/// A wait leads to a fetch. A hash that was fetched is held at once, and a wait
/// follows. An error ends the refreshing and is kept, with the cache as it was.
/// Nothing else changes anything.
pub proof fn law_refresh_step_by_step<E>(
    cache: BlockhashCache,
    state: RefreshState<E>,
    event: RefreshEvent<E>,
)
    ensures
        ({
            let (held, next) = next_refresh(cache, state, event);
            &&& state is Waiting && event is Waited ==> held.latest == cache.latest && next is Fetching
            &&& state is Waiting && event is Fetched ==> held.latest == cache.latest && next is Waiting
            &&& state is Fetching && event is Waited ==> held.latest == cache.latest
                && next is Fetching
            &&& state is Fetching ==> (event matches RefreshEvent::Fetched(Ok(hash)) ==> held.latest
                == hash && next is Waiting)
            &&& state is Fetching ==> (event matches RefreshEvent::Fetched(Err(error))
                ==> held.latest == cache.latest && next == RefreshState::Stopped(error))
            &&& state is Stopped ==> held.latest == cache.latest && next == state
        }),
{
}

proof fn lemma_round<E>(
    cache: BlockhashCache,
    hashes: Seq<Blockhash>,
    answer: Result<Blockhash, E>,
)
    requires
        run_refresh(cache, RefreshState::<E>::Waiting, rounds::<E>(hashes)) == (
            cache.after(hashes),
            RefreshState::<E>::Waiting,
        ),
    ensures
        run_refresh(
            cache,
            RefreshState::<E>::Waiting,
            rounds::<E>(hashes).push(RefreshEvent::Waited).push(RefreshEvent::Fetched(answer)),
        ) == next_refresh(
            cache.after(hashes),
            RefreshState::<E>::Fetching,
            RefreshEvent::Fetched(answer),
        ),
{
    let waited = rounds::<E>(hashes).push(RefreshEvent::Waited);
    assert(waited.drop_last() =~= rounds::<E>(hashes));
    assert(waited.push(RefreshEvent::Fetched(answer)).drop_last() =~= waited);
    assert(run_refresh(cache, RefreshState::<E>::Waiting, waited).1 is Fetching);
}

} // verus!

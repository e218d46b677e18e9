use pumpfun::refresh::{begin_refresh, refresh_step, RefreshEvent, RefreshState};
use pumpfun::BlockhashCache;

fn failed() -> RefreshEvent<String> {
    RefreshEvent::Fetched(Err(String::from("unreachable")))
}

#[test]
fn a_refresh_waits_before_each_fetch() {
    let mut cache = BlockhashCache { latest: [1; 32] };
    let mut state: RefreshState<String> = begin_refresh();
    for hash in [[2; 32], [3; 32], [4; 32]] {
        assert_eq!(state, RefreshState::Waiting);
        state = refresh_step(&mut cache, state, RefreshEvent::Waited);
        assert_eq!(state, RefreshState::Fetching);
        state = refresh_step(&mut cache, state, RefreshEvent::Fetched(Ok(hash)));
        assert_eq!(cache.latest, hash);
    }
}

#[test]
fn a_failed_fetch_ends_the_refreshing() {
    let mut cache = BlockhashCache { latest: [1; 32] };
    let state = refresh_step(&mut cache, RefreshState::Fetching, RefreshEvent::Fetched(Ok([2; 32])));
    let state = refresh_step(&mut cache, state, RefreshEvent::Waited);
    let mut state = refresh_step(&mut cache, state, failed());
    assert_eq!(state, RefreshState::Stopped(String::from("unreachable")));
    for event in [RefreshEvent::Waited, RefreshEvent::Fetched(Ok([3; 32])), failed()] {
        state = refresh_step(&mut cache, state, event);
        assert_eq!(state, RefreshState::Stopped(String::from("unreachable")));
    }
    assert_eq!(cache.latest, [2; 32]);
}

#[test]
fn an_unasked_fetch_writes_nothing() {
    let mut cache = BlockhashCache { latest: [1; 32] };
    let state: RefreshState<String> = begin_refresh();
    let state = refresh_step(&mut cache, state, RefreshEvent::Fetched(Ok([2; 32])));
    assert_eq!(state, RefreshState::Waiting);
    let state = refresh_step(&mut cache, state, failed());
    assert_eq!(state, RefreshState::Waiting);
    assert_eq!(cache.latest, [1; 32]);
    let state: RefreshState<String> = RefreshState::Fetching;
    let state = refresh_step(&mut cache, state, RefreshEvent::Waited);
    assert_eq!(state, RefreshState::Fetching);
}

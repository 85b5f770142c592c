use hawk::cache::{CatalogCache, CatalogLookup, SessionCache, SessionLookup, Ticket};
use hawk::error::Error;
use hawk::ids::VideoId;
use std::cell::Cell;
use std::collections::HashSet;

fn id(raw: u128) -> VideoId {
    VideoId { raw }
}

#[test]
fn catalog_read_fills_an_empty_cache() {
    let mut cache = CatalogCache::new();
    let asked = Cell::new(0);
    let r = cache.get_all_video_ids(|| {
        asked.set(asked.get() + 1);
        Ok(vec![id(2), id(1)])
    });
    assert_eq!(r, Ok(vec![id(2), id(1)]));
    assert_eq!(asked.get(), 1);
}

#[test]
fn catalog_read_is_answered_from_the_cache() {
    let mut cache = CatalogCache::new();
    assert_eq!(cache.get_all_video_ids(|| Ok(vec![id(1)])), Ok(vec![id(1)]));
    let asked = Cell::new(false);
    let r = cache.get_all_video_ids(|| {
        asked.set(true);
        Ok(vec![id(2), id(1)])
    });
    assert_eq!(r, Ok(vec![id(1)]));
    assert!(!asked.get());
}

#[test]
fn catalog_read_after_invalidate_sees_the_write() {
    let mut store = vec![id(1)];
    let mut cache = CatalogCache::new();
    assert_eq!(cache.get_all_video_ids(|| Ok(store.clone())), Ok(vec![id(1)]));
    store.insert(0, id(2));
    cache.invalidate();
    assert_eq!(cache.get_all_video_ids(|| Ok(store.clone())), Ok(vec![id(2), id(1)]));
    assert_eq!(cache.get_all_video_ids(|| Ok(vec![])), Ok(vec![id(2), id(1)]));
}

#[test]
fn catalog_write_without_signal_may_stay_unseen() {
    let mut store = vec![id(1)];
    let mut cache = CatalogCache::new();
    assert_eq!(cache.get_all_video_ids(|| Ok(store.clone())), Ok(vec![id(1)]));
    store.insert(0, id(2));
    assert_eq!(cache.get_all_video_ids(|| Ok(store.clone())), Ok(vec![id(1)]));
}

#[test]
fn catalog_invalidate_twice_is_invalidate_once() {
    let store = vec![id(3), id(2)];
    let mut once = CatalogCache::new();
    let mut twice = CatalogCache::new();
    assert_eq!(once.get_all_video_ids(|| Ok(vec![id(1)])), Ok(vec![id(1)]));
    assert_eq!(twice.get_all_video_ids(|| Ok(vec![id(1)])), Ok(vec![id(1)]));
    once.invalidate();
    twice.invalidate();
    twice.invalidate();
    let asked_once = Cell::new(0);
    let asked_twice = Cell::new(0);
    for _ in 0..3 {
        let a = once.get_all_video_ids(|| {
            asked_once.set(asked_once.get() + 1);
            Ok(store.clone())
        });
        let b = twice.get_all_video_ids(|| {
            asked_twice.set(asked_twice.get() + 1);
            Ok(store.clone())
        });
        assert_eq!(a, b);
        assert_eq!(a, Ok(store.clone()));
    }
    assert_eq!((asked_once.get(), asked_twice.get()), (1, 1));
}

#[test]
fn catalog_invalidate_empties_at_the_next_look() {
    let mut cache = CatalogCache::new();
    assert_eq!(cache.get_all_video_ids(|| Ok(vec![id(1)])), Ok(vec![id(1)]));
    cache.invalidate();
    assert_eq!(cache.lookup(), CatalogLookup::Miss(Ticket { epoch: 1 }));
}

#[test]
fn catalog_failed_query_is_passed_on_and_not_kept() {
    let mut cache = CatalogCache::new();
    assert_eq!(cache.get_all_video_ids(|| Err(Error::StoreFailure)), Err(Error::StoreFailure));
    assert_eq!(cache.get_all_video_ids(|| Ok(vec![id(5)])), Ok(vec![id(5)]));
}

#[test]
fn catalog_failed_query_after_signal_drops_the_stale_snapshot() {
    let mut cache = CatalogCache::new();
    assert_eq!(cache.get_all_video_ids(|| Ok(vec![id(1)])), Ok(vec![id(1)]));
    cache.invalidate();
    assert_eq!(cache.get_all_video_ids(|| Err(Error::StoreFailure)), Err(Error::StoreFailure));
    assert_eq!(cache.get_all_video_ids(|| Ok(vec![id(2)])), Ok(vec![id(2)]));
}

#[test]
fn catalog_empty_answer_is_asked_for_again() {
    let mut cache = CatalogCache::new();
    assert_eq!(cache.get_all_video_ids(|| Ok(vec![])), Ok(vec![]));
    assert_eq!(cache.get_all_video_ids(|| Ok(vec![id(1)])), Ok(vec![id(1)]));
}

fn miss(lookup: CatalogLookup) -> Ticket {
    match lookup {
        CatalogLookup::Miss(ticket) => ticket,
        CatalogLookup::Hit(rows) => panic!("{:?}", rows),
    }
}

#[test]
fn catalog_two_phase_read() {
    let mut cache = CatalogCache::new();
    let ticket = miss(cache.lookup());
    assert_eq!(cache.complete(ticket, Ok(vec![id(9), id(8)])), Ok(vec![id(9), id(8)]));
    assert_eq!(cache.lookup(), CatalogLookup::Hit(vec![id(9), id(8)]));
    assert_eq!(cache.complete(ticket, Err(Error::StoreFailure)), Err(Error::StoreFailure));
    assert_eq!(cache.lookup(), CatalogLookup::Hit(vec![id(9), id(8)]));
    cache.invalidate();
    let ticket = miss(cache.lookup());
    assert_eq!(ticket, miss(cache.lookup()));
}

#[test]
fn catalog_answer_overtaken_by_a_signal_is_returned_but_not_kept() {
    let mut cache = CatalogCache::new();
    let ticket = miss(cache.lookup());
    cache.invalidate();
    assert_eq!(cache.complete(ticket, Ok(vec![id(1)])), Ok(vec![id(1)]));
    let later = miss(cache.lookup());
    assert_ne!(ticket, later);
    assert_eq!(cache.complete(later, Ok(vec![id(2), id(1)])), Ok(vec![id(2), id(1)]));
    assert_eq!(cache.lookup(), CatalogLookup::Hit(vec![id(2), id(1)]));
}

#[test]
fn catalog_stale_answer_does_not_replace_a_fresher_one() {
    let mut cache = CatalogCache::new();
    let slow = miss(cache.lookup());
    cache.invalidate();
    let quick = miss(cache.lookup());
    assert_eq!(cache.complete(quick, Ok(vec![id(2), id(1)])), Ok(vec![id(2), id(1)]));
    assert_eq!(cache.complete(slow, Ok(vec![id(1)])), Ok(vec![id(1)]));
    assert_eq!(cache.lookup(), CatalogLookup::Hit(vec![id(2), id(1)]));
}

#[test]
fn catalog_readers_of_one_epoch_may_both_fill() {
    let mut cache = CatalogCache::new();
    let first = miss(cache.lookup());
    let second = miss(cache.lookup());
    assert_eq!(first, second);
    assert_eq!(cache.complete(first, Ok(vec![id(1)])), Ok(vec![id(1)]));
    assert_eq!(cache.complete(second, Ok(vec![id(2), id(1)])), Ok(vec![id(2), id(1)]));
    assert_eq!(cache.lookup(), CatalogLookup::Hit(vec![id(2), id(1)]));
}

#[test]
fn catalog_ticket_counts_signals_that_took_effect() {
    let mut cache = CatalogCache::new();
    assert_eq!(cache.lookup(), CatalogLookup::Miss(Ticket { epoch: 0 }));
    cache.invalidate();
    cache.invalidate();
    assert_eq!(cache.lookup(), CatalogLookup::Miss(Ticket { epoch: 1 }));
    cache.invalidate();
    assert_eq!(cache.lookup(), CatalogLookup::Miss(Ticket { epoch: 2 }));
}

#[test]
fn session_created_then_cleared() {
    let mut store: HashSet<String> = HashSet::new();
    let mut cache = SessionCache::new();
    store.insert(String::from("abc"));
    cache.invalidate();
    assert_eq!(cache.is_session_valid("abc", || Ok(store.contains("abc"))), Ok(true));
    store.clear();
    cache.invalidate();
    assert_eq!(cache.is_session_valid("abc", || Ok(store.contains("abc"))), Ok(false));
}

#[test]
fn session_unknown_token_is_invalid_not_an_error() {
    let mut cache = SessionCache::new();
    assert_eq!(cache.is_session_valid("nobody", || Ok(false)), Ok(false));
    assert_eq!(cache.is_session_valid("", || Ok(false)), Ok(false));
}

#[test]
fn session_answers_are_kept_by_token() {
    let mut cache = SessionCache::new();
    assert_eq!(cache.is_session_valid("a", || Ok(true)), Ok(true));
    assert_eq!(cache.is_session_valid("b", || Ok(false)), Ok(false));
    let asked = Cell::new(0);
    let r = cache.is_session_valid("a", || {
        asked.set(asked.get() + 1);
        Ok(false)
    });
    assert_eq!(r, Ok(true));
    let r = cache.is_session_valid("b", || {
        asked.set(asked.get() + 1);
        Ok(true)
    });
    assert_eq!(r, Ok(false));
    assert_eq!(asked.get(), 0);
}

#[test]
fn session_negative_answer_stays_until_signalled() {
    let mut cache = SessionCache::new();
    assert_eq!(cache.is_session_valid("abc", || Ok(false)), Ok(false));
    assert_eq!(cache.is_session_valid("abc", || Ok(true)), Ok(false));
    cache.invalidate();
    assert_eq!(cache.is_session_valid("abc", || Ok(true)), Ok(true));
}

#[test]
fn session_invalidate_twice_is_invalidate_once() {
    let mut once = SessionCache::new();
    let mut twice = SessionCache::new();
    assert_eq!(once.is_session_valid("abc", || Ok(true)), Ok(true));
    assert_eq!(twice.is_session_valid("abc", || Ok(true)), Ok(true));
    once.invalidate();
    twice.invalidate();
    twice.invalidate();
    assert_eq!(once.is_session_valid("abc", || Ok(false)), Ok(false));
    assert_eq!(twice.is_session_valid("abc", || Ok(false)), Ok(false));
    assert_eq!(once.lookup("abc"), SessionLookup::Hit(false));
    assert_eq!(twice.lookup("abc"), SessionLookup::Hit(false));
}

#[test]
fn session_failed_query_is_passed_on_and_not_kept() {
    let mut cache = SessionCache::new();
    assert_eq!(cache.is_session_valid("abc", || Err(Error::StoreFailure)), Err(Error::StoreFailure));
    assert_eq!(cache.lookup("abc"), SessionLookup::Miss(Ticket { epoch: 0 }));
    assert_eq!(cache.is_session_valid("abc", || Ok(true)), Ok(true));
}

fn asked(lookup: SessionLookup) -> Ticket {
    match lookup {
        SessionLookup::Miss(ticket) => ticket,
        SessionLookup::Hit(valid) => panic!("{:?}", valid),
    }
}

#[test]
fn session_two_phase_question() {
    let mut cache = SessionCache::new();
    let ticket = asked(cache.lookup("abc"));
    assert_eq!(cache.complete(ticket, "abc", Ok(true)), Ok(true));
    assert_eq!(cache.lookup("abc"), SessionLookup::Hit(true));
    let ticket = asked(cache.lookup("abd"));
    assert_eq!(cache.complete(ticket, "abd", Err(Error::StoreFailure)), Err(Error::StoreFailure));
    assert_eq!(cache.lookup("abd"), SessionLookup::Miss(ticket));
    cache.invalidate();
    assert_eq!(cache.lookup("abc"), SessionLookup::Miss(Ticket { epoch: 1 }));
}

#[test]
fn session_answer_overtaken_by_a_signal_is_returned_but_not_kept() {
    let mut cache = SessionCache::new();
    let ticket = asked(cache.lookup("abc"));
    cache.invalidate();
    assert_eq!(cache.complete(ticket, "abc", Ok(true)), Ok(true));
    let later = asked(cache.lookup("abc"));
    assert_eq!(cache.complete(later, "abc", Ok(false)), Ok(false));
    assert_eq!(cache.lookup("abc"), SessionLookup::Hit(false));
}

#[test]
fn session_stale_answer_does_not_replace_a_fresher_one() {
    let mut cache = SessionCache::new();
    let slow = asked(cache.lookup("abc"));
    cache.invalidate();
    let quick = asked(cache.lookup("abc"));
    assert_eq!(cache.complete(quick, "abc", Ok(false)), Ok(false));
    assert_eq!(cache.complete(slow, "abc", Ok(true)), Ok(true));
    assert_eq!(cache.lookup("abc"), SessionLookup::Hit(false));
}

#[test]
fn caches_are_independent() {
    let mut catalog = CatalogCache::new();
    let mut sessions = SessionCache::new();
    assert_eq!(catalog.get_all_video_ids(|| Ok(vec![id(1)])), Ok(vec![id(1)]));
    assert_eq!(sessions.is_session_valid("abc", || Ok(true)), Ok(true));
    sessions.invalidate();
    assert_eq!(catalog.lookup(), CatalogLookup::Hit(vec![id(1)]));
    catalog.invalidate();
    assert_eq!(sessions.is_session_valid("abc", || Ok(false)), Ok(false));
}

//! Whole runs of the fetch machine, and what holds of every run.
//!
//! A run feeds a fetch any sequence of events. The laws here bound what a run
//! can ask for: at most two requests, at most one credential refresh, nothing
//! once the fetch has ended, and no cache traffic where the cache is bypassed.

use vstd::prelude::*;
use crate::error::status_error;
use crate::fetch::{
    is_success, is_unauthorized, start_spec, step_spec, ActionView, EventView, FetchPhase,
    FetchView,
};
use crate::request::{pair_fits, quote_url_text, url_with_pair, CacheMode};

verus! {

/// The actions that `fetch` answers with as `events` arrive in order. A
/// refused event brings no action and leaves the fetch where it was.
pub open spec fn run(fetch: FetchView, events: Seq<EventView>) -> Seq<ActionView>
    decreases events.len(),
{
    if events.len() == 0 {
        Seq::empty()
    } else {
        match step_spec(fetch, events.first()) {
            Some((next, action)) => seq![action] + run(next, events.drop_first()),
            None => run(fetch, events.drop_first()),
        }
    }
}

/// How many of `actions` send a request.
pub open spec fn sends(actions: Seq<ActionView>) -> nat
    decreases actions.len(),
{
    if actions.len() == 0 {
        0
    } else if actions.first() is Send {
        1 + sends(actions.drop_first())
    } else {
        sends(actions.drop_first())
    }
}

/// How many of `actions` ask for a credential refresh.
pub open spec fn refreshes(actions: Seq<ActionView>) -> nat
    decreases actions.len(),
{
    if actions.len() == 0 {
        0
    } else if actions.first() is EnsureCredentials {
        1 + refreshes(actions.drop_first())
    } else {
        refreshes(actions.drop_first())
    }
}

/// Whether `action` reads or writes the cache.
pub open spec fn touches_cache(action: ActionView) -> bool {
    match action {
        ActionView::CacheGet { .. } => true,
        ActionView::Deliver { store_under, .. } => store_under is Some,
        _ => false,
    }
}

/// Whether a fetch in `phase` has ended.
pub open spec fn ended(phase: FetchPhase) -> bool {
    phase == FetchPhase::Decode || phase == FetchPhase::Failed
}

/// How many requests a fetch in `phase` can still send.
pub open spec fn sends_ahead(phase: FetchPhase) -> nat {
    match phase {
        FetchPhase::CacheLookup => 2,
        FetchPhase::AnonymousAttempt | FetchPhase::CredentialRefresh | FetchPhase::CrumbRead => 1,
        FetchPhase::AuthenticatedAttempt | FetchPhase::Decode | FetchPhase::Failed => 0,
    }
}

/// How many credential refreshes a fetch in `phase` can still ask for.
pub open spec fn refreshes_ahead(phase: FetchPhase) -> nat {
    match phase {
        FetchPhase::CacheLookup | FetchPhase::AnonymousAttempt => 1,
        _ => 0,
    }
}

proof fn lemma_counts_of_cons(action: ActionView, rest: Seq<ActionView>)
    ensures
        sends(seq![action] + rest) == (if action is Send {
            1nat
        } else {
            0nat
        }) + sends(rest),
        refreshes(seq![action] + rest) == (if action is EnsureCredentials {
            1nat
        } else {
            0nat
        }) + refreshes(rest),
{
    let all = seq![action] + rest;
    assert(all.first() == action);
    assert(all.drop_first() == rest);
}

/// A fetch that has ended refuses every event: no run brings another action.
pub proof fn lemma_ended_fetch_is_silent(fetch: FetchView, events: Seq<EventView>)
    requires
        ended(fetch.phase),
    ensures
        run(fetch, events) == Seq::<ActionView>::empty(),
    decreases events.len(),
{
    if events.len() > 0 {
        assert(step_spec(fetch, events.first()) is None);
        lemma_ended_fetch_is_silent(fetch, events.drop_first());
    }
}

/// Whatever events arrive, a fetch sends no more requests and asks for no
/// more refreshes than its phase leaves ahead.
pub proof fn lemma_run_is_bounded(fetch: FetchView, events: Seq<EventView>)
    ensures
        sends(run(fetch, events)) <= sends_ahead(fetch.phase),
        refreshes(run(fetch, events)) <= refreshes_ahead(fetch.phase),
    decreases events.len(),
{
    if events.len() > 0 {
        match step_spec(fetch, events.first()) {
            Some((next, action)) => {
                lemma_run_is_bounded(next, events.drop_first());
                lemma_counts_of_cons(action, run(next, events.drop_first()));
            },
            None => {
                lemma_run_is_bounded(fetch, events.drop_first());
            },
        }
    }
}

/// One fetch, from its first action on and whatever events arrive, sends at
/// most two requests (the anonymous one and one authenticated retry) and asks
/// for at most one credential refresh.
pub proof fn lemma_at_most_one_retry(
    base: Seq<char>,
    symbols: Seq<Seq<char>>,
    fields: Option<Seq<Seq<char>>>,
    cache_mode: CacheMode,
    events: Seq<EventView>,
)
    requires
        start_spec(base, symbols, fields, cache_mode) is Some,
    ensures
        ({
            let (fetch, first) = start_spec(base, symbols, fields, cache_mode).unwrap();
            let actions = seq![first] + run(fetch, events);
            sends(actions) <= 2 && refreshes(actions) <= 1
        }),
{
    let (fetch, first) = start_spec(base, symbols, fields, cache_mode).unwrap();
    lemma_run_is_bounded(fetch, events);
    lemma_counts_of_cons(first, run(fetch, events));
}

/// A 401 or 403 on the anonymous attempt asks for a credential refresh, and
/// for no second one: whatever follows, the fetch asks for no further refresh
/// and sends at most one more request.
pub proof fn lemma_unauthorized_refreshes_once(
    fetch: FetchView,
    status: u16,
    body: Seq<char>,
    events: Seq<EventView>,
)
    requires
        fetch.phase == FetchPhase::AnonymousAttempt,
        is_unauthorized(status),
    ensures
        step_spec(fetch, EventView::Response { status, body }) == Some(
            (fetch.at(FetchPhase::CredentialRefresh), ActionView::EnsureCredentials),
        ),
        refreshes(run(fetch.at(FetchPhase::CredentialRefresh), events)) == 0,
        sends(run(fetch.at(FetchPhase::CredentialRefresh), events)) <= 1,
{
    lemma_run_is_bounded(fetch.at(FetchPhase::CredentialRefresh), events);
}

/// After a refresh that succeeds and yields a crumb, the fetch sends exactly
/// one request, to the URL with the crumb appended; the response to it ends
/// the fetch, whatever its status, and nothing follows.
pub proof fn lemma_refresh_then_one_authenticated_attempt(
    fetch: FetchView,
    crumb: Seq<char>,
    status: u16,
    body: Seq<char>,
    rest: Seq<EventView>,
)
    requires
        fetch.phase == FetchPhase::CredentialRefresh,
        pair_fits(fetch.url, "crumb"@, crumb),
    ensures
        ({
            let url = url_with_pair(fetch.url, "crumb"@, crumb);
            let retry = FetchView {
                url,
                cache_mode: fetch.cache_mode,
                phase: FetchPhase::AuthenticatedAttempt,
            };
            let events = seq![
                EventView::Credentials(Ok(())),
                EventView::Crumb(Some(crumb)),
                EventView::Response { status, body },
            ] + rest;
            let last = if is_success(status) {
                ActionView::Deliver { body, store_under: retry.store_key() }
            } else {
                ActionView::Fail(status_error(status, url))
            };
            run(fetch, events) == seq![ActionView::ReadCrumb, ActionView::Send { url }, last]
        }),
{
    let url = url_with_pair(fetch.url, "crumb"@, crumb);
    let retry = FetchView { url, cache_mode: fetch.cache_mode, phase: FetchPhase::AuthenticatedAttempt };
    let e1 = EventView::Credentials(Ok(()));
    let e2 = EventView::Crumb(Some(crumb));
    let e3 = EventView::Response { status, body };
    let events = seq![e1, e2, e3] + rest;
    let after1 = events.drop_first();
    let after2 = after1.drop_first();
    let after3 = after2.drop_first();
    assert(events.first() == e1);
    assert(after1.first() == e2);
    assert(after2.first() == e3);
    assert(after3 == rest);
    let read = fetch.at(FetchPhase::CrumbRead);
    assert(step_spec(fetch, e1) == Some((read, ActionView::ReadCrumb)));
    assert(step_spec(read, e2) == Some((retry, ActionView::Send { url })));
    let (done, last) = step_spec(retry, e3).unwrap();
    assert(ended(done.phase));
    lemma_ended_fetch_is_silent(done, rest);
    assert(run(retry, after2) == seq![last] + run(done, after3));
    assert(run(read, after1) == seq![ActionView::Send { url }] + run(retry, after2));
    assert(run(fetch, events) == seq![ActionView::ReadCrumb] + run(read, after1));
}

/// A failure of the authenticated attempt ends the fetch with the error of
/// its status, a 401 or 403 too: no event after it brings another refresh,
/// request or any other action.
pub proof fn lemma_second_failure_is_final(
    fetch: FetchView,
    status: u16,
    body: Seq<char>,
    events: Seq<EventView>,
)
    requires
        fetch.phase == FetchPhase::AuthenticatedAttempt,
        !is_success(status),
    ensures
        step_spec(fetch, EventView::Response { status, body }) == Some(
            (fetch.at(FetchPhase::Failed), ActionView::Fail(status_error(status, fetch.url))),
        ),
        run(fetch.at(FetchPhase::Failed), events) == Seq::<ActionView>::empty(),
{
    lemma_ended_fetch_is_silent(fetch.at(FetchPhase::Failed), events);
}

/// A successful response, to the anonymous or to the authenticated attempt,
/// delivers exactly its body, to be stored under the URL of that attempt
/// unless the cache is bypassed.
pub proof fn lemma_success_delivers_body(fetch: FetchView, status: u16, body: Seq<char>)
    requires
        fetch.phase == FetchPhase::AnonymousAttempt || fetch.phase
            == FetchPhase::AuthenticatedAttempt,
        is_success(status),
    ensures
        step_spec(fetch, EventView::Response { status, body }) == Some(
            (
                fetch.at(FetchPhase::Decode),
                ActionView::Deliver { body, store_under: fetch.store_key() },
            ),
        ),
{
}

/// The authenticated attempt goes to the canonical URL of the same symbols
/// and fields with the crumb: appending the crumb to the URL of the anonymous
/// attempt and building the URL anew with the crumb come to the same.
pub proof fn lemma_retry_url_is_canonical(
    base: Seq<char>,
    symbols: Seq<Seq<char>>,
    fields: Option<Seq<Seq<char>>>,
    cache_mode: CacheMode,
    crumb: Seq<char>,
)
    requires
        start_spec(base, symbols, fields, cache_mode) is Some,
    ensures
        ({
            let (fetch, _) = start_spec(base, symbols, fields, cache_mode).unwrap();
            let waiting = fetch.at(FetchPhase::CrumbRead);
            match quote_url_text(base, symbols, fields, Some(crumb)) {
                Some(url) => step_spec(waiting, EventView::Crumb(Some(crumb))) == Some(
                    (
                        FetchView {
                            url,
                            cache_mode,
                            phase: FetchPhase::AuthenticatedAttempt,
                        },
                        ActionView::Send { url },
                    ),
                ),
                None => step_spec(waiting, EventView::Crumb(Some(crumb))) is None,
            }
        }),
{
}

/// A step keeps the cache mode.
pub proof fn lemma_step_keeps_cache_mode(fetch: FetchView, event: EventView)
    ensures
        step_spec(fetch, event) matches Some((next, _)) ==> next.cache_mode == fetch.cache_mode,
{
}

/// Where the cache is bypassed, no action of any run reads or writes it.
pub proof fn lemma_bypass_never_touches_cache(fetch: FetchView, events: Seq<EventView>)
    requires
        fetch.cache_mode == CacheMode::Bypass,
    ensures
        forall|i: int|
            0 <= i < run(fetch, events).len() ==> !touches_cache(#[trigger] run(fetch, events)[i]),
    decreases events.len(),
{
    if events.len() > 0 {
        match step_spec(fetch, events.first()) {
            Some((next, action)) => {
                let later = run(next, events.drop_first());
                lemma_bypass_never_touches_cache(next, events.drop_first());
                assert(run(fetch, events) == seq![action] + later);
                assert(!touches_cache(action));
                assert forall|i: int| 0 <= i < run(fetch, events).len() implies !touches_cache(
                    #[trigger] run(fetch, events)[i],
                ) by {
                    if i > 0 {
                        assert(run(fetch, events)[i] == later[i - 1]);
                    }
                }
            },
            None => {
                lemma_bypass_never_touches_cache(fetch, events.drop_first());
                assert(run(fetch, events) == run(fetch, events.drop_first()));
            },
        }
    } else {
        assert(run(fetch, events).len() == 0);
    }
}

/// A fetch that bypasses the cache starts with a request, and neither its
/// first action nor any later one reads or writes the cache.
pub proof fn lemma_bypass_fetch_never_touches_cache(
    base: Seq<char>,
    symbols: Seq<Seq<char>>,
    fields: Option<Seq<Seq<char>>>,
    events: Seq<EventView>,
)
    requires
        start_spec(base, symbols, fields, CacheMode::Bypass) is Some,
    ensures
        ({
            let (fetch, first) = start_spec(base, symbols, fields, CacheMode::Bypass).unwrap();
            let actions = seq![first] + run(fetch, events);
            forall|i: int| 0 <= i < actions.len() ==> !touches_cache(#[trigger] actions[i])
        }),
{
    let (fetch, first) = start_spec(base, symbols, fields, CacheMode::Bypass).unwrap();
    lemma_bypass_never_touches_cache(fetch, events);
    let actions = seq![first] + run(fetch, events);
    assert forall|i: int| 0 <= i < actions.len() implies !touches_cache(#[trigger] actions[i]) by {
        if i > 0 {
            assert(actions[i] == run(fetch, events)[i - 1]);
        }
    }
}

/// With the cache in use, a fetch that misses the cache and succeeds stores
/// the body under the key that it looked up; a later fetch of the same
/// symbols and fields looks up that same key, and on finding the body there
/// delivers it at once: it sends nothing and stores nothing.
pub proof fn lemma_cached_body_answers_identical_fetch(
    base: Seq<char>,
    symbols: Seq<Seq<char>>,
    fields: Option<Seq<Seq<char>>>,
    status: u16,
    body: Seq<char>,
    rest: Seq<EventView>,
)
    requires
        start_spec(base, symbols, fields, CacheMode::Use) is Some,
        is_success(status),
    ensures
        ({
            let (fetch, first) = start_spec(base, symbols, fields, CacheMode::Use).unwrap();
            let key = fetch.url;
            let miss_then_success = seq![
                EventView::CacheLookup(None),
                EventView::Response { status, body },
            ];
            let hit = seq![EventView::CacheLookup(Some(body))] + rest;
            &&& first == ActionView::CacheGet { key }
            &&& run(fetch, miss_then_success) == seq![
                ActionView::Send { url: key },
                ActionView::Deliver { body, store_under: Some(key) },
            ]
            &&& run(fetch, hit) == seq![ActionView::Deliver { body, store_under: None }]
        }),
{
    let (fetch, first) = start_spec(base, symbols, fields, CacheMode::Use).unwrap();
    let key = fetch.url;
    let e1 = EventView::CacheLookup(None);
    let e2 = EventView::Response { status, body };
    let miss_then_success = seq![e1, e2];
    let sent = fetch.at(FetchPhase::AnonymousAttempt);
    let done = fetch.at(FetchPhase::Decode);
    let tail = miss_then_success.drop_first();
    assert(miss_then_success.first() == e1);
    assert(tail.first() == e2);
    assert(tail.drop_first() == Seq::<EventView>::empty());
    assert(is_unauthorized(status) == false);
    assert(run(done, tail.drop_first()) == Seq::<ActionView>::empty());
    assert(run(sent, tail) == seq![ActionView::Deliver { body, store_under: Some(key) }]);
    assert(run(fetch, miss_then_success) == seq![ActionView::Send { url: key }] + run(sent, tail));

    let hit = seq![EventView::CacheLookup(Some(body))] + rest;
    assert(hit.first() == EventView::CacheLookup(Some(body)));
    assert(hit.drop_first() == rest);
    lemma_ended_fetch_is_silent(done, rest);
    assert(run(fetch, hit) == seq![ActionView::Deliver { body, store_under: None }] + run(
        done,
        rest,
    ));
}

} // verus!

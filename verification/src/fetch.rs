//! The state machine of one quote fetch.
//!
//! A fetch makes an anonymous attempt, which a cached body can answer; on a
//! 401 or 403 it has credentials refreshed once and makes one authenticated
//! attempt with the crumb in the URL. The machine performs nothing itself:
//! [`QuoteFetch::start`] and [`QuoteFetch::step`] answer with a
//! [`FetchAction`] for the caller to perform, and `step` takes what the
//! action brought back as a [`FetchEvent`].

use vstd::prelude::*;
use url::Url;
use crate::error::{classify_status, status_error, ErrorView, YfError};
use crate::request::{
    append_query_pair, as_text, optional_texts, pair_fits, quote_url, quote_url_text, texts,
    url_text, url_with_pair, CacheMode,
};
use crate::text::text_of;

verus! {

/// Where a fetch stands: what it is waiting for, or how it ended.
#[derive(Clone, Copy, Debug, PartialEq, Eq, Structural)]
pub enum FetchPhase {
    /// Anonymous attempt, waiting for the cache lookup.
    CacheLookup,
    /// Anonymous attempt, waiting for the response.
    AnonymousAttempt,
    /// Waiting for the credential manager to ensure credentials.
    CredentialRefresh,
    /// Credentials are ensured, waiting for the crumb.
    CrumbRead,
    /// Authenticated attempt, waiting for the response.
    AuthenticatedAttempt,
    /// Ended with a body to decode.
    Decode,
    /// Ended with an error.
    Failed,
}

/// What the caller reports back to the machine.
#[derive(Debug)]
pub enum FetchEvent {
    /// The cache was asked: the stored body, if there is one.
    CacheLookup(Option<String>),
    /// The transport answered with a status and a body.
    Response { status: u16, body: String },
    /// The credential manager ran: done, or failed with a message.
    Credentials(Result<(), String>),
    /// The credential manager was asked for its crumb.
    Crumb(Option<String>),
}

/// What the machine asks of the caller.
#[derive(Debug)]
pub enum FetchAction {
    /// Look `key` up in the cache and report `CacheLookup`.
    CacheGet { key: String },
    /// Send a request to `url`, with the method and the `accept` header that
    /// the request module names, and report `Response`.
    Send { url: String },
    /// Have the credential manager ensure credentials and report `Credentials`.
    EnsureCredentials,
    /// Read the credential manager's crumb and report `Crumb`.
    ReadCrumb,
    /// The fetch succeeded with `body`. Where `store_under` holds a key, put
    /// the body into the cache under it first.
    Deliver { body: String, store_under: Option<String> },
    /// The fetch failed.
    Fail(YfError),
}

/// [`FetchEvent`] with its texts as sequences of characters.
pub enum EventView {
    CacheLookup(Option<Seq<char>>),
    Response { status: u16, body: Seq<char> },
    Credentials(Result<(), Seq<char>>),
    Crumb(Option<Seq<char>>),
}

/// [`FetchAction`] with its texts as sequences of characters.
pub enum ActionView {
    CacheGet { key: Seq<char> },
    Send { url: Seq<char> },
    EnsureCredentials,
    ReadCrumb,
    Deliver { body: Seq<char>, store_under: Option<Seq<char>> },
    Fail(ErrorView),
}

impl View for FetchEvent {
    type V = EventView;

    open spec fn view(&self) -> EventView {
        match self {
            FetchEvent::CacheLookup(stored) => EventView::CacheLookup(text_of(*stored)),
            FetchEvent::Response { status, body } => EventView::Response {
                status: *status,
                body: body@,
            },
            FetchEvent::Credentials(Ok(_)) => EventView::Credentials(Ok(())),
            FetchEvent::Credentials(Err(message)) => EventView::Credentials(Err(message@)),
            FetchEvent::Crumb(crumb) => EventView::Crumb(text_of(*crumb)),
        }
    }
}

impl View for FetchAction {
    type V = ActionView;

    open spec fn view(&self) -> ActionView {
        match self {
            FetchAction::CacheGet { key } => ActionView::CacheGet { key: key@ },
            FetchAction::Send { url } => ActionView::Send { url: url@ },
            FetchAction::EnsureCredentials => ActionView::EnsureCredentials,
            FetchAction::ReadCrumb => ActionView::ReadCrumb,
            FetchAction::Deliver { body, store_under } => ActionView::Deliver {
                body: body@,
                store_under: text_of(*store_under),
            },
            FetchAction::Fail(err) => ActionView::Fail(err@),
        }
    }
}

/// A fetch as the contracts see it: the URL of the current attempt, the cache
/// mode and the phase.
pub struct FetchView {
    pub url: Seq<char>,
    pub cache_mode: CacheMode,
    pub phase: FetchPhase,
}

impl FetchView {
    /// This fetch in another phase.
    pub open spec fn at(self, phase: FetchPhase) -> FetchView {
        FetchView { phase, ..self }
    }

    /// The key under which a successful body is stored: the URL of the
    /// attempt, unless the cache is bypassed.
    pub open spec fn store_key(self) -> Option<Seq<char>> {
        if self.cache_mode != CacheMode::Bypass {
            Some(self.url)
        } else {
            None
        }
    }
}

/// Whether `status` is a success: 200 to 299.
pub open spec fn is_success(status: u16) -> bool {
    200 <= status < 300
}

/// Whether `status` says that credentials are missing or stale: 401 or 403.
pub open spec fn is_unauthorized(status: u16) -> bool {
    status == 401 || status == 403
}

/// The message of the error for a crumb that is still absent after a refresh.
pub open spec fn crumb_missing_message() -> Seq<char> {
    "Crumb is not set after ensuring credentials"@
}

/// What a response means for the attempt that it answers: a success delivers
/// the body and names the cache key to store it under; any other status ends
/// the fetch with the error of that status.
pub open spec fn settle(fetch: FetchView, status: u16, body: Seq<char>) -> (FetchView, ActionView) {
    if is_success(status) {
        (
            fetch.at(FetchPhase::Decode),
            ActionView::Deliver { body, store_under: fetch.store_key() },
        )
    } else {
        (fetch.at(FetchPhase::Failed), ActionView::Fail(status_error(status, fetch.url)))
    }
}

/// The first transition: the fetch is set up on the canonical URL without a
/// crumb and asks the cache where the mode is `Use`, the network otherwise.
/// `None` when the URL cannot be built.
pub open spec fn start_spec(
    base: Seq<char>,
    symbols: Seq<Seq<char>>,
    fields: Option<Seq<Seq<char>>>,
    cache_mode: CacheMode,
) -> Option<(FetchView, ActionView)> {
    match quote_url_text(base, symbols, fields, None) {
        Some(url) => Some(
            if cache_mode == CacheMode::Use {
                (
                    FetchView { url, cache_mode, phase: FetchPhase::CacheLookup },
                    ActionView::CacheGet { key: url },
                )
            } else {
                (
                    FetchView { url, cache_mode, phase: FetchPhase::AnonymousAttempt },
                    ActionView::Send { url },
                )
            },
        ),
        None => None,
    }
}

/// The transition on `event`: the next fetch and the action it asks for.
/// `None` when the phase does not wait for this event, or when the crumb does
/// not fit into the URL; the fetch then stays as it is.
pub open spec fn step_spec(fetch: FetchView, event: EventView) -> Option<(FetchView, ActionView)> {
    match (fetch.phase, event) {
        (FetchPhase::CacheLookup, EventView::CacheLookup(Some(body))) => Some(
            (fetch.at(FetchPhase::Decode), ActionView::Deliver { body, store_under: None }),
        ),
        (FetchPhase::CacheLookup, EventView::CacheLookup(None)) => Some(
            (fetch.at(FetchPhase::AnonymousAttempt), ActionView::Send { url: fetch.url }),
        ),
        (FetchPhase::AnonymousAttempt, EventView::Response { status, body }) => Some(
            if is_unauthorized(status) {
                (fetch.at(FetchPhase::CredentialRefresh), ActionView::EnsureCredentials)
            } else {
                settle(fetch, status, body)
            },
        ),
        (FetchPhase::CredentialRefresh, EventView::Credentials(Ok(_))) => Some(
            (fetch.at(FetchPhase::CrumbRead), ActionView::ReadCrumb),
        ),
        (FetchPhase::CredentialRefresh, EventView::Credentials(Err(message))) => Some(
            (fetch.at(FetchPhase::Failed), ActionView::Fail(ErrorView::Auth(message))),
        ),
        (FetchPhase::CrumbRead, EventView::Crumb(Some(crumb))) => if pair_fits(
            fetch.url,
            "crumb"@,
            crumb,
        ) {
            let url = url_with_pair(fetch.url, "crumb"@, crumb);
            Some(
                (
                    FetchView { url, cache_mode: fetch.cache_mode, phase: FetchPhase::AuthenticatedAttempt },
                    ActionView::Send { url },
                ),
            )
        } else {
            None
        },
        (FetchPhase::CrumbRead, EventView::Crumb(None)) => Some(
            (
                fetch.at(FetchPhase::Failed),
                ActionView::Fail(ErrorView::Auth(crumb_missing_message())),
            ),
        ),
        (FetchPhase::AuthenticatedAttempt, EventView::Response { status, body }) => Some(
            settle(fetch, status, body),
        ),
        _ => None,
    }
}

/// One quote fetch in progress.
#[derive(Debug)]
pub struct QuoteFetch {
    url: Url,
    cache_mode: CacheMode,
    phase: FetchPhase,
}

impl View for QuoteFetch {
    type V = FetchView;

    closed spec fn view(&self) -> FetchView {
        FetchView { url: url_text(self.url), cache_mode: self.cache_mode, phase: self.phase }
    }
}

impl QuoteFetch {
    /// Begins a fetch of `symbols` from the endpoint `base`, restricted to
    /// `fields` where the list is present and not empty. Returns the machine
    /// and its first action, or `None` when the request URL cannot be built.
    pub fn start(base: Url, symbols: &[&str], fields: Option<&[&str]>, cache_mode: CacheMode) -> (r:
        Option<(QuoteFetch, FetchAction)>)
        ensures
            match start_spec(url_text(base), texts(symbols@), optional_texts(fields), cache_mode) {
                Some(first) => r matches Some((fetch, action)) && (fetch@, action@) == first,
                None => r is None,
            },
    {
        match quote_url(base, symbols, fields, None) {
            Some(url) => {
                let text = as_text(&url).to_owned();
                match cache_mode {
                    CacheMode::Use => {
                        let fetch = QuoteFetch { url, cache_mode, phase: FetchPhase::CacheLookup };
                        Some((fetch, FetchAction::CacheGet { key: text }))
                    },
                    CacheMode::Bypass => {
                        let fetch = QuoteFetch {
                            url,
                            cache_mode,
                            phase: FetchPhase::AnonymousAttempt,
                        };
                        Some((fetch, FetchAction::Send { url: text }))
                    },
                }
            },
            None => None,
        }
    }

    /// The phase that the fetch is in.
    pub fn phase(&self) -> (phase: FetchPhase)
        ensures
            phase == self@.phase,
    {
        self.phase
    }

    /// The cache mode that the fetch was started with.
    pub fn cache_mode(&self) -> (cache_mode: CacheMode)
        ensures
            cache_mode == self@.cache_mode,
    {
        self.cache_mode
    }

    /// The URL of the current attempt.
    pub fn url(&self) -> (url: &Url)
        ensures
            url_text(*url) == self@.url,
    {
        &self.url
    }

    /// Takes `event` and answers with the next action. An event that the
    /// phase does not wait for, and a crumb too long for the URL, is refused
    /// with `None` and changes nothing.
    pub fn step(&mut self, event: FetchEvent) -> (r: Option<FetchAction>)
        ensures
            match step_spec(old(self)@, event@) {
                Some(next) => r matches Some(action) && (final(self)@, action@) == next,
                None => r is None && final(self)@ == old(self)@,
            },
    {
        match (self.phase, event) {
            (FetchPhase::CacheLookup, FetchEvent::CacheLookup(Some(body))) => {
                self.phase = FetchPhase::Decode;
                Some(FetchAction::Deliver { body, store_under: None })
            },
            (FetchPhase::CacheLookup, FetchEvent::CacheLookup(None)) => {
                self.phase = FetchPhase::AnonymousAttempt;
                Some(FetchAction::Send { url: as_text(&self.url).to_owned() })
            },
            (FetchPhase::AnonymousAttempt, FetchEvent::Response { status, body }) => {
                if status == 401 || status == 403 {
                    self.phase = FetchPhase::CredentialRefresh;
                    Some(FetchAction::EnsureCredentials)
                } else {
                    Some(self.settle(status, body))
                }
            },
            (FetchPhase::CredentialRefresh, FetchEvent::Credentials(Ok(_))) => {
                self.phase = FetchPhase::CrumbRead;
                Some(FetchAction::ReadCrumb)
            },
            (FetchPhase::CredentialRefresh, FetchEvent::Credentials(Err(message))) => {
                self.phase = FetchPhase::Failed;
                Some(FetchAction::Fail(YfError::Auth(message)))
            },
            (FetchPhase::CrumbRead, FetchEvent::Crumb(Some(crumb))) => {
                if append_query_pair(&mut self.url, "crumb", crumb.as_str()) {
                    self.phase = FetchPhase::AuthenticatedAttempt;
                    Some(FetchAction::Send { url: as_text(&self.url).to_owned() })
                } else {
                    None
                }
            },
            (FetchPhase::CrumbRead, FetchEvent::Crumb(None)) => {
                self.phase = FetchPhase::Failed;
                let message = "Crumb is not set after ensuring credentials".to_owned();
                Some(FetchAction::Fail(YfError::Auth(message)))
            },
            (FetchPhase::AuthenticatedAttempt, FetchEvent::Response { status, body }) => {
                Some(self.settle(status, body))
            },
            _ => None,
        }
    }

    /// Ends the attempt that `status` and `body` answer.
    fn settle(&mut self, status: u16, body: String) -> (action: FetchAction)
        ensures
            (final(self)@, action@) == settle(old(self)@, status, body@),
    {
        if 200 <= status && status < 300 {
            self.phase = FetchPhase::Decode;
            let store_under = match self.cache_mode {
                CacheMode::Use => Some(as_text(&self.url).to_owned()),
                CacheMode::Bypass => None,
            };
            FetchAction::Deliver { body, store_under }
        } else {
            self.phase = FetchPhase::Failed;
            FetchAction::Fail(classify_status(status, as_text(&self.url).to_owned()))
        }
    }
}

} // verus!

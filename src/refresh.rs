use vstd::prelude::*;

use crate::json::JsonValue;

verus! {

/// Seconds to wait after a failed fetch before the next one.
pub const RETRY_DELAY_SECS: u64 = 5;

/// The upstream search endpoint, up to its addon list.
pub const UPSTREAM_SEARCH: &'static str = "https://api.skdocs.org/api/search?q=ALL_ADDON_SYNTAXES&addon=";

/// The addons whose syntaxes are fetched, comma-separated.
pub const ADDONS: &'static str = "Skript,SkBee,skript-reflect,skript-gui,skNoise,skript-particle";

/// The one URL that the refresher fetches.
pub fn upstream_url() -> (r: String)
    ensures
        r@ == UPSTREAM_SEARCH@ + ADDONS@,
{
    String::from_str(UPSTREAM_SEARCH).concat(ADDONS)
}

/// The port listened on when none is given.
pub const DEFAULT_PORT: &'static str = "8080";

/// The address to listen on: every interface, on the given port or the default.
pub fn listen_address(port: Option<&str>) -> (r: String)
    ensures
        r@ == "0.0.0.0:"@ + match port {
            Some(p) => p@,
            None => DEFAULT_PORT@,
        },
{
    let p = match port {
        Some(p) => p,
        None => DEFAULT_PORT,
    };
    String::from_str("0.0.0.0:").concat(p)
}

/// Where the one-shot population of the cache stands.
#[derive(Debug, PartialEq, Eq, Clone, Copy)]
pub enum RefreshPhase {
    /// No fetch has succeeded yet: fetch again.
    Fetching,
    /// A document was fetched and handed over: nothing more to do.
    Done,
}

/// What one fetch of the upstream document came to.
pub enum FetchEvent {
    /// The document was fetched and parsed.
    Fetched(JsonValue),
    /// Transport error, non-success status or a body that is not JSON.
    Failed,
}

/// What the loop that drives the refresher does next.
#[derive(Debug, PartialEq, Eq)]
pub enum RefreshAction {
    /// Store this document into the cache, then stop.
    Store(JsonValue),
    /// Wait this many seconds, then fetch again.
    RetryAfter(u64),
    /// Fetch no more.
    Stop,
}

/// The decisions of the background task that fills the cache: fetch until one
/// fetch succeeds, with a fixed delay between attempts, then stop for good.
pub struct Refresher {
    pub phase: RefreshPhase,
    pub failures: u64,
}

impl Refresher {
    /// A refresher that has not fetched yet.
    pub fn new() -> (r: Refresher)
        ensures
            r.phase == RefreshPhase::Fetching,
            r.failures == 0,
    {
        Refresher { phase: RefreshPhase::Fetching, failures: 0 }
    }

    /// Whether another fetch is to be made.
    pub fn wants_fetch(&self) -> (r: bool)
        ensures
            r == (self.phase == RefreshPhase::Fetching),
    {
        match self.phase {
            RefreshPhase::Fetching => true,
            RefreshPhase::Done => false,
        }
    }

    /// Takes the outcome of a fetch and says what to do next. A success hands
    /// the document over to be stored and ends the task; a failure asks for a
    /// retry after the fixed delay; once done, every event is answered with
    /// `Stop` and nothing changes.
    pub fn on_event(&mut self, event: FetchEvent) -> (action: RefreshAction)
        ensures
            old(self).phase == RefreshPhase::Done ==> action == RefreshAction::Stop && *final(self)
                == *old(self),
            old(self).phase == RefreshPhase::Fetching ==> match event {
                FetchEvent::Fetched(doc) => {
                    &&& action == RefreshAction::Store(doc)
                    &&& final(self).phase == RefreshPhase::Done
                    &&& final(self).failures == old(self).failures
                },
                FetchEvent::Failed => {
                    &&& action == RefreshAction::RetryAfter(RETRY_DELAY_SECS)
                    &&& final(self).phase == RefreshPhase::Fetching
                    &&& final(self).failures == if old(self).failures == u64::MAX {
                        u64::MAX as int
                    } else {
                        old(self).failures + 1
                    }
                },
            },
    {
        match self.phase {
            RefreshPhase::Done => RefreshAction::Stop,
            RefreshPhase::Fetching => match event {
                FetchEvent::Fetched(doc) => {
                    self.phase = RefreshPhase::Done;
                    RefreshAction::Store(doc)
                },
                FetchEvent::Failed => {
                    self.failures = self.failures.saturating_add(1);
                    RefreshAction::RetryAfter(RETRY_DELAY_SECS)
                },
            },
        }
    }
}

} // verus!

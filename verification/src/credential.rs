//! The cache of the access token that some upstream endpoints ask for.
//!
//! The token is obtained by a handshake when it is first needed and then
//! kept for the life of the process. The cache decides who performs the
//! handshake: whoever finds it empty. Whoever asks while a handshake is under
//! way waits for it; a failed handshake leaves the cache empty, so that the
//! next request tries again.

use vstd::prelude::*;
use vstd::string::*;
use crate::error::{FetchError, FetchErrorKind};
use crate::network::{check_status, failure_kind, failure_label, is_success, Endpoint};
use crate::text::decimal_digits;

verus! {

/// The cache: empty, waiting for the one handshake under way, or filled.
#[derive(Debug, PartialEq, Eq)]
pub enum CredentialCache {
    Absent,
    InFlight,
    Cached(String),
}

/// What a cache holds, with the token as a text.
pub enum CacheView {
    Absent,
    InFlight,
    Cached(Seq<char>),
}

/// What a caller that asked for the token has to do.
#[derive(Debug, PartialEq, Eq)]
pub enum CredentialStep {
    /// The token is there: use it.
    Ready(String),
    /// The cache was empty: perform the handshake and report how it ended.
    Handshake,
    /// Another caller's handshake is under way: ask again when it has ended.
    Wait,
}

/// The answer to a request, with the token as a text.
pub enum StepView {
    Ready(Seq<char>),
    Handshake,
    Wait,
}

impl DeepView for CredentialCache {
    type V = CacheView;

    open spec fn deep_view(&self) -> CacheView {
        match self {
            CredentialCache::Absent => CacheView::Absent,
            CredentialCache::InFlight => CacheView::InFlight,
            CredentialCache::Cached(t) => CacheView::Cached(t@),
        }
    }
}

impl DeepView for CredentialStep {
    type V = StepView;

    open spec fn deep_view(&self) -> StepView {
        match self {
            CredentialStep::Ready(t) => StepView::Ready(t@),
            CredentialStep::Handshake => StepView::Handshake,
            CredentialStep::Wait => StepView::Wait,
        }
    }
}

/// One thing that happens to a cache: a caller asks for the token, or the
/// handshake under way ends, with a token or without one.
pub enum CacheEvent {
    Request,
    Completed(Option<Seq<char>>),
}

impl CacheView {
    /// The answer to a request made in this state.
    pub open spec fn answer(self) -> StepView {
        match self {
            CacheView::Absent => StepView::Handshake,
            CacheView::InFlight => StepView::Wait,
            CacheView::Cached(t) => StepView::Ready(t),
        }
    }

    /// The state after a request: an empty cache has a handshake under way,
    /// any other state stays.
    pub open spec fn requested(self) -> CacheView {
        match self {
            CacheView::Absent => CacheView::InFlight,
            other => other,
        }
    }

    /// The state after a handshake has ended. Only a handshake under way can
    /// end: a token fills the cache, a failure empties it. A filled cache is
    /// never changed.
    pub open spec fn completed(self, token: Option<Seq<char>>) -> CacheView {
        match self {
            CacheView::InFlight => match token {
                Some(t) => CacheView::Cached(t),
                None => CacheView::Absent,
            },
            other => other,
        }
    }

    /// The state after one event.
    pub open spec fn step(self, event: CacheEvent) -> CacheView {
        match event {
            CacheEvent::Request => self.requested(),
            CacheEvent::Completed(token) => self.completed(token),
        }
    }

    /// The state after a run of events.
    pub open spec fn after(self, events: Seq<CacheEvent>) -> CacheView
        decreases events.len(),
    {
        if events.len() == 0 {
            self
        } else {
            self.after(events.drop_last()).step(events.last())
        }
    }

    /// How many requests of a run of events were answered with `Handshake`.
    pub open spec fn handshakes(self, events: Seq<CacheEvent>) -> nat
        decreases events.len(),
    {
        if events.len() == 0 {
            0
        } else {
            let before = self.after(events.drop_last());
            let earlier = self.handshakes(events.drop_last());
            if events.last() is Request && before is Absent {
                earlier + 1
            } else {
                earlier
            }
        }
    }

    /// How many handshakes of a run of events ended in failure.
    pub open spec fn failures(self, events: Seq<CacheEvent>) -> nat
        decreases events.len(),
    {
        if events.len() == 0 {
            0
        } else {
            let before = self.after(events.drop_last());
            let earlier = self.failures(events.drop_last());
            if events.last() == CacheEvent::Completed(None) && before is InFlight {
                earlier + 1
            } else {
                earlier
            }
        }
    }
}

impl CredentialCache {
    /// An empty cache.
    pub fn new() -> (cache: CredentialCache)
        ensures
            cache.deep_view() == CacheView::Absent,
    {
        CredentialCache::Absent
    }

    /// Asks for the token. From a filled cache the caller gets the token.
    /// From an empty cache the caller gets the order to perform the
    /// handshake, and the cache notes that one is under way. While one is
    /// under way every other caller is told to wait.
    pub fn request(&mut self) -> (step: CredentialStep)
        ensures
            step.deep_view() == old(self).deep_view().answer(),
            final(self).deep_view() == old(self).deep_view().requested(),
    {
        match self {
            CredentialCache::Cached(t) => CredentialStep::Ready(t.clone()),
            CredentialCache::InFlight => CredentialStep::Wait,
            CredentialCache::Absent => {
                *self = CredentialCache::InFlight;
                CredentialStep::Handshake
            },
        }
    }

    /// Reports how the handshake under way ended. A token is stored for the
    /// life of the cache. A failure leaves the cache empty: it is not
    /// remembered, and the next request starts a new handshake.
    pub fn complete(&mut self, outcome: &Result<String, FetchError>)
        ensures
            final(self).deep_view() == old(self).deep_view().completed(
                match outcome {
                    Ok(t) => Some(t@),
                    Err(_) => None,
                },
            ),
    {
        match self {
            CredentialCache::InFlight => {
                match outcome {
                    Ok(t) => {
                        *self = CredentialCache::Cached(t.clone());
                    },
                    Err(_) => {
                        *self = CredentialCache::Absent;
                    },
                }
            },
            _ => {},
        }
    }
}

/// The outcome of a handshake whose token request was answered with `status`
/// and the text `body`: the text is the token where the status reports
/// success; any other status is a credential failure.
pub fn token_from_reply(status: u16, body: String) -> (res: Result<String, FetchError>)
    ensures
        is_success(status) ==> res is Ok && res->Ok_0@ == body@,
        !is_success(status) ==> res is Err && res->Err_0.kind == FetchErrorKind::Credential
            && res->Err_0.detail@ == failure_label(Endpoint::Crumb) + decimal_digits(
            status as nat,
        ),
{
    match check_status(Endpoint::Crumb, status) {
        Ok(_) => Ok(body),
        Err(e) => Err(e),
    }
}

/// While no handshake fails, at most one is ever started: over any run of
/// events on a cache that starts empty, the handshakes started are at most
/// one more than the handshakes that failed, and at most one is under way
/// at a time.
pub proof fn lemma_single_handshake(events: Seq<CacheEvent>)
    ensures
        CacheView::Absent.handshakes(events) <= CacheView::Absent.failures(events) + 1,
        CacheView::Absent.after(events) is Absent ==> CacheView::Absent.handshakes(events)
            == CacheView::Absent.failures(events),
        !(CacheView::Absent.after(events) is Absent) ==> CacheView::Absent.handshakes(events)
            == CacheView::Absent.failures(events) + 1,
    decreases events.len(),
{
    if events.len() > 0 {
        lemma_single_handshake(events.drop_last());
    }
}

/// A filled cache stays filled with the same token whatever happens, and
/// starts no further handshake.
pub proof fn lemma_token_is_kept(token: Seq<char>, events: Seq<CacheEvent>)
    ensures
        CacheView::Cached(token).after(events) == CacheView::Cached(token),
        CacheView::Cached(token).after(events).answer() == StepView::Ready(token),
        CacheView::Cached(token).handshakes(events) == 0,
    decreases events.len(),
{
    if events.len() > 0 {
        lemma_token_is_kept(token, events.drop_last());
    }
}

/// A run of `n` requests with nothing between them.
pub open spec fn requests(n: nat) -> Seq<CacheEvent> {
    Seq::new(n, |i: int| CacheEvent::Request)
}

/// Every caller that asks between the first request and the end of the
/// handshake is served by that one handshake: of `n` requests on an empty
/// cache the first alone is told to perform it, and once it has ended with a
/// token, every caller that asks again gets that token.
pub proof fn lemma_concurrent_requests_share_a_handshake(n: nat, token: Seq<char>)
    requires
        n >= 1,
    ensures
        CacheView::Absent.after(requests(n)) is InFlight,
        CacheView::Absent.handshakes(requests(n)) == 1,
        CacheView::Absent.after(requests(n)).completed(Some(token)).answer() == StepView::Ready(
            token,
        ),
    decreases n,
{
    let events = requests(n);
    let shorter = requests((n - 1) as nat);
    assert(events.drop_last() =~= shorter);
    assert(events.last() is Request);
    if n > 1 {
        lemma_concurrent_requests_share_a_handshake((n - 1) as nat, token);
    } else {
        assert(shorter.len() == 0);
        assert(CacheView::Absent.after(shorter) is Absent);
        assert(CacheView::Absent.handshakes(shorter) == 0);
    }
}

} // verus!

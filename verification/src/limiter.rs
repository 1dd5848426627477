//! The pause between two requests to the remote entropy service.
//!
//! At most one request goes out in any sixty seconds. The driver asks the
//! limiter before each request; where the answer is to wait, it sleeps for
//! the time given and asks again.

use vstd::prelude::*;

verus! {

/// The time that has to pass between two requests: sixty seconds, in
/// nanoseconds.
pub const FETCH_WINDOW: u64 = 60_000_000_000;

/// Remembers when the remote service was last asked. Instants are
/// nanoseconds on a clock that does not run backwards; where the clock starts
/// does not matter.
#[derive(Debug, Clone, Copy, PartialEq, Eq, Structural)]
pub struct RateLimiter {
    /// The instant of the last request; `None` before the first.
    pub last_fetch: Option<u64>,
}

/// The limiter's answer to a request.
#[derive(Debug, Clone, Copy, PartialEq, Eq, Structural)]
pub enum FetchPermit {
    /// The request may go out now.
    Granted,
    /// The request has to wait for `nanos` nanoseconds.
    Wait { nanos: u64 },
}

impl RateLimiter {
    /// How long a request that is wanted at `now` has to be put off: nothing
    /// before the first request or once the window has passed, else the rest
    /// of the window. An instant before the last request counts as no time
    /// passed.
    pub open spec fn spec_delay(self, now: u64) -> u64 {
        match self.last_fetch {
            None => 0,
            Some(last) => if now < last {
                FETCH_WINDOW
            } else if now - last < FETCH_WINDOW {
                (FETCH_WINDOW - (now - last)) as u64
            } else {
                0
            },
        }
    }

    /// The limiter after a request at `now`, and the answer: where nothing
    /// has to be waited for, the request is granted and `now` becomes the
    /// instant of the last request; else the limiter stays as it is.
    pub open spec fn spec_request(self, now: u64) -> (RateLimiter, FetchPermit) {
        if self.spec_delay(now) == 0 {
            (RateLimiter { last_fetch: Some(now) }, FetchPermit::Granted)
        } else {
            (self, FetchPermit::Wait { nanos: self.spec_delay(now) })
        }
    }

    /// A limiter that has seen no request.
    pub fn new() -> (limiter: RateLimiter)
        ensures
            limiter.last_fetch is None,
    {
        RateLimiter { last_fetch: None }
    }

    /// The time to wait at `now` before the next request may go out.
    pub fn delay(&self, now: u64) -> (wait: u64)
        ensures
            wait == self.spec_delay(now),
            wait <= FETCH_WINDOW,
    {
        match self.last_fetch {
            None => 0,
            Some(last) => if now < last {
                FETCH_WINDOW
            } else if now - last < FETCH_WINDOW {
                FETCH_WINDOW - (now - last)
            } else {
                0
            },
        }
    }

    /// Asks for a request at `now`. A granted request is taken as sent at
    /// `now`.
    pub fn request(&mut self, now: u64) -> (permit: FetchPermit)
        ensures
            (*final(self), permit) == old(self).spec_request(now),
    {
        let wait: u64 = self.delay(now);
        if wait == 0 {
            self.last_fetch = Some(now);
            FetchPermit::Granted
        } else {
            FetchPermit::Wait { nanos: wait }
        }
    }
}

/// The first request is granted at once.
pub proof fn lemma_first_request_is_granted(limiter: RateLimiter, now: u64)
    requires
        limiter.last_fetch is None,
    ensures
        limiter.spec_request(now) == (RateLimiter { last_fetch: Some(now) }, FetchPermit::Granted),
{
}

/// Two requests that are granted one after the other lie at least a window
/// apart: after a request granted at `last`, none is granted before
/// `last + FETCH_WINDOW`.
pub proof fn lemma_granted_requests_a_window_apart(limiter: RateLimiter, last: u64, now: u64)
    requires
        limiter.last_fetch == Some(last),
        last <= now,
        limiter.spec_request(now).1 == FetchPermit::Granted,
    ensures
        now - last >= FETCH_WINDOW,
{
}

/// A request that comes too early is told to wait for the rest of the
/// window, no longer; asked again at any instant after that wait, it is
/// granted.
pub proof fn lemma_wait_ends_with_the_window(limiter: RateLimiter, last: u64, now: u64, later: u64)
    requires
        limiter.last_fetch == Some(last),
        last <= now,
        now - last < FETCH_WINDOW,
        later >= now + limiter.spec_delay(now),
    ensures
        limiter.spec_request(now) == (
            limiter,
            FetchPermit::Wait { nanos: limiter.spec_delay(now) },
        ),
        now + limiter.spec_delay(now) == last + FETCH_WINDOW,
        limiter.spec_request(later) == (
            RateLimiter { last_fetch: Some(later) },
            FetchPermit::Granted,
        ),
{
}

} // verus!

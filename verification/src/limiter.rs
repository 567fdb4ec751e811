//! The per-user rate limit in front of the dispatch queue.

use std::collections::HashMap;
use vstd::prelude::*;

verus! {

/// What the limiter remembers of one user.
#[derive(Clone, Copy, Debug, PartialEq, Eq, Structural)]
pub struct RateLimitState {
    /// When the user's last admitted request came.
    pub last_request: u64,
    /// Rate-limit notices sent to the user since then.
    pub notices: usize,
}

/// What the limiter does with a message that holds addresses.
#[derive(Clone, Copy, Debug, PartialEq, Eq, Structural)]
pub enum Admission {
    /// The request enters the dispatch queue.
    Forward,
    /// The user is told of the rate limit; no request is made.
    Notice,
    /// Nothing is done and nothing is said.
    Drop,
}

/// Time passed since `last`, none if the clock reads earlier than `last`.
pub open spec fn elapsed(last: u64, now: u64) -> nat {
    if now >= last {
        (now - last) as nat
    } else {
        0
    }
}

/// Whether `now` falls into the window that the user's last admitted request opened.
pub open spec fn in_window(s: RateLimitState, now: u64, window: u64) -> bool {
    elapsed(s.last_request, now) < window
}

/// The limiter's rule for one user: the decision on a request at `now`, and what
/// is remembered of the user afterwards. Inside the window the user gets a notice
/// until `limit` of them were sent, and silence from then on; outside it, or
/// for a user not seen before, the request is admitted and opens a new window.
pub open spec fn decide(entry: Option<RateLimitState>, now: u64, window: u64, limit: usize) -> (
    Admission,
    RateLimitState,
) {
    match entry {
        Some(s) => if in_window(s, now, window) {
            if s.notices >= limit {
                (Admission::Drop, s)
            } else {
                (
                    Admission::Notice,
                    RateLimitState { last_request: s.last_request, notices: (s.notices + 1) as usize },
                )
            }
        } else {
            (Admission::Forward, RateLimitState { last_request: now, notices: 0 })
        },
        None => (Admission::Forward, RateLimitState { last_request: now, notices: 0 }),
    }
}

/// The decisions on one user's requests at the given times, in order.
pub open spec fn decisions(
    entry: Option<RateLimitState>,
    times: Seq<u64>,
    window: u64,
    limit: usize,
) -> Seq<Admission>
    decreases times.len(),
{
    if times.len() == 0 {
        Seq::empty()
    } else {
        let (d, s) = decide(entry, times[0], window, limit);
        seq![d] + decisions(Some(s), times.drop_first(), window, limit)
    }
}

/// What is remembered of the user in a map of users.
pub open spec fn entry_of(users: Map<u64, RateLimitState>, user: u64) -> Option<RateLimitState> {
    if users.contains_key(user) {
        Some(users[user])
    } else {
        None
    }
}

/// The per-user rate limiter.
pub struct RateLimiter {
    window: u64,
    reply_limit: usize,
    users: HashMap<u64, RateLimitState>,
}

impl View for RateLimiter {
    type V = Map<u64, RateLimitState>;

    closed spec fn view(&self) -> Map<u64, RateLimitState> {
        self.users@
    }
}

impl RateLimiter {
    /// The length of the rate-limit window.
    pub closed spec fn window(&self) -> u64 {
        self.window
    }

    /// The most notices a user gets per window.
    pub closed spec fn reply_limit(&self) -> usize {
        self.reply_limit
    }

    /// No user has been sent more notices than the limit.
    pub open spec fn wf(&self) -> bool {
        forall|user: u64| #[trigger]
            self@.contains_key(user) ==> self@[user].notices <= self.reply_limit()
    }

    /// A limiter that has seen no user yet.
    pub fn new(window: u64, reply_limit: usize) -> (g: RateLimiter)
        ensures
            g.wf(),
            g@ == Map::<u64, RateLimitState>::empty(),
            g.window() == window,
            g.reply_limit() == reply_limit,
    {
        RateLimiter { window, reply_limit, users: HashMap::new() }
    }

    /// Decides on a live message with addresses from `user` at time `now`, and
    /// remembers the outcome for that user. No other user's state changes.
    pub fn request(&mut self, user: u64, now: u64) -> (d: Admission)
        requires
            old(self).wf(),
        ensures
            final(self).wf(),
            final(self).window() == old(self).window(),
            final(self).reply_limit() == old(self).reply_limit(),
            d == decide(entry_of(old(self)@, user), now, old(self).window(), old(self).reply_limit()).0,
            final(self)@ == old(self)@.insert(
                user,
                decide(entry_of(old(self)@, user), now, old(self).window(), old(self).reply_limit()).1,
            ),
    {
        broadcast use vstd::std_specs::hash::group_hash_axioms;

        let seen: Option<RateLimitState> = match self.users.get(&user) {
            Some(s) => Some(*s),
            None => None,
        };
        let mut decision = Admission::Forward;
        let mut next = RateLimitState { last_request: now, notices: 0 };
        if let Some(s) = seen {
            let passed: u64 = if now >= s.last_request {
                now - s.last_request
            } else {
                0
            };
            if passed < self.window {
                if s.notices >= self.reply_limit {
                    decision = Admission::Drop;
                    next = s;
                } else {
                    decision = Admission::Notice;
                    next = RateLimitState { last_request: s.last_request, notices: s.notices + 1 };
                }
            }
        }
        self.users.insert(user, next);
        decision
    }
}

/// A user whose window has run out is treated as one never seen: entries age
/// out by themselves.
pub proof fn expired_entry_is_forgotten(s: RateLimitState, now: u64, window: u64, limit: usize)
    requires
        !in_window(s, now, window),
    ensures
        decide(Some(s), now, window, limit) == decide(None, now, window, limit),
        decide(Some(s), now, window, limit).0 == Admission::Forward,
{
}

/// Whatever is remembered of a user, what is remembered next holds no more
/// notices than the limit, if it did not before.
pub proof fn notices_never_exceed_limit(
    entry: Option<RateLimitState>,
    now: u64,
    window: u64,
    limit: usize,
)
    requires
        entry matches Some(s) ==> s.notices <= limit,
    ensures
        decide(entry, now, window, limit).1.notices <= limit,
{
}

/// After an admitted request at `opened`, further requests of the same user
/// inside the window get a notice each until `limit` notices were sent, and
/// are dropped in silence from then on: none of them is admitted.
pub proof fn notices_stop_at_limit(opened: u64, sent: usize, times: Seq<u64>, window: u64, limit: usize)
    requires
        sent <= limit,
        forall|i: int| 0 <= i < times.len() ==> elapsed(opened, #[trigger] times[i]) < window,
    ensures
        decisions(
            Some(RateLimitState { last_request: opened, notices: sent }),
            times,
            window,
            limit,
        ).len() == times.len(),
        forall|i: int|
            0 <= i < times.len() ==> #[trigger] decisions(
                Some(RateLimitState { last_request: opened, notices: sent }),
                times,
                window,
                limit,
            )[i] == if sent + i < limit {
                Admission::Notice
            } else {
                Admission::Drop
            },
    decreases times.len(),
{
    if times.len() > 0 {
        let entry = Some(RateLimitState { last_request: opened, notices: sent });
        let next = decide(entry, times[0], window, limit).1;
        let rest = times.drop_first();
        assert forall|i: int| 0 <= i < rest.len() implies elapsed(opened, #[trigger] rest[i])
            < window by {
            assert(rest[i] == times[i + 1]);
        }
        notices_stop_at_limit(opened, next.notices, rest, window, limit);
    }
}

/// A user not seen before, or seen last a window or more ago, who sends requests
/// at `first` and then at `times`, all inside the window that `first` opens: the
/// first is admitted, each of the next `limit` gets a notice, and all later ones
/// are dropped in silence.
pub proof fn one_window_of_requests(
    entry: Option<RateLimitState>,
    first: u64,
    times: Seq<u64>,
    window: u64,
    limit: usize,
)
    requires
        entry matches Some(s) ==> !in_window(s, first, window),
        forall|i: int| 0 <= i < times.len() ==> elapsed(first, #[trigger] times[i]) < window,
    ensures
        decisions(entry, seq![first] + times, window, limit).len() == times.len() + 1,
        decisions(entry, seq![first] + times, window, limit)[0] == Admission::Forward,
        forall|i: int|
            0 <= i < times.len() ==> #[trigger] decisions(
                entry,
                seq![first] + times,
                window,
                limit,
            )[i + 1] == if i < limit {
                Admission::Notice
            } else {
                Admission::Drop
            },
{
    assert((seq![first] + times).drop_first() =~= times);
    notices_stop_at_limit(first, 0, times, window, limit);
}

} // verus!

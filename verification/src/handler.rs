//! The live path: what becomes of a message as it arrives.

use vstd::prelude::*;
use crate::extract::{address_pattern, regex_find_all};
use crate::limiter::{decide, entry_of, Admission, RateLimitState, RateLimiter};
use crate::request::{request_tokens, Message, Request};

verus! {

/// What becomes of an arriving message.
#[derive(Debug)]
pub enum Intake {
    /// The message holds no address: it is handed back for other uses.
    NotMine(Message),
    /// The request enters the dispatch queue.
    Forward(Request),
    /// The author is rate-limited and is told so in reply to the message.
    Notice(Message),
    /// The author is rate-limited and was told so often enough.
    Drop,
}

/// Handles arriving messages under the per-user rate limit.
pub struct Handler {
    limiter: RateLimiter,
}

impl View for Handler {
    type V = Map<u64, RateLimitState>;

    closed spec fn view(&self) -> Map<u64, RateLimitState> {
        self.limiter@
    }
}

impl Handler {
    /// The length of the rate-limit window.
    pub closed spec fn rate_limit(&self) -> u64 {
        self.limiter.window()
    }

    /// The most notices a user gets per window.
    pub closed spec fn reply_limit(&self) -> usize {
        self.limiter.reply_limit()
    }

    /// No user has been sent more notices than the limit.
    pub closed spec fn wf(&self) -> bool {
        self.limiter.wf()
    }

    /// A handler that has seen no user yet.
    pub fn new(rate_limit: u64, reply_limit: usize) -> (h: Handler)
        ensures
            h.wf(),
            h@ == Map::<u64, RateLimitState>::empty(),
            h.rate_limit() == rate_limit,
            h.reply_limit() == reply_limit,
    {
        Handler { limiter: RateLimiter::new(rate_limit, reply_limit) }
    }

    /// Decides on a message that arrived at `now`, candidate `i` of its text
    /// being a valid address exactly if `decoded[i]` is present and true. A
    /// message without address-shaped text is handed back and leaves no trace.
    /// Any other goes by its author's rate limit: forwarded as a request,
    /// answered with a notice, or dropped.
    pub fn message(&mut self, message: Message, decoded: &Vec<bool>, now: u64) -> (r: Intake)
        requires
            old(self).wf(),
        ensures
            final(self).wf(),
            final(self).rate_limit() == old(self).rate_limit(),
            final(self).reply_limit() == old(self).reply_limit(),
            match request_tokens(regex_find_all(address_pattern(), message.content@), decoded@) {
                None => r == Intake::NotMine(message) && final(self)@ == old(self)@,
                Some(tokens) => {
                    let (decision, state) = decide(
                        entry_of(old(self)@, message.author_id),
                        now,
                        old(self).rate_limit(),
                        old(self).reply_limit(),
                    );
                    &&& final(self)@ == old(self)@.insert(message.author_id, state)
                    &&& match decision {
                        Admission::Forward => r is Forward && r->Forward_0.origin() == message
                            && r->Forward_0.tokens() == tokens && r->Forward_0.wf(),
                        Admission::Notice => r == Intake::Notice(message),
                        Admission::Drop => r == Intake::Drop,
                    }
                },
            },
    {
        match Request::try_from_message(message, decoded) {
            Err(message) => Intake::NotMine(message),
            Ok(request) => {
                let author = request.message().author_id;
                match self.limiter.request(author, now) {
                    Admission::Forward => Intake::Forward(request),
                    Admission::Notice => Intake::Notice(request.into_message()),
                    Admission::Drop => Intake::Drop,
                }
            },
        }
    }
}

} // verus!

//! The service's settings, and the components that they configure.

use vstd::prelude::*;
use vstd::string::*;
use crate::catchup::Catchup;
use crate::handler::Handler;
use crate::limiter::RateLimitState;
use crate::responder::Responder;
use crate::value::Value;

verus! {

/// Why the settings cannot be served.
#[derive(Clone, Copy, Debug, PartialEq, Eq, Structural)]
pub enum ServeError {
    /// No value to dispense was given.
    NoValues,
    /// One of the values to dispense has a zero amount.
    ZeroValue,
}

impl ServeError {
    /// The error in words.
    pub fn message(&self) -> (text: String)
        ensures
            text@ == match *self {
                ServeError::NoValues => "at least one value must be provided"@,
                ServeError::ZeroValue => "all values must be non-zero"@,
            },
    {
        match self {
            ServeError::NoValues => String::from_str("at least one value must be provided"),
            ServeError::ZeroValue => String::from_str("all values must be non-zero"),
        }
    }
}

/// A place in a channel's history to catch up from.
#[derive(Clone, Copy, Debug, PartialEq, Eq, Structural)]
pub struct ChannelIdAndMessageId {
    pub channel_id: u64,
    pub message_id: u64,
}

/// The settings of the service.
#[derive(Debug)]
pub struct Serve {
    /// The transaction fee for each response.
    pub fee: u64,
    /// Length of the per-user rate-limit window.
    pub rate_limit: u64,
    /// Maximum number of times to tell a user of the rate limit per window.
    pub reply_limit: usize,
    /// Maximum number of addresses per message to dispense to.
    pub max_addresses: usize,
    /// Capacity of the queue of requests.
    pub buffer_size: usize,
    /// Places to catch up on backlog from.
    pub catch_up: Vec<ChannelIdAndMessageId>,
    /// Batch size for catching up on backlog.
    pub catch_up_batch_size: usize,
    /// The amounts to send for each response.
    pub values: Vec<Value>,
}

/// The components of a running service, configured and not yet started.
pub struct Service {
    pub responder: Responder,
    pub handler: Handler,
    pub catch_ups: Vec<Catchup>,
    pub buffer_size: usize,
}

/// Whether some value has a zero amount.
pub open spec fn has_zero(values: Seq<Value>) -> bool {
    exists|i: int| 0 <= i < values.len() && #[trigger] values[i].amount == 0
}

fn any_zero(values: &Vec<Value>) -> (found: bool)
    ensures
        found == has_zero(values@),
{
    let mut i: usize = 0;
    while i < values.len()
        invariant
            i <= values.len(),
            forall|j: int| 0 <= j < i ==> #[trigger] values@[j].amount != 0,
        decreases values.len() - i,
    {
        if values[i].amount == 0 {
            return true;
        }
        i += 1;
    }
    false
}

impl Serve {
    /// Checks the settings and configures the service's components from them.
    /// Without any value to dispense the settings are refused, and so are
    /// settings with a zero amount among the values. Otherwise the responder has
    /// the cap and the values, the handler the window and the notice limit
    /// and no user yet, and there is one catch-up cursor per starting place, in
    /// the order given.
    pub fn exec(self) -> (r: Result<Service, ServeError>)
        ensures
            self.values@.len() == 0 ==> r == Err::<Service, ServeError>(ServeError::NoValues),
            self.values@.len() > 0 && has_zero(self.values@) ==> r == Err::<Service, ServeError>(
                ServeError::ZeroValue,
            ),
            self.values@.len() > 0 && !has_zero(self.values@) ==> r is Ok && {
                let s = r->Ok_0;
                &&& s.responder.cap() == self.max_addresses
                &&& s.responder.bundle() == self.values@
                &&& s.handler.wf()
                &&& s.handler@ == Map::<u64, RateLimitState>::empty()
                &&& s.handler.rate_limit() == self.rate_limit
                &&& s.handler.reply_limit() == self.reply_limit
                &&& s.buffer_size == self.buffer_size
                &&& s.catch_ups@.len() == self.catch_up@.len()
                &&& forall|i: int|
                    0 <= i < self.catch_up@.len() ==> {
                        &&& (#[trigger] s.catch_ups@[i]).channel_id() == self.catch_up@[i].channel_id
                        &&& s.catch_ups@[i].after() == self.catch_up@[i].message_id
                        &&& s.catch_ups@[i].batch_size() == self.catch_up_batch_size
                    }
            },
    {
        if self.values.len() == 0 {
            return Err(ServeError::NoValues);
        }
        if any_zero(&self.values) {
            return Err(ServeError::ZeroValue);
        }
        let mut catch_ups: Vec<Catchup> = Vec::new();
        let mut i: usize = 0;
        while i < self.catch_up.len()
            invariant
                i <= self.catch_up.len(),
                catch_ups@.len() == i,
                forall|j: int|
                    0 <= j < i ==> {
                        &&& (#[trigger] catch_ups@[j]).channel_id() == self.catch_up@[j].channel_id
                        &&& catch_ups@[j].after() == self.catch_up@[j].message_id
                        &&& catch_ups@[j].batch_size() == self.catch_up_batch_size
                    },
            decreases self.catch_up.len() - i,
        {
            let place = self.catch_up[i];
            catch_ups.push(Catchup::new(place.channel_id, self.catch_up_batch_size, place.message_id));
            i += 1;
        }
        let handler = Handler::new(self.rate_limit, self.reply_limit);
        let buffer_size = self.buffer_size;
        let responder = Responder::new(self.max_addresses, self.values);
        Ok(Service { responder, handler, catch_ups, buffer_size })
    }
}

} // verus!

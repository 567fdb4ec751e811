//! Replaying the backlog of a channel from a starting message, page by page.

use vstd::prelude::*;
use crate::address::Token;
use crate::extract::{address_pattern, regex_find_all};
use crate::request::{request_tokens, Message, Request};

verus! {

/// The decoder's verdicts for message `i` of a page; none where the list is short.
pub open spec fn verdicts_at(decoded: Seq<Vec<bool>>, i: int) -> Seq<bool> {
    if 0 <= i < decoded.len() {
        decoded[i]@
    } else {
        Seq::empty()
    }
}

/// The requests that a page of the backlog gives rise to, in the page's order:
/// one for each message with address-shaped text, whoever wrote it and however
/// many of the author's messages came before.
pub open spec fn replayed(page: Seq<Message>, decoded: Seq<Vec<bool>>) -> Seq<
    (Message, Seq<Token>),
>
    decreases page.len(),
{
    if page.len() == 0 {
        Seq::empty()
    } else {
        let before = replayed(page.drop_last(), decoded);
        match request_tokens(
            regex_find_all(address_pattern(), page.last().content@),
            verdicts_at(decoded, page.len() - 1),
        ) {
            Some(tokens) => before.push((page.last(), tokens)),
            None => before,
        }
    }
}

/// The backlog is never rate-limited: every message of a page that holds
/// address-shaped text makes a request with all its tokens, whoever wrote it and
/// whatever else the page holds.
pub proof fn backlog_is_never_limited(page: Seq<Message>, decoded: Seq<Vec<bool>>, i: int)
    requires
        0 <= i < page.len(),
        request_tokens(
            regex_find_all(address_pattern(), page[i].content@),
            verdicts_at(decoded, i),
        ) is Some,
    ensures
        replayed(page, decoded).contains(
            (
                page[i],
                request_tokens(
                    regex_find_all(address_pattern(), page[i].content@),
                    verdicts_at(decoded, i),
                )->Some_0,
            ),
        ),
    decreases page.len(),
{
    let made = replayed(page, decoded);
    if i == page.len() - 1 {
        assert(made[made.len() - 1] == made.last());
    } else {
        let before = replayed(page.drop_last(), decoded);
        backlog_is_never_limited(page.drop_last(), decoded, i);
        let request = (
            page[i],
            request_tokens(
                regex_find_all(address_pattern(), page[i].content@),
                verdicts_at(decoded, i),
            )->Some_0,
        );
        let j = choose|j: int| 0 <= j < before.len() && before[j] == request;
        assert(made[j] == request);
    }
}

/// What a list of requests stands for in contracts: message and tokens of each.
pub open spec fn requests_of(v: Seq<Request>) -> Seq<(Message, Seq<Token>)> {
    v.map_values(|r: Request| (r.origin(), r.tokens()))
}

/// The newest message identity among `after` and the identities of a page.
pub open spec fn newest(after: u64, ids: Seq<u64>) -> u64
    decreases ids.len(),
{
    if ids.len() == 0 {
        after
    } else {
        let before = newest(after, ids.drop_last());
        if ids.last() > before {
            ids.last()
        } else {
            before
        }
    }
}

/// `newest` bounds `after` and every identity of the page.
pub proof fn newest_bounds(after: u64, ids: Seq<u64>)
    ensures
        newest(after, ids) >= after,
        forall|i: int| 0 <= i < ids.len() ==> #[trigger] ids[i] <= newest(after, ids),
        newest(after, ids) == after || ids.contains(newest(after, ids)),
    decreases ids.len(),
{
    if ids.len() > 0 {
        newest_bounds(after, ids.drop_last());
        let before = newest(after, ids.drop_last());
        assert forall|i: int| 0 <= i < ids.len() implies #[trigger] ids[i] <= newest(
            after,
            ids,
        ) by {
            if i < ids.len() - 1 {
                assert(ids.drop_last()[i] == ids[i]);
            }
        }
        if ids.last() <= before && before != after {
            let j = choose|j: int| 0 <= j < ids.drop_last().len() && ids.drop_last()[j] == before;
            assert(ids[j] == before);
        }
    }
}

/// What to ask the chat service for next: up to `limit` messages of
/// `channel_id` that came after the message `after`.
#[derive(Clone, Copy, Debug, PartialEq, Eq, Structural)]
pub struct PageQuery {
    pub channel_id: u64,
    pub after: u64,
    pub limit: usize,
}

/// The cursor of one catch-up task over one channel's history.
#[derive(Debug)]
pub struct Catchup {
    channel_id: u64,
    batch_size: usize,
    after: u64,
}

impl Catchup {
    /// The channel whose history is replayed.
    pub closed spec fn channel_id(&self) -> u64 {
        self.channel_id
    }

    /// The most messages fetched at once.
    pub closed spec fn batch_size(&self) -> usize {
        self.batch_size
    }

    /// The message after which the next page starts.
    pub closed spec fn after(&self) -> u64 {
        self.after
    }

    /// A cursor over `channel_id` that starts after the message `after`.
    pub fn new(channel_id: u64, batch_size: usize, after: u64) -> (c: Catchup)
        ensures
            c.channel_id() == channel_id,
            c.batch_size() == batch_size,
            c.after() == after,
    {
        Catchup { channel_id, batch_size, after }
    }

    /// The page to fetch next.
    pub fn next_page(&self) -> (q: PageQuery)
        ensures
            q == (PageQuery {
                channel_id: self.channel_id(),
                after: self.after(),
                limit: self.batch_size(),
            }),
    {
        PageQuery { channel_id: self.channel_id, after: self.after, limit: self.batch_size }
    }

    /// Makes the requests of a fetched page, message `i` of it being scanned with
    /// the verdicts `decoded[i]`. Every message with address-shaped text makes a
    /// request; no rate limit applies to the backlog.
    pub fn replay(page: &Vec<Message>, decoded: &Vec<Vec<bool>>) -> (requests: Vec<Request>)
        ensures
            requests_of(requests@) == replayed(page@, decoded@),
            forall|i: int| 0 <= i < requests@.len() ==> (#[trigger] requests@[i]).wf(),
    {
        let mut requests: Vec<Request> = Vec::new();
        let none: Vec<bool> = Vec::new();
        let mut i: usize = 0;
        while i < page.len()
            invariant
                i <= page.len(),
                none@.len() == 0,
                requests_of(requests@) == replayed(page@.take(i as int), decoded@),
                forall|j: int| 0 <= j < requests@.len() ==> (#[trigger] requests@[j]).wf(),
            decreases page.len() - i,
        {
            proof {
                assert(page@.take(i + 1).drop_last() =~= page@.take(i as int));
                assert(none@ =~= Seq::<bool>::empty());
            }
            let verdicts = if i < decoded.len() {
                &decoded[i]
            } else {
                &none
            };
            match Request::try_from_message(page[i].clone(), verdicts) {
                Ok(request) => {
                    requests.push(request);
                },
                Err(_) => {},
            }
            i += 1;
        }
        proof {
            assert(page@.take(i as int) =~= page@);
        }
        requests
    }

    /// Moves the cursor past a fetched page, given the identities of its
    /// messages, and says whether there may be more: an empty page ends the
    /// backlog. The cursor never moves back, and ends at or past every message
    /// of the page.
    pub fn advance(&mut self, ids: &Vec<u64>) -> (more: bool)
        ensures
            more == (ids@.len() > 0),
            final(self).after() == newest(old(self).after(), ids@),
            final(self).after() >= old(self).after(),
            forall|i: int| 0 <= i < ids@.len() ==> #[trigger] ids@[i] <= final(self).after(),
            final(self).channel_id() == old(self).channel_id(),
            final(self).batch_size() == old(self).batch_size(),
    {
        let mut i: usize = 0;
        let mut after = self.after;
        while i < ids.len()
            invariant
                i <= ids.len(),
                after == newest(self.after, ids@.take(i as int)),
            decreases ids.len() - i,
        {
            proof {
                assert(ids@.take(i + 1).drop_last() =~= ids@.take(i as int));
            }
            if ids[i] > after {
                after = ids[i];
            }
            i += 1;
        }
        proof {
            assert(ids@.take(i as int) =~= ids@);
            newest_bounds(self.after, ids@);
        }
        self.after = after;
        ids.len() > 0
    }
}

} // verus!

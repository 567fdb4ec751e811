//! The responder: which addresses of a request are sent to, how the outcomes
//! are filed, and what is replied.

use vstd::prelude::*;
use crate::address::{addresses_of, texts_of, tokens_of, Address, AddressOrAlmost};
use crate::dispense::{bucket_tokens, buckets_partition_tokens, cap_bounds_service, deferred, filed, malformed, malformed_always_unparsed, no_buckets, serviced, serviced_count, valid_count_prefix, Buckets, Outcome};
use crate::request::Request;
use vstd::string::*;
use crate::summary::{address_lines_text, admin_mention, decimal_string, failure_lines_text, failures_of, mention_admins, summary_text, text_lines};
use crate::value::Value;

verus! {

/// What the ledger's answers stand for in contracts.
pub open spec fn outcomes_of(v: Seq<Result<(), String>>) -> Seq<Outcome> {
    v.map_values(
        |r: Result<(), String>|
            match r {
                Ok(_) => Ok(()),
                Err(e) => Err(e@),
            },
    )
}

/// The mentions that a list of administrator roles stands for in contracts.
pub open spec fn roles_of(roles: Option<Vec<String>>) -> Option<Seq<Seq<char>>> {
    match roles {
        Some(v) => Some(texts_of(v@)),
        None => None,
    }
}

/// The four outcome buckets of one request.
#[derive(Debug)]
pub struct Dispensed {
    /// Addresses the ledger confirmed a send to.
    pub succeeded: Vec<Address>,
    /// Addresses the ledger failed to send to, each with the error's text.
    pub failed: Vec<(Address, String)>,
    /// Address-shaped text that did not decode.
    pub unparsed: Vec<String>,
    /// Valid addresses left out because the cap was reached.
    pub remaining: Vec<Address>,
}

impl View for Dispensed {
    type V = Buckets;

    open spec fn view(&self) -> Buckets {
        Buckets {
            succeeded: addresses_of(self.succeeded@),
            failed: failures_of(self.failed@),
            unparsed: texts_of(self.unparsed@),
            remaining: addresses_of(self.remaining@),
        }
    }
}

/// The sequential consumer of requests.
#[derive(Debug)]
pub struct Responder {
    /// Maximum number of addresses to send to per message.
    max_addresses: usize,
    /// Values to send each time.
    values: Vec<Value>,
}

impl Responder {
    /// The per-message cap.
    pub closed spec fn cap(&self) -> nat {
        self.max_addresses as nat
    }

    /// The bundle sent to each address.
    pub closed spec fn bundle(&self) -> Seq<Value> {
        self.values@
    }

    /// A responder that sends `values` to at most `max_addresses` addresses per message.
    pub fn new(max_addresses: usize, values: Vec<Value>) -> (r: Responder)
        ensures
            r.cap() == max_addresses,
            r.bundle() == values@,
    {
        Responder { max_addresses, values }
    }

    /// The per-message cap.
    pub fn max_addresses(&self) -> (cap: usize)
        ensures
            cap == self.cap(),
    {
        self.max_addresses
    }

    /// The values sent to each address.
    pub fn values(&self) -> (v: &Vec<Value>)
        ensures
            v@ == self.bundle(),
    {
        &self.values
    }

    /// The addresses to send the bundle to, in the order to send: the first
    /// `max_addresses` valid addresses of the request.
    pub fn sends(&self, addresses: &Vec<AddressOrAlmost>) -> (to: Vec<Address>)
        ensures
            addresses_of(to@) == serviced(tokens_of(addresses@), self.cap()),
            to@.len() == serviced_count(tokens_of(addresses@), self.cap()),
    {
        let mut to: Vec<Address> = Vec::new();
        let mut i: usize = 0;
        let ghost tokens = tokens_of(addresses@);
        while i < addresses.len()
            invariant
                i <= addresses.len(),
                tokens == tokens_of(addresses@),
                addresses_of(to@) == serviced(tokens.take(i as int), self.cap()),
                to@.len() == serviced_count(tokens.take(i as int), self.cap()),
            decreases addresses.len() - i,
        {
            proof {
                assert(tokens.take(i + 1).drop_last() =~= tokens.take(i as int));
            }
            match &addresses[i] {
                AddressOrAlmost::Address(a) => {
                    if to.len() < self.max_addresses {
                        let copy = a.clone();
                        to.push(copy);
                    }
                },
                AddressOrAlmost::Almost(_) => {},
            }
            i += 1;
        }
        proof {
            assert(tokens.take(i as int) =~= tokens);
        }
        to
    }

    /// Files every token of a request, left to right. A valid address is sent to
    /// while fewer than `max_addresses` were, and is filed by the ledger's answer
    /// for that send, `outcomes` holding the answers in the order of the sends;
    /// later valid addresses are deferred; malformed text is unparsed.
    pub fn dispense(&self, addresses: &Vec<AddressOrAlmost>, outcomes: &Vec<Result<(), String>>) -> (d:
        Dispensed)
        requires
            outcomes@.len() >= serviced_count(tokens_of(addresses@), self.cap()),
        ensures
            d@ == filed(tokens_of(addresses@), self.cap(), outcomes_of(outcomes@)),
            bucket_tokens(d@) == tokens_of(addresses@).to_multiset(),
            d.succeeded@.len() + d.failed@.len() == serviced_count(
                tokens_of(addresses@),
                self.cap(),
            ),
            d@.unparsed == malformed(tokens_of(addresses@)),
            d@.remaining == deferred(tokens_of(addresses@), self.cap()),
    {
        let mut d = Dispensed {
            succeeded: Vec::new(),
            failed: Vec::new(),
            unparsed: Vec::new(),
            remaining: Vec::new(),
        };
        let mut sent: usize = 0;
        let mut i: usize = 0;
        let ghost tokens = tokens_of(addresses@);
        let ghost outs = outcomes_of(outcomes@);
        proof {
            assert(d@.succeeded =~= no_buckets().succeeded);
            assert(d@.failed =~= no_buckets().failed);
            assert(d@.unparsed =~= no_buckets().unparsed);
        }
        while i < addresses.len()
            invariant
                i <= addresses.len(),
                tokens == tokens_of(addresses@),
                outs == outcomes_of(outcomes@),
                outcomes@.len() >= serviced_count(tokens, self.cap()),
                sent == serviced_count(tokens.take(i as int), self.cap()),
                d@ == filed(tokens.take(i as int), self.cap(), outs),
            decreases addresses.len() - i,
        {
            proof {
                assert(tokens.take(i + 1).drop_last() =~= tokens.take(i as int));
                valid_count_prefix(tokens, i + 1);
            }
            match &addresses[i] {
                AddressOrAlmost::Address(a) => {
                    let copy = a.clone();
                    if sent < self.max_addresses {
                        match &outcomes[sent] {
                            Ok(_) => {
                                proof {
                                    assert(addresses_of(d.succeeded@.push(copy)) =~= addresses_of(
                                        d.succeeded@,
                                    ).push(copy@));
                                }
                                d.succeeded.push(copy);
                            },
                            Err(e) => {
                                let error = e.clone();
                                proof {
                                    assert(failures_of(d.failed@.push((copy, error)))
                                        =~= failures_of(d.failed@).push((copy@, error@)));
                                }
                                d.failed.push((copy, error));
                            },
                        }
                        sent += 1;
                    } else {
                        proof {
                            assert(addresses_of(d.remaining@.push(copy)) =~= addresses_of(
                                d.remaining@,
                            ).push(copy@));
                        }
                        d.remaining.push(copy);
                    }
                },
                AddressOrAlmost::Almost(s) => {
                    let copy = s.clone();
                    proof {
                        assert(texts_of(d.unparsed@.push(copy)) =~= texts_of(d.unparsed@).push(
                            copy@,
                        ));
                    }
                    d.unparsed.push(copy);
                },
            }
            i += 1;
        }
        proof {
            assert(tokens.take(i as int) =~= tokens);
            buckets_partition_tokens(tokens, self.cap(), outs);
            cap_bounds_service(tokens, self.cap(), outs);
            malformed_always_unparsed(tokens, self.cap(), outs);
        }
        d
    }

    /// Composes the reply from the four buckets: one section per bucket that is
    /// not empty, in the order succeeded, failed, unparsed, deferred. The failed
    /// section flags `mention_admins`; the deferred section states the cap.
    pub fn reply_dispense_summary(
        &self,
        succeeded_addresses: &Vec<Address>,
        failed_addresses: &Vec<(Address, String)>,
        unparsed_addresses: &Vec<String>,
        remaining_addresses: &Vec<Address>,
        mention_admins: &str,
    ) -> (response: String)
        ensures
            response@ == summary_text(
                Buckets {
                    succeeded: addresses_of(succeeded_addresses@),
                    failed: failures_of(failed_addresses@),
                    unparsed: texts_of(unparsed_addresses@),
                    remaining: addresses_of(remaining_addresses@),
                },
                mention_admins@,
                self.cap(),
            ),
    {
        let mut response = String::new();
        if succeeded_addresses.len() > 0 {
            response.append("Successfully sent tokens to the following addresses:");
            let lines = address_lines_text(succeeded_addresses);
            response.append(lines.as_str());
        }
        if failed_addresses.len() > 0 {
            response.append("Failed to send tokens to the following addresses:\n");
            let lines = failure_lines_text(failed_addresses);
            response.append(lines.as_str());
            response.append("\n");
            response.append(mention_admins);
            response.append(": you may want to investigate this error :)");
        }
        if unparsed_addresses.len() > 0 {
            response.append(
                "\nThe following _look like_ Penumbra addresses, but are invalid (maybe a typo or old address version?):",
            );
            let lines = text_lines(unparsed_addresses);
            response.append(lines.as_str());
        }
        if remaining_addresses.len() > 0 {
            response.append("\nI'm only allowed to send tokens to addresses ");
            let number = decimal_string(self.max_addresses);
            response.append(number.as_str());
            response.append(" at a time; try again later to get tokens for the following addresses:");
            let lines = address_lines_text(remaining_addresses);
            response.append(lines.as_str());
        }
        response
    }

    /// Answers one request once the ledger has answered each send that
    /// [`Responder::sends`] listed for it: files the tokens and composes the reply.
    /// `admin_roles` are the administrator mentions of the message's guild, or
    /// `None` for a message outside any guild.
    pub fn run(
        &self,
        request: &Request,
        outcomes: &Vec<Result<(), String>>,
        admin_roles: &Option<Vec<String>>,
    ) -> (reply: String)
        requires
            outcomes@.len() >= serviced_count(request.tokens(), self.cap()),
        ensures
            reply@ == summary_text(
                filed(request.tokens(), self.cap(), outcomes_of(outcomes@)),
                admin_mention(roles_of(*admin_roles)),
                self.cap(),
            ),
    {
        let d = self.dispense(request.addresses(), outcomes);
        let mention = mention_admins(admin_roles);
        self.reply_dispense_summary(
            &d.succeeded,
            &d.failed,
            &d.unparsed,
            &d.remaining,
            mention.as_str(),
        )
    }
}

} // verus!

//! The rule by which a request's tokens are split into outcome buckets.

use vstd::prelude::*;
use vstd::multiset::Multiset;
use crate::address::Token;

verus! {

/// What the ledger answered for one send: confirmed, or failed with a reason.
pub type Outcome = Result<(), Seq<char>>;

/// The four outcome buckets of one request, each in message order.
pub struct Buckets {
    /// Addresses the ledger confirmed a send to.
    pub succeeded: Seq<Seq<char>>,
    /// Addresses the ledger failed to send to, each with the reason.
    pub failed: Seq<(Seq<char>, Seq<char>)>,
    /// Address-shaped text that did not decode.
    pub unparsed: Seq<Seq<char>>,
    /// Valid addresses left out because the cap was reached.
    pub remaining: Seq<Seq<char>>,
}

/// The buckets before any token is filed.
pub open spec fn no_buckets() -> Buckets {
    Buckets { succeeded: seq![], failed: seq![], unparsed: seq![], remaining: seq![] }
}

/// How many of the tokens are valid addresses.
pub open spec fn valid_count(tokens: Seq<Token>) -> nat
    decreases tokens.len(),
{
    if tokens.len() == 0 {
        0
    } else {
        valid_count(tokens.drop_last()) + if tokens.last() is Valid { 1nat } else { 0nat }
    }
}

/// How many sends a request with these tokens causes under the cap.
pub open spec fn serviced_count(tokens: Seq<Token>, cap: nat) -> nat {
    if valid_count(tokens) <= cap {
        valid_count(tokens)
    } else {
        cap
    }
}

/// The addresses that are sent to, in message order: the first `cap` valid ones.
pub open spec fn serviced(tokens: Seq<Token>, cap: nat) -> Seq<Seq<char>>
    decreases tokens.len(),
{
    if tokens.len() == 0 {
        seq![]
    } else {
        let before = serviced(tokens.drop_last(), cap);
        match tokens.last() {
            Token::Valid(a) => if valid_count(tokens.drop_last()) < cap {
                before.push(a)
            } else {
                before
            },
            Token::Malformed(_) => before,
        }
    }
}

/// The valid addresses among the tokens, in message order.
pub open spec fn valid_addresses(tokens: Seq<Token>) -> Seq<Seq<char>>
    decreases tokens.len(),
{
    if tokens.len() == 0 {
        seq![]
    } else {
        let before = valid_addresses(tokens.drop_last());
        match tokens.last() {
            Token::Valid(a) => before.push(a),
            Token::Malformed(_) => before,
        }
    }
}

/// The malformed texts among the tokens, in message order.
pub open spec fn malformed(tokens: Seq<Token>) -> Seq<Seq<char>>
    decreases tokens.len(),
{
    if tokens.len() == 0 {
        seq![]
    } else {
        let before = malformed(tokens.drop_last());
        match tokens.last() {
            Token::Valid(_) => before,
            Token::Malformed(s) => before.push(s),
        }
    }
}

/// The valid addresses past the first `cap`, in message order.
pub open spec fn deferred(tokens: Seq<Token>, cap: nat) -> Seq<Seq<char>>
    decreases tokens.len(),
{
    if tokens.len() == 0 {
        seq![]
    } else {
        let before = deferred(tokens.drop_last(), cap);
        match tokens.last() {
            Token::Valid(a) => if valid_count(tokens.drop_last()) < cap {
                before
            } else {
                before.push(a)
            },
            Token::Malformed(_) => before,
        }
    }
}

/// Files one token. `rank` is the number of valid addresses before it: a valid
/// address of rank below the cap was sent to and goes by the ledger's answer of
/// that rank; one of higher rank is deferred; malformed text is unparsed.
pub open spec fn file_token(
    b: Buckets,
    rank: nat,
    token: Token,
    cap: nat,
    outcomes: Seq<Outcome>,
) -> Buckets {
    match token {
        Token::Malformed(s) => Buckets { unparsed: b.unparsed.push(s), ..b },
        Token::Valid(a) => if rank < cap {
            match outcomes[rank as int] {
                Ok(_) => Buckets { succeeded: b.succeeded.push(a), ..b },
                Err(e) => Buckets { failed: b.failed.push((a, e)), ..b },
            }
        } else {
            Buckets { remaining: b.remaining.push(a), ..b }
        },
    }
}

/// The buckets after every token is filed, left to right.
pub open spec fn filed(tokens: Seq<Token>, cap: nat, outcomes: Seq<Outcome>) -> Buckets
    decreases tokens.len(),
{
    if tokens.len() == 0 {
        no_buckets()
    } else {
        file_token(
            filed(tokens.drop_last(), cap, outcomes),
            valid_count(tokens.drop_last()),
            tokens.last(),
            cap,
            outcomes,
        )
    }
}

/// The tokens that the four buckets hold between them, as a bag.
pub open spec fn bucket_tokens(b: Buckets) -> Multiset<Token> {
    b.succeeded.map_values(|a: Seq<char>| Token::Valid(a)).to_multiset().add(
        b.failed.map_values(|p: (Seq<char>, Seq<char>)| Token::Valid(p.0)).to_multiset(),
    ).add(b.unparsed.map_values(|s: Seq<char>| Token::Malformed(s)).to_multiset()).add(
        b.remaining.map_values(|a: Seq<char>| Token::Valid(a)).to_multiset(),
    )
}

/// A prefix of the tokens holds no more valid addresses than the whole.
pub proof fn valid_count_prefix(tokens: Seq<Token>, n: int)
    requires
        0 <= n <= tokens.len(),
    ensures
        valid_count(tokens.take(n)) <= valid_count(tokens),
        valid_count(tokens) <= tokens.len(),
    decreases tokens.len(),
{
    if tokens.len() > 0 {
        valid_count_prefix(tokens.drop_last(), 0);
        if n < tokens.len() {
            valid_count_prefix(tokens.drop_last(), n);
            assert(tokens.drop_last().take(n) =~= tokens.take(n));
        } else {
            assert(tokens.take(n) =~= tokens);
        }
    }
}

/// The buckets partition the tokens: between them they hold each token of the
/// request exactly once, whatever the cap and whatever the ledger answered.
pub proof fn buckets_partition_tokens(tokens: Seq<Token>, cap: nat, outcomes: Seq<Outcome>)
    ensures
        bucket_tokens(filed(tokens, cap, outcomes)) == tokens.to_multiset(),
        filed(tokens, cap, outcomes).succeeded.len() + filed(tokens, cap, outcomes).failed.len()
            + filed(tokens, cap, outcomes).unparsed.len() + filed(
            tokens,
            cap,
            outcomes,
        ).remaining.len() == tokens.len(),
    decreases tokens.len(),
{
    broadcast use vstd::seq_lib::to_multiset_build;

    if tokens.len() == 0 {
        tokens.to_multiset_ensures();
        Seq::<Token>::empty().to_multiset_ensures();
        let b = no_buckets();
        assert(b.succeeded.map_values(|a: Seq<char>| Token::Valid(a)) =~= Seq::<Token>::empty());
        assert(b.failed.map_values(|p: (Seq<char>, Seq<char>)| Token::Valid(p.0))
            =~= Seq::<Token>::empty());
        assert(b.unparsed.map_values(|s: Seq<char>| Token::Malformed(s))
            =~= Seq::<Token>::empty());
    } else {
        let init = tokens.drop_last();
        buckets_partition_tokens(init, cap, outcomes);
        let b = filed(init, cap, outcomes);
        let c = filed(tokens, cap, outcomes);
        assert(tokens =~= init.push(tokens.last()));
        let fv = |a: Seq<char>| Token::Valid(a);
        let ff = |p: (Seq<char>, Seq<char>)| Token::Valid(p.0);
        let fm = |s: Seq<char>| Token::Malformed(s);
        match tokens.last() {
            Token::Malformed(s) => {
                assert(c.unparsed.map_values(fm) =~= b.unparsed.map_values(fm).push(
                    Token::Malformed(s),
                ));
            },
            Token::Valid(a) => {
                if valid_count(init) < cap {
                    match outcomes[valid_count(init) as int] {
                        Ok(_) => {
                            assert(c.succeeded.map_values(fv) =~= b.succeeded.map_values(fv).push(
                                Token::Valid(a),
                            ));
                        },
                        Err(e) => {
                            assert(c.failed.map_values(ff) =~= b.failed.map_values(ff).push(
                                Token::Valid(a),
                            ));
                        },
                    }
                } else {
                    assert(c.remaining.map_values(fv) =~= b.remaining.map_values(fv).push(
                        Token::Valid(a),
                    ));
                }
            },
        }
    }
}

/// Under the cap exactly the first `cap` valid addresses are sent to, each filed
/// as succeeded or failed, and the valid addresses past them are all deferred and
/// nothing else is.
pub proof fn cap_bounds_service(tokens: Seq<Token>, cap: nat, outcomes: Seq<Outcome>)
    ensures
        filed(tokens, cap, outcomes).succeeded.len() + filed(tokens, cap, outcomes).failed.len()
            == serviced_count(tokens, cap),
        serviced(tokens, cap).len() == serviced_count(tokens, cap),
        filed(tokens, cap, outcomes).remaining == deferred(tokens, cap),
        deferred(tokens, cap).len() == valid_count(tokens) - serviced_count(tokens, cap),
        valid_count(tokens) > cap ==> filed(tokens, cap, outcomes).succeeded.len() + filed(
            tokens,
            cap,
            outcomes,
        ).failed.len() == cap,
    decreases tokens.len(),
{
    if tokens.len() > 0 {
        cap_bounds_service(tokens.drop_last(), cap, outcomes);
    }
}

/// The cap cuts the valid addresses of a message in two: those sent to are the
/// first `cap` of them, in message order, and those deferred are all the rest.
pub proof fn cap_splits_valid_addresses(tokens: Seq<Token>, cap: nat)
    ensures
        valid_addresses(tokens).len() == valid_count(tokens),
        serviced(tokens, cap) == valid_addresses(tokens).take(serviced_count(tokens, cap) as int),
        deferred(tokens, cap) == valid_addresses(tokens).skip(serviced_count(tokens, cap) as int),
    decreases tokens.len(),
{
    if tokens.len() > 0 {
        cap_splits_valid_addresses(tokens.drop_last(), cap);
    }
}

/// The addresses filed as succeeded or failed are the addresses sent to, each once.
pub proof fn serviced_are_filed_by_outcome(tokens: Seq<Token>, cap: nat, outcomes: Seq<Outcome>)
    ensures
        filed(tokens, cap, outcomes).succeeded.to_multiset().add(
            filed(tokens, cap, outcomes).failed.map_values(
                |p: (Seq<char>, Seq<char>)| p.0,
            ).to_multiset(),
        ) == serviced(tokens, cap).to_multiset(),
    decreases tokens.len(),
{
    broadcast use vstd::seq_lib::to_multiset_build;

    let ff = |p: (Seq<char>, Seq<char>)| p.0;
    let c = filed(tokens, cap, outcomes);
    if tokens.len() == 0 {
        assert(c.failed.map_values(ff) =~= Seq::<Seq<char>>::empty());
        Seq::<Seq<char>>::empty().to_multiset_ensures();
    } else {
        let init = tokens.drop_last();
        serviced_are_filed_by_outcome(init, cap, outcomes);
        let b = filed(init, cap, outcomes);
        if tokens.last() is Valid && valid_count(init) < cap
            && outcomes[valid_count(init) as int] is Err {
            assert(c.failed.map_values(ff) =~= b.failed.map_values(ff).push(
                tokens.last()->Valid_0,
            ));
        }
    }
}

/// Where the ledger confirmed every send, nothing is filed as failed.
pub proof fn no_failure_without_error(tokens: Seq<Token>, cap: nat, outcomes: Seq<Outcome>)
    requires
        forall|i: int| 0 <= i < outcomes.len() ==> (#[trigger] outcomes[i]) is Ok,
        outcomes.len() >= serviced_count(tokens, cap),
    ensures
        filed(tokens, cap, outcomes).failed.len() == 0,
    decreases tokens.len(),
{
    if tokens.len() > 0 {
        valid_count_prefix(tokens, tokens.len() - 1);
        no_failure_without_error(tokens.drop_last(), cap, outcomes);
    }
}

/// Malformed text is always unparsed: the unparsed bucket is the malformed
/// tokens in message order, whatever the cap and whatever the ledger answered.
pub proof fn malformed_always_unparsed(tokens: Seq<Token>, cap: nat, outcomes: Seq<Outcome>)
    ensures
        filed(tokens, cap, outcomes).unparsed == malformed(tokens),
    decreases tokens.len(),
{
    if tokens.len() > 0 {
        malformed_always_unparsed(tokens.drop_last(), cap, outcomes);
    }
}

} // verus!

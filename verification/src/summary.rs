//! The text of the reply that sums up what became of a request's addresses.

use vstd::prelude::*;
use vstd::string::*;
use crate::address::{addresses_of, texts_of, Address};
use crate::dispense::Buckets;

verus! {

/// The character of a decimal digit.
pub open spec fn digit(d: nat) -> char {
    if d == 0 {
        '0'
    } else if d == 1 {
        '1'
    } else if d == 2 {
        '2'
    } else if d == 3 {
        '3'
    } else if d == 4 {
        '4'
    } else if d == 5 {
        '5'
    } else if d == 6 {
        '6'
    } else if d == 7 {
        '7'
    } else if d == 8 {
        '8'
    } else {
        '9'
    }
}

/// A number written in decimal, without sign or leading zeros.
pub open spec fn decimal(n: nat) -> Seq<char>
    decreases n,
{
    if n < 10 {
        seq![digit(n)]
    } else {
        decimal(n / 10).push(digit(n % 10))
    }
}

/// One line per address: a line break, then the address between backticks.
pub open spec fn address_lines(items: Seq<Seq<char>>) -> Seq<char>
    decreases items.len(),
{
    if items.len() == 0 {
        Seq::empty()
    } else {
        address_lines(items.drop_last()) + "\n`"@ + items.last() + "`"@
    }
}

/// One line per failed address: the address between backticks, then the error.
pub open spec fn failure_lines(items: Seq<(Seq<char>, Seq<char>)>) -> Seq<char>
    decreases items.len(),
{
    if items.len() == 0 {
        Seq::empty()
    } else {
        failure_lines(items.drop_last()) + "\n`"@ + items.last().0 + "` (error: "@
            + items.last().1 + ")"@
    }
}

/// The items with a space between each two.
pub open spec fn spaced(items: Seq<Seq<char>>) -> Seq<char>
    decreases items.len(),
{
    if items.len() == 0 {
        Seq::empty()
    } else if items.len() == 1 {
        items.last()
    } else {
        spaced(items.drop_last()) + " "@ + items.last()
    }
}

/// Whom a failure is flagged to: the administrator mentions of the message's
/// guild, or a generic label for a message outside any guild.
pub open spec fn admin_mention(roles: Option<Seq<Seq<char>>>) -> Seq<char> {
    match roles {
        Some(mentions) => spaced(mentions),
        None => "Admin(s)"@,
    }
}

/// The section that lists the addresses sent to with success.
pub open spec fn succeeded_section(items: Seq<Seq<char>>) -> Seq<char> {
    if items.len() == 0 {
        Seq::empty()
    } else {
        "Successfully sent tokens to the following addresses:"@ + address_lines(items)
    }
}

/// The section that lists the failed sends and flags them to `mention`.
pub open spec fn failed_section(items: Seq<(Seq<char>, Seq<char>)>, mention: Seq<char>) -> Seq<
    char,
> {
    if items.len() == 0 {
        Seq::empty()
    } else {
        "Failed to send tokens to the following addresses:\n"@ + failure_lines(items) + "\n"@
            + mention + ": you may want to investigate this error :)"@
    }
}

/// The section that lists the text that looks like an address and is none.
pub open spec fn unparsed_section(items: Seq<Seq<char>>) -> Seq<char> {
    if items.len() == 0 {
        Seq::empty()
    } else {
        "\nThe following _look like_ Penumbra addresses, but are invalid (maybe a typo or old address version?):"@
            + address_lines(items)
    }
}

/// The section that states the cap and lists the addresses left for later.
pub open spec fn deferred_section(items: Seq<Seq<char>>, cap: nat) -> Seq<char> {
    if items.len() == 0 {
        Seq::empty()
    } else {
        "\nI'm only allowed to send tokens to addresses "@ + decimal(cap)
            + " at a time; try again later to get tokens for the following addresses:"@
            + address_lines(items)
    }
}

/// The whole reply: one section per bucket that is not empty, in the order
/// succeeded, failed, unparsed, deferred.
pub open spec fn summary_text(b: Buckets, mention: Seq<char>, cap: nat) -> Seq<char> {
    succeeded_section(b.succeeded) + failed_section(b.failed, mention) + unparsed_section(
        b.unparsed,
    ) + deferred_section(b.remaining, cap)
}

/// What failed sends stand for in contracts: address and error text.
pub open spec fn failures_of(v: Seq<(Address, String)>) -> Seq<(Seq<char>, Seq<char>)> {
    v.map_values(|p: (Address, String)| (p.0@, p.1@))
}

/// Calls `usize::to_string`. Trusted: std writes an unsigned integer in decimal
/// digits, most significant first, with no sign and no leading zero.
#[verifier::external_body]
pub(crate) fn decimal_string(n: usize) -> (s: String)
    ensures
        s@ == decimal(n as nat),
{
    n.to_string()
}

/// The lines for a list of texts.
pub(crate) fn text_lines(items: &Vec<String>) -> (out: String)
    ensures
        out@ == address_lines(texts_of(items@)),
{
    let mut out = String::new();
    let mut i: usize = 0;
    let ghost all = texts_of(items@);
    while i < items.len()
        invariant
            i <= items.len(),
            all == texts_of(items@),
            out@ == address_lines(all.take(i as int)),
        decreases items.len() - i,
    {
        proof {
            assert(all.take(i + 1).drop_last() =~= all.take(i as int));
        }
        out.append("\n`");
        out.append(items[i].as_str());
        out.append("`");
        i += 1;
    }
    proof {
        assert(all.take(i as int) =~= all);
    }
    out
}

/// The lines for a list of addresses.
pub(crate) fn address_lines_text(items: &Vec<Address>) -> (out: String)
    ensures
        out@ == address_lines(addresses_of(items@)),
{
    let mut out = String::new();
    let mut i: usize = 0;
    let ghost all = addresses_of(items@);
    while i < items.len()
        invariant
            i <= items.len(),
            all == addresses_of(items@),
            out@ == address_lines(all.take(i as int)),
        decreases items.len() - i,
    {
        proof {
            assert(all.take(i + 1).drop_last() =~= all.take(i as int));
        }
        out.append("\n`");
        out.append(items[i].as_str());
        out.append("`");
        i += 1;
    }
    proof {
        assert(all.take(i as int) =~= all);
    }
    out
}

/// The lines for a list of failed sends.
pub(crate) fn failure_lines_text(items: &Vec<(Address, String)>) -> (out: String)
    ensures
        out@ == failure_lines(failures_of(items@)),
{
    let mut out = String::new();
    let mut i: usize = 0;
    let ghost all = failures_of(items@);
    while i < items.len()
        invariant
            i <= items.len(),
            all == failures_of(items@),
            out@ == failure_lines(all.take(i as int)),
        decreases items.len() - i,
    {
        proof {
            assert(all.take(i + 1).drop_last() =~= all.take(i as int));
        }
        out.append("\n`");
        out.append(items[i].0.as_str());
        out.append("` (error: ");
        out.append(items[i].1.as_str());
        out.append(")");
        i += 1;
    }
    proof {
        assert(all.take(i as int) =~= all);
    }
    out
}

/// Whom a failure is flagged to: the given administrator mentions with a space
/// between each two, or `Admin(s)` for a message outside any guild.
pub fn mention_admins(roles: &Option<Vec<String>>) -> (out: String)
    ensures
        out@ == admin_mention(
            match *roles {
                Some(v) => Some(texts_of(v@)),
                None => None,
            },
        ),
{
    match roles {
        Some(mentions) => {
            let mut out = String::new();
            let mut i: usize = 0;
            let ghost all = texts_of(mentions@);
            while i < mentions.len()
                invariant
                    i <= mentions.len(),
                    all == texts_of(mentions@),
                    out@ == spaced(all.take(i as int)),
                decreases mentions.len() - i,
            {
                proof {
                    assert(all.take(i + 1).drop_last() =~= all.take(i as int));
                }
                if i > 0 {
                    out.append(" ");
                }
                out.append(mentions[i].as_str());
                i += 1;
            }
            proof {
                assert(all.take(i as int) =~= all);
            }
            out
        },
        None => String::from_str("Admin(s)"),
    }
}

} // verus!

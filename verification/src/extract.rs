//! Finding address-shaped substrings in message text.

use vstd::prelude::*;
use crate::address::{classified, texts_of, tokens_of, AddressOrAlmost, Token};

verus! {

/// The substrings that the `regex` crate finds for a pattern in a haystack:
/// `None` where the pattern does not compile, else the successive
/// non-overlapping matches from left to right.
pub uninterp spec fn regex_find_all(pattern: Seq<char>, haystack: Seq<char>) -> Option<
    Seq<Seq<char>>,
>;

/// The structural pattern of an address: the prefix `penumbrav`, a version
/// digit, `t1`, and 126 characters of the encoding alphabet.
pub open spec fn address_pattern() -> Seq<char> {
    "penumbrav\\dt1[qpzry9x8gf2tvdw0s3jn54khce6mua7l]{126}"@
}

/// What a list of matches stands for in contracts.
pub open spec fn matches_of(found: Option<Vec<String>>) -> Option<Seq<Seq<char>>> {
    match found {
        Some(v) => Some(texts_of(v@)),
        None => None,
    }
}

/// The tokens that candidates become under the decoder's verdicts, one verdict
/// per candidate in order. A candidate without a verdict counts as not decoded.
pub open spec fn classify_all(candidates: Seq<Seq<char>>, decoded: Seq<bool>) -> Seq<Token> {
    Seq::new(
        candidates.len(),
        |i: int| classified(candidates[i], i < decoded.len() && decoded[i]),
    )
}

/// Calls `regex::Regex::new` on the pattern and, where it compiles,
/// `Regex::find_iter` on the haystack, copying out each match's text. Trusted:
/// the result is what the crate computes from these two strings, `None` exactly
/// when the pattern is rejected.
#[verifier::external_body]
fn find_all(pattern: &str, haystack: &str) -> (found: Option<Vec<String>>)
    ensures
        matches_of(found) == regex_find_all(pattern@, haystack@),
{
    match regex::Regex::new(pattern) {
        Ok(re) => Some(re.find_iter(haystack).map(|m| m.as_str().to_string()).collect()),
        Err(_) => None,
    }
}

/// The address-shaped substrings of a message, left to right. `None` only if
/// the pattern itself were rejected by the matcher.
pub fn address_candidates(text: &str) -> (found: Option<Vec<String>>)
    ensures
        matches_of(found) == regex_find_all(address_pattern(), text@),
{
    find_all("penumbrav\\dt1[qpzry9x8gf2tvdw0s3jn54khce6mua7l]{126}", text)
}

/// Turns candidates into tokens by the decoder's verdicts: candidate `i` is a
/// valid address exactly if `decoded[i]` is present and true.
pub fn tokens_from(candidates: &Vec<String>, decoded: &Vec<bool>) -> (tokens: Vec<AddressOrAlmost>)
    ensures
        tokens_of(tokens@) == classify_all(texts_of(candidates@), decoded@),
{
    let mut tokens: Vec<AddressOrAlmost> = Vec::new();
    let mut i: usize = 0;
    while i < candidates.len()
        invariant
            i <= candidates.len(),
            tokens_of(tokens@) == classify_all(texts_of(candidates@), decoded@).take(i as int),
        decreases candidates.len() - i,
    {
        let verdict = i < decoded.len() && decoded[i];
        let token = AddressOrAlmost::classify(candidates[i].clone(), verdict);
        proof {
            assert(tokens_of(tokens@.push(token)) =~= tokens_of(tokens@).push(token@));
        }
        tokens.push(token);
        i += 1;
    }
    tokens
}

} // verus!

//! Requests: a message together with the address tokens found in it.

use vstd::prelude::*;
use crate::address::{tokens_of, AddressOrAlmost, Token};
use crate::extract::{address_candidates, address_pattern, classify_all, matches_of, regex_find_all, tokens_from};

verus! {

/// What the pipeline keeps of a chat message: enough to reply to it and to
/// read its author and guild.
#[derive(Debug)]
pub struct Message {
    pub id: u64,
    pub channel_id: u64,
    pub guild_id: Option<u64>,
    pub author_id: u64,
    pub author_name: String,
    pub content: String,
}

impl Clone for Message {
    fn clone(&self) -> (m: Message)
        ensures
            m == *self,
    {
        Message {
            id: self.id,
            channel_id: self.channel_id,
            guild_id: self.guild_id,
            author_id: self.author_id,
            author_name: self.author_name.clone(),
            content: self.content.clone(),
        }
    }
}

/// Names the dispatch queue where the chat client keeps its shared handles.
#[derive(Debug, Clone, Copy)]
pub struct RequestQueue;

/// One unit of pipeline work: a message and the tokens scanned from it.
#[derive(Debug)]
pub struct Request {
    message: Message,
    addresses: Vec<AddressOrAlmost>,
}

/// What becomes of a message once its text has been matched: no request where
/// nothing was found, else a request with the classified matches.
pub open spec fn request_tokens(found: Option<Seq<Seq<char>>>, decoded: Seq<bool>) -> Option<
    Seq<Token>,
> {
    match found {
        Some(texts) => if texts.len() == 0 {
            None
        } else {
            Some(classify_all(texts, decoded))
        },
        None => None,
    }
}

impl Request {
    /// The originating message.
    pub closed spec fn origin(&self) -> Message {
        self.message
    }

    /// The tokens of the request, in message order.
    pub closed spec fn tokens(&self) -> Seq<Token> {
        tokens_of(self.addresses@)
    }

    /// A request is never empty.
    pub open spec fn wf(&self) -> bool {
        self.tokens().len() > 0
    }

    /// The originating message.
    pub fn message(&self) -> (m: &Message)
        ensures
            *m == self.origin(),
    {
        &self.message
    }

    /// Gives the originating message back, dropping the tokens.
    pub fn into_message(self) -> (m: Message)
        ensures
            m == self.origin(),
    {
        self.message
    }

    /// The tokens scanned from the message, in order.
    pub fn addresses(&self) -> (a: &Vec<AddressOrAlmost>)
        ensures
            tokens_of(a@) == self.tokens(),
    {
        &self.addresses
    }

    /// Builds the request for a message from the matches found in its text and
    /// the decoder's verdict on each. Without any match the message is handed
    /// back untouched.
    pub fn from_matches(message: Message, found: Option<Vec<String>>, decoded: &Vec<bool>) -> (r:
        Result<Request, Message>)
        ensures
            match request_tokens(matches_of(found), decoded@) {
                Some(tokens) => r is Ok && r->Ok_0.origin() == message && r->Ok_0.tokens()
                    == tokens && r->Ok_0.wf(),
                None => r == Err::<Request, Message>(message),
            },
    {
        match found {
            Some(candidates) => {
                if candidates.len() == 0 {
                    Err(message)
                } else {
                    let addresses = tokens_from(&candidates, decoded);
                    Ok(Request { message, addresses })
                }
            },
            None => Err(message),
        }
    }

    /// Scans the message's text for address-shaped substrings and builds the
    /// request from them, candidate `i` being valid exactly if `decoded[i]` is
    /// present and true. A message without any is handed back untouched.
    pub fn try_from_message(message: Message, decoded: &Vec<bool>) -> (r: Result<Request, Message>)
        ensures
            match request_tokens(regex_find_all(address_pattern(), message.content@), decoded@) {
                Some(tokens) => r is Ok && r->Ok_0.origin() == message && r->Ok_0.tokens()
                    == tokens && r->Ok_0.wf(),
                None => r == Err::<Request, Message>(message),
            },
    {
        let found = address_candidates(message.content.as_str());
        Request::from_matches(message, found, decoded)
    }
}

} // verus!

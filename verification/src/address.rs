//! Addresses and the tokens that message text is scanned into.

use vstd::prelude::*;

verus! {

/// What a scanned token is, in contracts: the text of an address that decoded,
/// or the text of an address-shaped substring that did not.
pub enum Token {
    Valid(Seq<char>),
    Malformed(Seq<char>),
}

/// An account address that decoded successfully, held as the text it is written in.
#[derive(Debug)]
pub struct Address {
    pub text: String,
}

impl View for Address {
    type V = Seq<char>;

    open spec fn view(&self) -> Seq<char> {
        self.text@
    }
}

impl Clone for Address {
    fn clone(&self) -> (r: Address)
        ensures
            r@ == self@,
    {
        Address { text: self.text.clone() }
    }
}

impl Address {
    /// Wraps the text of an address that the ledger's decoder accepted.
    pub fn new(text: String) -> (a: Address)
        ensures
            a@ == text@,
    {
        Address { text }
    }

    /// The address as it is written.
    pub fn as_str(&self) -> (s: &str)
        ensures
            s@ == self@,
    {
        self.text.as_str()
    }
}

/// An address-shaped substring of a message: a decoded address, or the literal
/// text of one that looks like an address but failed to decode.
#[derive(Debug)]
pub enum AddressOrAlmost {
    Address(Address),
    Almost(String),
}

impl View for AddressOrAlmost {
    type V = Token;

    open spec fn view(&self) -> Token {
        match self {
            AddressOrAlmost::Address(a) => Token::Valid(a@),
            AddressOrAlmost::Almost(s) => Token::Malformed(s@),
        }
    }
}

impl Clone for AddressOrAlmost {
    fn clone(&self) -> (r: AddressOrAlmost)
        ensures
            r@ == self@,
    {
        match self {
            AddressOrAlmost::Address(a) => AddressOrAlmost::Address(a.clone()),
            AddressOrAlmost::Almost(s) => AddressOrAlmost::Almost(s.clone()),
        }
    }
}

impl AddressOrAlmost {
    /// Files an address-shaped substring by whether the ledger's decoder accepted it.
    pub fn classify(text: String, decoded: bool) -> (t: AddressOrAlmost)
        ensures
            t@ == classified(text@, decoded),
    {
        if decoded {
            AddressOrAlmost::Address(Address::new(text))
        } else {
            AddressOrAlmost::Almost(text)
        }
    }

    /// The token's text, whichever variant it is.
    pub fn as_str(&self) -> (s: &str)
        ensures
            s@ == token_text(self@),
    {
        match self {
            AddressOrAlmost::Address(a) => a.as_str(),
            AddressOrAlmost::Almost(s) => s.as_str(),
        }
    }
}

/// The token that a substring becomes under the decoder's verdict.
pub open spec fn classified(text: Seq<char>, decoded: bool) -> Token {
    if decoded {
        Token::Valid(text)
    } else {
        Token::Malformed(text)
    }
}

/// The text a token was scanned from.
pub open spec fn token_text(t: Token) -> Seq<char> {
    match t {
        Token::Valid(s) => s,
        Token::Malformed(s) => s,
    }
}

/// The tokens that a vector of scanned items stands for.
pub open spec fn tokens_of(v: Seq<AddressOrAlmost>) -> Seq<Token> {
    v.map_values(|t: AddressOrAlmost| t@)
}

/// The texts of a vector of addresses.
pub open spec fn addresses_of(v: Seq<Address>) -> Seq<Seq<char>> {
    v.map_values(|a: Address| a@)
}

/// The contents of a vector of strings.
pub open spec fn texts_of(v: Seq<String>) -> Seq<Seq<char>> {
    v.map_values(|s: String| s@)
}

} // verus!

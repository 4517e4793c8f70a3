use vstd::prelude::*;
use vstd::string::*;
use crate::text::{join2, owned};

verus! {

/// Marks `reqwest::Error`, the failure of a request at the transport level, as a type that
/// verified code may carry.
#[verifier::external_type_specification]
#[verifier::external_body]
pub struct ExTransportError(reqwest::Error);

/// Every way an operation of the client can fail.
#[derive(Debug)]
pub enum ThemisError {
    /// Bad construction input, or a payload that cannot be serialized.
    InvalidConfig(String),
    /// Discovery failed or yielded no shards, or no endpoint is known.
    Topology(String),
    /// A response outside 200..=299, with its status and body.
    Http { status: u16, body: String },
    /// A failure of the HTTP stack: connection, timeout, protocol.
    Transport(reqwest::Error),
    /// A response body that did not decode into the expected shape.
    Serde(String),
    /// A missing transaction id, or use of a finished transaction.
    Transaction(String),
}

/// The character of a decimal digit.
pub open spec fn digit_char(d: nat) -> char {
    if d == 0 {
        '0'
    } else if d == 1 {
        '1'
    } else if d == 2 {
        '2'
    } else if d == 3 {
        '3'
    } else if d == 4 {
        '4'
    } else if d == 5 {
        '5'
    } else if d == 6 {
        '6'
    } else if d == 7 {
        '7'
    } else if d == 8 {
        '8'
    } else {
        '9'
    }
}

/// The decimal digits of a number, most significant first, without sign or padding.
pub open spec fn decimal_of(n: nat) -> Seq<char>
    decreases n,
{
    if n < 10 {
        seq![digit_char(n)]
    } else {
        decimal_of(n / 10).push(digit_char(n % 10))
    }
}

/// The text of one decimal digit.
fn digit_text(d: u16) -> (r: &'static str)
    requires
        d < 10,
    ensures
        r@ == seq![digit_char(d as nat)],
{
    if d == 0 {
        proof { reveal_strlit("0"); }
        "0"
    } else if d == 1 {
        proof { reveal_strlit("1"); }
        "1"
    } else if d == 2 {
        proof { reveal_strlit("2"); }
        "2"
    } else if d == 3 {
        proof { reveal_strlit("3"); }
        "3"
    } else if d == 4 {
        proof { reveal_strlit("4"); }
        "4"
    } else if d == 5 {
        proof { reveal_strlit("5"); }
        "5"
    } else if d == 6 {
        proof { reveal_strlit("6"); }
        "6"
    } else if d == 7 {
        proof { reveal_strlit("7"); }
        "7"
    } else if d == 8 {
        proof { reveal_strlit("8"); }
        "8"
    } else {
        proof { reveal_strlit("9"); }
        "9"
    }
}

/// Writes a number in decimal.
pub fn decimal_text(n: u16) -> (r: String)
    ensures
        r@ == decimal_of(n as nat),
    decreases n,
{
    if n < 10 {
        owned(digit_text(n))
    } else {
        let head = decimal_text(n / 10);
        head.concat(digit_text(n % 10))
    }
}

/// What `reqwest::Error`'s `Display` writes for an error.
pub uninterp spec fn transport_text_of(e: reqwest::Error) -> Seq<char>;

/// Relies on `reqwest::Error`'s `Display` (through `ToString`), for the text of a transport
/// failure; the text depends on the error alone.
#[verifier::external_body]
fn transport_text(e: &reqwest::Error) -> (r: String)
    ensures
        r@ == transport_text_of(*e),
{
    e.to_string()
}

/// The human-readable text of an error.
pub open spec fn message_of(e: ThemisError) -> Seq<char> {
    match e {
        ThemisError::InvalidConfig(m) => "invalid configuration: "@ + m@,
        ThemisError::Topology(m) => "topology error: "@ + m@,
        ThemisError::Http { status, body } => "http error: "@ + decimal_of(status as nat) + " "@
            + body@,
        ThemisError::Serde(m) => "serialization error: "@ + m@,
        ThemisError::Transaction(m) => "transaction error: "@ + m@,
        ThemisError::Transport(t) => transport_text_of(t),
    }
}

impl ThemisError {
    /// The text of the error; a transport failure reads as the HTTP stack wrote it.
    pub fn message(&self) -> (r: String)
        ensures
            r@ == message_of(*self),
    {
        match self {
            ThemisError::InvalidConfig(m) => join2("invalid configuration: ", m.as_str()),
            ThemisError::Topology(m) => join2("topology error: ", m.as_str()),
            ThemisError::Http { status, body } => {
                let r = owned("http error: ");
                let digits = decimal_text(*status);
                let r = r.concat(digits.as_str());
                let r = r.concat(" ");
                r.concat(body.as_str())
            },
            ThemisError::Transport(e) => transport_text(e),
            ThemisError::Serde(m) => join2("serialization error: ", m.as_str()),
            ThemisError::Transaction(m) => join2("transaction error: ", m.as_str()),
        }
    }
}

} // verus!

//! The replies of the greeting service.

use vstd::prelude::*;
use vstd::string::StringExecFns;

verus! {

/// The class of a refused request.
#[derive(Debug, Clone, Copy, PartialEq, Eq, Structural)]
pub enum Code {
    /// The request itself is at fault.
    InvalidArgument,
    /// Nothing more is known.
    Unknown,
}

/// A refused request, with the words that say why.
#[derive(Debug)]
pub struct Status {
    /// The class of the refusal.
    pub code: Code,
    /// Why the request was refused.
    pub message: String,
}

/// The number of replies that one request for many replies gets.
pub const REPLIES: u32 = 3;

/// The character of a decimal digit.
pub open spec fn digit_char(digit: nat) -> char {
    if digit == 0 {
        '0'
    } else if digit == 1 {
        '1'
    } else if digit == 2 {
        '2'
    } else if digit == 3 {
        '3'
    } else if digit == 4 {
        '4'
    } else if digit == 5 {
        '5'
    } else if digit == 6 {
        '6'
    } else if digit == 7 {
        '7'
    } else if digit == 8 {
        '8'
    } else {
        '9'
    }
}

/// The decimal digits of a number, most significant first, without leading
/// zeros.
pub open spec fn decimal_text(n: nat) -> Seq<char>
    decreases n,
{
    if n < 10 {
        seq![digit_char(n)]
    } else {
        decimal_text(n / 10).push(digit_char(n % 10))
    }
}

/// The text `Hello <name>! (<peer>)`.
pub open spec fn greeting_text(name: Seq<char>, peer: Seq<char>) -> Seq<char> {
    "Hello "@ + name + "! ("@ + peer + ")"@
}

/// The text `Hi <name>!`.
pub open spec fn plain_greeting_text(name: Seq<char>) -> Seq<char> {
    "Hi "@ + name + "!"@
}

/// The text `<index>: Hello <name>! (<peer>)`.
pub open spec fn numbered_greeting_text(index: nat, name: Seq<char>, peer: Seq<char>) -> Seq<char> {
    decimal_text(index) + ": "@ + greeting_text(name, peer)
}

/// The names, each with a blank before it.
pub open spec fn spaced(names: Seq<String>) -> Seq<char>
    decreases names.len(),
{
    if names.len() == 0 {
        Seq::empty()
    } else {
        spaced(names.drop_last()) + " "@ + names.last()@
    }
}

/// The text `Hello <name> <name> ..! (<peer>)`, with every name of `names`.
pub open spec fn joined_greeting_text(names: Seq<String>, peer: Seq<char>) -> Seq<char> {
    "Hello"@ + spaced(names) + "! ("@ + peer + ")"@
}

/// The one-character string of a decimal digit.
fn digit(value: u32) -> (text: &'static str)
    requires
        value < 10,
    ensures
        text@ == seq![digit_char(value as nat)],
{
    proof {
        reveal_strlit("0");
        reveal_strlit("1");
        reveal_strlit("2");
        reveal_strlit("3");
        reveal_strlit("4");
        reveal_strlit("5");
        reveal_strlit("6");
        reveal_strlit("7");
        reveal_strlit("8");
        reveal_strlit("9");
    }
    let text = if value == 0 {
        "0"
    } else if value == 1 {
        "1"
    } else if value == 2 {
        "2"
    } else if value == 3 {
        "3"
    } else if value == 4 {
        "4"
    } else if value == 5 {
        "5"
    } else if value == 6 {
        "6"
    } else if value == 7 {
        "7"
    } else if value == 8 {
        "8"
    } else {
        "9"
    };
    text
}

/// The decimal digits of `n`.
pub fn decimal(n: u32) -> (text: String)
    ensures
        text@ == decimal_text(n as nat),
    decreases n,
{
    if n < 10 {
        String::from_str(digit(n))
    } else {
        let text = decimal(n / 10).concat(digit(n % 10));
        text
    }
}

/// The greeting of `name`, who called from `peer`.
pub fn greeting(name: &str, peer: &str) -> (text: String)
    ensures
        text@ == greeting_text(name@, peer@),
{
    let mut text = String::from_str("Hello ");
    text.append(name);
    text.append("! (");
    text.append(peer);
    text.append(")");
    text
}

/// The greeting of `name` that does not say where the call came from.
pub fn plain_greeting(name: &str) -> (text: String)
    ensures
        text@ == plain_greeting_text(name@),
{
    let mut text = String::from_str("Hi ");
    text.append(name);
    text.append("!");
    text
}

/// The reply to one greeting request: the greeting, unless the name is
/// `error`, which is refused as an invalid argument with the words `error!`.
pub fn say_hello(name: &str, peer: &str) -> (reply: Result<String, Status>)
    ensures
        name@ == "error"@ ==> (reply matches Err(status) && status.code == Code::InvalidArgument
            && status.message@ == "error!"@),
        name@ != "error"@ ==> (reply matches Ok(text) && text@ == greeting_text(name@, peer@)),
{
    if String::from_str(name) == String::from_str("error") {
        Err(Status { code: Code::InvalidArgument, message: String::from_str("error!") })
    } else {
        Ok(greeting(name, peer))
    }
}

/// The next reply to a request for many replies, of which `sent` were
/// sent: a numbered greeting while fewer than three were sent, and then the
/// refusal `EOF` that ends the stream.
pub fn lots_of_replies(sent: u32, name: &str, peer: &str) -> (reply: Result<String, Status>)
    ensures
        sent < REPLIES ==> (reply matches Ok(text) && text@ == numbered_greeting_text(
            sent as nat,
            name@,
            peer@,
        )),
        sent >= REPLIES ==> (reply matches Err(status) && status.code == Code::Unknown
            && status.message@ == "EOF"@),
{
    if sent < REPLIES {
        let mut text = decimal(sent);
        text.append(": ");
        let rest = greeting(name, peer);
        text.append(rest.as_str());
        Ok(text)
    } else {
        Err(Status { code: Code::Unknown, message: String::from_str("EOF") })
    }
}

/// The reply to a stream of greeting requests: one greeting of all the
/// names, in the order they came.
pub fn lots_of_greetings(names: &Vec<String>, peer: &str) -> (text: String)
    ensures
        text@ == joined_greeting_text(names@, peer@),
{
    let mut all = String::new();
    let mut i: usize = 0;
    while i < names.len()
        invariant
            i <= names.len(),
            all@ == spaced(names@.take(i as int)),
        decreases names.len() - i,
    {
        all.append(" ");
        all.append(names[i].as_str());
        proof {
            let upto = names@.take(i + 1);
            assert(upto.drop_last() =~= names@.take(i as int));
        }
        i = i + 1;
    }
    assert(names@.take(i as int) =~= names@);
    let mut text = String::from_str("Hello");
    text.append(all.as_str());
    text.append("! (");
    text.append(peer);
    text.append(")");
    text
}

/// The reply to each request of a two-way stream: its greeting.
pub fn bidi_hello(name: &str, peer: &str) -> (text: String)
    ensures
        text@ == greeting_text(name@, peer@),
{
    greeting(name, peer)
}

} // verus!

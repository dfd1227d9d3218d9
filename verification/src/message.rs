//! The log text of the player's messages: the message's name and, for some
//! messages, a short summary of their data. Large lists show only how many
//! items they hold, and texts the user typed (a proxy password, a search,
//! a field being edited) never show.

use vstd::prelude::*;

use crate::session::signed_decimal;
use crate::strings::string_push;
use crate::text::{decimal, push_decimal, push_str};

verus! {

/// What the log text of a message shows besides its name.
#[derive(Debug)]
pub enum MessageDetail {
    /// Nothing but the name.
    Bare,
    /// A number of items and what they are: `Name(N noun)`.
    Count(u64, String),
    /// An id: `Name(id=N)`.
    Id(i64),
    /// An id and a number of items: `Name(id=N, M noun)`.
    IdCount(i64, u64, String),
    /// A number: `Name(N)`.
    Number(i64),
    /// A flag: `Name(true)` or `Name(false)`.
    Flag(bool),
    /// A text shown as it is: `Name(text)`.
    Text(String),
    /// A text the user typed: only the name shows.
    Private(String),
}

/// A message as its log text sees it.
#[derive(Debug)]
pub struct MessageSummary {
    pub name: String,
    pub detail: MessageDetail,
}

/// The log text of a message.
pub open spec fn message_text(m: MessageSummary) -> Seq<char> {
    let n = m.name@;
    match m.detail {
        MessageDetail::Bare => n,
        MessageDetail::Private(_) => n,
        MessageDetail::Count(c, noun) => n + "("@ + decimal(c as nat) + " "@ + noun@ + ")"@,
        MessageDetail::Id(id) => n + "(id="@ + signed_decimal(id as int) + ")"@,
        MessageDetail::IdCount(id, c, noun) => n + "(id="@ + signed_decimal(id as int) + ", "@
            + decimal(c as nat) + " "@ + noun@ + ")"@,
        MessageDetail::Number(v) => n + "("@ + signed_decimal(v as int) + ")"@,
        MessageDetail::Flag(b) => n + "("@ + (if b {
            "true"@
        } else {
            "false"@
        }) + ")"@,
        MessageDetail::Text(t) => n + "("@ + t@ + ")"@,
    }
}

/// Appends a signed number in decimal.
fn push_signed(s: &mut String, n: i64)
    ensures
        final(s)@ == old(s)@ + signed_decimal(n as int),
{
    if n < 0 {
        string_push(s, '-');
        let m: u64 = if n == i64::MIN {
            0x8000_0000_0000_0000u64
        } else {
            (-n) as u64
        };
        push_decimal(s, m);
        assert(final(s)@ =~= old(s)@ + signed_decimal(n as int));
    } else {
        push_decimal(s, n as u64);
    }
}

/// The log text of a message.
pub fn describe_message(m: &MessageSummary) -> (r: String)
    ensures
        r@ == message_text(*m),
{
    let mut s = String::new();
    push_str(&mut s, m.name.as_str());
    match &m.detail {
        MessageDetail::Bare => {},
        MessageDetail::Private(_) => {},
        MessageDetail::Count(c, noun) => {
            push_str(&mut s, "(");
            push_decimal(&mut s, *c);
            push_str(&mut s, " ");
            push_str(&mut s, noun.as_str());
            push_str(&mut s, ")");
        },
        MessageDetail::Id(id) => {
            push_str(&mut s, "(id=");
            push_signed(&mut s, *id);
            push_str(&mut s, ")");
        },
        MessageDetail::IdCount(id, c, noun) => {
            push_str(&mut s, "(id=");
            push_signed(&mut s, *id);
            push_str(&mut s, ", ");
            push_decimal(&mut s, *c);
            push_str(&mut s, " ");
            push_str(&mut s, noun.as_str());
            push_str(&mut s, ")");
        },
        MessageDetail::Number(v) => {
            push_str(&mut s, "(");
            push_signed(&mut s, *v);
            push_str(&mut s, ")");
        },
        MessageDetail::Flag(b) => {
            push_str(&mut s, "(");
            if *b {
                push_str(&mut s, "true");
            } else {
                push_str(&mut s, "false");
            }
            push_str(&mut s, ")");
        },
        MessageDetail::Text(t) => {
            push_str(&mut s, "(");
            push_str(&mut s, t.as_str());
            push_str(&mut s, ")");
        },
    }
    assert(s@ =~= message_text(*m));
    s
}

/// A text the user typed never reaches the log: the log text of such a
/// message is its name, whatever the text.
pub proof fn lemma_private_text_left_out(name: String, a: String, b: String)
    ensures
        message_text(MessageSummary { name, detail: MessageDetail::Private(a) }) == name@,
        message_text(MessageSummary { name, detail: MessageDetail::Private(a) }) == message_text(
            MessageSummary { name, detail: MessageDetail::Private(b) },
        ),
{
}

} // verus!

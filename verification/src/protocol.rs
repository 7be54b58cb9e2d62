//! The messages that two peers exchange, and how they are written on the
//! wire: a JSON object with the members `event` and `data`.
use crate::fault::Fault;
use crate::wire::{
    ends_at, holds_at, lemma_holds_split, lemma_member_text, member_at, member_text, punct_at,
    quote, quoted, same_text, string_value, Text,
};
use vstd::prelude::*;
use vstd::string::*;

verus! {

/// The kind of a [`Message`].
#[derive(Clone, Copy, Debug, PartialEq, Eq, Structural)]
pub enum Event {
    /// Tells a peer its role; `data` is `"1"` for the caller, `"0"` for the
    /// callee.
    Passphrase,
    /// A session description that opens a negotiation.
    Offer,
    /// A session description that answers an offer.
    Answer,
    /// A connectivity candidate.
    IceCandidate,
}

/// A general message exchanged over the transport.
#[derive(Debug, PartialEq, Eq)]
pub struct Message {
    pub event: Event,
    pub data: String,
}

impl Clone for Message {
    fn clone(&self) -> (copy: Message)
        ensures
            copy == *self,
    {
        Message { event: self.event, data: self.data.clone() }
    }
}

/// Mathematical value of a [`Message`].
pub struct MessageView {
    pub event: Event,
    pub data: Seq<char>,
}

impl View for Message {
    type V = MessageView;

    open spec fn view(&self) -> MessageView {
        MessageView { event: self.event, data: self.data@ }
    }
}

/// The name under which an event kind is written.
pub open spec fn event_name(event: Event) -> Seq<char> {
    match event {
        Event::Passphrase => "Passphrase"@,
        Event::Offer => "Offer"@,
        Event::Answer => "Answer"@,
        Event::IceCandidate => "IceCandidate"@,
    }
}

/// The event kind that a name stands for.
pub open spec fn event_named(name: Seq<char>) -> Option<Event> {
    if name == "Passphrase"@ {
        Some(Event::Passphrase)
    } else if name == "Offer"@ {
        Some(Event::Offer)
    } else if name == "Answer"@ {
        Some(Event::Answer)
    } else if name == "IceCandidate"@ {
        Some(Event::IceCandidate)
    } else {
        None
    }
}

/// Every event kind is found again under its name.
pub proof fn law_event_is_found_by_name(event: Event)
    ensures
        event_named(event_name(event)) == Some(event),
{
    reveal_strlit("Passphrase");
    reveal_strlit("Offer");
    reveal_strlit("Answer");
    reveal_strlit("IceCandidate");
    assert("Passphrase"@.len() == 10);
    assert("Offer"@.len() == 5);
    assert("Answer"@.len() == 6);
    assert("IceCandidate"@.len() == 12);
}

impl Event {
    /// The name under which this kind is written.
    pub fn name(&self) -> (name: &'static str)
        ensures
            name@ == event_name(*self),
    {
        match self {
            Event::Passphrase => "Passphrase",
            Event::Offer => "Offer",
            Event::Answer => "Answer",
            Event::IceCandidate => "IceCandidate",
        }
    }

    /// The kind that `name` stands for.
    pub fn from_name(name: &str) -> (event: Option<Event>)
        ensures
            event == event_named(name@),
    {
        if same_text(name, "Passphrase") {
            Some(Event::Passphrase)
        } else if same_text(name, "Offer") {
            Some(Event::Offer)
        } else if same_text(name, "Answer") {
            Some(Event::Answer)
        } else if same_text(name, "IceCandidate") {
            Some(Event::IceCandidate)
        } else {
            None
        }
    }
}

/// How a message is written on the wire: one JSON object, `event` before
/// `data`, nothing between the tokens.
pub open spec fn message_text(message: MessageView) -> Seq<char> {
    seq!['{'] + (member_text("event"@, event_name(message.event)) + (seq![','] + (member_text(
        "data"@,
        message.data,
    ) + seq!['}'])))
}

/// The two members of a written message, as (event name, data): one JSON
/// object with exactly the members `event` and `data`, in either order,
/// both strings, with white space allowed around every token.
#[verifier::opaque]
pub open spec fn message_members(s: Seq<char>) -> Option<(Seq<char>, Seq<char>)> {
    match punct_at(s, 0, '{') {
        Some(a) => match member_at(s, a) {
            Some((first_key, first_value, b)) => match punct_at(s, b, ',') {
                Some(c) => match member_at(s, c) {
                    Some((second_key, second_value, d)) => match punct_at(s, d, '}') {
                        Some(e) => if !ends_at(s, e) {
                            None
                        } else if first_key == "event"@ && second_key == "data"@ {
                            Some((first_value, second_value))
                        } else if first_key == "data"@ && second_key == "event"@ {
                            Some((second_value, first_value))
                        } else {
                            None
                        },
                        None => None,
                    },
                    None => None,
                },
                None => None,
            },
            None => None,
        },
        None => None,
    }
}

/// The message that a text frame holds, if it holds one.
pub open spec fn parse_message(s: Seq<char>) -> Option<MessageView> {
    match message_members(s) {
        Some((name, data)) => match event_named(name) {
            Some(event) => Some(MessageView { event, data }),
            None => None,
        },
        None => None,
    }
}

/// Whether a frame is read back as the message that it was written from.
pub open spec fn readable(frame: Seq<char>) -> bool {
    parse_message(frame) matches Some(message) && message_text(message) == frame
}

/// Where the tokens of a written message stand in its text.
proof fn lemma_message_layout(message: MessageView)
    ensures
        ({
            let s = message_text(message);
            let first = member_text("event"@, event_name(message.event));
            let second = member_text("data"@, message.data);
            &&& s.len() == first.len() + second.len() + 3
            &&& s[0] == '{'
            &&& holds_at(s, 1, first)
            &&& s[1 + first.len() as int] == ','
            &&& holds_at(s, 2 + first.len() as int, second)
            &&& s[2 + first.len() as int + second.len() as int] == '}'
        }),
{
    let s = message_text(message);
    let first = member_text("event"@, event_name(message.event));
    let second = member_text("data"@, message.data);
    let open = seq!['{'];
    let comma = seq![','];
    let close = seq!['}'];
    let b: int = 1 + first.len() as int;
    let d: int = b + 1 + second.len() as int;
    assert(holds_at(s, 0, s)) by {
        assert(s.subrange(0, s.len() as int) == s);
    }
    lemma_holds_split(s, 0, open, first + (comma + (second + close)));
    lemma_holds_split(s, 1, first, comma + (second + close));
    lemma_holds_split(s, b, comma, second + close);
    lemma_holds_split(s, b + 1, second, close);
    assert(s[0] == '{') by {
        assert(s.subrange(0, 1)[0] == open[0]);
    }
    assert(s[b] == ',') by {
        assert(s.subrange(b, b + 1)[0] == comma[0]);
    }
    assert(s[d] == '}') by {
        assert(s.subrange(d, d + 1)[0] == close[0]);
    }
}

/// A written message is read back as the message it was written from,
/// provided that each of its four string tokens is read back as the string
/// it stands for.
proof fn lemma_written_message_parses(message: MessageView)
    requires
        string_value(quoted("event"@)) == Some("event"@),
        string_value(quoted("data"@)) == Some("data"@),
        string_value(quoted(event_name(message.event))) == Some(event_name(message.event)),
        string_value(quoted(message.data)) == Some(message.data),
    ensures
        parse_message(message_text(message)) == Some(message),
{
    let s = message_text(message);
    let name = event_name(message.event);
    let b: int = 1 + member_text("event"@, name).len() as int;
    let d: int = b + 1 + member_text("data"@, message.data).len() as int;
    lemma_message_layout(message);
    assert(punct_at(s, 0, '{') == Some(1int));
    assert(member_at(s, 1) == Some(("event"@, name, b))) by {
        lemma_member_text(s, 1, "event"@, name);
    }
    assert(punct_at(s, b, ',') == Some(b + 1));
    assert(member_at(s, b + 1) == Some(("data"@, message.data, d))) by {
        lemma_member_text(s, b + 1, "data"@, message.data);
    }
    assert(punct_at(s, d, '}') == Some(d + 1));
    assert(ends_at(s, d + 1));
    assert(message_members(s) == Some((name, message.data))) by {
        reveal(message_members);
    }
    law_event_is_found_by_name(message.event);
}

impl Message {
    /// Writes the message as one text frame.
    ///
    /// The frame is read back by [`Message::from_json`] as this message.
    pub fn to_json(&self) -> (text: String)
        ensures
            text@ == message_text(self@),
            parse_message(text@) == Some(self@),
    {
        let event_key = quote("event");
        let name = quote(self.event.name());
        let data_key = quote("data");
        let data = quote(self.data.as_str());
        let mut text = "{".to_owned();
        text.append(event_key.as_str());
        text.append(":");
        text.append(name.as_str());
        text.append(",");
        text.append(data_key.as_str());
        text.append(":");
        text.append(data.as_str());
        text.append("}");
        proof {
            reveal_strlit("{");
            reveal_strlit(":");
            reveal_strlit(",");
            reveal_strlit("}");
            assert("{"@ =~= seq!['{']);
            assert(":"@ =~= seq![':']);
            assert(","@ =~= seq![',']);
            assert("}"@ =~= seq!['}']);
            assert(text@ =~= message_text(self@));
            lemma_written_message_parses(self@);
        }
        text
    }

    /// Reads a message from one text frame.
    ///
    /// A frame that does not hold exactly one message is a protocol
    /// violation.
    pub fn from_json(text: &str) -> (read: Result<Message, Fault>)
        ensures
            match read {
                Ok(message) => parse_message(text@) == Some(message@),
                Err(fault) => parse_message(text@) is None && fault == Fault::ProtocolViolation,
            },
    {
        proof {
            reveal(message_members);
        }
        let frame = Text::new(text);
        let a = match frame.punct(0, '{') {
            Some(a) => a,
            None => { return Err(Fault::ProtocolViolation); },
        };
        let (first_key, first_value, b) = match frame.member(a) {
            Some(member) => member,
            None => { return Err(Fault::ProtocolViolation); },
        };
        let c = match frame.punct(b, ',') {
            Some(c) => c,
            None => { return Err(Fault::ProtocolViolation); },
        };
        let (second_key, second_value, d) = match frame.member(c) {
            Some(member) => member,
            None => { return Err(Fault::ProtocolViolation); },
        };
        let e = match frame.punct(d, '}') {
            Some(e) => e,
            None => { return Err(Fault::ProtocolViolation); },
        };
        if !frame.ends(e) {
            return Err(Fault::ProtocolViolation);
        }
        let (name, data) = if same_text(first_key.as_str(), "event") && same_text(
            second_key.as_str(),
            "data",
        ) {
            (first_value, second_value)
        } else if same_text(first_key.as_str(), "data") && same_text(second_key.as_str(), "event") {
            (second_value, first_value)
        } else {
            return Err(Fault::ProtocolViolation);
        };
        match Event::from_name(name.as_str()) {
            Some(event) => Ok(Message { event, data }),
            None => Err(Fault::ProtocolViolation),
        }
    }
}

} // verus!

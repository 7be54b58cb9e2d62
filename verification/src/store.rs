//! The mailbox store as this library sees it: the commands it is sent, the
//! answers it gives, and what each answer means for the operation that
//! asked.
//!
//! The store is a key-value service with lists. A command is a list of
//! words, posted as a JSON array of strings; an answer is a JSON object with
//! one member, `result` or `error`.
use crate::wire::{
    ends_at, null_at, number_at, punct_at, quote, quoted, same_text, skip_spaces, string_at, Text,
};
use vstd::prelude::*;
use vstd::string::*;

verus! {

/// What a command resulted in.
#[derive(Debug, PartialEq, Eq)]
pub enum Value {
    /// Nothing: the key was taken, or the list was empty.
    Null,
    /// A string: an acknowledgement, or an element of a list.
    Str(String),
    /// A count: the length of a list, or the number of keys removed.
    Int(u32),
}

/// An answer of the store.
#[derive(Debug, PartialEq, Eq)]
pub enum Response {
    /// The command was carried out.
    Result(Value),
    /// The store refused the command, and says why.
    Error(String),
}

/// Mathematical value of a [`Value`].
pub enum ValueView {
    Null,
    Str(Seq<char>),
    Int(u32),
}

/// Mathematical value of a [`Response`].
pub enum ResponseView {
    Result(ValueView),
    Error(Seq<char>),
}

impl View for Value {
    type V = ValueView;

    open spec fn view(&self) -> ValueView {
        match self {
            Value::Null => ValueView::Null,
            Value::Str(s) => ValueView::Str(s@),
            Value::Int(n) => ValueView::Int(*n),
        }
    }
}

impl View for Response {
    type V = ResponseView;

    open spec fn view(&self) -> ResponseView {
        match self {
            Response::Result(value) => ResponseView::Result(value@),
            Response::Error(message) => ResponseView::Error(message@),
        }
    }
}

/// The value written at `i`: the word `null`, a string token or a number
/// token, and the position after it.
pub open spec fn value_at(s: Seq<char>, i: int) -> Option<(ValueView, int)> {
    if null_at(s, i) {
        Some((ValueView::Null, i + 4))
    } else {
        match string_at(s, i) {
            Some((text, next)) => Some((ValueView::Str(text), next)),
            None => match number_at(s, i) {
                Some((n, next)) => Some((ValueView::Int(n), next)),
                None => None,
            },
        }
    }
}

/// Whether the object is closed at or after `i` and nothing follows.
pub open spec fn closes_at(s: Seq<char>, i: int) -> bool {
    match punct_at(s, i, '}') {
        Some(end) => ends_at(s, end),
        None => false,
    }
}

/// The answer that a body holds, if it holds one: a JSON object with the one
/// member `result`, whose value is `null`, a string or a number that a `u32`
/// holds, or with the one member `error`, whose value is a string.
#[verifier::opaque]
pub open spec fn parse_response(s: Seq<char>) -> Option<ResponseView> {
    match punct_at(s, 0, '{') {
        Some(a) => match string_at(s, skip_spaces(s, a)) {
            Some((key, b)) => match punct_at(s, b, ':') {
                Some(c) => {
                    let at = skip_spaces(s, c);
                    if key == "result"@ {
                        match value_at(s, at) {
                            Some((value, d)) => if closes_at(s, d) {
                                Some(ResponseView::Result(value))
                            } else {
                                None
                            },
                            None => None,
                        }
                    } else if key == "error"@ {
                        match string_at(s, at) {
                            Some((message, d)) => if closes_at(s, d) {
                                Some(ResponseView::Error(message))
                            } else {
                                None
                            },
                            None => None,
                        }
                    } else {
                        None
                    }
                },
                None => None,
            },
            None => None,
        },
        None => None,
    }
}

/// The answer that came with `status` and `body`, as far as it can be used:
/// only a body that came with status 200 counts.
pub open spec fn answer_of(status: u16, body: Seq<char>) -> Option<ResponseView> {
    if status == 200 {
        parse_response(body)
    } else {
        None
    }
}

fn read_value(frame: &Text, at: usize) -> (found: Option<(Value, usize)>)
    ensures
        match found {
            Some((value, next)) => value_at(frame@, at as int) == Some((value@, next as int)) && at
                < next <= frame@.len(),
            None => value_at(frame@, at as int) is None,
        },
{
    if frame.null(at) {
        Some((Value::Null, at + 4))
    } else {
        match frame.string(at) {
            Some((text, next)) => Some((Value::Str(text), next)),
            None => match frame.number(at) {
                Some((n, next)) => Some((Value::Int(n), next)),
                None => None,
            },
        }
    }
}

fn closes(frame: &Text, at: usize) -> (closed: bool)
    ensures
        closed == closes_at(frame@, at as int),
{
    match frame.punct(at, '}') {
        Some(end) => frame.ends(end),
        None => false,
    }
}

impl Response {
    /// Reads an answer from the body of a reply.
    pub fn from_json(body: &str) -> (read: Option<Response>)
        ensures
            match read {
                Some(response) => parse_response(body@) == Some(response@),
                None => parse_response(body@) is None,
            },
    {
        proof {
            reveal(parse_response);
        }
        let frame = Text::new(body);
        let a = match frame.punct(0, '{') {
            Some(a) => a,
            None => { return None; },
        };
        let (key, b) = match frame.string(frame.skip_spaces(a)) {
            Some(found) => found,
            None => { return None; },
        };
        let c = match frame.punct(b, ':') {
            Some(c) => c,
            None => { return None; },
        };
        let at = frame.skip_spaces(c);
        if same_text(key.as_str(), "result") {
            match read_value(&frame, at) {
                Some((value, d)) => if closes(&frame, d) {
                    Some(Response::Result(value))
                } else {
                    None
                },
                None => None,
            }
        } else if same_text(key.as_str(), "error") {
            match frame.string(at) {
                Some((message, d)) => if closes(&frame, d) {
                    Some(Response::Error(message))
                } else {
                    None
                },
                None => None,
            }
        } else {
            None
        }
    }

    /// Reads the answer that came with `status` and `body`.
    pub fn answer(status: u16, body: &str) -> (read: Option<Response>)
        ensures
            match read {
                Some(response) => answer_of(status, body@) == Some(response@),
                None => answer_of(status, body@) is None,
            },
    {
        if status == 200 {
            Response::from_json(body)
        } else {
            None
        }
    }
}

/// The words of a command, as texts.
pub open spec fn words(command: Seq<String>) -> Seq<Seq<char>> {
    Seq::new(command.len(), |i: int| command[i]@)
}

/// Claims `key` if nobody holds it: `set key "" nx`.
pub open spec fn set_nx_command(key: Seq<char>) -> Seq<Seq<char>> {
    seq!["set"@, key, ""@, "nx"@]
}

/// Puts `element` into the mailbox `key`: a push at the head of the list.
pub open spec fn send_command(key: Seq<char>, element: Seq<char>) -> Seq<Seq<char>> {
    seq!["lpush"@, key, element]
}

/// Takes the oldest element out of the mailbox `key`: a pop at the tail of
/// the list.
pub open spec fn receive_command(key: Seq<char>) -> Seq<Seq<char>> {
    seq!["rpop"@, key]
}

/// Removes `keys`.
pub open spec fn del_keys_command(keys: Seq<Seq<char>>) -> Seq<Seq<char>> {
    seq!["del"@] + keys
}

/// The string tokens of `parts`, with commas between them.
pub open spec fn joined(parts: Seq<Seq<char>>) -> Seq<char>
    decreases parts.len(),
{
    if parts.len() == 0 {
        Seq::empty()
    } else if parts.len() == 1 {
        quoted(parts[0])
    } else {
        joined(parts.drop_last()) + seq![','] + quoted(parts.last())
    }
}

/// How a command is written in the body of a request: a JSON array of
/// strings.
pub open spec fn command_text(parts: Seq<Seq<char>>) -> Seq<char> {
    seq!['['] + joined(parts) + seq![']']
}

/// The value of the `Authorization` header for `token`.
pub open spec fn bearer_of(token: Seq<char>) -> Seq<char> {
    "Bearer "@ + token
}

/// The value of the `Authorization` header that the store asks for.
pub fn bearer(token: &str) -> (value: String)
    ensures
        value@ == bearer_of(token@),
{
    "Bearer ".to_owned().concat(token)
}

/// The command that claims `key`. Only the key matters: the value is empty.
/// The store answers `"OK"` if the key was free, and nothing if it was not.
pub fn set_nx(key: &str) -> (command: Vec<String>)
    ensures
        words(command@) == set_nx_command(key@),
{
    let mut command: Vec<String> = Vec::new();
    command.push("set".to_owned());
    command.push(key.to_owned());
    command.push("".to_owned());
    command.push("nx".to_owned());
    assert(words(command@) =~= set_nx_command(key@));
    command
}

/// The command that sends `element` on the channel `key`.
pub fn send(key: &str, element: &str) -> (command: Vec<String>)
    ensures
        words(command@) == send_command(key@, element@),
{
    let mut command: Vec<String> = Vec::new();
    command.push("lpush".to_owned());
    command.push(key.to_owned());
    command.push(element.to_owned());
    assert(words(command@) =~= send_command(key@, element@));
    command
}

/// The command that receives from the channel `key`.
pub fn receive(key: &str) -> (command: Vec<String>)
    ensures
        words(command@) == receive_command(key@),
{
    let mut command: Vec<String> = Vec::new();
    command.push("rpop".to_owned());
    command.push(key.to_owned());
    assert(words(command@) =~= receive_command(key@));
    command
}

/// The command that deletes all of `keys`.
pub fn del_keys(keys: &Vec<String>) -> (command: Vec<String>)
    ensures
        words(command@) == del_keys_command(words(keys@)),
{
    let mut command: Vec<String> = Vec::new();
    command.push("del".to_owned());
    let mut i: usize = 0;
    while i < keys.len()
        invariant
            i <= keys.len(),
            words(command@) == del_keys_command(words(keys@.take(i as int))),
        decreases keys.len() - i,
    {
        let ghost before = command@;
        command.push(keys[i].clone());
        proof {
            assert(words(command@) =~= words(before).push(keys@[i as int]@));
            assert(words(keys@.take(i + 1)) =~= words(keys@.take(i as int)).push(
                keys@[i as int]@,
            ));
            assert(words(command@) =~= del_keys_command(words(keys@.take(i + 1))));
        }
        i = i + 1;
    }
    assert(keys@.take(keys.len() as int) =~= keys@);
    command
}

/// The body of the request that carries the command `parts`.
pub fn command(parts: &Vec<String>) -> (body: String)
    ensures
        body@ == command_text(words(parts@)),
{
    let mut body = "[".to_owned();
    let ghost mut inner: Seq<char> = Seq::empty();
    proof {
        reveal_strlit("[");
        reveal_strlit("]");
        reveal_strlit(",");
        assert("["@ =~= seq!['[']);
        assert("]"@ =~= seq![']']);
        assert(","@ =~= seq![',']);
        assert(body@ =~= seq!['['] + inner);
    }
    let mut i: usize = 0;
    while i < parts.len()
        invariant
            i <= parts.len(),
            ","@ == seq![','],
            body@ == seq!['['] + inner,
            inner == joined(words(parts@).take(i as int)),
        decreases parts.len() - i,
    {
        let token = quote(parts[i].as_str());
        if i > 0 {
            body.append(",");
        }
        body.append(token.as_str());
        proof {
            let before = words(parts@).take(i as int);
            let after = words(parts@).take(i + 1);
            assert(after.drop_last() =~= before);
            assert(after.last() == parts@[i as int]@);
            let ghost grown = joined(after);
            assert(body@ =~= seq!['['] + grown);
            inner = grown;
        }
        i = i + 1;
    }
    body.append("]");
    proof {
        assert(words(parts@).take(parts.len() as int) =~= words(parts@));
    }
    body
}

/// How a claim ended.
#[derive(Clone, Copy, Debug, PartialEq, Eq, Structural)]
pub enum ClaimOutcome {
    /// The key was free and is now held.
    Claimed,
    /// Somebody holds the key already.
    AlreadyExists,
    /// The store could not be asked, or gave no usable answer.
    Error,
}

/// How an enqueue ended.
#[derive(Clone, Copy, Debug, PartialEq, Eq, Structural)]
pub enum EnqueueOutcome {
    /// The value is in the mailbox.
    Accepted,
    /// The store could not be asked, or refused.
    Error,
}

/// How a dequeue ended.
#[derive(Debug, PartialEq, Eq)]
pub enum DequeueOutcome {
    /// The oldest value of the mailbox, which no longer holds it.
    Value(String),
    /// The mailbox holds nothing.
    Empty,
    /// The store could not be asked, or gave no usable answer.
    Error,
}

/// How a deletion ended.
#[derive(Clone, Copy, Debug, PartialEq, Eq, Structural)]
pub enum DeleteOutcome {
    /// The store carried the deletion out.
    Done,
    /// The store could not be asked, or refused.
    Error,
}

/// Mathematical value of a [`DequeueOutcome`].
pub enum DequeueOutcomeView {
    Value(Seq<char>),
    Empty,
    Error,
}

impl View for DequeueOutcome {
    type V = DequeueOutcomeView;

    open spec fn view(&self) -> DequeueOutcomeView {
        match self {
            DequeueOutcome::Value(value) => DequeueOutcomeView::Value(value@),
            DequeueOutcome::Empty => DequeueOutcomeView::Empty,
            DequeueOutcome::Error => DequeueOutcomeView::Error,
        }
    }
}

/// What an answer to a claim means: `"OK"` is a claim, nothing means that
/// the key was taken, and everything else is an error.
pub open spec fn claim_of(answer: Option<ResponseView>) -> ClaimOutcome {
    match answer {
        Some(ResponseView::Result(ValueView::Str(text))) => if text == "OK"@ {
            ClaimOutcome::Claimed
        } else {
            ClaimOutcome::Error
        },
        Some(ResponseView::Result(ValueView::Null)) => ClaimOutcome::AlreadyExists,
        _ => ClaimOutcome::Error,
    }
}

/// What an answer to an enqueue means: any result is an acceptance.
pub open spec fn enqueue_of(answer: Option<ResponseView>) -> EnqueueOutcome {
    match answer {
        Some(ResponseView::Result(_)) => EnqueueOutcome::Accepted,
        _ => EnqueueOutcome::Error,
    }
}

/// What an answer to a dequeue means: a string is the value, nothing means
/// an empty mailbox, and everything else is an error.
pub open spec fn dequeue_of(answer: Option<ResponseView>) -> DequeueOutcomeView {
    match answer {
        Some(ResponseView::Result(ValueView::Str(text))) => DequeueOutcomeView::Value(text),
        Some(ResponseView::Result(ValueView::Null)) => DequeueOutcomeView::Empty,
        _ => DequeueOutcomeView::Error,
    }
}

/// What an answer to a deletion means: any result is a success.
pub open spec fn delete_of(answer: Option<ResponseView>) -> DeleteOutcome {
    match answer {
        Some(ResponseView::Result(_)) => DeleteOutcome::Done,
        _ => DeleteOutcome::Error,
    }
}

/// The view of an answer that may be missing.
pub open spec fn answer_view(answer: Option<Response>) -> Option<ResponseView> {
    match answer {
        Some(response) => Some(response@),
        None => None,
    }
}

/// Tells how a claim ended from the store's answer.
pub fn claim_outcome(answer: Option<Response>) -> (outcome: ClaimOutcome)
    ensures
        outcome == claim_of(answer_view(answer)),
{
    match answer {
        Some(Response::Result(Value::Str(text))) => if same_text(text.as_str(), "OK") {
            ClaimOutcome::Claimed
        } else {
            ClaimOutcome::Error
        },
        Some(Response::Result(Value::Null)) => ClaimOutcome::AlreadyExists,
        _ => ClaimOutcome::Error,
    }
}

/// Tells how an enqueue ended from the store's answer.
pub fn enqueue_outcome(answer: Option<Response>) -> (outcome: EnqueueOutcome)
    ensures
        outcome == enqueue_of(answer_view(answer)),
{
    match answer {
        Some(Response::Result(_)) => EnqueueOutcome::Accepted,
        _ => EnqueueOutcome::Error,
    }
}

/// Tells how a dequeue ended from the store's answer.
pub fn dequeue_outcome(answer: Option<Response>) -> (outcome: DequeueOutcome)
    ensures
        outcome@ == dequeue_of(answer_view(answer)),
{
    match answer {
        Some(Response::Result(Value::Str(text))) => DequeueOutcome::Value(text),
        Some(Response::Result(Value::Null)) => DequeueOutcome::Empty,
        _ => DequeueOutcome::Error,
    }
}

/// Tells how a deletion ended from the store's answer.
pub fn delete_outcome(answer: Option<Response>) -> (outcome: DeleteOutcome)
    ensures
        outcome == delete_of(answer_view(answer)),
{
    match answer {
        Some(Response::Result(_)) => DeleteOutcome::Done,
        _ => DeleteOutcome::Error,
    }
}

} // verus!

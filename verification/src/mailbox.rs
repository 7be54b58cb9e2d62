//! What this library takes the mailbox store to do with the commands it is
//! sent, and what follows from that for two sessions that meet in it.
//!
//! The store is somebody else's service. Nothing here runs: the model says
//! which answers the rest of the library counts on, and the laws below are
//! proved of the commands that the library really sends.
use crate::registry::{passphrase_key_of, RegistryView};
use crate::relay::own_keys;
use crate::store::{
    claim_of, delete_of, del_keys_command, dequeue_of, enqueue_of, receive_command, send_command,
    set_nx_command, ClaimOutcome, DeleteOutcome, DequeueOutcomeView, EnqueueOutcome, ResponseView,
    ValueView,
};
use vstd::prelude::*;

verus! {

/// What the store holds under one key.
pub enum Entry {
    /// A string.
    Text(Seq<char>),
    /// A list, written from its tail to its head: the first item is the one
    /// at the right end, the last item the one at the left end.
    List(Seq<Seq<char>>),
}

/// The state of the store: a finite map from keys to what they hold.
pub struct Mailbox {
    pub entries: Map<Seq<char>, Entry>,
}

/// The answer to a command that the store does not know.
pub open spec fn unknown_command() -> ResponseView {
    ResponseView::Error("ERR unknown command"@)
}

/// The answer to a command that meets a value of the wrong kind.
pub open spec fn wrong_type() -> ResponseView {
    ResponseView::Error("WRONGTYPE Operation against a key holding the wrong kind of value"@)
}

/// The acknowledgement of a `set`.
pub open spec fn acknowledged() -> ResponseView {
    ResponseView::Result(ValueView::Str("OK"@))
}

/// The answer that stands for nothing.
pub open spec fn nothing() -> ResponseView {
    ResponseView::Result(ValueView::Null)
}

/// The answer that carries a count.
pub open spec fn count(n: nat) -> ResponseView {
    ResponseView::Result(ValueView::Int(n as u32))
}

impl Mailbox {
    /// The items waiting under `key`, oldest first as far as they were put
    /// there by pushes at the head; none where the key holds no list.
    pub open spec fn queue(self, key: Seq<char>) -> Seq<Seq<char>> {
        if self.entries.contains_key(key) {
            match self.entries[key] {
                Entry::List(items) => items,
                Entry::Text(_) => Seq::empty(),
            }
        } else {
            Seq::empty()
        }
    }

    /// Whether `key` holds a string.
    pub open spec fn holds_text(self, key: Seq<char>) -> bool {
        self.entries.contains_key(key) && self.entries[key] is Text
    }

    /// The store with `items` under `key`; a list that runs empty leaves no
    /// key behind.
    pub open spec fn with_queue(self, key: Seq<char>, items: Seq<Seq<char>>) -> Mailbox {
        if items.len() == 0 {
            Mailbox { entries: self.entries.remove(key) }
        } else {
            Mailbox { entries: self.entries.insert(key, Entry::List(items)) }
        }
    }

    /// `set key value nx`: stores the value unless the key exists.
    pub open spec fn set_nx(self, key: Seq<char>, value: Seq<char>) -> (Mailbox, ResponseView) {
        if self.entries.contains_key(key) {
            (self, nothing())
        } else {
            (Mailbox { entries: self.entries.insert(key, Entry::Text(value)) }, acknowledged())
        }
    }

    /// `lpush key item` or `rpush key item`: adds the item at one end.
    pub open spec fn push(self, key: Seq<char>, item: Seq<char>, at_head: bool) -> (
        Mailbox,
        ResponseView,
    ) {
        if self.holds_text(key) {
            (self, wrong_type())
        } else {
            let items = if at_head {
                self.queue(key).push(item)
            } else {
                seq![item] + self.queue(key)
            };
            (self.with_queue(key, items), count(items.len()))
        }
    }

    /// `lpop key` or `rpop key`: takes the item at one end.
    pub open spec fn pop(self, key: Seq<char>, at_head: bool) -> (Mailbox, ResponseView) {
        if self.holds_text(key) {
            (self, wrong_type())
        } else if self.queue(key).len() == 0 {
            (self, nothing())
        } else if at_head {
            (
                self.with_queue(key, self.queue(key).drop_last()),
                ResponseView::Result(ValueView::Str(self.queue(key).last())),
            )
        } else {
            (
                self.with_queue(key, self.queue(key).drop_first()),
                ResponseView::Result(ValueView::Str(self.queue(key).first())),
            )
        }
    }

    /// `del key ..`: removes the keys, and counts those that were there.
    pub open spec fn del(self, keys: Seq<Seq<char>>) -> (Mailbox, ResponseView) {
        (
            Mailbox { entries: self.entries.remove_keys(keys.to_set()) },
            count(keys.to_set().intersect(self.entries.dom()).len()),
        )
    }

    /// What a command does to the store, and the answer it gets.
    pub open spec fn apply(self, command: Seq<Seq<char>>) -> (Mailbox, ResponseView) {
        if command.len() == 4 && command[0] == "set"@ && command[3] == "nx"@ {
            self.set_nx(command[1], command[2])
        } else if command.len() == 3 && command[0] == "lpush"@ {
            self.push(command[1], command[2], true)
        } else if command.len() == 3 && command[0] == "rpush"@ {
            self.push(command[1], command[2], false)
        } else if command.len() == 2 && command[0] == "lpop"@ {
            self.pop(command[1], true)
        } else if command.len() == 2 && command[0] == "rpop"@ {
            self.pop(command[1], false)
        } else if command.len() >= 2 && command[0] == "del"@ {
            self.del(command.drop_first())
        } else {
            (self, unknown_command())
        }
    }

    /// The store after each of `values` was sent on the channel `key`, in
    /// order.
    pub open spec fn send_all(self, key: Seq<char>, values: Seq<Seq<char>>) -> Mailbox
        decreases values.len(),
    {
        if values.len() == 0 {
            self
        } else {
            self.send_all(key, values.drop_last()).apply(send_command(key, values.last())).0
        }
    }

    /// The store after `n` receives on the channel `key`, and what each of
    /// them found, in order.
    pub open spec fn receive_all(self, key: Seq<char>, n: nat) -> (
        Mailbox,
        Seq<DequeueOutcomeView>,
    )
        decreases n,
    {
        if n == 0 {
            (self, Seq::empty())
        } else {
            let (before, found) = self.receive_all(key, (n - 1) as nat);
            let (after, answer) = before.apply(receive_command(key));
            (after, found.push(dequeue_of(Some(answer))))
        }
    }
}

/// The command words are told apart by their first letters and lengths.
proof fn lemma_command_words()
    ensures
        "set"@ != "lpush"@,
        "set"@ != "rpush"@,
        "set"@ != "lpop"@,
        "set"@ != "rpop"@,
        "set"@ != "del"@,
        "lpush"@ != "rpush"@,
        "lpush"@ != "lpop"@,
        "lpush"@ != "rpop"@,
        "lpush"@ != "del"@,
        "rpop"@ != "lpop"@,
        "rpop"@ != "rpush"@,
        "rpop"@ != "del"@,
        "rpush"@ != "del"@,
        "lpop"@ != "del"@,
{
    reveal_strlit("set");
    reveal_strlit("lpush");
    reveal_strlit("rpush");
    reveal_strlit("lpop");
    reveal_strlit("rpop");
    reveal_strlit("del");
    assert("set"@.len() == 3 && "set"@[0] == 's');
    assert("del"@.len() == 3 && "del"@[0] == 'd');
    assert("lpush"@.len() == 5 && "lpush"@[0] == 'l');
    assert("rpush"@.len() == 5 && "rpush"@[0] == 'r');
    assert("lpop"@.len() == 4 && "lpop"@[0] == 'l');
    assert("rpop"@.len() == 4 && "rpop"@[0] == 'r');
}

/// A claim of a free key succeeds and takes the key.
pub proof fn law_free_key_is_claimed(store: Mailbox, key: Seq<char>)
    requires
        !store.entries.contains_key(key),
    ensures
        claim_of(Some(store.apply(set_nx_command(key)).1)) == ClaimOutcome::Claimed,
        store.apply(set_nx_command(key)).0.entries.contains_key(key),
{
    lemma_command_words();
}

/// A claim of a key that is held finds it taken and changes nothing.
pub proof fn law_held_key_is_refused(store: Mailbox, key: Seq<char>)
    requires
        store.entries.contains_key(key),
    ensures
        claim_of(Some(store.apply(set_nx_command(key)).1)) == ClaimOutcome::AlreadyExists,
        store.apply(set_nx_command(key)).0 == store,
{
    lemma_command_words();
}

/// Of two claims of the same free passphrase, whichever the store serves
/// first wins and the other finds the passphrase taken: exactly one
/// observes `Claimed`, the other `AlreadyExists`.
pub proof fn law_exactly_one_winner(store: Mailbox, passphrase: Seq<char>)
    requires
        !store.entries.contains_key(passphrase_key_of(passphrase)),
    ensures
        ({
            let claim = set_nx_command(passphrase_key_of(passphrase));
            let (then, first) = store.apply(claim);
            let (_, second) = then.apply(claim);
            &&& claim_of(Some(first)) == ClaimOutcome::Claimed
            &&& claim_of(Some(second)) == ClaimOutcome::AlreadyExists
        }),
{
    let key = passphrase_key_of(passphrase);
    law_free_key_is_claimed(store, key);
    law_held_key_is_refused(store.apply(set_nx_command(key)).0, key);
}

/// Sending on a channel is accepted and puts the value behind all that wait
/// there; no other key changes.
pub proof fn law_send_appends(store: Mailbox, key: Seq<char>, value: Seq<char>)
    requires
        !store.holds_text(key),
    ensures
        ({
            let (after, answer) = store.apply(send_command(key, value));
            &&& enqueue_of(Some(answer)) == EnqueueOutcome::Accepted
            &&& after.queue(key) == store.queue(key).push(value)
            &&& !after.holds_text(key)
            &&& forall|other: Seq<char>|
                other != key ==> after.entries.contains_key(other) == store.entries.contains_key(
                    other,
                ) && after.queue(other) == store.queue(other) && after.holds_text(other)
                    == store.holds_text(other)
        }),
{
    lemma_command_words();
}

/// Receiving from a channel takes out the value that has waited longest, or
/// finds the channel empty; no other key changes.
pub proof fn law_receive_takes_oldest(store: Mailbox, key: Seq<char>)
    requires
        !store.holds_text(key),
    ensures
        ({
            let (after, answer) = store.apply(receive_command(key));
            &&& !after.holds_text(key)
            &&& store.queue(key).len() == 0 ==> dequeue_of(Some(answer))
                == DequeueOutcomeView::Empty && after == store
            &&& store.queue(key).len() > 0 ==> dequeue_of(Some(answer))
                == DequeueOutcomeView::Value(store.queue(key).first()) && after.queue(key)
                == store.queue(key).drop_first()
            &&& forall|other: Seq<char>|
                other != key ==> after.entries.contains_key(other) == store.entries.contains_key(
                    other,
                ) && after.queue(other) == store.queue(other) && after.holds_text(other)
                    == store.holds_text(other)
        }),
{
    lemma_command_words();
}

proof fn lemma_send_all(store: Mailbox, key: Seq<char>, values: Seq<Seq<char>>)
    requires
        !store.holds_text(key),
    ensures
        !store.send_all(key, values).holds_text(key),
        store.send_all(key, values).queue(key) == store.queue(key) + values,
    decreases values.len(),
{
    if values.len() == 0 {
        assert(store.queue(key) + values =~= store.queue(key));
    } else {
        lemma_send_all(store, key, values.drop_last());
        let before = store.send_all(key, values.drop_last());
        law_send_appends(before, key, values.last());
        assert((store.queue(key) + values.drop_last()).push(values.last()) =~= store.queue(key)
            + values);
    }
}

proof fn lemma_receive_all(store: Mailbox, key: Seq<char>, n: nat)
    requires
        !store.holds_text(key),
        n <= store.queue(key).len(),
    ensures
        !store.receive_all(key, n).0.holds_text(key),
        store.receive_all(key, n).0.queue(key) == store.queue(key).skip(n as int),
        store.receive_all(key, n).1 == store.queue(key).take(n as int).map_values(
            |value: Seq<char>| DequeueOutcomeView::Value(value),
        ),
    decreases n,
{
    let wrap = |value: Seq<char>| DequeueOutcomeView::Value(value);
    if n == 0 {
        assert(store.queue(key).skip(0) =~= store.queue(key));
        assert(store.queue(key).take(0).map_values(wrap) =~= Seq::empty());
    } else {
        lemma_receive_all(store, key, (n - 1) as nat);
        let (before, found) = store.receive_all(key, (n - 1) as nat);
        law_receive_takes_oldest(before, key);
        let q = store.queue(key);
        assert(q.skip(n - 1).first() == q[n - 1]);
        assert(q.skip(n - 1).drop_first() =~= q.skip(n as int));
        assert(q.take(n - 1).map_values(wrap).push(wrap(q[n - 1])) =~= q.take(n as int).map_values(
            wrap,
        ));
    }
}

/// Per-key first in, first out: what is sent on a channel is received in
/// the order in which it was sent, after what waited there before, and
/// after the last value the channel is empty.
pub proof fn law_fifo(store: Mailbox, key: Seq<char>, values: Seq<Seq<char>>)
    requires
        !store.holds_text(key),
    ensures
        ({
            let waiting = store.queue(key) + values;
            let filled = store.send_all(key, values);
            let (drained, found) = filled.receive_all(key, waiting.len());
            &&& found == waiting.map_values(|value: Seq<char>| DequeueOutcomeView::Value(value))
            &&& dequeue_of(Some(drained.apply(receive_command(key)).1))
                == DequeueOutcomeView::Empty
        }),
{
    lemma_send_all(store, key, values);
    let waiting = store.queue(key) + values;
    let filled = store.send_all(key, values);
    lemma_receive_all(filled, key, waiting.len());
    assert(waiting.take(waiting.len() as int) =~= waiting);
    let drained = filled.receive_all(key, waiting.len()).0;
    assert(drained.queue(key) =~= Seq::empty());
    law_receive_takes_oldest(drained, key);
}

/// Cleanup removes what a session owns and nothing else: afterwards the
/// passphrase is free to be claimed again and the session's own mailbox is
/// gone, while every other key, the mailbox that the session read among
/// them, is as it was.
pub proof fn law_cleanup_frees_own_keys(store: Mailbox, registry: RegistryView)
    ensures
        ({
            let (after, answer) = store.apply(del_keys_command(own_keys(registry)));
            &&& delete_of(Some(answer)) == DeleteOutcome::Done
            &&& !after.entries.contains_key(registry.passphrase_key)
            &&& !after.entries.contains_key(registry.send_channel_key)
            &&& forall|other: Seq<char>|
                other != registry.passphrase_key && other != registry.send_channel_key ==> (
                after.entries.contains_key(other) == store.entries.contains_key(other)
                    && after.queue(other) == store.queue(other))
        }),
{
    lemma_command_words();
    let keys = own_keys(registry);
    let command = del_keys_command(keys);
    assert(command.drop_first() =~= keys);
    assert(keys.to_set().contains(registry.passphrase_key)) by {
        assert(keys[0] == registry.passphrase_key);
    }
    assert(keys.to_set().contains(registry.send_channel_key)) by {
        assert(keys[1] == registry.send_channel_key);
    }
}

} // verus!

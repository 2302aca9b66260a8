//! What the cache client expects of its store.
//!
//! The store is a map from keys to values, each value with the seconds it
//! has left to live, if its life is limited. [`state_after`] and
//! [`answer_to`] say what each request does to that map and what comes back.
//! The laws of the client (a value that was set is read back, removing is
//! idempotent, keys do not disturb each other) are proved of these two
//! functions. The real store is trusted to behave so; the store in
//! [`crate::memory`] is proved to.

use crate::cache::{concluded, CacheError, Op, Outcome};
use vstd::prelude::*;
use vstd::string::*;

verus! {

/// A value in the store.
pub struct Stored {
    /// The text stored.
    pub value: Seq<char>,
    /// The seconds the value has left, or `None` if it never expires.
    pub ttl: Option<nat>,
}

/// What the store sends back.
pub enum Answer {
    /// The reply to a read or to the probe: a text, or nothing.
    Value(Option<Seq<char>>),
    /// The request was carried out.
    Done,
}

/// The value under `key`, if there is one.
pub open spec fn value_of(state: Map<Seq<char>, Stored>, key: Seq<char>) -> Option<Seq<char>> {
    if state.contains_key(key) {
        Some(state[key].value)
    } else {
        None
    }
}

/// All that the store holds about `key`, if it holds anything.
pub open spec fn entry_of(state: Map<Seq<char>, Stored>, key: Seq<char>) -> Option<Stored> {
    if state.contains_key(key) {
        Some(state[key])
    } else {
        None
    }
}

/// The store after it has carried out `op`.
///
/// Reading and probing change nothing. Setting replaces the value and lifts
/// any limit on its life. Removing takes the key out, if it was there. A
/// limit on the life of a key that is not there changes nothing; a limit of
/// zero seconds or less removes the key at once.
pub open spec fn state_after(state: Map<Seq<char>, Stored>, op: Op) -> Map<Seq<char>, Stored> {
    match op {
        Op::Ping => state,
        Op::Get { .. } => state,
        Op::Put { key, value } => state.insert(key, Stored { value, ttl: None }),
        Op::Del { key } => state.remove(key),
        Op::Expire { key, seconds } => if !state.contains_key(key) {
            state
        } else if seconds <= 0 {
            state.remove(key)
        } else {
            state.insert(key, Stored { value: state[key].value, ttl: Some(seconds as nat) })
        },
    }
}

/// What the store answers to `op`.
pub open spec fn answer_to(state: Map<Seq<char>, Stored>, op: Op) -> Answer {
    match op {
        Op::Ping => Answer::Value(Some("PONG"@)),
        Op::Get { key } => Answer::Value(value_of(state, key)),
        Op::Put { .. } => Answer::Done,
        Op::Del { .. } => Answer::Done,
        Op::Expire { .. } => Answer::Done,
    }
}

/// Whether a value lives on once `seconds` more seconds have passed.
pub open spec fn outlives(stored: Stored, seconds: nat) -> bool {
    match stored.ttl {
        None => true,
        Some(left) => left > seconds,
    }
}

/// The store once `seconds` seconds have passed: what has run out of time
/// is gone, and what remains has that much less time left.
pub open spec fn elapse(state: Map<Seq<char>, Stored>, seconds: nat) -> Map<Seq<char>, Stored> {
    Map::new(
        |key: Seq<char>| state.contains_key(key) && outlives(state[key], seconds),
        |key: Seq<char>|
            Stored {
                value: state[key].value,
                ttl: match state[key].ttl {
                    None => None,
                    Some(left) => Some((left - seconds) as nat),
                },
            },
    )
}

/// The store after it has carried out `ops` one after the other.
pub open spec fn run(state: Map<Seq<char>, Stored>, ops: Seq<Op>) -> Map<Seq<char>, Stored>
    decreases ops.len(),
{
    if ops.len() == 0 {
        state
    } else {
        state_after(run(state, ops.drop_last()), ops.last())
    }
}

/// Those of `ops` that are about `key`, in their order.
pub open spec fn about(ops: Seq<Op>, key: Seq<char>) -> Seq<Op>
    decreases ops.len(),
{
    if ops.len() == 0 {
        Seq::empty()
    } else if ops.last().key() == Some(key) {
        about(ops.drop_last(), key).push(ops.last())
    } else {
        about(ops.drop_last(), key)
    }
}

/// A value that was set is the value that is read, from whatever state the
/// store was in before.
pub proof fn lemma_set_then_get(state: Map<Seq<char>, Stored>, key: Seq<char>, value: Seq<char>)
    ensures
        answer_to(state_after(state, Op::Put { key, value }), Op::Get { key }) == Answer::Value(
            Some(value),
        ),
{
}

/// What the client returns for a read that follows a write of the same
/// key, when both round trips go through: the value written.
pub proof fn lemma_get_returns_what_set_stored(
    state: Map<Seq<char>, Stored>,
    key: Seq<char>,
    value: Seq<char>,
)
    ensures
        concluded(Outcome::Replied(answer_to(state, Op::Put { key, value }))) == Ok::<
            Answer,
            CacheError,
        >(Answer::Done),
        concluded(
            Outcome::Replied(answer_to(state_after(state, Op::Put { key, value }), Op::Get { key })),
        ) == Ok::<Answer, CacheError>(Answer::Value(Some(value))),
{
}

/// Removing a key always succeeds. Where the key was not there the store
/// stays as it was, and removing twice is the same as removing once.
pub proof fn lemma_del_is_idempotent(state: Map<Seq<char>, Stored>, key: Seq<char>)
    ensures
        answer_to(state, Op::Del { key }) == Answer::Done,
        !state.contains_key(key) ==> state_after(state, Op::Del { key }) == state,
        state_after(state_after(state, Op::Del { key }), Op::Del { key }) == state_after(
            state,
            Op::Del { key },
        ),
{
    let once = state_after(state, Op::Del { key });
    assert(state_after(once, Op::Del { key }) =~= once);
    if !state.contains_key(key) {
        assert(once =~= state);
    }
}

/// Reading a key that is not there gives nothing, and it is no failure. A
/// key is not there if it was never set, and no longer there once it has
/// been removed.
pub proof fn lemma_get_absent(state: Map<Seq<char>, Stored>, key: Seq<char>)
    ensures
        !state.contains_key(key) ==> answer_to(state, Op::Get { key }) == Answer::Value(None),
        answer_to(Map::empty(), Op::Get { key }) == Answer::Value(None),
        answer_to(state_after(state, Op::Del { key }), Op::Get { key }) == Answer::Value(None),
{
}

/// A key given zero seconds or less to live is gone at once.
pub proof fn lemma_expire_at_once(state: Map<Seq<char>, Stored>, key: Seq<char>, seconds: int)
    requires
        seconds <= 0,
    ensures
        answer_to(state_after(state, Op::Expire { key, seconds }), Op::Get { key })
            == Answer::Value(None),
{
}

/// A limit on the life of a key that is not there is carried out and
/// changes nothing.
pub proof fn lemma_expire_absent(state: Map<Seq<char>, Stored>, key: Seq<char>, seconds: int)
    requires
        !state.contains_key(key),
    ensures
        answer_to(state, Op::Expire { key, seconds }) == Answer::Done,
        state_after(state, Op::Expire { key, seconds }) == state,
{
}

/// A key given some seconds to live keeps its value for as long as fewer
/// seconds have passed, and is gone once that many have.
pub proof fn lemma_expire_later(
    state: Map<Seq<char>, Stored>,
    key: Seq<char>,
    seconds: int,
    passed: nat,
)
    requires
        state.contains_key(key),
        seconds > 0,
    ensures
        value_of(elapse(state_after(state, Op::Expire { key, seconds }), passed), key) == if passed
            < seconds {
            Some(state[key].value)
        } else {
            None
        },
{
}

/// The probe changes nothing in the store.
pub proof fn lemma_probe_is_harmless(state: Map<Seq<char>, Stored>)
    ensures
        state_after(state, Op::Ping) == state,
{
}

/// A request leaves alone every key but its own.
pub proof fn lemma_other_keys_untouched(state: Map<Seq<char>, Stored>, op: Op, key: Seq<char>)
    requires
        op.key() != Some(key),
    ensures
        entry_of(state_after(state, op), key) == entry_of(state, key),
{
}

/// What a request does to its key depends on nothing but what the store
/// held about that key.
pub proof fn lemma_own_key_decides(
    left: Map<Seq<char>, Stored>,
    right: Map<Seq<char>, Stored>,
    op: Op,
    key: Seq<char>,
)
    requires
        entry_of(left, key) == entry_of(right, key),
    ensures
        entry_of(state_after(left, op), key) == entry_of(state_after(right, op), key),
        op.key() == Some(key) ==> answer_to(left, op) == answer_to(right, op),
{
}

/// However requests about different keys are interleaved, what the store
/// ends up holding about a key is what it would hold had only the requests
/// about that key been made.
pub proof fn lemma_keys_do_not_interfere(state: Map<Seq<char>, Stored>, ops: Seq<Op>, key: Seq<char>)
    ensures
        entry_of(run(state, ops), key) == entry_of(run(state, about(ops, key)), key),
        value_of(run(state, ops), key) == value_of(run(state, about(ops, key)), key),
    decreases ops.len(),
{
    if ops.len() > 0 {
        let earlier = ops.drop_last();
        let last = ops.last();
        lemma_keys_do_not_interfere(state, earlier, key);
        if last.key() == Some(key) {
            let own = about(earlier, key).push(last);
            assert(own.drop_last() =~= about(earlier, key));
            lemma_own_key_decides(run(state, earlier), run(state, about(earlier, key)), last, key);
        } else {
            lemma_other_keys_untouched(run(state, earlier), last, key);
        }
    }
}

/// The last request that sets or removes a key decides what is read
/// afterwards, whatever was asked about other keys in between and after, and
/// however often the key itself was read since: the value last set, or
/// nothing if the key was last removed.
pub proof fn lemma_last_write_wins(
    state: Map<Seq<char>, Stored>,
    ops: Seq<Op>,
    at: int,
    key: Seq<char>,
)
    requires
        0 <= at < ops.len(),
        ops[at] is Put || ops[at] is Del,
        ops[at].key() == Some(key),
        forall|i: int|
            at < i < ops.len() && (#[trigger] ops[i]).key() == Some(key) ==> ops[i] is Get,
    ensures
        answer_to(run(state, ops), Op::Get { key }) == Answer::Value(
            match ops[at] {
                Op::Put { value, .. } => Some(value),
                _ => None,
            },
        ),
    decreases ops.len(),
{
    let earlier = ops.drop_last();
    if at == ops.len() - 1 {
    } else {
        lemma_last_write_wins(state, earlier, at, key);
        if ops.last().key() == Some(key) {
            assert(ops[ops.len() - 1] is Get);
        } else {
            lemma_other_keys_untouched(run(state, earlier), ops.last(), key);
        }
    }
}

/// What a store sends back, as the client receives it.
#[derive(Debug)]
pub enum Reply {
    /// The reply to a read or to the probe: a text, or nothing.
    Value(Option<String>),
    /// The request was carried out.
    Done,
}

impl View for Reply {
    type V = Answer;

    open spec fn view(&self) -> Answer {
        match self {
            Reply::Value(None) => Answer::Value(None),
            Reply::Value(Some(text)) => Answer::Value(Some(text@)),
            Reply::Done => Answer::Done,
        }
    }
}

} // verus!

//! Proof of history: a digest over a sequence of events that depends on
//! their order.

use vstd::prelude::*;
use vstd::string::*;
use vstd::utf8::encode_utf8;
use crate::digest::{
    digest_hex_of_bytes, digest_of_bytes, lemma_digest_of_bytes_equal, lemma_utf8_bytes_differ,
    sha256_tells_apart,
};

verus! {

/// An ordered, growing sequence of events.
pub struct ProofOfHistory {
    pub sequence: Vec<String>,
}

impl View for ProofOfHistory {
    type V = Seq<Seq<char>>;

    open spec fn view(&self) -> Seq<Seq<char>> {
        self.sequence@.map_values(|event: String| event@)
    }
}

/// The bytes that the digest of a history is taken of: the UTF-8 bytes of
/// the events, one event after the other, in the order of the sequence.
pub open spec fn history_bytes(events: Seq<Seq<char>>) -> Seq<u8>
    decreases events.len(),
{
    if events.len() == 0 {
        Seq::empty()
    } else {
        history_bytes(events.drop_last()) + encode_utf8(events.last())
    }
}

/// The digest of a history.
pub open spec fn history_digest(events: Seq<Seq<char>>) -> Seq<char> {
    digest_of_bytes(history_bytes(events))
}

/// The sequence in which the events at two positions have changed places.
pub open spec fn swapped(events: Seq<Seq<char>>, i: int, j: int) -> Seq<Seq<char>> {
    events.update(i, events[j]).update(j, events[i])
}

impl ProofOfHistory {
    /// The empty history.
    pub fn new() -> (history: ProofOfHistory)
        ensures
            history@ == Seq::<Seq<char>>::empty(),
    {
        let history = ProofOfHistory { sequence: Vec::new() };
        assert(history@ =~= Seq::<Seq<char>>::empty());
        history
    }

    /// Appends the event at the end of the history.
    pub fn add_event(&mut self, event: &str)
        ensures
            final(self)@ == old(self)@.push(event@),
    {
        self.sequence.push(String::from_str(event));
        assert(self@ =~= old(self)@.push(event@));
    }

    /// The digest of the history as it stands.
    pub fn generate_hash(&self) -> (digest: String)
        ensures
            digest@ == history_digest(self@),
            digest@.len() == 64,
    {
        let mut bytes: Vec<u8> = Vec::new();
        let mut i: usize = 0;
        while i < self.sequence.len()
            invariant
                i <= self.sequence.len(),
                bytes@ == history_bytes(self@.take(i as int)),
            decreases self.sequence.len() - i,
        {
            let ghost before = bytes@;
            bytes.extend_from_slice(self.sequence[i].as_str().as_bytes());
            proof {
                let prefix = self@.take(i as int + 1);
                assert(prefix.drop_last() =~= self@.take(i as int));
                assert(prefix.last() == self.sequence[i as int]@);
                assert(bytes@ =~= before + encode_utf8(self.sequence[i as int]@));
            }
            i += 1;
        }
        assert(self@.take(i as int) =~= self@);
        digest_hex_of_bytes(bytes.as_slice())
    }
}

/// The bytes of a history that is made of two parts are the bytes of the
/// first part, followed by the bytes of the second.
pub proof fn lemma_history_bytes_of_parts(first: Seq<Seq<char>>, second: Seq<Seq<char>>)
    ensures
        history_bytes(first + second) == history_bytes(first) + history_bytes(second),
    decreases second.len(),
{
    if second.len() == 0 {
        assert(first + second =~= first);
        assert(history_bytes(first) + history_bytes(second) =~= history_bytes(first));
    } else {
        lemma_history_bytes_of_parts(first, second.drop_last());
        assert((first + second).drop_last() =~= first + second.drop_last());
        assert((first + second).last() == second.last());
        assert(history_bytes(first + second) =~= history_bytes(first) + history_bytes(second));
    }
}

/// The bytes of a history of one event are the UTF-8 bytes of the event.
pub proof fn lemma_history_bytes_of_one(event: Seq<char>)
    ensures
        history_bytes(seq![event]) == encode_utf8(event),
{
    assert(seq![event].drop_last() =~= Seq::<Seq<char>>::empty());
    assert(history_bytes(seq![event].drop_last()) =~= Seq::<u8>::empty());
    assert(history_bytes(seq![event]) =~= encode_utf8(event));
}

/// The digest is a function of the sequence of events: histories that hold
/// the same events in the same order have the same digest.
pub proof fn lemma_digest_is_determined_by_events(first: Seq<Seq<char>>, second: Seq<Seq<char>>)
    requires
        first.len() == second.len(),
        forall|i: int| 0 <= i < first.len() ==> first[i] == second[i],
    ensures
        history_digest(first) == history_digest(second),
{
    assert(first =~= second);
}

/// Where two distinct events of a history change places and have as many
/// bytes as each other, the bytes of the history change. The events that the
/// consensus records are of this kind: each is a digest of 64 characters.
pub proof fn lemma_swapping_events_changes_bytes(events: Seq<Seq<char>>, i: int, j: int)
    requires
        0 <= i < j < events.len(),
        events[i] != events[j],
        encode_utf8(events[i]).len() == encode_utf8(events[j]).len(),
    ensures
        history_bytes(events) != history_bytes(swapped(events, i, j)),
{
    let other = swapped(events, i, j);
    let head = events.take(i);
    let rest = events.skip(i + 1);
    let other_rest = other.skip(i + 1);
    assert(events =~= head + seq![events[i]] + rest);
    assert(other =~= head + seq![events[j]] + other_rest);
    lemma_history_bytes_of_parts(head + seq![events[i]], rest);
    lemma_history_bytes_of_parts(head, seq![events[i]]);
    lemma_history_bytes_of_one(events[i]);
    lemma_history_bytes_of_parts(head + seq![events[j]], other_rest);
    lemma_history_bytes_of_parts(head, seq![events[j]]);
    lemma_history_bytes_of_one(events[j]);
    let start = history_bytes(head).len() as int;
    let width = encode_utf8(events[i]).len() as int;
    assert(history_bytes(events).subrange(start, start + width) =~= encode_utf8(events[i]));
    assert(history_bytes(other).subrange(start, start + width) =~= encode_utf8(events[j]));
    lemma_utf8_bytes_differ(events[i], events[j]);
}

/// The digest depends on the order of the events: where two events change
/// places and the bytes of the history change with them, the digest changes,
/// unless SHA-256 fails to tell the two histories apart.
pub proof fn lemma_digest_is_order_sensitive(events: Seq<Seq<char>>, i: int, j: int)
    requires
        0 <= i < j < events.len(),
        history_bytes(events) != history_bytes(swapped(events, i, j)),
        sha256_tells_apart(history_bytes(events), history_bytes(swapped(events, i, j))),
    ensures
        history_digest(events) != history_digest(swapped(events, i, j)),
{
    lemma_digest_of_bytes_equal(history_bytes(events), history_bytes(swapped(events, i, j)));
}

/// Where two distinct events of a history change places and have as many
/// bytes as each other, the digest changes, unless SHA-256 fails to tell the
/// two histories apart.
pub proof fn lemma_swapping_events_changes_digest(events: Seq<Seq<char>>, i: int, j: int)
    requires
        0 <= i < j < events.len(),
        events[i] != events[j],
        encode_utf8(events[i]).len() == encode_utf8(events[j]).len(),
        sha256_tells_apart(history_bytes(events), history_bytes(swapped(events, i, j))),
    ensures
        history_digest(events) != history_digest(swapped(events, i, j)),
{
    lemma_swapping_events_changes_bytes(events, i, j);
    lemma_digest_is_order_sensitive(events, i, j);
}

} // verus!

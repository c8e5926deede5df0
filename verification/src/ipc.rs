//! The bookkeeping of the broadcast hub: who is connected, what is sent to
//! whom, and who is dropped.
//!
//! The hub knows its observers by number. The caller owns the connections,
//! keyed by those numbers: it reports each connection that it accepted, writes
//! each message to the recipients that the hub names, and reports how each
//! write went.

use crate::ups_data::UpsData;
use crate::wire::{encode, wire_text};
use vstd::prelude::*;
use vstd::string::*;

verus! {

/// Milliseconds that the write to one observer may take.
pub const WRITE_TIMEOUT_MILLIS: u64 = 100;

/// Seconds that an observer waits for a line.
pub const CLIENT_READ_TIMEOUT_SECONDS: u64 = 5;

/// The hub of the telemetry stream.
pub struct IpcServer {
    socket_path: String,
    clients: Vec<u64>,
    next_id: u64,
}

/// One message and the observers that it goes to, each once, in the order in
/// which they connected.
#[derive(Debug)]
pub struct Broadcast {
    pub message: String,
    pub recipients: Vec<u64>,
}

/// Whether the write to the observer at index `i` went well. An observer of
/// whom nothing is reported counts as served.
pub open spec fn delivered(outcomes: Seq<bool>, i: int) -> bool {
    i >= outcomes.len() || outcomes[i]
}

/// The observers that stay after a round of writes: those whose write went
/// well, in their old order.
pub open spec fn kept(observers: Seq<u64>, outcomes: Seq<bool>) -> Seq<u64>
    decreases observers.len(),
{
    if observers.len() == 0 {
        Seq::empty()
    } else {
        let front = kept(observers.drop_last(), outcomes);
        if delivered(outcomes, observers.len() - 1) {
            front.push(observers.last())
        } else {
            front
        }
    }
}

/// The observers that are dropped after a round of writes: those whose write
/// failed, in their old order.
pub open spec fn evicted(observers: Seq<u64>, outcomes: Seq<bool>) -> Seq<u64>
    decreases observers.len(),
{
    if observers.len() == 0 {
        Seq::empty()
    } else {
        let front = evicted(observers.drop_last(), outcomes);
        if delivered(outcomes, observers.len() - 1) {
            front
        } else {
            front.push(observers.last())
        }
    }
}

/// The line sent for a reading: its wire text and a line feed.
pub open spec fn wire_line(sample: UpsData) -> Seq<char> {
    wire_text(sample) + "\n"@
}

/// The numbers from `first` on, `count` of them.
pub open spec fn consecutive(first: int, count: int) -> Seq<u64> {
    Seq::new(count as nat, |k: int| (first + k) as u64)
}

/// Whether `id` is an observer whose write went well.
pub open spec fn was_served(observers: Seq<u64>, outcomes: Seq<bool>, id: u64) -> bool {
    exists|i: int| 0 <= i < observers.len() && #[trigger] observers[i] == id && delivered(outcomes, i)
}

/// Whether `id` is an observer whose write failed.
pub open spec fn was_failed(observers: Seq<u64>, outcomes: Seq<bool>, id: u64) -> bool {
    exists|i: int|
        0 <= i < observers.len() && #[trigger] observers[i] == id && !delivered(outcomes, i)
}

/// An observer stays if and only if it was there and its write went well; it
/// is dropped if and only if it was there and its write failed.
pub proof fn law_kept_are_the_delivered(observers: Seq<u64>, outcomes: Seq<bool>, id: u64)
    ensures
        kept(observers, outcomes).contains(id) <==> was_served(observers, outcomes, id),
        evicted(observers, outcomes).contains(id) <==> was_failed(observers, outcomes, id),
    decreases observers.len(),
{
    if observers.len() > 0 {
        let front = observers.drop_last();
        let last = observers.len() - 1;
        law_kept_are_the_delivered(front, outcomes, id);
        let k = kept(observers, outcomes);
        let kf = kept(front, outcomes);
        let e = evicted(observers, outcomes);
        let ef = evicted(front, outcomes);
        if was_served(front, outcomes, id) {
            let i = choose|i: int|
                0 <= i < front.len() && #[trigger] front[i] == id && delivered(outcomes, i);
            assert(observers[i] == id);
            assert(was_served(observers, outcomes, id));
        }
        if was_failed(front, outcomes, id) {
            let i = choose|i: int|
                0 <= i < front.len() && #[trigger] front[i] == id && !delivered(outcomes, i);
            assert(observers[i] == id);
            assert(was_failed(observers, outcomes, id));
        }
        if was_served(observers, outcomes, id) {
            let i = choose|i: int|
                0 <= i < observers.len() && #[trigger] observers[i] == id && delivered(outcomes, i);
            if i == last {
                assert(k[kf.len() as int] == id);
            } else {
                assert(front[i] == id);
                assert(was_served(front, outcomes, id));
                let at = choose|at: int| 0 <= at < kf.len() && kf[at] == id;
                assert(k[at] == id);
            }
            assert(k.contains(id));
        }
        if was_failed(observers, outcomes, id) {
            let i = choose|i: int|
                0 <= i < observers.len() && #[trigger] observers[i] == id && !delivered(
                    outcomes,
                    i,
                );
            if i == last {
                assert(e[ef.len() as int] == id);
            } else {
                assert(front[i] == id);
                assert(was_failed(front, outcomes, id));
                let at = choose|at: int| 0 <= at < ef.len() && ef[at] == id;
                assert(e[at] == id);
            }
            assert(e.contains(id));
        }
        if k.contains(id) {
            let at = choose|at: int| 0 <= at < k.len() && k[at] == id;
            if at < kf.len() {
                assert(kf[at] == id);
                assert(kf.contains(id));
            } else {
                assert(observers[last] == id);
            }
            assert(was_served(observers, outcomes, id));
        }
        if e.contains(id) {
            let at = choose|at: int| 0 <= at < e.len() && e[at] == id;
            if at < ef.len() {
                assert(ef[at] == id);
                assert(ef.contains(id));
            } else {
                assert(observers[last] == id);
            }
            assert(was_failed(observers, outcomes, id));
        }
    }
}

/// Every observer either stays or is dropped, and where no two observers
/// have the same number, no two of those that stay have.
pub proof fn law_settle_partitions(observers: Seq<u64>, outcomes: Seq<bool>)
    ensures
        kept(observers, outcomes).len() + evicted(observers, outcomes).len() == observers.len(),
        observers.no_duplicates() ==> kept(observers, outcomes).no_duplicates(),
    decreases observers.len(),
{
    if observers.len() > 0 {
        let front = observers.drop_last();
        law_settle_partitions(front, outcomes);
        if observers.no_duplicates() {
            let k = kept(observers, outcomes);
            let kf = kept(front, outcomes);
            assert(front.no_duplicates());
            if delivered(outcomes, observers.len() - 1) {
                law_kept_are_the_delivered(front, outcomes, observers.last());
                assert(!kf.contains(observers.last()));
                assert forall|i: int, j: int| 0 <= i < k.len() && 0 <= j < k.len() && i != j implies k[i]
                    != k[j] by {
                    if i < kf.len() {
                        assert(kf.contains(kf[i]));
                    }
                    if j < kf.len() {
                        assert(kf.contains(kf[j]));
                    }
                }
            }
        }
    }
}

/// Where every write went well, every observer stays.
pub proof fn law_all_delivered_keeps_all(observers: Seq<u64>, outcomes: Seq<bool>)
    requires
        forall|i: int| 0 <= i < observers.len() ==> delivered(outcomes, i),
    ensures
        kept(observers, outcomes) == observers,
        evicted(observers, outcomes).len() == 0,
    decreases observers.len(),
{
    if observers.len() > 0 {
        law_all_delivered_keeps_all(observers.drop_last(), outcomes);
        assert(observers.drop_last().push(observers.last()) == observers);
    }
}

impl IpcServer {
    /// No observer is connected twice, and every connected observer has a
    /// number that was issued.
    pub closed spec fn wf(&self) -> bool {
        &&& self.clients@.no_duplicates()
        &&& forall|i: int| 0 <= i < self.clients@.len() ==> self.clients@[i] < self.next_id
    }

    /// The observers that are connected, in the order in which they
    /// connected.
    pub closed spec fn observers(&self) -> Seq<u64> {
        self.clients@
    }

    /// How many observers were ever admitted; the next one gets this number.
    pub closed spec fn issued(&self) -> nat {
        self.next_id as nat
    }

    /// The path of the endpoint.
    pub closed spec fn endpoint(&self) -> Seq<char> {
        self.socket_path@
    }

    /// A hub at `socket_path` with no observer.
    pub fn new(socket_path: &str) -> (hub: IpcServer)
        ensures
            hub.wf(),
            hub.observers() == Seq::<u64>::empty(),
            hub.issued() == 0,
            hub.endpoint() == socket_path@,
    {
        IpcServer { socket_path: socket_path.to_owned(), clients: Vec::new(), next_id: 0 }
    }

    /// The path of the endpoint.
    pub fn socket_path(&self) -> (path: &str)
        ensures
            path@ == self.endpoint(),
    {
        self.socket_path.as_str()
    }

    /// How many observers are connected.
    pub fn client_count(&self) -> (count: usize)
        ensures
            count == self.observers().len(),
    {
        self.clients.len()
    }

    /// The connected observers, in the order in which they connected. No
    /// number occurs twice, and each is one that was issued.
    pub fn clients(&self) -> (ids: Vec<u64>)
        requires
            self.wf(),
        ensures
            ids@ == self.observers(),
            ids@.no_duplicates(),
            forall|i: int| 0 <= i < ids@.len() ==> ids@[i] < self.issued(),
    {
        self.clients.clone()
    }

    /// Admits one observer whose connection the caller accepted, and gives
    /// its number: the count of observers admitted before it, so that no
    /// number is ever given twice. Gives none, and changes nothing, once
    /// `u64::MAX` observers were admitted.
    pub fn accept_client(&mut self) -> (id: Option<u64>)
        requires
            old(self).wf(),
        ensures
            final(self).wf(),
            final(self).endpoint() == old(self).endpoint(),
            match id {
                Some(id) => {
                    &&& id == old(self).issued()
                    &&& final(self).issued() == old(self).issued() + 1
                    &&& final(self).observers() == old(self).observers().push(id)
                    &&& !old(self).observers().contains(id)
                },
                None => {
                    &&& old(self).issued() == u64::MAX
                    &&& final(self).issued() == old(self).issued()
                    &&& final(self).observers() == old(self).observers()
                },
            },
    {
        if self.next_id == u64::MAX {
            return None;
        }
        let id = self.next_id;
        self.next_id = id + 1;
        self.clients.push(id);
        Some(id)
    }

    /// Admits the `accepted` observers whose connections the caller accepted
    /// since the last call, and gives their numbers in the same order.
    /// Observers beyond the `u64::MAX`-th get no number.
    pub fn accept_clients(&mut self, accepted: usize) -> (ids: Vec<u64>)
        requires
            old(self).wf(),
        ensures
            final(self).wf(),
            final(self).endpoint() == old(self).endpoint(),
            ids@.len() == if old(self).issued() + accepted <= u64::MAX {
                accepted as int
            } else {
                u64::MAX - old(self).issued()
            },
            ids@ == consecutive(old(self).issued() as int, ids@.len() as int),
            final(self).observers() == old(self).observers() + ids@,
            final(self).issued() == old(self).issued() + ids@.len(),
    {
        let mut ids: Vec<u64> = Vec::new();
        let mut n: usize = 0;
        let ghost before = *self;
        while n < accepted
            invariant
                n <= accepted,
                self.wf(),
                self.endpoint() == before.endpoint(),
                ids@.len() == if before.issued() + n <= u64::MAX {
                    n as int
                } else {
                    u64::MAX - before.issued()
                },
                ids@ == consecutive(before.issued() as int, ids@.len() as int),
                self.observers() == before.observers() + ids@,
                self.issued() == before.issued() + ids@.len(),
            decreases accepted - n,
        {
            match self.accept_client() {
                Some(id) => {
                    ids.push(id);
                },
                None => {},
            }
            n += 1;
        }
        ids
    }

    /// The message for a reading and the observers to write it to: one line
    /// of wire text, the same for all, and every connected observer once.
    pub fn broadcast(&self, data: &UpsData) -> (sent: Broadcast)
        requires
            self.wf(),
        ensures
            sent.message@ == wire_line(*data),
            sent.recipients@ == self.observers(),
            sent.recipients@.no_duplicates(),
    {
        let mut message = encode(data);
        message.append("\n");
        Broadcast { message, recipients: self.clients() }
    }

    /// Drops the observers whose write failed. `outcomes` holds, for each
    /// recipient of the last message in order, whether the write went well.
    /// The observers that stay keep their order. The numbers of those
    /// dropped are handed back, and are never issued again.
    pub fn settle(&mut self, outcomes: &Vec<bool>) -> (dropped: Vec<u64>)
        requires
            old(self).wf(),
        ensures
            final(self).wf(),
            final(self).observers() == kept(old(self).observers(), outcomes@),
            dropped@ == evicted(old(self).observers(), outcomes@),
            final(self).issued() == old(self).issued(),
            final(self).endpoint() == old(self).endpoint(),
    {
        let ghost before = self.clients@;
        let mut stay: Vec<u64> = Vec::new();
        let mut dropped: Vec<u64> = Vec::new();
        let mut i: usize = 0;
        assert(before.take(0).len() == 0);
        while i < self.clients.len()
            invariant
                i <= self.clients.len(),
                self.clients@ == before,
                stay@ == kept(before.take(i as int), outcomes@),
                dropped@ == evicted(before.take(i as int), outcomes@),
            decreases self.clients.len() - i,
        {
            proof {
                let done = before.take(i + 1);
                assert(done.drop_last() == before.take(i as int));
                assert(done.last() == before[i as int]);
            }
            let id = self.clients[i];
            if i >= outcomes.len() || outcomes[i] {
                stay.push(id);
            } else {
                dropped.push(id);
            }
            i += 1;
        }
        proof {
            assert(before.take(before.len() as int) == before);
            law_settle_partitions(before, outcomes@);
            assert forall|k: int| 0 <= k < stay@.len() implies stay@[k] < self.next_id by {
                assert(stay@.contains(stay@[k]));
                law_kept_are_the_delivered(before, outcomes@, stay@[k]);
            }
        }
        self.clients = stay;
        dropped
    }
}

} // verus!

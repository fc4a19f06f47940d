//! A bounded broadcast bus: every published item is offered to every
//! subscriber, each of which reads at its own pace through its own cursor.
//!
//! Publishing never waits for a reader. The bus keeps the last `capacity`
//! items; a subscriber that falls further behind than that loses the oldest
//! items it has not read and continues with the oldest one still kept.

use vstd::prelude::*;

verus! {

/// The mathematical state of a bus.
pub struct BusModel<T> {
    /// How many items the ring keeps.
    pub capacity: nat,
    /// Every item accepted so far, oldest first.
    pub published: Seq<T>,
    /// For each active subscriber, the position in `published` that it reads next.
    pub cursors: Map<int, nat>,
    /// Whether the bus has reached its end of life.
    pub closed: bool,
}

impl<T> BusModel<T> {
    /// An open bus without items or subscribers.
    pub open spec fn empty(capacity: nat) -> Self {
        BusModel { capacity, published: Seq::empty(), cursors: Map::empty(), closed: false }
    }

    /// The oldest position that the ring still keeps.
    pub open spec fn floor(self) -> nat {
        if self.published.len() > self.capacity {
            (self.published.len() - self.capacity) as nat
        } else {
            0
        }
    }

    /// Whether every cursor lies within the kept window.
    pub open spec fn valid(self) -> bool {
        forall|id: int| #[trigger]
            self.cursors.contains_key(id) ==> self.floor() <= self.cursors[id]
                <= self.published.len()
    }

    /// The state after `item` was published: it is appended, and a cursor that
    /// the window has left behind moves up to the oldest kept position. A
    /// closed bus accepts nothing.
    pub open spec fn publish(self, item: T) -> Self {
        if self.closed {
            self
        } else {
            let published = self.published.push(item);
            let next = BusModel { published, ..self };
            BusModel {
                cursors: Map::new(
                    |id: int| self.cursors.contains_key(id),
                    |id: int|
                        if self.cursors[id] < next.floor() {
                            next.floor()
                        } else {
                            self.cursors[id]
                        },
                ),
                ..next
            }
        }
    }

    /// The state after a subscriber joined under `id`: it starts at the write
    /// head, so nothing published before is delivered to it.
    pub open spec fn subscribe(self, id: int) -> Self {
        BusModel { cursors: self.cursors.insert(id, self.published.len()), ..self }
    }

    /// The state after the subscriber `id` left.
    pub open spec fn unsubscribe(self, id: int) -> Self {
        BusModel { cursors: self.cursors.remove(id), ..self }
    }

    /// The number of items that `id` has not read yet.
    pub open spec fn unread(self, id: int) -> nat {
        (self.published.len() - self.cursors[id]) as nat
    }

    /// Whether a pull by `id` delivers an item.
    pub open spec fn has_next(self, id: int) -> bool {
        self.cursors.contains_key(id) && self.cursors[id] < self.published.len()
    }

    /// The state after `id` pulled: its cursor moves one step if an item was
    /// there, and nothing changes otherwise.
    pub open spec fn advance(self, id: int) -> Self {
        if self.has_next(id) {
            BusModel { cursors: self.cursors.insert(id, self.cursors[id] + 1), ..self }
        } else {
            self
        }
    }

    /// The state after the bus was closed.
    pub open spec fn close(self) -> Self {
        BusModel { closed: true, ..self }
    }
}

/// What a pull from the bus gave.
#[derive(Debug, PartialEq, Eq)]
pub enum Pulled<T> {
    /// The next unread item.
    Item(T),
    /// Nothing is unread; the bus is still open.
    Empty,
    /// The bus is closed and drained, or the subscriber is not registered.
    Closed,
}

/// The handle of one subscription. It is created by [`Bus::subscribe`] and
/// given back to [`Bus::unsubscribe`].
pub struct Subscriber {
    id: usize,
}

impl Subscriber {
    /// The key of this subscriber in the bus's registry.
    pub closed spec fn id(&self) -> int {
        self.id as int
    }
}

/// The slot that holds the `i`-th oldest item of a ring of `len` slots whose
/// oldest item is in slot `head`.
pub open spec fn slot_at(head: int, len: int, i: int) -> int {
    if head + i < len {
        head + i
    } else {
        head + i - len
    }
}

/// A bounded ring of items with a registry of subscriber cursors.
pub struct Bus<T> {
    capacity: usize,
    slots: Vec<T>,
    head: usize,
    lags: Vec<Option<usize>>,
    closed: bool,
    history: Ghost<Seq<T>>,
}

impl<T> View for Bus<T> {
    type V = BusModel<T>;

    closed spec fn view(&self) -> BusModel<T> {
        BusModel {
            capacity: self.capacity as nat,
            published: self.history@,
            cursors: Map::new(
                |id: int| 0 <= id < self.lags@.len() && self.lags@[id] is Some,
                |id: int| (self.history@.len() - self.lags@[id]->0) as nat,
            ),
            closed: self.closed,
        }
    }
}

impl<T> Bus<T> {
    /// The representation invariant: the ring holds the newest items of the
    /// history, and no subscriber is further behind than the ring reaches.
    pub closed spec fn wf(&self) -> bool {
        &&& self.slots@.len() <= self.capacity
        &&& self.slots@.len() <= self.history@.len()
        &&& self.slots@.len() < self.capacity ==> self.head == 0 && self.slots@.len()
            == self.history@.len()
        &&& self.slots@.len() > 0 ==> self.head < self.slots@.len()
        &&& forall|i: int|
            0 <= i < self.slots@.len() ==> self.slots@[#[trigger] slot_at(
                self.head as int,
                self.slots@.len() as int,
                i,
            )]
                == self.history@[self.history@.len() - self.slots@.len() + i]
        &&& forall|id: int|
            0 <= id < self.lags@.len() && self.lags@[id] is Some ==> (#[trigger] self.lags@[id])->0
                <= self.slots@.len()
    }

    /// A well-formed bus has a valid model.
    pub proof fn lemma_wf_valid(&self)
        requires
            self.wf(),
        ensures
            self@.valid(),
    {
        assert forall|id: int| #[trigger] self@.cursors.contains_key(id) implies self@.floor()
            <= self@.cursors[id] <= self@.published.len() by {
            assert(self.lags@[id]->0 <= self.slots@.len());
        }
    }

    /// An open bus that keeps the last `capacity` items.
    pub fn new(capacity: usize) -> (bus: Self)
        ensures
            bus.wf(),
            bus@ == BusModel::<T>::empty(capacity as nat),
    {
        let bus = Bus {
            capacity,
            slots: Vec::new(),
            head: 0,
            lags: Vec::new(),
            closed: false,
            history: Ghost(Seq::empty()),
        };
        assert(bus@.cursors =~= Map::<int, nat>::empty());
        bus
    }

    /// How many items the ring keeps.
    pub fn capacity(&self) -> (n: usize)
        ensures
            n == self@.capacity,
    {
        self.capacity
    }

    /// How many items the ring holds at the moment: all that were published,
    /// until they are more than the ring keeps.
    pub fn kept(&self) -> (n: usize)
        requires
            self.wf(),
        ensures
            n <= self@.capacity,
            n == self@.published.len() - self@.floor(),
    {
        self.slots.len()
    }

    /// Whether the bus has reached its end of life.
    pub fn is_closed(&self) -> (b: bool)
        ensures
            b == self@.closed,
    {
        self.closed
    }

    /// Ends the life of the bus: nothing more is accepted, and a subscriber
    /// that has read what was kept for it finds the bus closed.
    pub fn close(&mut self)
        requires
            old(self).wf(),
        ensures
            final(self).wf(),
            final(self)@ == old(self)@.close(),
    {
        self.closed = true;
        assert(self@.cursors =~= old(self)@.cursors);
    }

    /// Whether `sub` is registered with this bus.
    pub fn is_subscribed(&self, sub: &Subscriber) -> (b: bool)
        ensures
            b == self@.cursors.contains_key(sub.id()),
    {
        sub.id < self.lags.len() && self.lags[sub.id].is_some()
    }

    /// The number of items kept for `sub` that it has not read; 0 for a
    /// subscriber that is not registered.
    pub fn unread(&self, sub: &Subscriber) -> (n: usize)
        requires
            self.wf(),
        ensures
            self@.cursors.contains_key(sub.id()) ==> n == self@.unread(sub.id()),
            !self@.cursors.contains_key(sub.id()) ==> n == 0,
    {
        if sub.id < self.lags.len() {
            match self.lags[sub.id] {
                Some(lag) => lag,
                None => 0,
            }
        } else {
            0
        }
    }

    /// Registers a new subscriber. Its cursor starts at the write head: it
    /// will be offered what is published from now on, and nothing older.
    pub fn subscribe(&mut self) -> (sub: Subscriber)
        requires
            old(self).wf(),
        ensures
            final(self).wf(),
            !old(self)@.cursors.contains_key(sub.id()),
            final(self)@ == old(self)@.subscribe(sub.id()),
    {
        let id = first_free(&self.lags);
        if id < self.lags.len() {
            self.lags.set(id, Some(0));
        } else {
            self.lags.push(Some(0));
        }
        proof {
            assert(self@.cursors =~= old(self)@.cursors.insert(id as int, old(self)@.published.len()));
            assert forall|j: int| 0 <= j < self.lags@.len() && self.lags@[j] is Some implies (
            #[trigger] self.lags@[j])->0 <= self.slots@.len() by {
                if j != id {
                    assert(old(self).lags@[j] is Some);
                }
            }
        }
        Subscriber { id }
    }

    /// Releases a subscription. Its slot in the registry becomes free.
    pub fn unsubscribe(&mut self, sub: Subscriber)
        requires
            old(self).wf(),
        ensures
            final(self).wf(),
            final(self)@ == old(self)@.unsubscribe(sub.id()),
    {
        if sub.id < self.lags.len() {
            self.lags.set(sub.id, None);
        }
        proof {
            assert(self@.cursors =~= old(self)@.cursors.remove(sub.id as int));
            assert forall|j: int| 0 <= j < self.lags@.len() && self.lags@[j] is Some implies (
            #[trigger] self.lags@[j])->0 <= self.slots@.len() by {
                assert(old(self).lags@[j] is Some);
            }
        }
    }

    /// Publishes `item` to every subscriber, without waiting for any of them.
    /// When the ring is full the oldest kept item gives way, and a subscriber
    /// that had not read it continues with the oldest item still kept.
    pub fn publish(&mut self, item: T)
        requires
            old(self).wf(),
        ensures
            final(self).wf(),
            final(self)@ == old(self)@.publish(item),
    {
        if self.closed {
            return ;
        }
        let ghost before = self.history@;
        self.history = Ghost(before.push(item));
        if self.capacity == 0 {
            proof {
                assert(self@.cursors =~= old(self)@.publish(item).cursors);
            }
            return ;
        }
        if self.slots.len() < self.capacity {
            self.slots.push(item);
        } else {
            self.slots.set(self.head, item);
            self.head = if self.head + 1 == self.capacity {
                0
            } else {
                self.head + 1
            };
        }
        proof {
            let len = self.slots@.len() as int;
            assert forall|i: int| 0 <= i < len implies self.slots@[#[trigger] slot_at(
                self.head as int,
                len,
                i,
            )] == self.history@[self.history@.len() - len + i] by {
                if old(self).slots@.len() < self.capacity {
                    if i < len - 1 {
                        assert(slot_at(0, len - 1, i) == i);
                    }
                } else {
                    if i < len - 1 {
                        let j = i + 1;
                        assert(slot_at(old(self).head as int, len, j) == slot_at(
                            self.head as int,
                            len,
                            i,
                        ));
                    }
                }
            }
        }
        let kept = self.slots.len();
        bump_all(&mut self.lags, kept);
        proof {
            assert forall|j: int| 0 <= j < self.lags@.len() && self.lags@[j] is Some implies (
            #[trigger] self.lags@[j])->0 <= self.slots@.len() by {
                assert(self.lags@[j] == bumped(old(self).lags@[j], kept));
                assert(old(self).lags@[j] is Some);
            }
            let want = old(self)@.publish(item);
            assert forall|id: int| #[trigger] self@.cursors.contains_key(id) implies self@.cursors[id]
                == want.cursors[id] by {
                assert(self.lags@[id] == bumped(old(self).lags@[id], kept));
                assert(old(self).lags@[id]->0 <= old(self).slots@.len());
            }
            assert forall|id: int| self@.cursors.contains_key(id) == want.cursors.contains_key(
                id,
            ) by {
                if 0 <= id < self.lags@.len() {
                    assert(self.lags@[id] == bumped(old(self).lags@[id], kept));
                }
            }
            assert(self@.cursors =~= want.cursors);
        }
    }

    /// Pulls the next unread item for `sub`, without waiting: the item at its
    /// cursor, which then moves one step.
    pub fn next(&mut self, sub: &Subscriber) -> (got: Pulled<T>) where T: Clone
        requires
            old(self).wf(),
        ensures
            final(self).wf(),
            final(self)@ == old(self)@.advance(sub.id()),
            match got {
                Pulled::Item(item) => old(self)@.has_next(sub.id()) && cloned(
                    old(self)@.published[old(self)@.cursors[sub.id()] as int],
                    item,
                ),
                Pulled::Empty => old(self)@.cursors.contains_key(sub.id()) && !old(self)@.has_next(
                    sub.id(),
                ) && !old(self)@.closed,
                Pulled::Closed => !old(self)@.has_next(sub.id()) && (old(self)@.closed || !old(self)@.cursors.contains_key(sub.id())),
            },
    {
        let id = sub.id;
        if id >= self.lags.len() {
            return Pulled::Closed;
        }
        match self.lags[id] {
            None => Pulled::Closed,
            Some(lag) => {
                if lag == 0 {
                    if self.closed {
                        Pulled::Closed
                    } else {
                        Pulled::Empty
                    }
                } else {
                    let len = self.slots.len();
                    let slot = if self.head < lag {
                        self.head + (len - lag)
                    } else {
                        self.head - lag
                    };
                    assert(slot == slot_at(self.head as int, len as int, len - lag));
                    let item = self.slots[slot].clone();
                    self.lags.set(id, Some(lag - 1));
                    proof {
                        assert(self@.cursors =~= old(self)@.advance(id as int).cursors);
                        assert forall|j: int|
                            0 <= j < self.lags@.len() && self.lags@[j] is Some implies (
                        #[trigger] self.lags@[j])->0 <= self.slots@.len() by {
                            if j != id {
                                assert(old(self).lags@[j] is Some);
                            }
                        }
                    }
                    Pulled::Item(item)
                }
            },
        }
    }
}

/// The lag of a registry entry after one more item was published into a ring
/// that now keeps `kept` items.
spec fn bumped(entry: Option<usize>, kept: usize) -> Option<usize> {
    match entry {
        Some(lag) => if lag < kept {
            Some((lag + 1) as usize)
        } else {
            Some(lag)
        },
        None => None,
    }
}

/// Counts one more unread item for every subscriber that the ring can still
/// serve in full.
fn bump_all(lags: &mut Vec<Option<usize>>, kept: usize)
    requires
        forall|j: int|
            0 <= j < old(lags)@.len() && old(lags)@[j] is Some ==> (#[trigger] old(lags)@[j])->0
                <= kept,
    ensures
        final(lags)@.len() == old(lags)@.len(),
        forall|j: int|
            0 <= j < old(lags)@.len() ==> #[trigger] final(lags)@[j] == bumped(old(lags)@[j], kept),
{
    let mut k: usize = 0;
    while k < lags.len()
        invariant
            k <= lags@.len(),
            lags@.len() == old(lags)@.len(),
            forall|j: int|
                0 <= j < old(lags)@.len() && old(lags)@[j] is Some ==> (#[trigger] old(lags)@[j])->0
                    <= kept,
            forall|j: int| 0 <= j < k ==> #[trigger] lags@[j] == bumped(old(lags)@[j], kept),
            forall|j: int| k <= j < lags@.len() ==> lags@[j] == old(lags)@[j],
        decreases lags@.len() - k,
    {
        let lag = lags[k];
        match lag {
            Some(l) => {
                if l < kept {
                    lags.set(k, Some(l + 1));
                }
            },
            None => {},
        }
        k = k + 1;
    }
}

/// The first free entry of a registry, or its length if none is free.
fn first_free(lags: &Vec<Option<usize>>) -> (id: usize)
    ensures
        id <= lags@.len(),
        id < lags@.len() ==> lags@[id as int] is None,
        forall|j: int| 0 <= j < id ==> lags@[j] is Some,
{
    let mut i: usize = 0;
    while i < lags.len()
        invariant
            i <= lags@.len(),
            forall|j: int| 0 <= j < i ==> lags@[j] is Some,
        decreases lags@.len() - i,
    {
        if lags[i].is_none() {
            return i;
        }
        i = i + 1;
    }
    i
}

} // verus!

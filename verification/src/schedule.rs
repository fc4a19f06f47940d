//! What one subscriber observes while publishes and pulls alternate in any
//! order, stated over the bus's mathematical state.

use crate::bus::BusModel;
use vstd::prelude::*;

verus! {

/// One step of a schedule, seen from one subscriber.
pub enum Step<T> {
    /// An item is published on the bus.
    Publish(T),
    /// The subscriber pulls once.
    Pull,
}

/// The bus after `steps`, and the positions of its history that the
/// subscriber `id` was handed on the way, in the order of the pulls.
pub open spec fn run<T>(bus: BusModel<T>, id: int, steps: Seq<Step<T>>) -> (BusModel<T>, Seq<int>)
    decreases steps.len(),
{
    if steps.len() == 0 {
        (bus, Seq::empty())
    } else {
        let (prev, seen) = run(bus, id, steps.drop_last());
        match steps.last() {
            Step::Publish(item) => (prev.publish(item), seen),
            Step::Pull => if prev.has_next(id) {
                (prev.advance(id), seen.push(prev.cursors[id] as int))
            } else {
                (prev, seen)
            },
        }
    }
}

/// The items that `steps` publish, in order.
pub open spec fn published_by<T>(steps: Seq<Step<T>>) -> Seq<T>
    decreases steps.len(),
{
    if steps.len() == 0 {
        Seq::empty()
    } else {
        match steps.last() {
            Step::Publish(item) => published_by(steps.drop_last()).push(item),
            Step::Pull => published_by(steps.drop_last()),
        }
    }
}

/// The items at the positions `seen` of a history.
pub open spec fn items_at<T>(history: Seq<T>, seen: Seq<int>) -> Seq<T> {
    Seq::new(seen.len(), |k: int| history[seen[k]])
}

/// Whether the subscriber never has a full ring of unread items when another
/// item is published, so that no publish moves its cursor.
pub open spec fn keeps_up<T>(bus: BusModel<T>, id: int, steps: Seq<Step<T>>) -> bool
    decreases steps.len(),
{
    steps.len() == 0 || (keeps_up(bus, id, steps.drop_last()) && match steps.last() {
        Step::Publish(_) => run(bus, id, steps.drop_last()).0.unread(id) < bus.capacity,
        Step::Pull => true,
    })
}

/// One publish for each item of `items`, in their order, with no pull between them.
pub open spec fn publishes<T>(items: Seq<T>) -> Seq<Step<T>> {
    Seq::new(items.len(), |k: int| Step::Publish(items[k]))
}

/// `count` pulls in a row.
pub open spec fn pulls<T>(count: nat) -> Seq<Step<T>> {
    Seq::new(count, |k: int| Step::Pull)
}

/// Publishing keeps a valid state valid, appends the item to the history of
/// an open bus, and leaves the set of subscribers as it was.
pub proof fn lemma_publish_valid<T>(bus: BusModel<T>, item: T)
    requires
        bus.valid(),
    ensures
        bus.publish(item).valid(),
        bus.publish(item).capacity == bus.capacity,
        bus.publish(item).closed == bus.closed,
        bus.publish(item).cursors.dom() == bus.cursors.dom(),
        !bus.closed ==> bus.publish(item).published == bus.published.push(item),
        bus.closed ==> bus.publish(item) == bus,
{
    let after = bus.publish(item);
    assert(after.cursors.dom() =~= bus.cursors.dom());
    assert forall|id: int| #[trigger] after.cursors.contains_key(id) implies after.floor()
        <= after.cursors[id] <= after.published.len() by {
        assert(bus.cursors.contains_key(id));
    }
}

/// While any schedule runs, a subscriber is handed positions of the history
/// in strictly rising order: nothing comes twice and nothing comes out of
/// order. Every position lies between its cursor before the schedule and its
/// cursor after it, and the history only grows at its end.
pub proof fn lemma_observed_in_order<T>(bus: BusModel<T>, id: int, steps: Seq<Step<T>>)
    requires
        bus.valid(),
        bus.cursors.contains_key(id),
    ensures
        ({
            let (end, seen) = run(bus, id, steps);
            &&& end.valid()
            &&& end.cursors.contains_key(id)
            &&& end.capacity == bus.capacity
            &&& end.closed == bus.closed
            &&& bus.published.len() <= end.published.len()
            &&& end.published.subrange(0, bus.published.len() as int) == bus.published
            &&& !bus.closed ==> end.published == bus.published + published_by(steps)
            &&& bus.cursors[id] <= end.cursors[id]
            &&& forall|k: int|
                0 <= k < seen.len() ==> bus.cursors[id] <= #[trigger] seen[k] < end.cursors[id]
            &&& forall|i: int, j: int| 0 <= i < j < seen.len() ==> seen[i] < seen[j]
        }),
    decreases steps.len(),
{
    if steps.len() == 0 {
        assert(bus.published.subrange(0, bus.published.len() as int) =~= bus.published);
        assert(bus.published + published_by(steps) =~= bus.published);
    } else {
        lemma_observed_in_order(bus, id, steps.drop_last());
        let (prev, seen0) = run(bus, id, steps.drop_last());
        let (end, seen) = run(bus, id, steps);
        match steps.last() {
            Step::Publish(item) => {
                lemma_publish_valid(prev, item);
                assert(end.cursors.contains_key(id)) by {
                    assert(end.cursors.dom().contains(id));
                }
                assert(end.published.subrange(0, bus.published.len() as int) =~= bus.published)
                    by {
                    assert(prev.published.subrange(0, bus.published.len() as int)
                        == bus.published);
                    assert forall|k: int| 0 <= k < bus.published.len() implies end.published[k]
                        == bus.published[k] by {
                        assert(prev.published.subrange(0, bus.published.len() as int)[k]
                            == prev.published[k]);
                    }
                }
                if !bus.closed {
                    assert(end.published =~= bus.published + published_by(steps));
                }
            },
            Step::Pull => {
                if prev.has_next(id) {
                    assert forall|k: int| 0 <= k < seen.len() implies bus.cursors[id]
                        <= #[trigger] seen[k] < end.cursors[id] by {
                        if k < seen0.len() {
                            assert(seen[k] == seen0[k]);
                        }
                    }
                    assert forall|i: int, j: int| 0 <= i < j < seen.len() implies seen[i]
                        < seen[j] by {
                        if j < seen0.len() {
                            assert(seen0[i] < seen0[j]);
                        } else {
                            assert(seen[i] == seen0[i]);
                        }
                    }
                }
            },
        }
    }
}

/// A subscriber that joins after some items were published is never handed
/// one of them: every position it observes lies behind the history as it was
/// when it joined.
pub proof fn lemma_late_subscriber_sees_no_history<T>(
    bus: BusModel<T>,
    id: int,
    steps: Seq<Step<T>>,
)
    requires
        bus.valid(),
    ensures
        ({
            let (end, seen) = run(bus.subscribe(id), id, steps);
            forall|k: int| 0 <= k < seen.len() ==> bus.published.len() <= #[trigger] seen[k]
        }),
{
    let joined = bus.subscribe(id);
    assert(joined.valid()) by {
        assert forall|other: int| #[trigger] joined.cursors.contains_key(other) implies joined.floor()
            <= joined.cursors[other] <= joined.published.len() by {
            if other != id {
                assert(bus.cursors.contains_key(other));
            }
        }
    }
    lemma_observed_in_order(joined, id, steps);
}

/// A subscriber that keeps up observes every position from its cursor on,
/// without a gap. If it had read everything before the schedule and has read
/// everything after it, the items it was handed are exactly the items that
/// the schedule published, in their order.
pub proof fn lemma_keeping_up_observes_all<T>(bus: BusModel<T>, id: int, steps: Seq<Step<T>>)
    requires
        bus.valid(),
        bus.cursors.contains_key(id),
        keeps_up(bus, id, steps),
    ensures
        ({
            let (end, seen) = run(bus, id, steps);
            &&& seen == Seq::new(
                (end.cursors[id] - bus.cursors[id]) as nat,
                |k: int| bus.cursors[id] + k,
            )
            &&& !bus.closed && bus.unread(id) == 0 && end.unread(id) == 0 ==> items_at(
                end.published,
                seen,
            ) == published_by(steps)
        }),
    decreases steps.len(),
{
    let (end, seen) = run(bus, id, steps);
    let first = bus.cursors[id];
    lemma_observed_in_order(bus, id, steps);
    if steps.len() == 0 {
        assert(seen =~= Seq::new((end.cursors[id] - first) as nat, |k: int| first + k));
    } else {
        let (prev, seen0) = run(bus, id, steps.drop_last());
        lemma_keeping_up_observes_all(bus, id, steps.drop_last());
        lemma_observed_in_order(bus, id, steps.drop_last());
        match steps.last() {
            Step::Publish(item) => {
                lemma_publish_valid(prev, item);
                assert(end.cursors[id] == prev.cursors[id]);
            },
            Step::Pull => {},
        }
        assert(seen =~= Seq::new((end.cursors[id] - first) as nat, |k: int| first + k));
    }
    if !bus.closed && bus.unread(id) == 0 && end.unread(id) == 0 {
        assert(items_at(end.published, seen) =~= published_by(steps));
    }
}

/// Publishes alone hand the subscriber nothing. They append their items to
/// the history of an open bus, and the cursor is moved only as far as the
/// window forces it.
pub proof fn lemma_publishes_move_window<T>(bus: BusModel<T>, id: int, items: Seq<T>)
    requires
        bus.valid(),
        bus.cursors.contains_key(id),
        !bus.closed,
    ensures
        ({
            let (end, seen) = run(bus, id, publishes(items));
            &&& seen.len() == 0
            &&& end.published == bus.published + items
            &&& end.cursors[id] == if bus.cursors[id] < end.floor() {
                end.floor()
            } else {
                bus.cursors[id]
            }
        }),
    decreases items.len(),
{
    let steps = publishes(items);
    lemma_observed_in_order(bus, id, steps);
    if items.len() == 0 {
        assert(bus.published + items =~= bus.published);
    } else {
        assert(steps.drop_last() =~= publishes(items.drop_last()));
        lemma_publishes_move_window(bus, id, items.drop_last());
        lemma_observed_in_order(bus, id, steps.drop_last());
        let (prev, seen0) = run(bus, id, steps.drop_last());
        lemma_publish_valid(prev, items.last());
        assert(run(bus, id, steps).0.published =~= bus.published + items);
    }
}

/// Pulls in a row after a schedule hand the subscriber the positions from its
/// cursor on, one by one, until nothing is unread.
pub proof fn lemma_pulls_drain<T>(bus: BusModel<T>, id: int, steps: Seq<Step<T>>, count: nat)
    requires
        bus.valid(),
        bus.cursors.contains_key(id),
    ensures
        ({
            let (mid, before) = run(bus, id, steps);
            let (end, seen) = run(bus, id, steps + pulls::<T>(count));
            let taken = if count < mid.unread(id) {
                count
            } else {
                mid.unread(id)
            };
            &&& end.published == mid.published
            &&& end.cursors[id] == mid.cursors[id] + taken
            &&& seen == before + Seq::new(taken, |k: int| mid.cursors[id] + k)
        }),
    decreases count,
{
    let (mid, before) = run(bus, id, steps);
    let all = steps + pulls::<T>(count);
    lemma_observed_in_order(bus, id, steps);
    if count == 0 {
        assert(all =~= steps);
        assert(before + Seq::new(0, |k: int| mid.cursors[id] + k) =~= before);
    } else {
        let fewer = (count - 1) as nat;
        assert(all.drop_last() =~= steps + pulls::<T>(fewer));
        assert(all.last() == Step::<T>::Pull);
        lemma_pulls_drain(bus, id, steps, fewer);
        lemma_observed_in_order(bus, id, all.drop_last());
        let (prev, seen0) = run(bus, id, all.drop_last());
        let taken0 = if fewer < mid.unread(id) {
            fewer
        } else {
            mid.unread(id)
        };
        assert(prev.cursors[id] == mid.cursors[id] + taken0);
        assert(seen0 == before + Seq::new(taken0, |k: int| mid.cursors[id] + k));
        let (end, seen) = run(bus, id, all);
        let taken = if count < mid.unread(id) {
            count
        } else {
            mid.unread(id)
        };
        assert(seen =~= before + Seq::new(taken, |k: int| mid.cursors[id] + k));
    }
}

/// A subscriber that lets more items pile up than the ring keeps, and then
/// reads until nothing is left, observes the newest `capacity` items in
/// their order: a strict suffix of what was unread, the oldest being lost.
pub proof fn lemma_lagging_observes_suffix<T>(
    bus: BusModel<T>,
    id: int,
    items: Seq<T>,
    count: nat,
)
    requires
        bus.valid(),
        bus.cursors.contains_key(id),
        !bus.closed,
        bus.unread(id) + items.len() > bus.capacity,
        count >= bus.capacity,
    ensures
        ({
            let (end, seen) = run(bus, id, publishes(items) + pulls::<T>(count));
            let history = bus.published + items;
            &&& end.published == history
            &&& end.unread(id) == 0
            &&& seen == Seq::new(bus.capacity, |k: int| history.len() - bus.capacity + k)
            &&& items_at(history, seen) == history.subrange(
                history.len() - bus.capacity,
                history.len() as int,
            )
            &&& seen.len() < bus.unread(id) + items.len()
        }),
{
    let steps = publishes(items);
    let history = bus.published + items;
    lemma_publishes_move_window(bus, id, items);
    lemma_observed_in_order(bus, id, steps);
    lemma_pulls_drain(bus, id, steps, count);
    let (mid, before) = run(bus, id, steps);
    let (end, seen) = run(bus, id, steps + pulls::<T>(count));
    assert(mid.unread(id) == bus.capacity);
    assert(seen =~= Seq::new(bus.capacity, |k: int| history.len() - bus.capacity + k));
    assert(items_at(history, seen) =~= history.subrange(
        history.len() - bus.capacity,
        history.len() as int,
    ));
}

/// A subscriber that keeps up and has an unread item waiting is handed that
/// item first, whatever is published in the meantime. So an item that is
/// published right after a subscriber joined, before anything else, is the
/// first that this subscriber observes.
pub proof fn lemma_first_observed_is_oldest_unread<T>(
    bus: BusModel<T>,
    id: int,
    steps: Seq<Step<T>>,
)
    requires
        bus.valid(),
        bus.has_next(id),
        keeps_up(bus, id, steps),
        run(bus, id, steps).1.len() > 0,
    ensures
        ({
            let (end, seen) = run(bus, id, steps);
            &&& seen[0] == bus.cursors[id]
            &&& end.published[seen[0]] == bus.published[bus.cursors[id] as int]
        }),
{
    let (end, seen) = run(bus, id, steps);
    let first = bus.cursors[id] as int;
    lemma_keeping_up_observes_all(bus, id, steps);
    lemma_observed_in_order(bus, id, steps);
    assert(seen[0] == first);
    assert(end.published.subrange(0, bus.published.len() as int)[first] == end.published[first]);
}

/// What one subscriber does leaves every other subscriber alone: when it
/// pulls, joins or leaves, the history, and the cursor and the unread items
/// of any other subscriber, stay as they are.
pub proof fn lemma_subscribers_are_independent<T>(bus: BusModel<T>, id: int, other: int)
    requires
        id != other,
    ensures
        bus.advance(id).published == bus.published,
        bus.advance(id).cursors.contains_key(other) == bus.cursors.contains_key(other),
        bus.advance(id).cursors[other] == bus.cursors[other],
        bus.advance(id).has_next(other) == bus.has_next(other),
        bus.subscribe(id).published == bus.published,
        bus.subscribe(id).cursors.contains_key(other) == bus.cursors.contains_key(other),
        bus.subscribe(id).cursors[other] == bus.cursors[other],
        bus.unsubscribe(id).published == bus.published,
        bus.unsubscribe(id).cursors.contains_key(other) == bus.cursors.contains_key(other),
        bus.unsubscribe(id).cursors[other] == bus.cursors[other],
{
}

/// No subscriber ever has more unread items than the ring keeps, however
/// many items are published.
pub proof fn lemma_backlog_is_bounded<T>(bus: BusModel<T>, id: int, steps: Seq<Step<T>>)
    requires
        bus.valid(),
        bus.cursors.contains_key(id),
    ensures
        run(bus, id, steps).0.unread(id) <= bus.capacity,
{
    lemma_observed_in_order(bus, id, steps);
    let end = run(bus, id, steps).0;
    assert(end.floor() <= end.cursors[id]);
}

} // verus!

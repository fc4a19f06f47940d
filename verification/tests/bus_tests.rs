use stream_gateway::bus::{Bus, Pulled};

fn drain(bus: &mut Bus<u32>, sub: &stream_gateway::bus::Subscriber) -> Vec<u32> {
    let mut seen = Vec::new();
    loop {
        match bus.next(sub) {
            Pulled::Item(item) => seen.push(item),
            _ => break,
        }
    }
    seen
}

#[test]
fn subscriber_that_keeps_up_observes_every_item_in_order() {
    let mut bus: Bus<u32> = Bus::new(4);
    let sub = bus.subscribe();
    let mut seen = Vec::new();
    for item in 0..100u32 {
        bus.publish(item);
        assert_eq!(bus.unread(&sub), 1);
        match bus.next(&sub) {
            Pulled::Item(got) => seen.push(got),
            other => panic!("expected an item, got {:?}", other),
        }
    }
    assert_eq!(seen, (0..100u32).collect::<Vec<u32>>());
    assert_eq!(bus.next(&sub), Pulled::Empty);
}

#[test]
fn subscriber_within_capacity_observes_every_item() {
    let mut bus: Bus<u32> = Bus::new(8);
    let sub = bus.subscribe();
    for item in 0..8u32 {
        bus.publish(item);
    }
    assert_eq!(bus.unread(&sub), 8);
    assert_eq!(drain(&mut bus, &sub), vec![0, 1, 2, 3, 4, 5, 6, 7]);
}

#[test]
fn lagging_subscriber_observes_the_newest_items_only() {
    let mut bus: Bus<u32> = Bus::new(3);
    let sub = bus.subscribe();
    for item in 1..=10u32 {
        bus.publish(item);
    }
    assert_eq!(bus.unread(&sub), 3);
    assert_eq!(drain(&mut bus, &sub), vec![8, 9, 10]);
    assert_eq!(bus.unread(&sub), 0);
}

#[test]
fn lagging_by_one_loses_exactly_the_oldest() {
    let mut bus: Bus<u32> = Bus::new(3);
    let sub = bus.subscribe();
    for item in 1..=4u32 {
        bus.publish(item);
    }
    assert_eq!(drain(&mut bus, &sub), vec![2, 3, 4]);
}

#[test]
fn overflow_between_pulls_leaves_a_gap_and_keeps_the_order() {
    let mut bus: Bus<u32> = Bus::new(2);
    let sub = bus.subscribe();
    bus.publish(1);
    bus.publish(2);
    assert_eq!(bus.next(&sub), Pulled::Item(1));
    bus.publish(3);
    bus.publish(4);
    bus.publish(5);
    assert_eq!(drain(&mut bus, &sub), vec![4, 5]);
}

#[test]
fn late_subscriber_sees_nothing_published_before() {
    let mut bus: Bus<u32> = Bus::new(16);
    for item in 0..5u32 {
        bus.publish(item);
    }
    let sub = bus.subscribe();
    assert_eq!(bus.unread(&sub), 0);
    assert_eq!(bus.next(&sub), Pulled::Empty);
    bus.publish(5);
    bus.publish(6);
    assert_eq!(drain(&mut bus, &sub), vec![5, 6]);
}

#[test]
fn subscribers_read_independently() {
    let mut bus: Bus<u32> = Bus::new(4);
    let fast = bus.subscribe();
    let slow = bus.subscribe();
    let mut fast_seen = Vec::new();
    for item in 0..10u32 {
        bus.publish(item);
        if let Pulled::Item(got) = bus.next(&fast) {
            fast_seen.push(got);
        }
    }
    assert_eq!(fast_seen, (0..10u32).collect::<Vec<u32>>());
    assert_eq!(drain(&mut bus, &slow), vec![6, 7, 8, 9]);
}

#[test]
fn publish_without_subscribers_is_accepted() {
    let mut bus: Bus<u32> = Bus::new(2);
    for item in 0..10u32 {
        bus.publish(item);
    }
    let sub = bus.subscribe();
    assert_eq!(bus.next(&sub), Pulled::Empty);
}

#[test]
fn ring_wraps_many_times() {
    let mut bus: Bus<u32> = Bus::new(3);
    let sub = bus.subscribe();
    for round in 0..50u32 {
        bus.publish(round * 2);
        bus.publish(round * 2 + 1);
        assert_eq!(bus.next(&sub), Pulled::Item(round * 2));
        assert_eq!(bus.next(&sub), Pulled::Item(round * 2 + 1));
        assert_eq!(bus.next(&sub), Pulled::Empty);
    }
}

#[test]
fn bus_without_capacity_keeps_nothing() {
    let mut bus: Bus<u32> = Bus::new(0);
    let sub = bus.subscribe();
    bus.publish(1);
    assert_eq!(bus.capacity(), 0);
    assert_eq!(bus.unread(&sub), 0);
    assert_eq!(bus.next(&sub), Pulled::Empty);
}

#[test]
fn unsubscribed_handle_finds_the_bus_closed() {
    let mut bus: Bus<u32> = Bus::new(4);
    let first = bus.subscribe();
    let second = bus.subscribe();
    assert!(bus.is_subscribed(&first));
    bus.unsubscribe(first);
    bus.publish(7);
    assert_eq!(bus.next(&second), Pulled::Item(7));
    let third = bus.subscribe();
    assert!(bus.is_subscribed(&third));
    assert_eq!(bus.next(&third), Pulled::Empty);
}

#[test]
fn closed_bus_is_drained_and_then_reports_closed() {
    let mut bus: Bus<u32> = Bus::new(4);
    let sub = bus.subscribe();
    bus.publish(1);
    bus.publish(2);
    assert!(!bus.is_closed());
    bus.close();
    assert!(bus.is_closed());
    bus.publish(3);
    assert_eq!(bus.next(&sub), Pulled::Item(1));
    assert_eq!(bus.next(&sub), Pulled::Item(2));
    assert_eq!(bus.next(&sub), Pulled::Closed);
}

#[test]
fn handle_of_another_bus_is_not_served() {
    let mut first: Bus<u32> = Bus::new(4);
    let mut second: Bus<u32> = Bus::new(4);
    let _a = first.subscribe();
    let b = first.subscribe();
    second.publish(1);
    assert!(!second.is_subscribed(&b));
    assert_eq!(second.next(&b), Pulled::Closed);
    assert_eq!(second.unread(&b), 0);
}

#[test]
fn ring_holds_no_more_than_its_capacity() {
    let mut bus: Bus<u32> = Bus::new(3);
    let sub = bus.subscribe();
    assert_eq!(bus.kept(), 0);
    for item in 0..10u32 {
        bus.publish(item);
        assert_eq!(bus.kept(), std::cmp::min(item as usize + 1, 3));
        assert!(bus.unread(&sub) <= 3);
    }
}

#[test]
fn pulls_of_one_subscriber_leave_the_other_alone() {
    let mut bus: Bus<u32> = Bus::new(4);
    let a = bus.subscribe();
    let b = bus.subscribe();
    bus.publish(1);
    bus.publish(2);
    assert_eq!(bus.unread(&b), 2);
    assert_eq!(bus.next(&a), Pulled::Item(1));
    assert_eq!(bus.next(&a), Pulled::Item(2));
    assert_eq!(bus.unread(&b), 2);
    let c = bus.subscribe();
    bus.unsubscribe(a);
    assert_eq!(bus.unread(&b), 2);
    assert_eq!(bus.unread(&c), 0);
    assert_eq!(bus.next(&b), Pulled::Item(1));
}

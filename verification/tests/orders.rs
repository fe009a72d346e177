use job_dispatcher::event_sourcing::order_aggregate::{
    OrderAggregate, OrderAggregateProjector, OrderEvent, OrderEventType, OrderStatus, Timestamp,
};

const ORDER: u128 = 0x1111_2222_3333_4444_5555_6666_7777_8888;
const USER: u128 = 0x9999_aaaa_bbbb_cccc_dddd_eeee_ffff_0000;

fn at(secs: i64) -> Timestamp {
    Timestamp { secs, nanos: 500 }
}

fn event(order_id: u128, version: u32, event_type: OrderEventType) -> OrderEvent {
    OrderEvent { id: version as u128, order_id, version, created_at: at(version as i64), event_type }
}

fn history() -> Vec<OrderEvent> {
    vec![
        event(ORDER, 1, OrderEventType::Created { user_id: USER, amount_bits: 100.0f64.to_bits() }),
        event(ORDER, 2, OrderEventType::Updated { amount_bits: 200.0f64.to_bits() }),
        event(ORDER, 3, OrderEventType::Paid),
        event(ORDER, 4, OrderEventType::Cancelled),
    ]
}

fn blank() -> OrderAggregate {
    OrderAggregate {
        id: 7,
        user_id: 8,
        version: 0,
        amount_bits: 0,
        status: OrderStatus::Created,
        created_at: at(0),
    }
}

#[test]
fn new_order_has_no_history() {
    let a = OrderAggregate::new();
    let b = OrderAggregate::new();
    assert_eq!(a.version, 0);
    assert_eq!(f64::from_bits(a.amount_bits), 0.0);
    assert_eq!(a.status, OrderStatus::Created);
    assert_ne!(a.id, a.user_id);
    assert_ne!(a.id, b.id);
    assert!(a.created_at.secs > 0);
}

#[test]
fn new_order_ids_are_random_uuids() {
    let a = OrderAggregate::new();
    let mask = 0xF000_C000_0000_0000_0000u128;
    assert_eq!(a.id & mask, 0x4000_8000_0000_0000_0000u128);
    assert_eq!(a.user_id & mask, 0x4000_8000_0000_0000_0000u128);
}

#[test]
fn replay_all_events() {
    let order = OrderAggregateProjector::new().replay(history(), 0).unwrap();
    assert_eq!(order.id, ORDER);
    assert_eq!(order.user_id, USER);
    assert_eq!(order.version, 4);
    assert_eq!(f64::from_bits(order.amount_bits), 200.0);
    assert_eq!(order.status, OrderStatus::Cancelled);
    assert_eq!(order.created_at, at(4));
}

#[test]
fn replay_up_to_target_version() {
    let projector = OrderAggregateProjector::new();
    let order = projector.replay(history(), 2).unwrap();
    assert_eq!(order.version, 2);
    assert_eq!(order.status, OrderStatus::Updated);
    assert_eq!(f64::from_bits(order.amount_bits), 200.0);
    let order = projector.replay(history(), 1).unwrap();
    assert_eq!(order.version, 1);
    assert_eq!(order.status, OrderStatus::Created);
    assert_eq!(f64::from_bits(order.amount_bits), 100.0);
    let order = projector.replay(history(), 3).unwrap();
    assert_eq!(order.status, OrderStatus::Paid);
}

#[test]
fn replay_rejects_event_out_of_turn() {
    let mut events = history();
    events.remove(1);
    assert_eq!(OrderAggregateProjector::new().replay(events, 0), None);
}

#[test]
fn replay_rejects_event_of_another_order() {
    let mut events = history();
    events[2].order_id = ORDER + 1;
    assert_eq!(OrderAggregateProjector::new().replay(events.clone(), 0), None);
    assert!(OrderAggregateProjector::new().replay(events, 2).is_some());
}

#[test]
fn replay_from_keeps_start_when_first_event_is_beyond_target() {
    let events = vec![event(ORDER, 5, OrderEventType::Paid)];
    let out = OrderAggregateProjector::new().replay_from(blank(), events, 3);
    assert_eq!(out, Some(blank()));
}

#[test]
fn replay_from_applies_to_matching_start() {
    let mut start = blank();
    start.id = ORDER;
    let events = vec![event(ORDER, 1, OrderEventType::Paid)];
    let out = OrderAggregateProjector::new().replay_from(start, events, 0).unwrap();
    assert_eq!(out.status, OrderStatus::Paid);
    assert_eq!(out.version, 1);
    assert_eq!(out.id, ORDER);
    assert_eq!(out.user_id, 8);
}

#[test]
fn creation_is_always_applicable() {
    let e = event(ORDER, 9, OrderEventType::Created { user_id: USER, amount_bits: 1 });
    assert!(e.is_event_applicable(&blank()));
    let mut order = blank();
    e.apply(&mut order);
    assert_eq!(order.id, ORDER);
    assert_eq!(order.user_id, USER);
    assert_eq!(order.version, 9);
    assert_eq!(order.amount_bits, 1);
    assert_eq!(order.created_at, at(9));
}

#[test]
fn later_events_need_order_and_next_version() {
    let mut order = blank();
    order.id = ORDER;
    order.version = 3;
    assert!(event(ORDER, 4, OrderEventType::Paid).is_event_applicable(&order));
    assert!(!event(ORDER, 3, OrderEventType::Paid).is_event_applicable(&order));
    assert!(!event(ORDER, 5, OrderEventType::Updated { amount_bits: 0 }).is_event_applicable(&order));
    assert!(!event(ORDER + 1, 4, OrderEventType::Cancelled).is_event_applicable(&order));
    order.version = u32::MAX;
    assert!(!event(ORDER, 0, OrderEventType::Paid).is_event_applicable(&order));
}

//! An order as the fold of its events.
//!
//! Identifiers are held as the 128-bit value of a UUID, instants as
//! seconds and nanoseconds since the Unix epoch, and amounts as the bit
//! pattern of a 64-bit IEEE-754 number: replaying an order moves these
//! values and compares identifiers, it never computes with them.

use vstd::prelude::*;

verus! {

/// Where an order stands.
#[derive(Debug, Clone, Copy, PartialEq, Eq)]
pub enum OrderStatus {
    Created,
    Updated,
    Paid,
    Cancelled,
}

/// An instant: whole seconds since the Unix epoch, and the nanoseconds
/// since the last whole second.
#[derive(Debug, Clone, Copy, PartialEq, Eq)]
pub struct Timestamp {
    pub secs: i64,
    pub nanos: u32,
}

/// What happened to an order.
#[derive(Debug, Clone, Copy, PartialEq, Eq)]
pub enum OrderEventType {
    Created { user_id: u128, amount_bits: u64 },
    Updated { amount_bits: u64 },
    Paid,
    Cancelled,
}

/// One entry of an order's history.
#[derive(Debug, Clone, Copy, PartialEq, Eq)]
pub struct OrderEvent {
    pub id: u128,
    pub order_id: u128,
    pub version: u32,
    pub created_at: Timestamp,
    pub event_type: OrderEventType,
}

/// The state of an order after some of its events.
#[derive(Debug, Clone, Copy, PartialEq, Eq)]
pub struct OrderAggregate {
    pub id: u128,
    pub user_id: u128,
    pub version: u32,
    pub amount_bits: u64,
    pub status: OrderStatus,
    pub created_at: Timestamp,
}

/// Whether `id` carries the marks of a random (version 4) UUID: version
/// nibble 4, variant bits `10`.
pub open spec fn is_random_uuid(id: u128) -> bool {
    id & 0xF000_C000_0000_0000_0000u128 == 0x4000_8000_0000_0000_0000u128
}

/// `uuid::Uuid::new_v4` followed by `as_u128`: a fresh random identifier.
/// Nothing is claimed of its random bits; the version and variant bits
/// are the ones that `new_v4` sets on every value it returns. It fails
/// only where the system has no randomness to give.
#[verifier::external_body]
fn fresh_id() -> (id: u128)
    ensures
        is_random_uuid(id),
{
    uuid::Uuid::new_v4().as_u128()
}

/// `chrono::Utc::now`, read through `timestamp` and
/// `timestamp_subsec_nanos`: the current instant. Nothing is claimed of
/// it. It fails only where the system clock stands before the epoch.
#[verifier::external_body]
fn now() -> Timestamp {
    let instant = chrono::Utc::now();
    Timestamp { secs: instant.timestamp(), nanos: instant.timestamp_subsec_nanos() }
}

impl OrderEvent {
    /// Whether this event may be applied to `aggregate`: a creation
    /// always, any other event only to its own order and as the next
    /// version.
    pub open spec fn applicable(&self, aggregate: &OrderAggregate) -> bool {
        match self.event_type {
            OrderEventType::Created { .. } => true,
            _ => self.order_id == aggregate.id && self.version as int == aggregate.version as int
                + 1,
        }
    }

    /// The aggregate after this event.
    pub open spec fn applied(&self, aggregate: OrderAggregate) -> OrderAggregate {
        match self.event_type {
            OrderEventType::Created { user_id, amount_bits } => OrderAggregate {
                id: self.order_id,
                user_id,
                version: self.version,
                amount_bits,
                status: OrderStatus::Created,
                created_at: self.created_at,
            },
            OrderEventType::Updated { amount_bits } => OrderAggregate {
                version: self.version,
                amount_bits,
                status: OrderStatus::Updated,
                created_at: self.created_at,
                ..aggregate
            },
            OrderEventType::Paid => OrderAggregate {
                version: self.version,
                status: OrderStatus::Paid,
                created_at: self.created_at,
                ..aggregate
            },
            OrderEventType::Cancelled => OrderAggregate {
                version: self.version,
                status: OrderStatus::Cancelled,
                created_at: self.created_at,
                ..aggregate
            },
        }
    }

    /// Decides whether this event may be applied to `aggregate`.
    pub fn is_event_applicable(&self, aggregate: &OrderAggregate) -> (ok: bool)
        ensures
            ok == self.applicable(aggregate),
    {
        match self.event_type {
            OrderEventType::Created { .. } => true,
            _ => self.order_id == aggregate.id && aggregate.version < u32::MAX && self.version
                == aggregate.version + 1,
        }
    }

    /// Applies this event to `aggregate`.
    pub fn apply(&self, aggregate: &mut OrderAggregate)
        requires
            self.applicable(old(aggregate)),
        ensures
            *final(aggregate) == self.applied(*old(aggregate)),
    {
        match self.event_type {
            OrderEventType::Created { user_id, amount_bits } => {
                aggregate.id = self.order_id;
                aggregate.user_id = user_id;
                aggregate.amount_bits = amount_bits;
                aggregate.status = OrderStatus::Created;
            },
            OrderEventType::Updated { amount_bits } => {
                aggregate.amount_bits = amount_bits;
                aggregate.status = OrderStatus::Updated;
            },
            OrderEventType::Paid => {
                aggregate.status = OrderStatus::Paid;
            },
            OrderEventType::Cancelled => {
                aggregate.status = OrderStatus::Cancelled;
            },
        }
        aggregate.version = self.version;
        aggregate.created_at = self.created_at;
    }
}

impl OrderAggregate {
    /// Whether this is an order with no history: version 0, amount zero,
    /// status created, under random identifiers.
    pub open spec fn is_blank(&self) -> bool {
        &&& self.version == 0
        &&& self.amount_bits == 0
        &&& self.status == OrderStatus::Created
        &&& is_random_uuid(self.id)
        &&& is_random_uuid(self.user_id)
    }

    /// An order with no history, under fresh identifiers, stamped with
    /// the current instant.
    pub fn new() -> (aggregate: OrderAggregate)
        ensures
            aggregate.is_blank(),
    {
        OrderAggregate {
            id: fresh_id(),
            user_id: fresh_id(),
            version: 0,
            amount_bits: 0,
            status: OrderStatus::Created,
            created_at: now(),
        }
    }
}

/// The version up to which a replay goes: the target, or, where the
/// target is 0, the number of events.
pub open spec fn replay_limit(count: nat, target_version: u32) -> int {
    if target_version > 0 {
        target_version as int
    } else {
        count as int
    }
}

/// The fold of `events` over `start`: each event in turn, up to the
/// first whose version is beyond `limit`. `None` where an event in that
/// range may not be applied to the state before it.
pub open spec fn replayed(start: OrderAggregate, events: Seq<OrderEvent>, limit: int) -> Option<
    OrderAggregate,
>
    decreases events.len(),
{
    if events.len() == 0 || events[0].version > limit {
        Some(start)
    } else if !events[0].applicable(&start) {
        None
    } else {
        replayed(events[0].applied(start), events.drop_first(), limit)
    }
}

/// Rebuilds orders from their events.
pub struct OrderAggregateProjector;

impl OrderAggregateProjector {
    pub fn new() -> (projector: OrderAggregateProjector) {
        OrderAggregateProjector {  }
    }

    /// Folds `events` over `start`, up to `target_version` (0: up to the
    /// number of events). `None` where an event may not be applied.
    pub fn replay_from(
        &self,
        start: OrderAggregate,
        events: Vec<OrderEvent>,
        target_version: u32,
    ) -> (out: Option<OrderAggregate>)
        requires
            events@.len() > 0,
            target_version == 0 ==> events@.len() <= u32::MAX,
        ensures
            out == replayed(start, events@, replay_limit(events@.len(), target_version)),
    {
        let version: u32 = if target_version > 0 {
            target_version
        } else {
            events.len() as u32
        };
        let ghost limit = replay_limit(events@.len(), target_version);
        let mut aggregate = start;
        let mut i: usize = 0;
        assert(events@.skip(0) =~= events@);
        while i < events.len()
            invariant
                0 <= i <= events@.len(),
                version as int == limit,
                limit == replay_limit(events@.len(), target_version),
                replayed(start, events@, limit) == replayed(aggregate, events@.skip(i as int), limit),
            decreases events@.len() - i,
        {
            let event = &events[i];
            let ghost rest = events@.skip(i as int);
            assert(rest[0] == events@[i as int]);
            assert(rest.drop_first() =~= events@.skip(i + 1));
            if event.version > version {
                return Some(aggregate);
            }
            if !event.is_event_applicable(&aggregate) {
                return None;
            }
            event.apply(&mut aggregate);
            i += 1;
        }
        assert(events@.skip(i as int).len() == 0);
        Some(aggregate)
    }

    /// Replays `events` over a new order with no history. Set
    /// `target_version` to 0 to replay all events. `None` where an event
    /// may not be applied.
    pub fn replay(&self, events: Vec<OrderEvent>, target_version: u32) -> (out: Option<
        OrderAggregate,
    >)
        requires
            events@.len() > 0,
            target_version == 0 ==> events@.len() <= u32::MAX,
        ensures
            exists|start: OrderAggregate|
                start.is_blank() && out == #[trigger] replayed(
                    start,
                    events@,
                    replay_limit(events@.len(), target_version),
                ),
    {
        let start = OrderAggregate::new();
        self.replay_from(start, events, target_version)
    }
}

/// A history that opens with the order's creation, within the limit,
/// replays to the same state whatever the order it is replayed over: the
/// creation overwrites every field.
pub proof fn lemma_replay_from_creation(
    a: OrderAggregate,
    b: OrderAggregate,
    events: Seq<OrderEvent>,
    limit: int,
)
    requires
        events.len() > 0,
        events[0].event_type is Created,
        events[0].version <= limit,
    ensures
        replayed(a, events, limit) == replayed(b, events, limit),
{
    assert(events[0].applied(a) == events[0].applied(b));
}

} // verus!

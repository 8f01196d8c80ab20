//! The entities and what they hold, and the system that ticks their timers.
//!
//! A tick has two halves. The first advances every timer and queues an event
//! for each one that has just finished; nothing else changes while the
//! entities are walked. The second drains the queue: each event is delivered
//! to its entity, whose timer record is then removed.

use crate::delay_component::{DelayEvent, DelayInsert, DelayObserver, DelayRemove, Entity};
use crate::mesh_material_override::MeshMaterialOverride;
use crate::record::{Component, Kind, Record};
use vstd::prelude::*;

verus! {

/// The entities of a host, by identifier. An entity that was despawned keeps
/// its identifier and holds nothing; whatever is asked of it, or of an
/// identifier that was never handed out, is dropped.
pub struct Registry<V> {
    pub slots: Vec<Option<Record<V>>>,
}

impl<V> View for Registry<V> {
    type V = Seq<Option<Record<V>>>;

    open spec fn view(&self) -> Seq<Option<Record<V>>> {
        self.slots@
    }
}

/// What `slots` holds for `entity`: nothing for an identifier that was never
/// handed out or whose entity was despawned.
pub open spec fn lookup<V>(slots: Seq<Option<Record<V>>>, entity: Entity) -> Option<Record<V>> {
    if entity.0 < slots.len() {
        slots[entity.0 as int]
    } else {
        None
    }
}

/// `slots` with the record of `entity` changed to what `change` makes of it,
/// and unchanged where the entity is not there.
pub open spec fn changed<V>(
    slots: Seq<Option<Record<V>>>,
    entity: Entity,
    change: spec_fn(Record<V>) -> Record<V>,
) -> Seq<Option<Record<V>>> {
    match lookup(slots, entity) {
        Some(record) => slots.update(entity.0 as int, Some(change(record))),
        None => slots,
    }
}

/// `slots` after the first half of a tick: every timer has advanced.
pub open spec fn advanced_all<V: Copy>(slots: Seq<Option<Record<V>>>, delta: u128) -> Seq<
    Option<Record<V>>,
> {
    Seq::new(
        slots.len(),
        |i: int|
            match slots[i] {
                Some(record) => Some(record.advanced(delta)),
                None => None,
            },
    )
}

/// `slots` after a whole tick: every entity has gone through its own tick,
/// none having any part in another's.
pub open spec fn ticked_all<V: Copy>(slots: Seq<Option<Record<V>>>, delta: u128) -> Seq<
    Option<Record<V>>,
> {
    Seq::new(
        slots.len(),
        |i: int|
            match slots[i] {
                Some(record) => Some(record.ticked(delta)),
                None => None,
            },
    )
}

/// The events that a tick of length `delta` fires: one for each entity whose
/// timer finishes on it, by rising identifier.
pub open spec fn fired<V: Copy>(slots: Seq<Option<Record<V>>>, delta: u128) -> Seq<DelayEvent>
    decreases slots.len(),
{
    if slots.len() == 0 {
        Seq::empty()
    } else {
        let before = fired(slots.drop_last(), delta);
        match slots.last() {
            Some(record) => if record.expires(delta) {
                before.push(DelayEvent(Entity((slots.len() - 1) as u64)))
            } else {
                before
            },
            None => before,
        }
    }
}

/// The events of a tick name exactly the entities whose timers finish on it,
/// each once and by rising identifier: no timer fires twice in a tick, and
/// none that has finished goes unreported.
pub proof fn lemma_fired_names_each_once<V: Copy>(slots: Seq<Option<Record<V>>>, delta: u128)
    requires
        slots.len() <= u64::MAX,
    ensures
        forall|k: int|
            0 <= k < fired(slots, delta).len() ==> {
                let entity = (#[trigger] fired(slots, delta)[k]).0;
                &&& entity.0 < slots.len()
                &&& slots[entity.0 as int].is_some()
                &&& slots[entity.0 as int].unwrap().expires(delta)
            },
        forall|j: int, k: int|
            0 <= j < k < fired(slots, delta).len() ==> (#[trigger] fired(slots, delta)[j]).0.0
                < (#[trigger] fired(slots, delta)[k]).0.0,
        forall|i: int|
            0 <= i < slots.len() && (#[trigger] slots[i]).is_some() && slots[i].unwrap().expires(
                delta,
            ) ==> fired(slots, delta).contains(DelayEvent(Entity(i as u64))),
    decreases slots.len(),
{
    if slots.len() > 0 {
        let rest = slots.drop_last();
        lemma_fired_names_each_once(rest, delta);
        let last = slots.len() - 1;
        let event = DelayEvent(Entity(last as u64));
        assert forall|i: int|
            0 <= i < slots.len() && (#[trigger] slots[i]).is_some() && slots[i].unwrap().expires(
                delta,
            ) implies fired(slots, delta).contains(DelayEvent(Entity(i as u64))) by {
            if i < last {
                assert(rest[i] == slots[i]);
                let k = choose|k: int|
                    0 <= k < fired(rest, delta).len() && fired(rest, delta)[k] == DelayEvent(
                        Entity(i as u64),
                    );
                assert(fired(slots, delta)[k] == DelayEvent(Entity(i as u64)));
            } else {
                assert(fired(slots, delta) == fired(rest, delta).push(event));
                assert(fired(slots, delta)[fired(rest, delta).len() as int] == event);
            }
        }
    }
}

/// `slots` after `event` was delivered: its entity has been through the
/// event and has lost its timer record.
pub open spec fn delivered<V: Copy>(slots: Seq<Option<Record<V>>>, event: DelayEvent) -> Seq<
    Option<Record<V>>,
> {
    changed(slots, event.0, |record: Record<V>| record.expired())
}

/// `slots` after the events of `events` were delivered, first to last.
pub open spec fn delivered_all<V: Copy>(
    slots: Seq<Option<Record<V>>>,
    events: Seq<DelayEvent>,
) -> Seq<Option<Record<V>>>
    decreases events.len(),
{
    if events.len() == 0 {
        slots
    } else {
        delivered(delivered_all(slots, events.drop_last()), events.last())
    }
}

/// Delivering the events of the first `upto` entities, after every timer has
/// advanced, completes the tick of those entities and leaves the others
/// where the first half of the tick put them.
proof fn lemma_drain_prefix<V: Copy>(slots: Seq<Option<Record<V>>>, delta: u128, upto: int)
    requires
        0 <= upto <= slots.len(),
        slots.len() <= u64::MAX,
    ensures
        ({
            let drained = delivered_all(advanced_all(slots, delta), fired(slots.take(upto), delta));
            &&& drained.len() == slots.len()
            &&& forall|i: int|
                0 <= i < upto ==> #[trigger] drained[i] == ticked_all(slots, delta)[i]
            &&& forall|i: int|
                upto <= i < slots.len() ==> #[trigger] drained[i] == advanced_all(slots, delta)[i]
        }),
    decreases upto,
{
    if upto > 0 {
        lemma_drain_prefix(slots, delta, upto - 1);
        assert(slots.take(upto).drop_last() =~= slots.take(upto - 1));
        assert(slots.take(upto).last() == slots[upto - 1]);
        let before = fired(slots.take(upto - 1), delta);
        let event = DelayEvent(Entity((upto - 1) as u64));
        if fired(slots.take(upto), delta) != before {
            assert(fired(slots.take(upto), delta) == before.push(event));
            assert(before.push(event).drop_last() =~= before);
            assert(lookup(delivered_all(advanced_all(slots, delta), before), event.0)
                == advanced_all(slots, delta)[upto - 1]);
        }
    }
}

/// The two halves of a tick, one after the other, tick every entity on its
/// own: the order in which the entities are walked has no part in the result.
pub proof fn lemma_tick_in_two_halves<V: Copy>(slots: Seq<Option<Record<V>>>, delta: u128)
    requires
        slots.len() <= u64::MAX,
    ensures
        delivered_all(advanced_all(slots, delta), fired(slots, delta)) == ticked_all(slots, delta),
{
    lemma_drain_prefix(slots, delta, slots.len() as int);
    assert(slots.take(slots.len() as int) =~= slots);
    assert(delivered_all(advanced_all(slots, delta), fired(slots, delta)) =~= ticked_all(
        slots,
        delta,
    ));
}

/// `slots` after the ticks of `ticks`, first to last.
pub open spec fn after_all<V: Copy>(slots: Seq<Option<Record<V>>>, ticks: Seq<u128>) -> Seq<
    Option<Record<V>>,
>
    decreases ticks.len(),
{
    if ticks.len() == 0 {
        slots
    } else {
        ticked_all(after_all(slots, ticks.drop_last()), ticks.last())
    }
}

/// Entities have no part in each other: after any run of ticks, each entity
/// is what the same run makes of it alone, and an identifier without entity
/// stays without one.
pub proof fn lemma_each_runs_alone<V: Copy>(slots: Seq<Option<Record<V>>>, ticks: Seq<u128>)
    ensures
        after_all(slots, ticks).len() == slots.len(),
        forall|i: int|
            0 <= i < slots.len() ==> #[trigger] after_all(slots, ticks)[i] == match slots[i] {
                Some(record) => Some(record.after(ticks)),
                None => None,
            },
    decreases ticks.len(),
{
    if ticks.len() > 0 {
        lemma_each_runs_alone(slots, ticks.drop_last());
    }
}

impl<V: Copy> Registry<V> {
    /// What the registry holds for `entity`.
    pub open spec fn record(self, entity: Entity) -> Option<Record<V>> {
        lookup(self@, entity)
    }

    pub fn new() -> (registry: Registry<V>)
        ensures
            registry@ == Seq::<Option<Record<V>>>::empty(),
    {
        Registry { slots: Vec::new() }
    }

    /// Adds an entity that holds nothing, and hands out its identifier.
    pub fn spawn(&mut self) -> (entity: Entity)
        ensures
            entity.0 == old(self)@.len(),
            final(self)@ == old(self)@.push(Some(Record::<V>::empty())),
    {
        let entity = Entity(self.slots.len() as u64);
        self.slots.push(Some(Record::new()));
        entity
    }

    /// What `entity` holds, if it is there.
    pub fn get(&self, entity: Entity) -> (record: Option<Record<V>>)
        ensures
            record == self.record(entity),
    {
        if entity.0 < self.slots.len() as u64 {
            self.slots[entity.0 as usize]
        } else {
            None
        }
    }

    /// Destroys `entity`: it holds nothing afterwards, and nothing is written
    /// to it any more.
    pub fn despawn(&mut self, entity: Entity)
        ensures
            final(self)@ == if entity.0 < old(self)@.len() {
                old(self)@.update(entity.0 as int, None)
            } else {
                old(self)@
            },
    {
        if entity.0 < self.slots.len() as u64 {
            self.slots.set(entity.0 as usize, None);
        }
    }

    /// Puts `record` in place of what `entity` holds, if it is there.
    fn put(&mut self, entity: Entity, record: Record<V>)
        ensures
            final(self)@ == changed(old(self)@, entity, |before: Record<V>| record),
    {
        if entity.0 < self.slots.len() as u64 {
            if self.slots[entity.0 as usize].is_some() {
                self.slots.set(entity.0 as usize, Some(record));
            }
        }
    }

    /// Attaches `component` to `entity`.
    pub fn insert(&mut self, entity: Entity, component: Component<V>)
        ensures
            final(self)@ == changed(
                old(self)@,
                entity,
                |record: Record<V>| record.inserted(component),
            ),
    {
        match self.get(entity) {
            Some(record) => {
                let mut record = record;
                record.insert(component);
                self.put(entity, record);
            },
            None => {},
        }
    }

    /// Detaches the record of kind `kind` from `entity`.
    pub fn remove(&mut self, entity: Entity, kind: Kind)
        ensures
            final(self)@ == changed(old(self)@, entity, |record: Record<V>| record.removed(kind)),
    {
        match self.get(entity) {
            Some(record) => {
                let mut record = record;
                record.remove(kind);
                self.put(entity, record);
            },
            None => {},
        }
    }

    /// Starts a timer of length `duration` on `entity`, in place of any that
    /// it has, and hands back the timer record that the entity now holds;
    /// `None` where the entity is not there.
    pub fn start_timer(&mut self, entity: Entity, duration: u128) -> (started: Option<
        DelayObserver,
    >)
        ensures
            final(self)@ == changed(
                old(self)@,
                entity,
                |record: Record<V>|
                    record.timed(DelayObserver(crate::timer::Timer::fresh(duration))),
            ),
            started == if old(self).record(entity).is_some() {
                Some(DelayObserver(crate::timer::Timer::fresh(duration)))
            } else {
                None
            },
    {
        match self.get(entity) {
            Some(record) => {
                let mut record = record;
                let observer = DelayObserver::new(duration);
                record.start_timer(observer);
                self.put(entity, record);
                Some(observer)
            },
            None => None,
        }
    }

    /// Schedules `payload` to be attached to `entity` once `delay` is over.
    pub fn schedule_insert(&mut self, entity: Entity, delay: u128, payload: Component<V>)
        ensures
            final(self)@ == changed(
                old(self)@,
                entity,
                |record: Record<V>|
                    record.insert_scheduled(
                        DelayInsert {
                            timer: crate::timer::Timer::fresh(delay),
                            component: payload,
                        },
                    ),
            ),
    {
        match self.get(entity) {
            Some(record) => {
                let mut record = record;
                record.schedule_insert(DelayInsert::new(delay, payload));
                self.put(entity, record);
            },
            None => {},
        }
    }

    /// Schedules the record of kind `kind` to be detached from `entity` once
    /// `delay` is over.
    pub fn schedule_remove(&mut self, entity: Entity, delay: u128, kind: Kind)
        ensures
            final(self)@ == changed(
                old(self)@,
                entity,
                |record: Record<V>|
                    record.remove_scheduled(
                        DelayRemove { timer: crate::timer::Timer::fresh(delay), component: kind },
                    ),
            ),
    {
        match self.get(entity) {
            Some(record) => {
                let mut record = record;
                record.schedule_remove(DelayRemove::new(delay, kind));
                self.put(entity, record);
            },
            None => {},
        }
    }

    /// Overrides the material of `entity` with `material` until the override
    /// is ended.
    pub fn begin_override(&mut self, entity: Entity, material: V)
        ensures
            final(self)@ == changed(
                old(self)@,
                entity,
                |record: Record<V>|
                    record.overridden(MeshMaterialOverride::<V, V>::fresh(material)),
            ),
    {
        match self.get(entity) {
            Some(record) => {
                let mut record = record;
                record.begin_override(MeshMaterialOverride::new(material));
                self.put(entity, record);
            },
            None => {},
        }
    }

    /// Ends the override of `entity`, which puts back what it replaced.
    pub fn end_override(&mut self, entity: Entity)
        ensures
            final(self)@ == changed(old(self)@, entity, |record: Record<V>| record.restored()),
    {
        match self.get(entity) {
            Some(record) => {
                let mut record = record;
                record.end_override();
                self.put(entity, record);
            },
            None => {},
        }
    }

    /// Overrides the material of `entity` with `material` for `delay`: the
    /// override ends by itself on the tick that reaches `delay`.
    pub fn override_for(&mut self, entity: Entity, material: V, delay: u128)
        ensures
            final(self)@ == changed(
                old(self)@,
                entity,
                |record: Record<V>| record.overridden_for(material, delay),
            ),
    {
        match self.get(entity) {
            Some(record) => {
                let mut record = record;
                record.override_for(material, delay);
                self.put(entity, record);
            },
            None => {},
        }
    }

    /// The first half of a tick: advances every timer by `delta` and queues
    /// an event for each that has just finished.
    pub fn advance_timers(&mut self, delta: u128) -> (queue: Vec<DelayEvent>)
        ensures
            final(self)@ == advanced_all(old(self)@, delta),
            queue@ == fired(old(self)@, delta),
            final(self)@.len() <= usize::MAX,
    {
        let mut queue: Vec<DelayEvent> = Vec::new();
        let count: usize = self.slots.len();
        let mut at: usize = 0;
        while at < count
            invariant
                at <= count,
                count == old(self)@.len(),
                self@.len() == count,
                forall|i: int| 0 <= i < at ==> #[trigger] self@[i] == advanced_all(old(self)@, delta)[i],
                forall|i: int| at <= i < count ==> #[trigger] self@[i] == old(self)@[i],
                queue@ == fired(old(self)@.take(at as int), delta),
            decreases count - at,
        {
            proof {
                assert(old(self)@.take(at + 1).drop_last() =~= old(self)@.take(at as int));
                assert(old(self)@.take(at + 1).last() == old(self)@[at as int]);
            }
            match self.slots[at] {
                Some(record) => {
                    let mut record = record;
                    if record.advance(delta) {
                        queue.push(DelayEvent(Entity(at as u64)));
                    }
                    self.slots.set(at, Some(record));
                },
                None => {},
            }
            at = at + 1;
        }
        proof {
            assert(old(self)@.take(count as int) =~= old(self)@);
            assert(self@ =~= advanced_all(old(self)@, delta));
        }
        queue
    }

    /// Delivers `event` to its entity: the wrappers that the entity holds
    /// act, and its timer record is removed.
    pub fn deliver(&mut self, event: DelayEvent)
        ensures
            final(self)@ == delivered(old(self)@, event),
    {
        match self.get(event.event_target()) {
            Some(record) => {
                let mut record = record;
                record.expire();
                self.put(event.event_target(), record);
            },
            None => {},
        }
    }

    /// The second half of a tick: drains the queue of events, first to last.
    pub fn drain(&mut self, queue: &Vec<DelayEvent>)
        ensures
            final(self)@ == delivered_all(old(self)@, queue@),
    {
        let mut at: usize = 0;
        while at < queue.len()
            invariant
                at <= queue@.len(),
                self@ == delivered_all(old(self)@, queue@.take(at as int)),
            decreases queue@.len() - at,
        {
            proof {
                assert(queue@.take(at + 1).drop_last() =~= queue@.take(at as int));
                assert(queue@.take(at + 1).last() == queue@[at as int]);
            }
            self.deliver(queue[at]);
            at = at + 1;
        }
        proof {
            assert(queue@.take(at as int) =~= queue@);
        }
    }

    /// One tick of length `delta` for every entity. Hands back the events
    /// that were fired, one for each entity whose timer finished on this
    /// tick.
    pub fn tick(&mut self, delta: u128) -> (events: Vec<DelayEvent>)
        ensures
            final(self)@ == ticked_all(old(self)@, delta),
            events@ == fired(old(self)@, delta),
    {
        let events = self.advance_timers(delta);
        self.drain(&events);
        proof {
            lemma_tick_in_two_halves(old(self)@, delta);
        }
        events
    }
}

} // verus!

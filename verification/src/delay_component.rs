//! Timer records, the event of their expiry, and the two single-use wrappers
//! that wait for that event to attach or detach data.

use crate::timer::Timer;
use vstd::prelude::*;

verus! {

/// The identifier of an entity. The host hands them out; nothing here reads
/// anything into the number.
#[derive(Clone, Copy, Debug, PartialEq, Eq, Structural)]
pub struct Entity(pub u64);

/// The timer record of an entity: when its timer finishes, a `DelayEvent` is
/// fired at the entity and the record is removed.
#[derive(Clone, Copy, Debug, PartialEq, Eq, Structural)]
pub struct DelayObserver(pub Timer);

/// Says that the timer of the entity it names has just finished.
#[derive(Clone, Copy, Debug, PartialEq, Eq, Structural)]
pub struct DelayEvent(pub Entity);

impl DelayObserver {
    pub fn new(duration: u128) -> (observer: DelayObserver)
        ensures
            observer.0 == Timer::fresh(duration),
    {
        DelayObserver(Timer::new(duration))
    }

    /// Advances the timer by `delta` and reports the event to fire at
    /// `entity`, if this tick is the one on which the timer finished. The
    /// caller removes the record when an event comes back.
    pub fn tick(&mut self, entity: Entity, delta: u128) -> (event: Option<DelayEvent>)
        ensures
            final(self).0 == old(self).0.ticked(delta),
            event == if old(self).0.ticked(delta).just_finished {
                Some(DelayEvent(entity))
            } else {
                None
            },
    {
        self.0.tick(delta);
        if self.0.just_finished() {
            Some(DelayEvent(entity))
        } else {
            None
        }
    }
}

impl DelayEvent {
    /// The entity whose timer finished.
    pub fn event_target(&self) -> (entity: Entity)
        ensures
            entity == self.0,
    {
        self.0
    }
}

/// Attaches `component` to its entity once `timer` has run out, then leaves.
/// Detached before that, it attaches nothing.
#[derive(Clone, Copy, Debug)]
pub struct DelayInsert<T> {
    pub timer: Timer,
    pub component: T,
}

impl<T> DelayInsert<T> {
    pub fn new(delay: u128, component: T) -> (wrapper: DelayInsert<T>)
        ensures
            wrapper.timer == Timer::fresh(delay),
            wrapper.component == component,
    {
        DelayInsert { timer: Timer::new(delay), component }
    }

    /// Runs when the wrapper is attached: the timer record to install on the
    /// same entity, a copy of the wrapper's own timer.
    pub fn on_add(&self) -> (observer: DelayObserver)
        ensures
            observer.0 == self.timer,
    {
        DelayObserver(self.timer)
    }
}

/// Detaches the data of kind `component` from its entity once `timer` has run
/// out, then leaves. Detached before that, it detaches nothing.
#[derive(Clone, Copy, Debug)]
pub struct DelayRemove<K> {
    pub timer: Timer,
    pub component: K,
}

impl<K> DelayRemove<K> {
    pub fn new(delay: u128, component: K) -> (wrapper: DelayRemove<K>)
        ensures
            wrapper.timer == Timer::fresh(delay),
            wrapper.component == component,
    {
        DelayRemove { timer: Timer::new(delay), component }
    }

    /// Runs when the wrapper is attached: the timer record to install on the
    /// same entity, a copy of the wrapper's own timer.
    pub fn on_add(&self) -> (observer: DelayObserver)
        ensures
            observer.0 == self.timer,
    {
        DelayObserver(self.timer)
    }
}

} // verus!

//! What one entity holds, and every transition of it: attach, detach,
//! replace, the wrappers' scheduling, the expiry event and the tick.

use crate::delay_component::{DelayInsert, DelayObserver, DelayRemove};
use crate::mesh_material_override::MeshMaterialOverride;
use vstd::prelude::*;

verus! {

/// The kinds of data that an entity can hold, one record of each at most.
#[derive(Clone, Copy, Debug, PartialEq, Eq, Structural)]
pub enum Kind {
    /// The tracked value.
    Material,
    /// The override of the tracked value.
    Override,
    /// The timer record.
    DelayObserver,
    /// The wrapper that attaches data when the timer finishes.
    DelayInsert,
    /// The wrapper that detaches data when the timer finishes.
    DelayRemove,
}

/// Data that can be attached to an entity, now or by a `DelayInsert`.
#[derive(Clone, Copy, Debug)]
pub enum Component<V> {
    /// A tracked value, written by the host or another system.
    Material(V),
    /// An override of the tracked value.
    Override(MeshMaterialOverride<V, V>),
}

/// Everything that one entity holds.
#[derive(Clone, Copy, Debug)]
pub struct Record<V> {
    pub material: Option<V>,
    pub overlay: Option<MeshMaterialOverride<V, V>>,
    pub observer: Option<DelayObserver>,
    pub delay_insert: Option<DelayInsert<Component<V>>>,
    pub delay_remove: Option<DelayRemove<Kind>>,
}

impl<V: Copy> Record<V> {
    /// An entity that holds nothing.
    pub open spec fn empty() -> Record<V> {
        Record {
            material: None,
            overlay: None,
            observer: None,
            delay_insert: None,
            delay_remove: None,
        }
    }

    /// Whether the entity holds a record of kind `kind`.
    pub open spec fn has(self, kind: Kind) -> bool {
        match kind {
            Kind::Material => self.material.is_some(),
            Kind::Override => self.overlay.is_some(),
            Kind::DelayObserver => self.observer.is_some(),
            Kind::DelayInsert => self.delay_insert.is_some(),
            Kind::DelayRemove => self.delay_remove.is_some(),
        }
    }

    /// Whether the entity holds `component`: that tracked value, or an
    /// override with that overriding value.
    pub open spec fn holds(self, component: Component<V>) -> bool {
        match component {
            Component::Material(value) => self.material == Some(value),
            Component::Override(overlay) => self.overlay.is_some()
                && self.overlay.unwrap().material == overlay.material,
        }
    }

    /// The replace transition: an override that is on writes what it captured
    /// back into the tracked slot.
    pub open spec fn replaced(self) -> Record<V> {
        match self.overlay {
            Some(overlay) => Record { material: overlay.slot_on_replace(self.material), ..self },
            None => self,
        }
    }

    /// The entity after a tracked value was written from outside. An override
    /// that is on goes through its replace transition first; then the write
    /// lands.
    pub open spec fn written(self, value: V) -> Record<V> {
        Record { material: Some(value), ..self }
    }

    /// The entity after `overlay` was attached. Over an override that is
    /// already on, the replace transition comes first. Then the attach
    /// transition: what the tracked slot holds is captured, and the override
    /// is written into it.
    pub open spec fn overridden(self, overlay: MeshMaterialOverride<V, V>) -> Record<V> {
        let base = self.replaced();
        Record {
            material: overlay.slot_on_insert(),
            overlay: Some(overlay.captured(base.material)),
            ..base
        }
    }

    /// The entity after its override was detached: the detach transition
    /// writes back what was captured. Without an override nothing changes.
    pub open spec fn restored(self) -> Record<V> {
        match self.overlay {
            Some(overlay) => Record {
                material: overlay.slot_on_remove(self.material),
                overlay: None,
                ..self
            },
            None => self,
        }
    }

    /// The entity after `component` was attached.
    pub open spec fn inserted(self, component: Component<V>) -> Record<V> {
        match component {
            Component::Material(value) => self.written(value),
            Component::Override(overlay) => self.overridden(overlay),
        }
    }

    /// The entity after the record of kind `kind` was detached. Detaching what
    /// is not there changes nothing.
    pub open spec fn removed(self, kind: Kind) -> Record<V> {
        match kind {
            Kind::Material => Record { material: None, ..self },
            Kind::Override => self.restored(),
            Kind::DelayObserver => Record { observer: None, ..self },
            Kind::DelayInsert => Record { delay_insert: None, ..self },
            Kind::DelayRemove => Record { delay_remove: None, ..self },
        }
    }

    /// The entity after `observer` was attached as its timer record, in place
    /// of any that it had.
    pub open spec fn timed(self, observer: DelayObserver) -> Record<V> {
        Record { observer: Some(observer), ..self }
    }

    /// The entity after `wrapper` was attached. On an entity that held no
    /// attaching wrapper, the wrapper's hook runs and installs a timer record
    /// that is a copy of the wrapper's timer, in place of any that was there.
    /// On one that held such a wrapper, the new one takes its place and waits
    /// for the timer that is running, if one is.
    pub open spec fn insert_scheduled(self, wrapper: DelayInsert<Component<V>>) -> Record<V> {
        Record {
            delay_insert: Some(wrapper),
            observer: if self.delay_insert.is_some() {
                self.observer
            } else {
                Some(DelayObserver(wrapper.timer))
            },
            ..self
        }
    }

    /// The entity after `wrapper` was attached. On an entity that held no
    /// detaching wrapper, the wrapper's hook runs and installs a timer record
    /// that is a copy of the wrapper's timer, in place of any that was there.
    /// On one that held such a wrapper, the new one takes its place and waits
    /// for the timer that is running, if one is.
    pub open spec fn remove_scheduled(self, wrapper: DelayRemove<Kind>) -> Record<V> {
        Record {
            delay_remove: Some(wrapper),
            observer: if self.delay_remove.is_some() {
                self.observer
            } else {
                Some(DelayObserver(wrapper.timer))
            },
            ..self
        }
    }

    /// The entity after `material` was put over its material for `delay`: an
    /// override was attached, and with it a wrapper that detaches the
    /// override once `delay` is over.
    pub open spec fn overridden_for(self, material: V, delay: u128) -> Record<V> {
        self.overridden(MeshMaterialOverride::<V, V>::fresh(material)).remove_scheduled(
            DelayRemove { timer: crate::timer::Timer::fresh(delay), component: Kind::Override },
        )
    }

    /// The entity after the expiry event was delivered to it. The wrappers
    /// that it holds at that moment act, each once: first the detaching one,
    /// then the attaching one, so that what was scheduled to be attached is
    /// there afterwards. Both wrappers are gone after it.
    pub open spec fn triggered(self) -> Record<V> {
        let detached = match self.delay_remove {
            Some(wrapper) => self.removed(wrapper.component),
            None => self,
        };
        let attached = match self.delay_insert {
            Some(wrapper) => detached.inserted(wrapper.component),
            None => detached,
        };
        Record { delay_insert: None, delay_remove: None, ..attached }
    }

    /// Whether a tick of length `delta` is the one on which the entity's timer
    /// finishes.
    pub open spec fn expires(self, delta: u128) -> bool {
        self.observer.is_some() && self.observer.unwrap().0.ticked(delta).just_finished
    }

    /// The entity after the first half of a tick: its timer, if it has one,
    /// has advanced by `delta`.
    pub open spec fn advanced(self, delta: u128) -> Record<V> {
        match self.observer {
            Some(observer) => Record {
                observer: Some(DelayObserver(observer.0.ticked(delta))),
                ..self
            },
            None => self,
        }
    }

    /// The entity after the second half of a tick on which its timer
    /// finished: the expiry event was delivered, then the timer record was
    /// removed.
    pub open spec fn expired(self) -> Record<V> {
        Record { observer: None, ..self.triggered() }
    }

    /// The entity after one tick of length `delta`.
    pub open spec fn ticked(self, delta: u128) -> Record<V> {
        if self.expires(delta) {
            self.advanced(delta).expired()
        } else {
            self.advanced(delta)
        }
    }

    /// The entity after the ticks of `ticks`, first to last.
    pub open spec fn after(self, ticks: Seq<u128>) -> Record<V>
        decreases ticks.len(),
    {
        if ticks.len() == 0 {
            self
        } else {
            self.after(ticks.drop_last()).ticked(ticks.last())
        }
    }

    /// How many of the ticks of `ticks` delivered an expiry event to the
    /// entity.
    pub open spec fn expiries(self, ticks: Seq<u128>) -> nat
        decreases ticks.len(),
    {
        if ticks.len() == 0 {
            0
        } else {
            self.expiries(ticks.drop_last()) + if self.after(ticks.drop_last()).expires(
                ticks.last(),
            ) {
                1nat
            } else {
                0nat
            }
        }
    }

    pub fn new() -> (record: Record<V>)
        ensures
            record == Record::<V>::empty(),
    {
        Record {
            material: None,
            overlay: None,
            observer: None,
            delay_insert: None,
            delay_remove: None,
        }
    }

    /// Whether the entity holds a record of kind `kind`.
    pub fn contains(&self, kind: Kind) -> (held: bool)
        ensures
            held == self.has(kind),
    {
        match kind {
            Kind::Material => self.material.is_some(),
            Kind::Override => self.overlay.is_some(),
            Kind::DelayObserver => self.observer.is_some(),
            Kind::DelayInsert => self.delay_insert.is_some(),
            Kind::DelayRemove => self.delay_remove.is_some(),
        }
    }

    /// The replace transition of an override that is on. The host calls it
    /// when the tracked slot is about to be overwritten from outside.
    pub fn on_replace(&mut self)
        ensures
            *final(self) == old(self).replaced(),
    {
        match self.overlay {
            Some(overlay) => {
                let mut slot = self.material;
                overlay.on_replace(&mut slot);
                self.material = slot;
            },
            None => {},
        }
    }

    /// Writes a tracked value from outside.
    pub fn write(&mut self, value: V)
        ensures
            *final(self) == old(self).written(value),
    {
        self.on_replace();
        self.material = Some(value);
    }

    /// Attaches an override.
    pub fn begin_override(&mut self, overlay: MeshMaterialOverride<V, V>)
        ensures
            *final(self) == old(self).overridden(overlay),
    {
        self.on_replace();
        let mut overlay = overlay;
        let mut slot = self.material;
        overlay.on_insert(&mut slot);
        self.material = slot;
        self.overlay = Some(overlay);
    }

    /// Detaches the override, if one is on.
    pub fn end_override(&mut self)
        ensures
            *final(self) == old(self).restored(),
    {
        match self.overlay {
            Some(overlay) => {
                let mut slot = self.material;
                overlay.on_remove(&mut slot);
                self.material = slot;
                self.overlay = None;
            },
            None => {},
        }
    }

    /// Attaches `component`.
    pub fn insert(&mut self, component: Component<V>)
        ensures
            *final(self) == old(self).inserted(component),
    {
        match component {
            Component::Material(value) => self.write(value),
            Component::Override(overlay) => self.begin_override(overlay),
        }
    }

    /// Detaches the record of kind `kind`. Detaching a wrapper or the timer
    /// record cancels what was scheduled.
    pub fn remove(&mut self, kind: Kind)
        ensures
            *final(self) == old(self).removed(kind),
    {
        match kind {
            Kind::Material => {
                self.material = None;
            },
            Kind::Override => self.end_override(),
            Kind::DelayObserver => {
                self.observer = None;
            },
            Kind::DelayInsert => {
                self.delay_insert = None;
            },
            Kind::DelayRemove => {
                self.delay_remove = None;
            },
        }
    }

    /// Attaches a timer record, in place of any that is there.
    pub fn start_timer(&mut self, observer: DelayObserver)
        ensures
            *final(self) == old(self).timed(observer),
    {
        self.observer = Some(observer);
    }

    /// Attaches an attaching wrapper. Its hook, which installs the timer
    /// record, runs if the entity held no such wrapper.
    pub fn schedule_insert(&mut self, wrapper: DelayInsert<Component<V>>)
        ensures
            *final(self) == old(self).insert_scheduled(wrapper),
    {
        if self.delay_insert.is_none() {
            self.observer = Some(wrapper.on_add());
        }
        self.delay_insert = Some(wrapper);
    }

    /// Attaches a detaching wrapper. Its hook, which installs the timer
    /// record, runs if the entity held no such wrapper.
    pub fn schedule_remove(&mut self, wrapper: DelayRemove<Kind>)
        ensures
            *final(self) == old(self).remove_scheduled(wrapper),
    {
        if self.delay_remove.is_none() {
            self.observer = Some(wrapper.on_add());
        }
        self.delay_remove = Some(wrapper);
    }

    /// Puts `material` over the entity's material for `delay`: attaches an
    /// override, and a wrapper that detaches it once `delay` is over.
    pub fn override_for(&mut self, material: V, delay: u128)
        ensures
            *final(self) == old(self).overridden_for(material, delay),
    {
        self.begin_override(MeshMaterialOverride::new(material));
        self.schedule_remove(DelayRemove::new(delay, Kind::Override));
    }

    /// Delivers the expiry event to the wrappers that the entity holds.
    pub fn on_delay_event(&mut self)
        ensures
            *final(self) == old(self).triggered(),
    {
        let attaching = self.delay_insert;
        let detaching = self.delay_remove;
        match detaching {
            Some(wrapper) => self.remove(wrapper.component),
            None => {},
        }
        match attaching {
            Some(wrapper) => self.insert(wrapper.component),
            None => {},
        }
        self.delay_insert = None;
        self.delay_remove = None;
    }

    /// The first half of a tick: advances the entity's timer, and says
    /// whether this tick is the one on which it finished.
    pub fn advance(&mut self, delta: u128) -> (fired: bool)
        ensures
            *final(self) == old(self).advanced(delta),
            fired == old(self).expires(delta),
    {
        match self.observer {
            Some(observer) => {
                let mut observer = observer;
                observer.0.tick(delta);
                self.observer = Some(observer);
                observer.0.just_finished()
            },
            None => false,
        }
    }

    /// The second half of a tick on which the timer finished: fires the
    /// expiry event, then removes the timer record.
    pub fn expire(&mut self)
        ensures
            *final(self) == old(self).expired(),
    {
        self.on_delay_event();
        self.observer = None;
    }

    /// One tick of length `delta`.
    pub fn tick(&mut self, delta: u128) -> (fired: bool)
        ensures
            *final(self) == old(self).ticked(delta),
            fired == old(self).expires(delta),
    {
        let fired = self.advance(delta);
        if fired {
            self.expire();
        }
        fired
    }
}

} // verus!

//! A temporary override of a tracked value that puts back what it replaced.
//!
//! The override has three transitions. Attached, it captures what the tracked
//! slot holds and writes itself into the slot. Replaced, it writes what it
//! captured back, so that whatever is attached next captures that value again
//! and not the override. Detached, it writes what it captured back for good.
//! An override that captured nothing writes nothing back.

use vstd::prelude::*;

verus! {

/// Holds the value that overrides the tracked one, and what the tracked slot
/// held when the override went on.
///
/// `previous_material` is `None` until the override is attached to an entity
/// that has a tracked value, so no value of the slot can be taken for "nothing
/// captured".
#[derive(Clone, Copy, Debug)]
pub struct MeshMaterialOverride<T, M> {
    pub material: T,
    pub previous_material: Option<M>,
}

impl<T, M> MeshMaterialOverride<T, M> {
    /// An override with `material` that has captured nothing.
    pub open spec fn fresh(material: T) -> MeshMaterialOverride<T, M> {
        MeshMaterialOverride { material, previous_material: None }
    }

    /// The override after it was attached while the tracked slot held
    /// `current`: a value that was there is captured, an empty slot leaves the
    /// capture as it was.
    pub open spec fn captured(self, current: Option<M>) -> MeshMaterialOverride<T, M> {
        MeshMaterialOverride {
            material: self.material,
            previous_material: if current.is_some() {
                current
            } else {
                self.previous_material
            },
        }
    }

    /// The tracked slot after the replace transition: a slot that holds a
    /// value takes what was captured; an empty slot stays empty, and an
    /// override that captured nothing leaves the slot alone.
    pub open spec fn slot_on_replace(self, slot: Option<M>) -> Option<M> {
        if slot.is_some() && self.previous_material.is_some() {
            self.previous_material
        } else {
            slot
        }
    }

    /// The tracked slot after the detach transition: what was captured goes
    /// back; if nothing was, the slot is left alone.
    pub open spec fn slot_on_remove(self, slot: Option<M>) -> Option<M> {
        if self.previous_material.is_some() {
            self.previous_material
        } else {
            slot
        }
    }

    pub fn new(material: T) -> (fresh: MeshMaterialOverride<T, M>)
        ensures
            fresh == Self::fresh(material),
    {
        MeshMaterialOverride { material, previous_material: None }
    }

    /// The capturing half of the attach transition, for a host that writes
    /// the tracked slot itself: `current` is what the slot holds. The host
    /// then writes `material` into the slot.
    pub fn capture(&mut self, current: Option<M>)
        ensures
            *final(self) == old(self).captured(current),
    {
        if current.is_some() {
            self.previous_material = current;
        }
    }

    /// The deciding half of the replace transition, for a host that writes
    /// the tracked slot itself: the value to write into the slot, if any.
    /// `slot_held` says whether the slot holds a value.
    pub fn replacement(&self, slot_held: bool) -> (back: Option<&M>)
        ensures
            match back {
                Some(value) => slot_held && self.previous_material == Some(*value),
                None => !slot_held || self.previous_material.is_none(),
            },
    {
        if slot_held {
            self.restoration()
        } else {
            None
        }
    }

    /// The deciding half of the detach transition, for a host that writes the
    /// tracked slot itself: the value to write into the slot, if any.
    pub fn restoration(&self) -> (back: Option<&M>)
        ensures
            match back {
                Some(value) => self.previous_material == Some(*value),
                None => self.previous_material.is_none(),
            },
    {
        match &self.previous_material {
            Some(value) => Some(value),
            None => None,
        }
    }
}

impl<V: Copy> MeshMaterialOverride<V, V> {
    /// The tracked slot after the attach transition: it holds the override,
    /// whatever it held before.
    pub open spec fn slot_on_insert(self) -> Option<V> {
        Some(self.material)
    }

    /// The attach transition: captures what `slot` holds, then writes the
    /// override into it.
    pub fn on_insert(&mut self, slot: &mut Option<V>)
        ensures
            *final(self) == old(self).captured(*old(slot)),
            *final(slot) == old(self).slot_on_insert(),
    {
        self.capture(*slot);
        *slot = Some(self.material);
    }

    /// The replace transition: writes what was captured back into `slot`, so
    /// that the next attach captures it again and not the override.
    pub fn on_replace(&self, slot: &mut Option<V>)
        ensures
            *final(slot) == self.slot_on_replace(*old(slot)),
    {
        match self.replacement(slot.is_some()) {
            Some(value) => {
                *slot = Some(*value);
            },
            None => {},
        }
    }

    /// The detach transition: puts back what was captured.
    pub fn on_remove(&self, slot: &mut Option<V>)
        ensures
            *final(slot) == self.slot_on_remove(*old(slot)),
    {
        match self.restoration() {
            Some(value) => {
                *slot = Some(*value);
            },
            None => {},
        }
    }
}

} // verus!

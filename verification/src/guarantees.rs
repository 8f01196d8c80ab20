//! What holds of an entity over whole runs of ticks: a scheduled change
//! happens once, a cancelled one never, and an override that ends puts back
//! what it replaced.

use crate::delay_component::{DelayInsert, DelayObserver, DelayRemove};
use crate::mesh_material_override::MeshMaterialOverride;
use crate::record::{Component, Kind, Record};
use crate::timer::{total, Timer};
use vstd::prelude::*;

verus! {

/// The sum of two runs of ticks, one after the other, is the sum of their
/// sums.
pub proof fn lemma_total_add(first: Seq<u128>, second: Seq<u128>)
    ensures
        total(first + second) == total(first) + total(second),
    decreases second.len(),
{
    if second.len() == 0 {
        assert(first + second =~= first);
    } else {
        lemma_total_add(first, second.drop_last());
        assert((first + second).drop_last() =~= first + second.drop_last());
    }
}

/// Running two runs of ticks, one after the other, is running the first and
/// then the second.
pub proof fn lemma_after_add<V: Copy>(record: Record<V>, first: Seq<u128>, second: Seq<u128>)
    ensures
        record.after(first + second) == record.after(first).after(second),
    decreases second.len(),
{
    if second.len() == 0 {
        assert(first + second =~= first);
    } else {
        lemma_after_add(record, first, second.drop_last());
        assert((first + second).drop_last() =~= first + second.drop_last());
    }
}

/// An entity without a timer record is not changed by ticks, and no expiry
/// event reaches it.
pub proof fn lemma_idle<V: Copy>(record: Record<V>, ticks: Seq<u128>)
    requires
        record.observer.is_none(),
    ensures
        record.after(ticks) == record,
        record.expiries(ticks) == 0,
    decreases ticks.len(),
{
    if ticks.len() > 0 {
        lemma_idle(record, ticks.drop_last());
    }
}

/// The timer record of an entity is read by nothing that the expiry event
/// sets off: with another timer record the event leaves the same entity, but
/// for the timer record.
proof fn lemma_event_ignores_timer<V: Copy>(record: Record<V>, observer: Option<DelayObserver>)
    ensures
        (Record { observer, ..record }).expired() == record.expired(),
{
}

/// What an entity with a fresh timer of length `duration` is after a run of
/// ticks: while the run adds up to less than `duration` only the timer has
/// moved; from the tick that reaches `duration` on, the entity is what the one
/// expiry event made of it, and the timer record is gone.
pub proof fn lemma_run<V: Copy>(record: Record<V>, duration: u128, ticks: Seq<u128>)
    requires
        record.observer == Some(DelayObserver(Timer::fresh(duration))),
    ensures
        total(ticks) < duration ==> record.after(ticks) == record.timed(
            DelayObserver(Timer::fresh(duration).after(ticks)),
        ) && !Timer::fresh(duration).after(ticks).finished && record.expiries(ticks) == 0,
        ticks.len() > 0 && total(ticks) >= duration ==> record.after(ticks) == record.expired()
            && record.expiries(ticks) == 1,
        ticks.len() == 0 ==> record.after(ticks) == record && record.expiries(ticks) == 0,
    decreases ticks.len(),
{
    if ticks.len() > 0 {
        let before = ticks.drop_last();
        lemma_run(record, duration, before);
        crate::timer::lemma_countdown(duration, before);
        crate::timer::lemma_countdown(duration, ticks);
        if before.len() == 0 || total(before) < duration {
            let running = record.timed(DelayObserver(Timer::fresh(duration).after(before)));
            assert(record.after(before) == running) by {
                if before.len() == 0 {
                    assert(record.timed(DelayObserver(Timer::fresh(duration))) == record);
                }
            }
            if total(ticks) >= duration {
                lemma_event_ignores_timer(record, running.advanced(ticks.last()).observer);
                assert(running.advanced(ticks.last()) == Record {
                    observer: running.advanced(ticks.last()).observer,
                    ..record
                });
            }
        }
    }
}

/// Mutation exactly once: an entity that held no attaching wrapper and was
/// given one with payload `payload` and delay `delay` holds, after any run of
/// at least one tick that adds up to `delay` or more, the payload and neither
/// wrapper nor timer record; one expiry event was delivered in the run, so the
/// payload was attached once.
pub proof fn lemma_insert_exactly_once<V: Copy>(
    record: Record<V>,
    delay: u128,
    payload: Component<V>,
    ticks: Seq<u128>,
)
    requires
        !record.has(Kind::DelayInsert),
        ticks.len() > 0,
        total(ticks) >= delay,
    ensures
        ({
            let wrapper = DelayInsert { timer: Timer::fresh(delay), component: payload };
            let end = record.insert_scheduled(wrapper).after(ticks);
            &&& end.holds(payload)
            &&& !end.has(Kind::DelayInsert)
            &&& !end.has(Kind::DelayRemove)
            &&& !end.has(Kind::DelayObserver)
            &&& record.insert_scheduled(wrapper).expiries(ticks) == 1
            &&& end == record.insert_scheduled(wrapper).expired()
        }),
{
    let wrapper = DelayInsert { timer: Timer::fresh(delay), component: payload };
    lemma_run(record.insert_scheduled(wrapper), delay, ticks);
}

/// Before the delay is over nothing has happened: after a run of ticks that
/// adds up to less than `delay`, an entity that held no attaching wrapper and
/// was given one differs from what it was then only in the wrapper and in how
/// far its timer has run.
pub proof fn lemma_insert_not_early<V: Copy>(
    record: Record<V>,
    delay: u128,
    payload: Component<V>,
    ticks: Seq<u128>,
)
    requires
        !record.has(Kind::DelayInsert),
        total(ticks) < delay,
    ensures
        ({
            let wrapper = DelayInsert { timer: Timer::fresh(delay), component: payload };
            let now = record.insert_scheduled(wrapper).after(ticks);
            &&& now.material == record.material
            &&& now.overlay == record.overlay
            &&& now.delay_insert == Some(wrapper)
            &&& now.delay_remove == record.delay_remove
            &&& now.has(Kind::DelayObserver)
            &&& record.insert_scheduled(wrapper).expiries(ticks) == 0
        }),
{
    let wrapper = DelayInsert { timer: Timer::fresh(delay), component: payload };
    lemma_run(record.insert_scheduled(wrapper), delay, ticks);
}

/// Cancellation: an attaching wrapper that is attached to an entity without
/// one, and detached before its delay is over, leaves no trace. The entity
/// goes on, over any further ticks, as if only a timer of that length had been
/// started on it: the payload is never attached by the wrapper, and the
/// wrapper is gone. An entity that holds no detaching wrapper either keeps its
/// material and its override as they were.
pub proof fn lemma_cancel_insert<V: Copy>(
    record: Record<V>,
    delay: u128,
    payload: Component<V>,
    before: Seq<u128>,
    later: Seq<u128>,
)
    requires
        !record.has(Kind::DelayInsert),
        total(before) < delay,
    ensures
        ({
            let wrapper = DelayInsert { timer: Timer::fresh(delay), component: payload };
            let end = record.insert_scheduled(wrapper).after(before).removed(
                Kind::DelayInsert,
            ).after(later);
            let bare = record.timed(DelayObserver(Timer::fresh(delay)));
            &&& end == bare.after(before + later)
            &&& !end.has(Kind::DelayInsert)
            &&& record.delay_remove.is_none() ==> end.material == record.material && end.overlay
                == record.overlay && !end.has(Kind::DelayRemove)
            &&& record.delay_remove.is_none() && !record.holds(payload) ==> !end.holds(payload)
        }),
{
    let wrapper = DelayInsert { timer: Timer::fresh(delay), component: payload };
    let bare = record.timed(DelayObserver(Timer::fresh(delay)));
    lemma_run(record.insert_scheduled(wrapper), delay, before);
    lemma_run(bare, delay, before);
    lemma_after_add(bare, before, later);
    lemma_total_add(before, later);
    lemma_run(bare, delay, before + later);
}

/// Cancellation of a detaching wrapper: attached to an entity without one,
/// and detached before its delay is over, it leaves no trace. The entity goes
/// on, over any further ticks, as if only a timer of that length had been
/// started on it. An entity that holds no attaching wrapper either keeps its
/// material and its override as they were.
pub proof fn lemma_cancel_remove<V: Copy>(
    record: Record<V>,
    delay: u128,
    kind: Kind,
    before: Seq<u128>,
    later: Seq<u128>,
)
    requires
        !record.has(Kind::DelayRemove),
        total(before) < delay,
    ensures
        ({
            let wrapper = DelayRemove { timer: Timer::fresh(delay), component: kind };
            let end = record.remove_scheduled(wrapper).after(before).removed(
                Kind::DelayRemove,
            ).after(later);
            let bare = record.timed(DelayObserver(Timer::fresh(delay)));
            &&& end == bare.after(before + later)
            &&& !end.has(Kind::DelayRemove)
            &&& record.delay_insert.is_none() ==> end.material == record.material && end.overlay
                == record.overlay && !end.has(Kind::DelayInsert)
        }),
{
    let wrapper = DelayRemove { timer: Timer::fresh(delay), component: kind };
    let bare = record.timed(DelayObserver(Timer::fresh(delay)));
    lemma_run(record.remove_scheduled(wrapper), delay, before);
    lemma_run(bare, delay, before);
    lemma_after_add(bare, before, later);
    lemma_total_add(before, later);
    lemma_run(bare, delay, before + later);
}

/// Cancellation by the timer: once the timer record is detached, no run of
/// ticks changes the entity, so what its wrappers were waiting for never
/// happens.
pub proof fn lemma_cancel_timer<V: Copy>(record: Record<V>, ticks: Seq<u128>)
    ensures
        record.removed(Kind::DelayObserver).after(ticks) == record.removed(Kind::DelayObserver),
        record.removed(Kind::DelayObserver).expiries(ticks) == 0,
{
    lemma_idle(record.removed(Kind::DelayObserver), ticks);
}

/// Restore round trip: on an entity that has a material and no override,
/// attaching an override and detaching it again, with no write in between,
/// leaves the entity exactly as it was.
pub proof fn lemma_restore_round_trip<V: Copy>(
    record: Record<V>,
    overlay: MeshMaterialOverride<V, V>,
)
    requires
        record.material.is_some(),
        record.overlay.is_none(),
    ensures
        record.overridden(overlay).material == Some(overlay.material),
        record.overridden(overlay).overlay.unwrap().previous_material == record.material,
        record.overridden(overlay).restored() == record,
{
}

/// The entity after one attach and detach cycle for each override of
/// `overlays`, first to last.
pub open spec fn cycled<V: Copy>(
    record: Record<V>,
    overlays: Seq<MeshMaterialOverride<V, V>>,
) -> Record<V>
    decreases overlays.len(),
{
    if overlays.len() == 0 {
        record
    } else {
        cycled(record, overlays.drop_last()).overridden(overlays.last()).restored()
    }
}

/// Any number of attach and detach cycles, with no write in between, leave an
/// entity that had a material and no override exactly as it was.
pub proof fn lemma_cycles_restore<V: Copy>(
    record: Record<V>,
    overlays: Seq<MeshMaterialOverride<V, V>>,
)
    requires
        record.material.is_some(),
        record.overlay.is_none(),
    ensures
        cycled(record, overlays) == record,
    decreases overlays.len(),
{
    if overlays.len() > 0 {
        lemma_cycles_restore(record, overlays.drop_last());
    }
}

/// Nothing captured, nothing written back: on an entity without material and
/// without override, a fresh override with `material` puts that value into the
/// slot and captures nothing, and detaching it writes nothing at all: the
/// slot keeps the value, and no placeholder for "nothing captured" ever gets
/// into it.
pub proof fn lemma_nothing_captured_nothing_restored<V: Copy>(record: Record<V>, material: V)
    requires
        record.material.is_none(),
        record.overlay.is_none(),
    ensures
        ({
            let on = record.overridden(MeshMaterialOverride::<V, V>::fresh(material));
            &&& on.material == Some(material)
            &&& on.overlay.unwrap().previous_material.is_none()
            &&& on.restored().material == on.material
            &&& on.restored() == record.written(material)
        }),
{
}

/// Replace while the override is on: on an entity whose override has captured
/// `captured` and whose slot holds any value, the replace transition, which
/// runs when a value is about to be written from outside, leaves the slot
/// reading `captured`, whatever is about to be written, and the override as it
/// was. An override attached in place of the first captures `captured` again,
/// not the first override's value.
pub proof fn lemma_replace_writes_capture_back<V: Copy>(
    record: Record<V>,
    captured: V,
    next: MeshMaterialOverride<V, V>,
)
    requires
        record.overlay.is_some(),
        record.overlay.unwrap().previous_material == Some(captured),
        record.material.is_some(),
    ensures
        record.replaced().material == Some(captured),
        record.replaced().overlay == record.overlay,
        record.overridden(next).overlay.unwrap().previous_material == Some(captured),
        record.overridden(next).material == Some(next.material),
        record.overridden(next).restored().material == Some(captured),
{
}

/// A host may run the replace transition just before it detaches the
/// override, as engines do that treat a removal as a replacement by nothing:
/// the detached entity is the same.
pub proof fn lemma_replace_before_detach<V: Copy>(record: Record<V>)
    ensures
        record.replaced().restored() == record.restored(),
{
}

/// An override for a fixed time: on an entity that has a material and
/// neither override nor wrapper, attach an override and a detaching wrapper
/// for it with delay `delay`. While the ticks add up to less than
/// `delay` the slot holds the override. From the tick that reaches `delay` on
/// it holds the first material again, and override, wrappers and timer record
/// are gone.
pub proof fn lemma_override_for_a_time<V: Copy>(
    record: Record<V>,
    material: V,
    delay: u128,
    ticks: Seq<u128>,
)
    requires
        record.material.is_some(),
        record.overlay.is_none(),
        record.delay_insert.is_none(),
        record.delay_remove.is_none(),
    ensures
        ({
            let now = record.overridden_for(material, delay).after(ticks);
            &&& total(ticks) < delay ==> now.material == Some(material) && now.has(Kind::Override)
                && now.has(Kind::DelayRemove)
            &&& ticks.len() > 0 && total(ticks) >= delay ==> now == Record {
                observer: None,
                ..record
            }
        }),
{
    lemma_run(record.overridden_for(material, delay), delay, ticks);
}

} // verus!

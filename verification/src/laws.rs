//! Properties of the inline cache that span its operations.

use vstd::prelude::*;

use crate::cache::{CacheState, InlineCache};
use crate::shape::{JsObject, Shape, Slot, WeakShape};

verus! {

/// After an own property of an object of `shape` is recorded, an own-property
/// lookup with that shape, while the shape is alive, gives back the shape and
/// the slot and leaves the cache as it is.
pub proof fn law_own_entry_hits(c: CacheState, shape: Shape, slot: Slot)
    ensures
        c.after_set(shape, slot).match_own_result(shape, true) == Some((shape, slot)),
        c.after_set(shape, slot).after_match_own(shape, true) == c.after_set(shape, slot),
{
}

/// After a prototype property reached from an object of `shape` is recorded,
/// a prototype-property lookup with that shape, while the shape is alive,
/// gives back the prototype and the slot and leaves the cache as it is.
pub proof fn law_prototype_entry_hits(c: CacheState, shape: Shape, prototype: JsObject, slot: Slot)
    ensures
        c.after_set_prototype(shape, prototype, slot).match_prototype_result(shape, true) == Some(
            (prototype, slot),
        ),
        c.after_set_prototype(shape, prototype, slot).after_match_prototype(shape, true)
            == c.after_set_prototype(shape, prototype, slot),
{
}

/// An own-property lookup never hits an entry that records a prototype: it
/// gives nothing and clears the entry, whatever the shape.
pub proof fn law_own_lookup_misses_prototype_entry(
    c: CacheState,
    recorded: Shape,
    prototype: JsObject,
    slot: Slot,
    shape: Shape,
    alive: bool,
)
    ensures
        c.after_set_prototype(recorded, prototype, slot).match_own_result(shape, alive) is None,
        c.after_set_prototype(recorded, prototype, slot).after_match_own(shape, alive)
            == c.after_set_prototype(recorded, prototype, slot).cleared(),
{
}

/// A prototype-property lookup on an entry for an own property of the same,
/// live shape gives nothing and leaves the entry in place.
pub proof fn law_prototype_lookup_on_own_entry(c: CacheState, shape: Shape, slot: Slot)
    ensures
        c.after_set(shape, slot).match_prototype_result(shape, true) is None,
        c.after_set(shape, slot).after_match_prototype(shape, true) == c.after_set(shape, slot),
{
}

/// A cache that records no shape (a fresh one, or one that a miss cleared)
/// gives nothing to either lookup, for any shape.
pub proof fn law_empty_cache_never_hits(c: CacheState, shape: Shape, alive: bool)
    requires
        c.shape == WeakShape::Empty,
        c.prototype is None,
    ensures
        c.match_own_result(shape, alive) is None,
        c.match_prototype_result(shape, alive) is None,
{
}

/// A fresh cache records no shape and no prototype, and a cleared cache is
/// empty in the same way.
pub proof fn law_fresh_and_cleared_are_empty(name: Seq<char>, c: CacheState)
    ensures
        CacheState::fresh(name).shape == WeakShape::Empty,
        CacheState::fresh(name).prototype is None,
        c.cleared().shape == WeakShape::Empty,
        c.cleared().prototype is None,
{
}

/// Every lookup either hits and leaves the cache unchanged, or misses and
/// leaves it cleared.
pub proof fn law_lookup_hits_or_clears(c: CacheState, shape: Shape, alive: bool)
    ensures
        c.match_own_result(shape, alive) is Some ==> c.after_match_own(shape, alive) == c,
        c.match_own_result(shape, alive) is None ==> (c.after_match_own(shape, alive) == c
            || c.after_match_own(shape, alive) == c.cleared()),
        c.match_prototype_result(shape, alive) is Some ==> c.after_match_prototype(shape, alive)
            == c,
        c.match_prototype_result(shape, alive) is None ==> (c.after_match_prototype(shape, alive)
            == c || c.after_match_prototype(shape, alive) == c.cleared()),
{
}

/// What a hit gives back is what was recorded: an own-property hit gives the
/// recorded shape, which is the looked-up one, and the recorded slot; a
/// prototype-property hit gives the recorded prototype and slot, and the
/// recorded shape is the looked-up one.
pub proof fn law_hit_gives_recorded_entry(c: CacheState, shape: Shape, alive: bool)
    ensures
        forall|s: Shape, slot: Slot|
            c.match_own_result(shape, alive) == Some((s, slot)) ==> {
                &&& s == shape
                &&& slot == c.slot
                &&& c.shape == WeakShape::Weak(shape)
                &&& c.prototype is None
                &&& alive
            },
        forall|p: JsObject, slot: Slot|
            c.match_prototype_result(shape, alive) == Some((p, slot)) ==> {
                &&& c.prototype == Some(p)
                &&& slot == c.slot
                &&& c.shape_matches(shape, alive)
            },
{
}

/// A prototype-property hit for a shape that has an address (every live
/// shape does) comes from a live entry recorded for exactly that shape.
pub proof fn law_prototype_hit_needs_live_matching_shape(c: CacheState, shape: Shape, alive: bool)
    requires
        shape.addr != 0,
        c.match_prototype_result(shape, alive) is Some,
    ensures
        alive,
        c.shape == WeakShape::Weak(shape),
{
}

/// When the recorded shape is no longer alive, an own-property lookup gives
/// nothing; a prototype-property lookup with a shape that has an address
/// gives nothing and clears the entry.
pub proof fn law_dead_shape_misses(c: CacheState, shape: Shape)
    ensures
        c.match_own_result(shape, false) is None,
        shape.addr != 0 ==> c.match_prototype_result(shape, false) is None,
        shape.addr != 0 ==> c.after_match_prototype(shape, false) == c.cleared(),
{
}

/// A lookup with a shape other than the recorded one misses and clears the
/// entry.
pub proof fn law_other_shape_misses_and_clears(
    c: CacheState,
    recorded: Shape,
    shape: Shape,
    alive: bool,
)
    requires
        c.shape == WeakShape::Weak(recorded),
        recorded.addr != shape.addr,
        shape.addr != 0,
    ensures
        c.match_own_result(shape, alive) is None,
        c.after_match_own(shape, alive) == c.cleared(),
        c.match_prototype_result(shape, alive) is None,
        c.after_match_prototype(shape, alive) == c.cleared(),
{
}

/// No operation changes the property name; lookups never change the slot.
pub proof fn law_name_and_slot_kept(
    c: CacheState,
    shape: Shape,
    prototype: JsObject,
    slot: Slot,
    alive: bool,
)
    ensures
        c.after_set(shape, slot).name == c.name,
        c.after_set_prototype(shape, prototype, slot).name == c.name,
        c.after_match_own(shape, alive).name == c.name,
        c.after_match_own(shape, alive).slot == c.slot,
        c.after_match_prototype(shape, alive).name == c.name,
        c.after_match_prototype(shape, alive).slot == c.slot,
{
}

/// Recording an entry replaces whatever was recorded before: the last write
/// alone decides the entry.
pub proof fn law_last_record_wins(
    c: CacheState,
    shape1: Shape,
    prototype1: JsObject,
    slot1: Slot,
    shape: Shape,
    prototype: JsObject,
    slot: Slot,
)
    ensures
        c.after_set(shape1, slot1).after_set(shape, slot) == c.after_set(shape, slot),
        c.after_set_prototype(shape1, prototype1, slot1).after_set(shape, slot) == c.after_set(
            shape,
            slot,
        ),
        c.after_set(shape1, slot1).after_set_prototype(shape, prototype, slot)
            == c.after_set_prototype(shape, prototype, slot),
        c.after_set_prototype(shape1, prototype1, slot1).after_set_prototype(
            shape,
            prototype,
            slot,
        ) == c.after_set_prototype(shape, prototype, slot),
{
}

/// A fresh cache keeps the property name it was created with, whatever its
/// length, and records no shape, no prototype and the slot at index 0 with no
/// attributes.
pub proof fn law_fresh_cache_contents(name: Seq<char>)
    ensures
        CacheState::fresh(name).name == name,
        CacheState::fresh(name).shape == WeakShape::Empty,
        CacheState::fresh(name).prototype is None,
        CacheState::fresh(name).slot == (Slot { index: 0, attributes: 0 }),
        Slot::initial() == (Slot { index: 0, attributes: 0 }),
{
}

/// Recording an own property keeps the name and records exactly a weak
/// reference to the given shape, no prototype, and the given slot.
pub proof fn law_set_records_exactly(c: CacheState, shape: Shape, slot: Slot)
    ensures
        c.after_set(shape, slot).name == c.name,
        c.after_set(shape, slot).shape == WeakShape::Weak(shape),
        c.after_set(shape, slot).prototype is None,
        c.after_set(shape, slot).slot == slot,
{
}

/// Recording a prototype property keeps the name and records exactly a weak
/// reference to the given shape, the given prototype, and the given slot.
pub proof fn law_set_prototype_records_exactly(
    c: CacheState,
    shape: Shape,
    prototype: JsObject,
    slot: Slot,
)
    ensures
        c.after_set_prototype(shape, prototype, slot).name == c.name,
        c.after_set_prototype(shape, prototype, slot).shape == WeakShape::Weak(shape),
        c.after_set_prototype(shape, prototype, slot).prototype == Some(prototype),
        c.after_set_prototype(shape, prototype, slot).slot == slot,
{
}

/// Clearing drops the recorded shape and prototype and keeps the name and
/// the slot.
pub proof fn law_cleared_contents(c: CacheState)
    ensures
        c.cleared().name == c.name,
        c.cleared().slot == c.slot,
        c.cleared().shape == WeakShape::Empty,
        c.cleared().prototype is None,
{
}

/// Upgrading gives the referenced shape exactly when there is a reference
/// and its target is alive.
pub proof fn law_upgrade_outcome(s: Shape, alive: bool)
    ensures
        WeakShape::Empty.spec_upgrade(alive) is None,
        WeakShape::Weak(s).spec_upgrade(true) == Some(s),
        WeakShape::Weak(s).spec_upgrade(false) is None,
{
}

/// The outcome of an own-property lookup, by the recorded entry: a live
/// entry for exactly this shape with no prototype hits, giving the shape and
/// the recorded slot and leaving the cache as it is; an entry with a
/// prototype misses and is cleared; a dead entry, or one for another shape,
/// misses and is cleared when the looked-up shape has an address; an empty
/// entry misses.
pub proof fn law_own_lookup_outcome(c: CacheState, shape: Shape, alive: bool)
    ensures
        alive && c.shape == WeakShape::Weak(shape) && c.prototype is None ==> {
            &&& c.match_own_result(shape, alive) == Some((shape, c.slot))
            &&& c.after_match_own(shape, alive) == c
        },
        c.prototype is Some ==> {
            &&& c.match_own_result(shape, alive) is None
            &&& c.after_match_own(shape, alive).shape == WeakShape::Empty
            &&& c.after_match_own(shape, alive).prototype is None
            &&& c.after_match_own(shape, alive).name == c.name
            &&& c.after_match_own(shape, alive).slot == c.slot
        },
        shape.addr != 0 && (!alive || c.shape != WeakShape::Weak(shape)) ==> {
            &&& c.match_own_result(shape, alive) is None
            &&& c.after_match_own(shape, alive).shape == WeakShape::Empty
            &&& c.after_match_own(shape, alive).prototype is None
            &&& c.after_match_own(shape, alive).name == c.name
            &&& c.after_match_own(shape, alive).slot == c.slot
        },
        c.shape == WeakShape::Empty ==> c.match_own_result(shape, alive) is None,
{
}

/// The outcome of a prototype-property lookup, by the recorded entry: a live
/// entry for exactly this shape leaves the cache as it is and gives the
/// recorded prototype with the recorded slot, or nothing where no prototype
/// is recorded; a dead entry, or one for another shape, misses and is
/// cleared when the looked-up shape has an address.
pub proof fn law_prototype_lookup_outcome(c: CacheState, shape: Shape, alive: bool)
    ensures
        alive && c.shape == WeakShape::Weak(shape) ==> {
            &&& c.after_match_prototype(shape, alive) == c
            &&& (c.prototype matches Some(p) ==> c.match_prototype_result(shape, alive) == Some(
                (p, c.slot),
            ))
            &&& (c.prototype is None ==> c.match_prototype_result(shape, alive) is None)
        },
        shape.addr != 0 && (!alive || c.shape != WeakShape::Weak(shape)) ==> {
            &&& c.match_prototype_result(shape, alive) is None
            &&& c.after_match_prototype(shape, alive).shape == WeakShape::Empty
            &&& c.after_match_prototype(shape, alive).prototype is None
            &&& c.after_match_prototype(shape, alive).name == c.name
            &&& c.after_match_prototype(shape, alive).slot == c.slot
        },
{
}

/// The view of a cache is its fields: the name as characters, and the
/// recorded shape, prototype and slot as they are.
pub proof fn law_view_is_fields(c: InlineCache)
    ensures
        c@.name == c.name@,
        c@.shape == c.shape,
        c@.prototype == c.prototype,
        c@.slot == c.slot,
{
}

} // verus!

//! The inline cache of one property access site.
//!
//! An entry records the shape of the object that was accessed and the slot
//! where the property was found. For a property found on the object itself no
//! prototype is recorded; for one found further up the prototype chain the
//! prototype object that holds it is recorded too. A lookup that does not
//! match the recorded shape clears the entry, so that the recorded shape can
//! be freed.

use vstd::prelude::*;

use crate::shape::{JsObject, Shape, Slot, WeakShape};

verus! {

/// An inline cache entry for a property access.
#[derive(Clone, Debug)]
pub struct InlineCache {
    /// The property that is accessed.
    pub name: String,
    /// The shape of the object being accessed, held weakly.
    pub shape: WeakShape,
    /// The prototype object where the property was found, or `None` for an
    /// own property.
    pub prototype: Option<JsObject>,
    /// The slot of the property.
    pub slot: Slot,
}

/// The abstract state of an inline cache.
pub struct CacheState {
    pub name: Seq<char>,
    pub shape: WeakShape,
    pub prototype: Option<JsObject>,
    pub slot: Slot,
}

impl View for InlineCache {
    type V = CacheState;

    open spec fn view(&self) -> CacheState {
        CacheState {
            name: self.name@,
            shape: self.shape,
            prototype: self.prototype,
            slot: self.slot,
        }
    }
}

impl CacheState {
    /// A cache for the property `name` that records nothing yet.
    pub open spec fn fresh(name: Seq<char>) -> CacheState {
        CacheState {
            name,
            shape: WeakShape::Empty,
            prototype: None,
            slot: Slot::initial(),
        }
    }

    /// The same cache with its shape and prototype cleared; the name and
    /// the slot stay.
    pub open spec fn cleared(self) -> CacheState {
        CacheState { shape: WeakShape::Empty, prototype: None, ..self }
    }

    /// The cache after an own property of an object of `shape` was recorded
    /// at `slot`.
    pub open spec fn after_set(self, shape: Shape, slot: Slot) -> CacheState {
        CacheState { shape: WeakShape::Weak(shape), prototype: None, slot, ..self }
    }

    /// The cache after a property of `prototype`, reached from an object of
    /// `shape`, was recorded at `slot`.
    pub open spec fn after_set_prototype(
        self,
        shape: Shape,
        prototype: JsObject,
        slot: Slot,
    ) -> CacheState {
        CacheState { shape: WeakShape::Weak(shape), prototype: Some(prototype), slot, ..self }
    }

    /// The address of the recorded shape after upgrading it, or 0 where
    /// nothing is recorded or the recorded shape is no longer alive.
    pub open spec fn upgraded_addr(self, alive: bool) -> int {
        match self.shape.spec_upgrade(alive) {
            Some(s) => s.addr as int,
            None => 0,
        }
    }

    /// Whether a lookup with an object of `shape` matches the recorded shape.
    pub open spec fn shape_matches(self, shape: Shape, alive: bool) -> bool {
        self.upgraded_addr(alive) == shape.addr
    }

    /// The state after an own-property lookup with an object of `shape`.
    pub open spec fn after_match_own(self, shape: Shape, alive: bool) -> CacheState {
        if self.shape_matches(shape, alive) && self.prototype is None {
            self
        } else {
            self.cleared()
        }
    }

    /// What an own-property lookup with an object of `shape` returns.
    pub open spec fn match_own_result(self, shape: Shape, alive: bool) -> Option<(Shape, Slot)> {
        if self.shape_matches(shape, alive) && self.prototype is None {
            match self.shape.spec_upgrade(alive) {
                Some(s) => Some((s, self.slot)),
                None => None,
            }
        } else {
            None
        }
    }

    /// The state after a prototype-property lookup with an object of `shape`.
    pub open spec fn after_match_prototype(self, shape: Shape, alive: bool) -> CacheState {
        if self.shape_matches(shape, alive) {
            self
        } else {
            self.cleared()
        }
    }

    /// What a prototype-property lookup with an object of `shape` returns.
    pub open spec fn match_prototype_result(self, shape: Shape, alive: bool) -> Option<
        (JsObject, Slot),
    > {
        if self.shape_matches(shape, alive) {
            match self.prototype {
                Some(p) => Some((p, self.slot)),
                None => None,
            }
        } else {
            None
        }
    }
}

impl InlineCache {
    /// A cache for the property `name` that records nothing yet.
    pub fn new(name: String) -> (c: InlineCache)
        ensures
            c@ == CacheState::fresh(name@),
            c.name@ == name@,
            c.shape == WeakShape::Empty,
            c.prototype is None,
            c.slot == (Slot { index: 0, attributes: 0 }),
    {
        InlineCache { name, shape: WeakShape::Empty, prototype: None, slot: Slot::new() }
    }

    /// Records an own property of an object of `shape`, stored at `slot`.
    pub fn set(&mut self, shape: &Shape, slot: Slot)
        ensures
            final(self)@ == old(self)@.after_set(*shape, slot),
            final(self).name@ == old(self).name@,
            final(self).shape == WeakShape::Weak(*shape),
            final(self).prototype is None,
            final(self).slot == slot,
    {
        self.shape = shape.downgrade();
        self.prototype = None;
        self.slot = slot;
    }

    /// Records a property found on `prototype` (which may stand several
    /// levels up the chain) when an object of `object_shape` is accessed;
    /// `slot` is where the prototype stores it.
    pub fn set_prototype(&mut self, object_shape: &Shape, prototype: &JsObject, slot: Slot)
        ensures
            final(self)@ == old(self)@.after_set_prototype(*object_shape, *prototype, slot),
            final(self).name@ == old(self).name@,
            final(self).shape == WeakShape::Weak(*object_shape),
            final(self).prototype == Some(*prototype),
            final(self).slot == slot,
    {
        self.shape = object_shape.downgrade();
        self.prototype = Some(*prototype);
        self.slot = slot;
    }

    /// The recorded slot.
    pub fn slot(&self) -> (s: Slot)
        ensures
            s == self@.slot,
            s == self.slot,
    {
        self.slot
    }

    /// Looks up an own property of an object of `shape`.
    ///
    /// `cached_shape_alive` says whether the recorded shape is still alive.
    /// Where the recorded shape, upgraded, has the address of `shape` and no
    /// prototype is recorded, the cache stays as it is and the upgraded shape
    /// and the slot are returned (nothing where the upgrade gave nothing);
    /// otherwise the recorded shape and prototype are cleared and nothing is
    /// returned.
    pub fn match_or_reset(&mut self, shape: &Shape, cached_shape_alive: bool) -> (r: Option<
        (Shape, Slot),
    >)
        ensures
            final(self)@ == old(self)@.after_match_own(*shape, cached_shape_alive),
            r == old(self)@.match_own_result(*shape, cached_shape_alive),
            final(self).name@ == old(self).name@,
            final(self).slot == old(self).slot,
    {
        let old_upgraded = self.shape.upgrade(cached_shape_alive);
        let old_addr: usize = match &old_upgraded {
            Some(s) => s.to_addr_usize(),
            None => 0,
        };
        if old_addr == shape.to_addr_usize() {
            if self.prototype.is_none() {
                let slot = self.slot();
                return match old_upgraded {
                    Some(s) => Some((s, slot)),
                    None => None,
                };
            }
        }
        self.shape = WeakShape::Empty;
        self.prototype = None;
        None
    }

    /// Looks up a prototype property when an object of `object_shape` is
    /// accessed.
    ///
    /// `cached_shape_alive` says whether the recorded shape is still alive.
    /// Where the recorded shape, upgraded, does not have the address of
    /// `object_shape`, the recorded shape and prototype are cleared and
    /// nothing is returned. Otherwise the cache stays as it is, and the
    /// recorded prototype and the slot are returned where a prototype is
    /// recorded, nothing where none is.
    pub fn match_prototype_or_reset(
        &mut self,
        object_shape: &Shape,
        cached_shape_alive: bool,
    ) -> (r: Option<(JsObject, Slot)>)
        ensures
            final(self)@ == old(self)@.after_match_prototype(*object_shape, cached_shape_alive),
            r == old(self)@.match_prototype_result(*object_shape, cached_shape_alive),
            final(self).name@ == old(self).name@,
            final(self).slot == old(self).slot,
    {
        let cached_shape_upgraded = self.shape.upgrade(cached_shape_alive);
        let cached_addr: usize = match &cached_shape_upgraded {
            Some(s) => s.to_addr_usize(),
            None => 0,
        };
        if cached_addr != object_shape.to_addr_usize() {
            self.shape = WeakShape::Empty;
            self.prototype = None;
            return None;
        }
        match &self.prototype {
            Some(proto) => Some((*proto, self.slot())),
            None => None,
        }
    }
}

} // verus!

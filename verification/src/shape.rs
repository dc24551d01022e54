//! The values an inline cache remembers: shapes, weak references to shapes,
//! prototype objects and property slots.
//!
//! Heap objects are identified by plain values: a shape by the address at
//! which it lives, an object by its identity. Whether the collector has freed
//! the target of a weak shape reference is not something this library can
//! observe; it is handed in by the caller wherever a weak reference is
//! upgraded.

use vstd::prelude::*;

verus! {

/// A strong reference to a live shape, identified by its address.
#[derive(Clone, Copy, Debug, PartialEq, Eq, Structural)]
pub struct Shape {
    pub addr: usize,
}

impl Shape {
    /// The shape that lives at `addr`.
    pub fn new(addr: usize) -> (s: Shape)
        ensures
            s.addr == addr,
    {
        Shape { addr }
    }

    /// The address of the shape.
    pub fn to_addr_usize(&self) -> (a: usize)
        ensures
            a == self.addr,
    {
        self.addr
    }

    /// A weak reference to this shape.
    pub fn downgrade(&self) -> (w: WeakShape)
        ensures
            w == WeakShape::Weak(*self),
    {
        WeakShape::Weak(*self)
    }
}

/// A weak reference to a shape, or no reference at all.
#[derive(Clone, Copy, Debug, PartialEq, Eq, Structural)]
pub enum WeakShape {
    /// No shape is referenced.
    Empty,
    /// A weak reference to the given shape; the collector may have freed it.
    Weak(Shape),
}

impl WeakShape {
    /// What upgrading this reference gives, where `alive` says whether the
    /// referenced shape is still alive.
    pub open spec fn spec_upgrade(self, alive: bool) -> Option<Shape> {
        match self {
            WeakShape::Empty => None,
            WeakShape::Weak(s) => if alive {
                Some(s)
            } else {
                None
            },
        }
    }

    /// Upgrades the weak reference to a strong one. `alive` is the
    /// collector's answer to whether the referenced shape is still alive.
    pub fn upgrade(&self, alive: bool) -> (r: Option<Shape>)
        ensures
            r == self.spec_upgrade(alive),
    {
        match self {
            WeakShape::Empty => None,
            WeakShape::Weak(s) => if alive {
                Some(*s)
            } else {
                None
            },
        }
    }
}

/// A reference to an object, identified by the object's identity.
#[derive(Clone, Copy, Debug, PartialEq, Eq, Structural)]
pub struct JsObject {
    pub id: u64,
}

/// Where a property is stored: the index into the storage of the object that
/// holds it, and the property's attribute bits.
#[derive(Clone, Copy, Debug, PartialEq, Eq, Structural)]
pub struct Slot {
    pub index: u32,
    pub attributes: u8,
}

impl Slot {
    /// The slot that a fresh inline cache holds.
    pub open spec fn initial() -> Slot {
        Slot { index: 0, attributes: 0 }
    }

    /// A slot at index 0 with no attributes.
    pub fn new() -> (s: Slot)
        ensures
            s == Slot::initial(),
    {
        Slot { index: 0, attributes: 0 }
    }
}

} // verus!

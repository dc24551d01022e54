//! The inline cache's operations on concrete values, one test per law and
//! per edge case.

use inline_cache::{InlineCache, JsObject, Shape, Slot, WeakShape};

fn slot(index: u32) -> Slot {
    Slot { index, attributes: 0 }
}

#[test]
fn new_cache_records_nothing() {
    let c = InlineCache::new("x".to_string());
    assert_eq!(c.name, "x");
    assert_eq!(c.shape, WeakShape::Empty);
    assert_eq!(c.prototype, None);
    assert_eq!(c.slot(), Slot::new());
    assert_eq!(Slot::new(), Slot { index: 0, attributes: 0 });
}

#[test]
fn shape_helpers() {
    let s = Shape::new(48);
    assert_eq!(s.to_addr_usize(), 48);
    assert_eq!(s.downgrade(), WeakShape::Weak(s));
    assert_eq!(s.downgrade().upgrade(true), Some(s));
    assert_eq!(s.downgrade().upgrade(false), None);
    assert_eq!(WeakShape::Empty.upgrade(true), None);
}

#[test]
fn own_entry_hits() {
    let mut c = InlineCache::new("p".to_string());
    let s = Shape::new(16);
    c.set(&s, slot(3));
    assert_eq!(c.shape, WeakShape::Weak(s));
    assert_eq!(c.prototype, None);
    assert_eq!(c.match_or_reset(&s, true), Some((s, slot(3))));
    assert_eq!(c.shape, WeakShape::Weak(s));
    assert_eq!(c.slot(), slot(3));
    assert_eq!(c.match_or_reset(&s, true), Some((s, slot(3))));
}

#[test]
fn prototype_entry_hits() {
    let mut c = InlineCache::new("p".to_string());
    let s = Shape::new(16);
    let proto = JsObject { id: 7 };
    c.set_prototype(&s, &proto, slot(2));
    assert_eq!(c.prototype, Some(proto));
    assert_eq!(c.match_prototype_or_reset(&s, true), Some((proto, slot(2))));
    assert_eq!(c.shape, WeakShape::Weak(s));
    assert_eq!(c.prototype, Some(proto));
}

#[test]
fn own_lookup_misses_prototype_entry() {
    let mut c = InlineCache::new("p".to_string());
    let s = Shape::new(16);
    c.set_prototype(&s, &JsObject { id: 7 }, slot(2));
    assert_eq!(c.match_or_reset(&s, true), None);
    assert_eq!(c.shape, WeakShape::Empty);
    assert_eq!(c.prototype, None);
    assert_eq!(c.slot(), slot(2));
}

#[test]
fn prototype_lookup_on_own_entry_keeps_it() {
    let mut c = InlineCache::new("p".to_string());
    let s = Shape::new(16);
    c.set(&s, slot(1));
    assert_eq!(c.match_prototype_or_reset(&s, true), None);
    assert_eq!(c.shape, WeakShape::Weak(s));
    assert_eq!(c.prototype, None);
    assert_eq!(c.match_or_reset(&s, true), Some((s, slot(1))));
}

#[test]
fn empty_cache_never_hits() {
    let mut c = InlineCache::new("p".to_string());
    for addr in [0usize, 16, 32] {
        let s = Shape::new(addr);
        for alive in [true, false] {
            assert_eq!(c.match_or_reset(&s, alive), None);
            assert_eq!(c.match_prototype_or_reset(&s, alive), None);
            assert_eq!(c.shape, WeakShape::Empty);
        }
    }
}

#[test]
fn other_shape_misses_and_clears() {
    let s = Shape::new(16);
    let t = Shape::new(32);
    let mut c = InlineCache::new("p".to_string());
    c.set(&s, slot(4));
    assert_eq!(c.match_or_reset(&t, true), None);
    assert_eq!(c.shape, WeakShape::Empty);
    assert_eq!(c.match_or_reset(&s, true), None);

    let mut d = InlineCache::new("p".to_string());
    d.set_prototype(&s, &JsObject { id: 1 }, slot(4));
    assert_eq!(d.match_prototype_or_reset(&t, true), None);
    assert_eq!(d.shape, WeakShape::Empty);
    assert_eq!(d.prototype, None);
    assert_eq!(d.slot(), slot(4));
    assert_eq!(d.name, "p");
    assert_eq!(d.match_prototype_or_reset(&s, true), None);
}

#[test]
fn dead_shape_misses() {
    let s = Shape::new(16);
    let mut c = InlineCache::new("p".to_string());
    c.set(&s, slot(4));
    assert_eq!(c.match_or_reset(&s, false), None);
    assert_eq!(c.shape, WeakShape::Empty);

    let mut d = InlineCache::new("p".to_string());
    d.set_prototype(&s, &JsObject { id: 1 }, slot(4));
    assert_eq!(d.match_prototype_or_reset(&s, false), None);
    assert_eq!(d.shape, WeakShape::Empty);
    assert_eq!(d.prototype, None);
}

#[test]
fn address_zero_edge_cases() {
    // A shape at address 0 compares equal to a reference that did not upgrade.
    let zero = Shape::new(0);
    let mut c = InlineCache::new("p".to_string());
    c.set(&Shape::new(16), slot(5));
    // Own lookup: the addresses agree, no prototype is recorded, but the
    // upgrade gave nothing, so nothing is returned and nothing is cleared.
    assert_eq!(c.match_or_reset(&zero, false), None);
    assert_eq!(c.shape, WeakShape::Weak(Shape::new(16)));

    let proto = JsObject { id: 3 };
    c.set_prototype(&Shape::new(16), &proto, slot(5));
    assert_eq!(c.match_prototype_or_reset(&zero, false), Some((proto, slot(5))));
    assert_eq!(c.prototype, Some(proto));
}

#[test]
fn last_record_wins() {
    let s = Shape::new(16);
    let t = Shape::new(32);
    let mut c = InlineCache::new("p".to_string());
    c.set_prototype(&s, &JsObject { id: 1 }, slot(1));
    c.set(&t, slot(2));
    assert_eq!(c.shape, WeakShape::Weak(t));
    assert_eq!(c.prototype, None);
    assert_eq!(c.slot(), slot(2));
    c.set_prototype(&s, &JsObject { id: 9 }, slot(7));
    assert_eq!(c.shape, WeakShape::Weak(s));
    assert_eq!(c.prototype, Some(JsObject { id: 9 }));
    assert_eq!(c.slot(), slot(7));
    assert_eq!(c.name, "p");
}

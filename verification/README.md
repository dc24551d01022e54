# inline_cache

The inline cache of a JavaScript engine's property access site, written in
Verus with its behaviour stated as contracts and proved.

- `src/shape.rs`: shapes (identified by address), weak references to shapes,
  prototype objects (identified by identity) and property slots.
- `src/cache.rs`: `InlineCache`, its abstract state `CacheState`, and the
  operations `new`, `set`, `set_prototype`, `slot`, `match_or_reset` and
  `match_prototype_or_reset`, each specified over `CacheState`.
- `src/laws.rs`: proof functions for the properties that span operations
  (what a lookup gives back after a record, when a lookup misses and clears).
- `tests/`: the operations on concrete values, and property accesses through
  caches on a small object model with shared shapes and prototype chains.

Whether the collector still holds a recorded shape is decided outside the
library; the lookups take that answer as the argument `cached_shape_alive`.

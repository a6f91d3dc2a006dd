//! A benchmarking library that compares dispatch strategies for a
//! user-chosen integer transformation applied over a large buffer:
//! a raw callable encoded as an offset from an anchor symbol, and a
//! statically-typed generic wrapper. Containers holding either kind
//! round-trip through a tagged document so a later run can rebuild
//! the exact concrete transform before timing it.

pub mod bench;
pub mod codec;
pub mod ops;
pub mod transform;

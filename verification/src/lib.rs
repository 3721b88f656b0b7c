//! A collection of small, independent, general-purpose utility types and
//! functions, each carrying a machine-checked contract: lazy memoizing
//! caches (single-value and keyed), color types, calendar arithmetic,
//! two-dimensional views over one-dimensional buffers, own-or-borrow smart
//! references, permutation generation, and string helpers.

pub mod cache;
pub mod chrono;
pub mod color;
pub mod environment;
pub mod file;
pub mod hsv;
pub mod iterator_extensions;
pub mod map_any;
pub mod multi_dimensional;
pub mod ownership;
pub mod permutation;
pub mod string_extensions;

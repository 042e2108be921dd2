//! Schema front end of a compact, tag-based binary serialization format:
//! directive parsing and validation for sum-type variants, diagnostic
//! accumulation, and the memoized encoded-length cell used by the encoder.

pub mod attr;
pub mod cached_size;
pub mod context;
pub mod directive;
pub mod string_util;
pub mod tag;
pub mod variant;

pub use cached_size::CachedSize;

//! Stringprep profiles for XMPP identifiers (Nodeprep, Nameprep,
//! Resourceprep and a no-filter lowercasing), each answered through a
//! bounded least-recently-used cache of results.
//!
//! - `tables`: the character classes of RFC 3454 used here.
//! - `bidi`: the bidirectional rule of RFC 3454 Section 6.
//! - `profiles`: preparing a string with a profile.
//! - `lru_cache`: the result caches and what their operations do.
//! - `caches`: the per-profile caches and the cached preparation.
//! - `laws`: properties of the library across calls.

pub mod bidi;
pub mod caches;
pub mod laws;
pub mod lru_cache;
pub mod profiles;
pub mod tables;

pub use bidi::check_bidi;
pub use caches::{PrepCaches, DEFAULT_CACHE_SIZE};
pub use lru_cache::MAX_CACHE_SIZE;
pub use profiles::{
    encode_prepared, finish_nofilter, prep_bytes, prepare_str, remove_b1, tolower_nofilter_str, utf8_bytes,
    Profile,
};
pub use tables::{is_b1_char, is_l_char, is_ral_char};

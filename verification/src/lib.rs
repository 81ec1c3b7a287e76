//! Vanity selector mining: searching for an integer suffix `N` such that the
//! Keccak-256 digest of `name ++ decimal(N) ++ "(" ++ parameters ++ ")"`
//! begins with a caller-chosen hexadecimal pattern of up to eight nibbles.

pub mod cli;
pub mod hex;
pub mod pattern;
pub mod candidate;
pub mod digest;
pub mod counter;
pub mod search;

pub use candidate::build_candidate;
pub use counter::HashCounter;
pub use search::generate_vanity_function_name;
pub use search::search_range;
pub use digest::calculate_keccak_256;
pub use digest::verify_result;
pub use pattern::compare_hash;
pub use pattern::normalize_pattern;
pub use pattern::NormalizedPattern;
pub use pattern::PatternError;
pub use hex::hex_lookup;
pub use hex::hex_to_val;
pub use hex::nibble_matches;

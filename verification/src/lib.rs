//! Turns one encoded still image into an animated "glitch" sequence: it
//! mutates single bytes of the encoded stream, keeps the mutations that
//! still decode, and assembles them into an animated container.

use vstd::prelude::*;

pub mod errors;
pub mod formats;
pub mod mutate;
pub mod validate;
pub mod rng;
pub mod sink;
pub mod assemble;
pub mod pipeline;

pub use pipeline::{generate, generate_with_picks, generate_with_report, GlitchReport};

verus! {

/// Per-frame display delay, in hundredths of a second.
pub const FRAME_DELAY: u16 = 10;

/// How many candidate buffers one run generates: the original plus the
/// single-byte mutations.
pub const CANDIDATE_COUNT: usize = 120;

/// The most frames one output animation may hold.
pub const FRAME_CAP: usize = 100;

} // verus!

//! Presentation timing.

use vstd::prelude::*;

verus! {

/// A presentation timestamp, counted in ticks of the stream clock.
///
/// The decode pipeline assigns one timestamp to each access unit; a frame
/// produced from that unit carries the timestamp through unchanged.
#[derive(Clone, Copy, PartialEq, Eq, Structural, Debug)]
pub struct Timestamp {
    pub ticks: i64,
}

} // verus!

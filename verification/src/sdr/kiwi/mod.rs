//! The connection to a KiwiSDR receiver.

use vstd::prelude::*;

pub mod audio;
pub mod client;
pub mod endpoint;
pub mod frame;
pub mod opening;

pub use client::{KiwiSdrError, KiwiSdrSndClient, KiwiSdrStats};
pub use endpoint::Endpoint;
pub use opening::{KiwiSdrBuilder, KiwiSdrBuilderConfig};

verus! {

/// The sum of two numbers.
pub fn add(left: usize, right: usize) -> (sum: usize)
    requires
        left + right <= usize::MAX,
    ensures
        sum == left + right,
{
    left + right
}

} // verus!

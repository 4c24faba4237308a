//! Verified core of a small feed-forward image classifier.
//!
//! The library owns everything about the classifier that can be stated and
//! proved over plain values: the 16-way label codec, the dataset model, the
//! network configuration (weights kept as raw bit patterns), the epoch
//! schedule (shuffled training order, minibatch partition, reporting
//! cadence), and the decisions taken on numeric results (arg-max
//! classification, accuracy counting). The floating-point arithmetic itself
//! is carried out by a caller against these contracts.

use vstd::prelude::*;

pub mod dataset;
pub mod label;
pub mod network;
pub mod schedule;

verus! {

/// Width of one input image, in pixels.
pub const IMAGE_WIDTH: usize = 16;

/// Height of one input image, in pixels.
pub const IMAGE_HEIGHT: usize = 16;

/// Number of pixels of one input image.
pub const IMAGE_SIZE: usize = IMAGE_WIDTH * IMAGE_HEIGHT;

} // verus!


//! The sample model: fixed-size grayscale images paired with labels.
//!
//! An image is a row-major flattened pixel vector of fixed length; each
//! pixel is the raw bit pattern of one normalized floating-point intensity,
//! opaque to the logic here. A dataset split is an append-only collection of
//! samples whose images and labels are parallel sequences: index `i` always
//! denotes one sample.

use vstd::prelude::*;
use crate::label::MBTI;
use crate::IMAGE_SIZE;

verus! {

/// Target capacity of the training split.
pub const TRAINING_SIZE: usize = 5186;

/// Target capacity of the testing split.
pub const TESTING_SIZE: usize = 1297;

/// One grayscale input image: a row-major flattened pixel vector. Each
/// pixel holds the bit pattern of one normalized intensity in `[0, 1]`.
pub struct Image {
    data: Vec<u64>,
}

impl Image {
    /// The pixels gathered so far, in row-major order.
    pub closed spec fn spec_pixels(self) -> Seq<u64> {
        self.data@
    }

    /// The image carries exactly one pixel per cell.
    pub open spec fn is_complete(self) -> bool {
        self.spec_pixels().len() == IMAGE_SIZE
    }

    /// Creates an empty image, ready for a caller to fill pixel by pixel.
    pub fn new() -> (img: Image)
        ensures
            img.spec_pixels() == Seq::<u64>::empty(),
    {
        Image { data: Vec::with_capacity(IMAGE_SIZE) }
    }

    /// Builds a complete image from an already-filled pixel buffer.
    pub fn from_bits(bits: Vec<u64>) -> (img: Image)
        requires
            bits@.len() == IMAGE_SIZE,
        ensures
            img.spec_pixels() == bits@,
            img.is_complete(),
    {
        Image { data: bits }
    }

    /// Appends one pixel; an image never grows beyond its fixed size.
    pub fn push_pixel(&mut self, bits: u64)
        requires
            old(self).spec_pixels().len() < IMAGE_SIZE,
        ensures
            final(self).spec_pixels() == old(self).spec_pixels().push(bits),
    {
        self.data.push(bits);
    }

    /// Number of pixels gathered so far.
    pub fn len(&self) -> (n: usize)
        ensures
            n == self.spec_pixels().len(),
    {
        self.data.len()
    }

    /// The pixel at position `i` in row-major order.
    pub fn pixel(&self, i: usize) -> (bits: u64)
        requires
            i < self.spec_pixels().len(),
        ensures
            bits == self.spec_pixels()[i as int],
    {
        self.data[i]
    }
}

/// One split of the data — training or testing: an append-only collection
/// of complete images and their true labels, kept as parallel sequences.
pub struct Dataset {
    images: Vec<Image>,
    labels: Vec<MBTI>,
}

impl Dataset {
    /// The images of the split, in insertion order.
    pub closed spec fn spec_images(self) -> Seq<Image> {
        self.images@
    }

    /// The labels of the split, parallel to the images.
    pub closed spec fn spec_labels(self) -> Seq<MBTI> {
        self.labels@
    }

    /// Images and labels stay parallel, and every image is complete.
    pub open spec fn wf(self) -> bool {
        &&& self.spec_images().len() == self.spec_labels().len()
        &&& forall|i: int|
            0 <= i < self.spec_images().len() ==> (#[trigger] self.spec_images()[i]).is_complete()
    }

    /// Number of samples in the split.
    pub open spec fn spec_len(self) -> nat {
        self.spec_labels().len()
    }

    /// Creates an empty training split.
    pub fn new_training() -> (d: Dataset)
        ensures
            d.wf(),
            d.spec_len() == 0,
    {
        Dataset { images: Vec::with_capacity(TRAINING_SIZE), labels: Vec::with_capacity(TRAINING_SIZE) }
    }

    /// Creates an empty testing split.
    pub fn new_testing() -> (d: Dataset)
        ensures
            d.wf(),
            d.spec_len() == 0,
    {
        Dataset { images: Vec::with_capacity(TESTING_SIZE), labels: Vec::with_capacity(TESTING_SIZE) }
    }

    /// Appends one sample: a complete image and its true label, given as a
    /// dense index below 16.
    pub fn add(&mut self, image: Image, label: usize)
        requires
            old(self).wf(),
            image.is_complete(),
            label < 16,
        ensures
            final(self).wf(),
            final(self).spec_images() == old(self).spec_images().push(image),
            final(self).spec_labels() == old(self).spec_labels().push(
                crate::label::MBTI::spec_at_index(label)->Some_0,
            ),
    {
        self.images.push(image);
        let decoded = match MBTI::from_index(label) {
            Ok(l) => l,
            Err(_) => {
                proof {
                    assert(false);
                }
                MBTI::ENFP
            },
        };
        self.labels.push(decoded);
    }

    /// Number of samples in the split.
    pub fn len(&self) -> (n: usize)
        ensures
            n == self.spec_len(),
    {
        self.labels.len()
    }

    /// The image of sample `i`.
    pub fn image(&self, i: usize) -> (img: &Image)
        requires
            i < self.spec_images().len(),
        ensures
            *img == self.spec_images()[i as int],
    {
        &self.images[i]
    }

    /// The true label of sample `i`.
    pub fn label(&self, i: usize) -> (label: MBTI)
        requires
            i < self.spec_labels().len(),
        ensures
            label == self.spec_labels()[i as int],
    {
        self.labels[i]
    }
}

} // verus!

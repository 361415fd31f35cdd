//! The smallest and the largest sample of a surface, and where they are.
//!
//! The surface is scanned row by row. A NaN is never an extreme: the
//! extremes are taken among the samples that are numbers, infinities
//! included, and where several samples are equal the first one scanned
//! counts. A surface that holds no number at all, because it is empty or
//! because every sample is a NaN, has no extremes; the largest finite
//! number is then reported as minimum and the smallest finite number as
//! maximum, both at the origin.

use vstd::prelude::*;
use crate::image::{lemma_index_in_bounds, Image, Surface};
use crate::sample::{at_least, at_most, greater_than, gt, is_nan, less_than, lt, nan};
use crate::sample::{LARGEST_FINITE, SMALLEST_FINITE};

verus! {

/// The smallest and the largest sample of a surface, each with the
/// `(x, y)` position of its first occurrence.
#[derive(Copy, Clone, Debug)]
pub struct Extremes {
    pub min_value: u32,
    pub max_value: u32,
    pub min_value_location: (u32, u32),
    pub max_value_location: (u32, u32),
}

/// None of the first `n` samples is a number.
pub open spec fn no_number(samples: Seq<u32>, n: int) -> bool {
    forall|j: int| 0 <= j < n ==> is_nan(#[trigger] samples[j])
}

/// Among the first `n` samples, the one at `k` is a number, none is
/// smaller, and none before it is as small.
pub open spec fn is_first_minimum(samples: Seq<u32>, n: int, k: int) -> bool {
    &&& 0 <= k < n
    &&& !is_nan(samples[k])
    &&& forall|j: int| 0 <= j < n ==> !less_than(#[trigger] samples[j], samples[k])
    &&& forall|j: int| 0 <= j < k ==> !at_most(#[trigger] samples[j], samples[k])
}

/// Among the first `n` samples, the one at `k` is a number, none is
/// larger, and none before it is as large.
pub open spec fn is_first_maximum(samples: Seq<u32>, n: int, k: int) -> bool {
    &&& 0 <= k < n
    &&& !is_nan(samples[k])
    &&& forall|j: int| 0 <= j < n ==> !greater_than(#[trigger] samples[j], samples[k])
    &&& forall|j: int| 0 <= j < k ==> !at_least(#[trigger] samples[j], samples[k])
}

/// `value` at `location` is the minimum of the surface: the first
/// occurrence of the smallest number among its samples. Where the surface
/// holds no number, it is the largest finite number at the origin.
pub open spec fn is_minimum_of(surface: Surface, value: u32, location: (u32, u32)) -> bool {
    let n = surface.samples.len() as int;
    if no_number(surface.samples, n) {
        value == LARGEST_FINITE && location == (0u32, 0u32)
    } else {
        &&& location.0 < surface.width
        &&& location.1 < surface.height
        &&& is_first_minimum(surface.samples, n, surface.index_of(location.0 as int, location.1 as int))
        &&& value == surface.at(location.0 as int, location.1 as int)
    }
}

/// `value` at `location` is the maximum of the surface: the first
/// occurrence of the largest number among its samples. Where the surface
/// holds no number, it is the smallest finite number at the origin.
pub open spec fn is_maximum_of(surface: Surface, value: u32, location: (u32, u32)) -> bool {
    let n = surface.samples.len() as int;
    if no_number(surface.samples, n) {
        value == SMALLEST_FINITE && location == (0u32, 0u32)
    } else {
        &&& location.0 < surface.width
        &&& location.1 < surface.height
        &&& is_first_maximum(surface.samples, n, surface.index_of(location.0 as int, location.1 as int))
        &&& value == surface.at(location.0 as int, location.1 as int)
    }
}

/// What the scan knows of the minimum after `n` samples: `k` is the first
/// minimum among them, or `k` is negative and none of them was a number.
pub open spec fn minimum_so_far(samples: Seq<u32>, n: int, value: u32, k: int) -> bool {
    if k < 0 {
        value == LARGEST_FINITE && no_number(samples, n)
    } else {
        is_first_minimum(samples, n, k) && value == samples[k]
    }
}

/// What the scan knows of the maximum after `n` samples: `k` is the first
/// maximum among them, or `k` is negative and none of them was a number.
pub open spec fn maximum_so_far(samples: Seq<u32>, n: int, value: u32, k: int) -> bool {
    if k < 0 {
        value == SMALLEST_FINITE && no_number(samples, n)
    } else {
        is_first_maximum(samples, n, k) && value == samples[k]
    }
}

/// Where `k` is negative the location is the origin; otherwise it is the
/// position inside the surface whose row-major index is `k`.
pub open spec fn locates(location: (u32, u32), k: int, width: u32, height: u32) -> bool {
    if k < 0 {
        location == (0u32, 0u32)
    } else {
        location.0 < width && location.1 < height && location.1 * width + location.0 == k
    }
}

/// Finds the smallest and largest samples and their locations in an image.
pub fn find_extremes(input: &Image) -> (extremes: Extremes)
    requires
        input.wf(),
    ensures
        is_minimum_of(input@, extremes.min_value, extremes.min_value_location),
        is_maximum_of(input@, extremes.max_value, extremes.max_value_location),
{
    let width = input.width;
    let height = input.height;
    let mut found = false;
    let mut min_value: u32 = LARGEST_FINITE;
    let mut min_value_location: (u32, u32) = (0, 0);
    let mut max_value: u32 = SMALLEST_FINITE;
    let mut max_value_location: (u32, u32) = (0, 0);
    let ghost samples = input.data@;
    let ghost mut min_index: int = -1;
    let ghost mut max_index: int = -1;
    let mut index: usize = 0;
    let mut y: u32 = 0;
    while y < height
        invariant
            input.wf(),
            samples == input.data@,
            width == input.width,
            height == input.height,
            y <= height,
            index == y * width,
            found == (min_index >= 0),
            found == (max_index >= 0),
            minimum_so_far(samples, index as int, min_value, min_index),
            maximum_so_far(samples, index as int, max_value, max_index),
            locates(min_value_location, min_index, width, height),
            locates(max_value_location, max_index, width, height),
        decreases height - y,
    {
        let mut x: u32 = 0;
        while x < width
            invariant
                input.wf(),
                samples == input.data@,
                width == input.width,
                height == input.height,
                y < height,
                x <= width,
                index == y * width + x,
                found == (min_index >= 0),
                found == (max_index >= 0),
                minimum_so_far(samples, index as int, min_value, min_index),
                maximum_so_far(samples, index as int, max_value, max_index),
                locates(min_value_location, min_index, width, height),
                locates(max_value_location, max_index, width, height),
            decreases width - x,
        {
            proof {
                lemma_index_in_bounds(x as int, y as int, width as int, height as int);
                assert(input.data@.len() == input.data.len());
            }
            let value = input.data[index];
            if !nan(value) {
                if !found {
                    found = true;
                    min_value = value;
                    min_value_location = (x, y);
                    max_value = value;
                    max_value_location = (x, y);
                    proof {
                        min_index = index as int;
                        max_index = index as int;
                    }
                } else {
                    if lt(value, min_value) {
                        min_value = value;
                        min_value_location = (x, y);
                        proof {
                            min_index = index as int;
                        }
                    }
                    if gt(value, max_value) {
                        max_value = value;
                        max_value_location = (x, y);
                        proof {
                            max_index = index as int;
                        }
                    }
                }
            }
            x = x + 1;
            index = index + 1;
        }
        assert((y + 1) * width == y * width + width) by (nonlinear_arith);
        y = y + 1;
    }
    assert(index == input.data@.len()) by (nonlinear_arith)
        requires
            index == y * width,
            y == height,
            input.data@.len() == width * height,
    ;
    Extremes { min_value, max_value, min_value_location, max_value_location }
}

/// A surface has at most one first minimum and at most one first maximum,
/// so the extremes of a surface are determined by its samples.
pub proof fn lemma_first_extremes_are_unique(samples: Seq<u32>, k1: int, k2: int)
    ensures
        is_first_minimum(samples, samples.len() as int, k1) && is_first_minimum(
            samples,
            samples.len() as int,
            k2,
        ) ==> k1 == k2,
        is_first_maximum(samples, samples.len() as int, k1) && is_first_maximum(
            samples,
            samples.len() as int,
            k2,
        ) ==> k1 == k2,
{
}

/// On a surface that holds a number, the extremes are samples of the
/// surface: each reported location lies inside the surface and holds the
/// reported value, which is a number. The minimum is at most, and the
/// maximum at least, every sample that is a number; no sample before the
/// reported location is equal to the value there.
pub proof fn lemma_extremes_are_samples(
    surface: Surface,
    min_value: u32,
    min_location: (u32, u32),
    max_value: u32,
    max_location: (u32, u32),
)
    requires
        surface.wf(),
        is_minimum_of(surface, min_value, min_location),
        is_maximum_of(surface, max_value, max_location),
        exists|j: int| 0 <= j < surface.samples.len() && !is_nan(#[trigger] surface.samples[j]),
    ensures
        min_location.0 < surface.width && min_location.1 < surface.height,
        max_location.0 < surface.width && max_location.1 < surface.height,
        surface.at(min_location.0 as int, min_location.1 as int) == min_value,
        surface.at(max_location.0 as int, max_location.1 as int) == max_value,
        !is_nan(min_value) && !is_nan(max_value),
        forall|j: int|
            0 <= j < surface.samples.len() && !is_nan(#[trigger] surface.samples[j]) ==> at_most(
                min_value,
                surface.samples[j],
            ) && at_least(max_value, surface.samples[j]),
        forall|j: int|
            0 <= j < surface.index_of(min_location.0 as int, min_location.1 as int)
                ==> !at_most(#[trigger] surface.samples[j], min_value),
        forall|j: int|
            0 <= j < surface.index_of(max_location.0 as int, max_location.1 as int)
                ==> !at_least(#[trigger] surface.samples[j], max_value),
{
}

} // verus!

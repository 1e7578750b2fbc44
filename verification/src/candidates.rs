//! Candidate records and the result aggregation: the mean-peak-pixel
//! statistic over the leading candidates, and the projection of each
//! candidate into the outbound record shape.

use vstd::prelude::*;

verus! {

/// A detected point-source candidate as the detection engine reports it.
/// Fractional fields (centroid position, brightness) are carried as IEEE-754
/// bit patterns: this layer never interprets them, it only passes them on.
#[derive(Clone, Copy, Debug, PartialEq, Eq, Structural)]
pub struct Candidate {
    pub centroid_x_bits: u32,
    pub centroid_y_bits: u32,
    pub brightness_bits: u32,
    /// The maximum raw pixel intensity within the candidate's footprint.
    pub peak_value: u8,
    pub num_saturated: i32,
}

/// One record of the outbound candidate sequence: the candidate with its
/// peak pixel value dropped, in the same order the engine returned it.
#[derive(Clone, Copy, Debug, PartialEq, Eq, Structural)]
pub struct StarCentroid {
    pub centroid_x_bits: u32,
    pub centroid_y_bits: u32,
    pub brightness_bits: u32,
    pub num_saturated: i32,
}

/// How a candidate is reshaped into an outbound record.
pub open spec fn projected(c: Candidate) -> StarCentroid {
    StarCentroid {
        centroid_x_bits: c.centroid_x_bits,
        centroid_y_bits: c.centroid_y_bits,
        brightness_bits: c.brightness_bits,
        num_saturated: c.num_saturated,
    }
}

/// How many leading candidates the peak statistic averages over: all of
/// them when there are fewer than 10, the first 10 otherwise.
pub open spec fn peak_window(len: int) -> int {
    if len < 10 {
        len
    } else {
        10
    }
}

/// Sum of the peak pixel values of the first `n` candidates.
pub open spec fn sum_of_peaks(s: Seq<Candidate>, n: int) -> int
    decreases n,
{
    if n <= 0 {
        0
    } else {
        sum_of_peaks(s, n - 1) + s[n - 1].peak_value
    }
}

/// The aggregated peak statistic: the integer mean of the peak pixel values
/// of the first `min(10, len)` candidates in engine-returned order (not
/// re-sorted by brightness), or 255 when there are no candidates at all.
pub open spec fn peak_star_pixel_of(s: Seq<Candidate>) -> int {
    if s.len() == 0 {
        255
    } else {
        sum_of_peaks(s, peak_window(s.len() as int)) / peak_window(s.len() as int)
    }
}

/// The sum of the first `n` peak values of `s` stays within `0 ..= 255 * n`.
proof fn lemma_sum_of_peaks_bounds(s: Seq<Candidate>, n: int)
    requires
        0 <= n,
    ensures
        0 <= sum_of_peaks(s, n) <= 255 * n,
    decreases n,
{
    if n > 0 {
        lemma_sum_of_peaks_bounds(s, n - 1);
    }
}

/// Computes the aggregated peak statistic over the candidate sequence, in
/// the order the engine returned it. The result always fits a pixel value.
pub fn peak_star_pixel(candidates: &Vec<Candidate>) -> (p: i32)
    ensures
        p == peak_star_pixel_of(candidates@),
        0 <= p <= 255,
{
    let n = candidates.len();
    let window: usize = if n < 10 {
        n
    } else {
        10
    };
    let mut sum: i32 = 0;
    let mut count: usize = 0;
    while count < window
        invariant
            count <= window,
            window == peak_window(candidates@.len() as int),
            window <= candidates@.len(),
            sum == sum_of_peaks(candidates@, count as int),
            0 <= sum <= 255 * count,
        decreases window - count,
    {
        proof {
            lemma_sum_of_peaks_bounds(candidates@, count as int);
        }
        sum = sum + candidates[count].peak_value as i32;
        count = count + 1;
    }
    if count == 0 {
        255
    } else {
        proof {
            let s = sum as int;
            let c = count as int;
            vstd::arithmetic::div_mod::lemma_div_is_ordered(0, s, c);
            vstd::arithmetic::div_mod::lemma_div_is_ordered(s, 255 * c, c);
            vstd::arithmetic::div_mod::lemma_div_by_multiple(255, c);
            vstd::arithmetic::div_mod::lemma_div_basics(c);
        }
        sum / count as i32
    }
}

/// Reshapes every candidate into its outbound record, preserving the
/// engine-returned order.
pub fn project_candidates(candidates: &Vec<Candidate>) -> (out: Vec<StarCentroid>)
    ensures
        out@ == candidates@.map_values(|c: Candidate| projected(c)),
{
    let mut out: Vec<StarCentroid> = Vec::new();
    let mut i: usize = 0;
    while i < candidates.len()
        invariant
            i <= candidates@.len(),
            out@.len() == i,
            forall|j: int| 0 <= j < i ==> out@[j] == projected(candidates@[j]),
        decreases candidates@.len() - i,
    {
        let c = candidates[i];
        out.push(StarCentroid {
            centroid_x_bits: c.centroid_x_bits,
            centroid_y_bits: c.centroid_y_bits,
            brightness_bits: c.brightness_bits,
            num_saturated: c.num_saturated,
        });
        i = i + 1;
    }
    proof {
        assert(out@ =~= candidates@.map_values(|c: Candidate| projected(c)));
    }
    out
}

} // verus!

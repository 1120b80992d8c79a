//! Capability selections over what the physical device reports: the
//! multisample count, the memory type for an allocation, and a supported
//! format for a given tiling. The device hands in plain masks; the
//! choices themselves are verified.

use vstd::prelude::*;

verus! {

/// The sample-count choice: the largest power-of-two count, up to 64,
/// present in the device's supported mask, falling back to single
/// sampling.
pub open spec fn chosen_sample_count(counts: u32) -> u32 {
    if counts & 64 != 0 {
        64u32
    } else if counts & 32 != 0 {
        32u32
    } else if counts & 16 != 0 {
        16u32
    } else if counts & 8 != 0 {
        8u32
    } else if counts & 4 != 0 {
        4u32
    } else if counts & 2 != 0 {
        2u32
    } else {
        1u32
    }
}

/// Pick the highest usable multisample count from the device's supported
/// mask (the intersection of its color and depth sample-count masks).
pub fn max_usable_sample_count(counts: u32) -> (r: u32)
    ensures
        r == chosen_sample_count(counts),
{
    if counts & 64 != 0 {
        64
    } else if counts & 32 != 0 {
        32
    } else if counts & 16 != 0 {
        16
    } else if counts & 8 != 0 {
        8
    } else if counts & 4 != 0 {
        4
    } else if counts & 2 != 0 {
        2
    } else {
        1
    }
}

/// Whether memory type `i` suits an allocation: the resource's type filter
/// has bit `i` set and the type's property flags contain all required
/// flags.
pub open spec fn memory_type_suits(type_filter: u32, props: u32, i: u32, required: u32) -> bool {
    &&& type_filter & (1u32 << i) != 0
    &&& props & required == required
}

/// Find the first memory type that the type filter admits and whose
/// property flags contain the required flags. A device reports at most 32
/// memory types.
pub fn find_memory_type(type_filter: u32, property_flags: &Vec<u32>, required: u32) -> (r: Option<
    u32,
>)
    requires
        property_flags@.len() <= 32,
    ensures
        match r {
            Some(i) => {
                &&& i < property_flags@.len()
                &&& memory_type_suits(type_filter, property_flags@[i as int], i, required)
                &&& forall|j: u32|
                    j < i ==> !memory_type_suits(
                        type_filter,
                        property_flags@[j as int],
                        j,
                        required,
                    )
            },
            None => forall|j: u32|
                j < property_flags@.len() ==> !memory_type_suits(
                    type_filter,
                    property_flags@[j as int],
                    j,
                    required,
                ),
        },
{
    let mut i: usize = 0;
    while i < property_flags.len()
        invariant
            0 <= i <= property_flags@.len(),
            property_flags@.len() <= 32,
            forall|j: u32|
                j < i ==> !memory_type_suits(type_filter, property_flags@[j as int], j, required),
        decreases property_flags@.len() - i,
    {
        let props = property_flags[i];
        if type_filter & (1u32 << (i as u32)) != 0 && props & required == required {
            return Some(i as u32);
        }
        i = i + 1;
    }
    None
}

/// How a candidate image format is tiled.
#[derive(Clone, Copy, Debug, PartialEq, Eq, Structural)]
pub enum Tiling {
    Linear,
    Optimal,
}

/// A candidate format together with the feature masks the device reports
/// for it.
#[derive(Clone, Copy, Debug, PartialEq, Eq, Structural)]
pub struct FormatSupport {
    /// The format's raw code.
    pub format: u32,
    pub linear_features: u32,
    pub optimal_features: u32,
}

/// The feature mask that applies under the given tiling.
pub open spec fn features_for(c: FormatSupport, tiling: Tiling) -> u32 {
    if tiling == Tiling::Linear {
        c.linear_features
    } else {
        c.optimal_features
    }
}

/// Whether a candidate supports all required features under the tiling.
pub open spec fn format_suits(c: FormatSupport, tiling: Tiling, required: u32) -> bool {
    features_for(c, tiling) & required == required
}

/// Find the first candidate format whose features under the given tiling
/// contain the required mask.
pub fn find_supported_format(candidates: &Vec<FormatSupport>, tiling: Tiling, required: u32) -> (r:
    Option<u32>)
    ensures
        match r {
            Some(f) => exists|i: int|
                {
                    &&& 0 <= i < candidates@.len()
                    &&& candidates@[i].format == f
                    &&& format_suits(#[trigger] candidates@[i], tiling, required)
                    &&& forall|j: int|
                        0 <= j < i ==> !format_suits(#[trigger] candidates@[j], tiling, required)
                },
            None => forall|j: int|
                0 <= j < candidates@.len() ==> !format_suits(
                    #[trigger] candidates@[j],
                    tiling,
                    required,
                ),
        },
{
    let mut i: usize = 0;
    while i < candidates.len()
        invariant
            0 <= i <= candidates@.len(),
            forall|j: int| 0 <= j < i ==> !format_suits(#[trigger] candidates@[j], tiling, required),
        decreases candidates@.len() - i,
    {
        let c = candidates[i];
        let features = if matches!(tiling, Tiling::Linear) {
            c.linear_features
        } else {
            c.optimal_features
        };
        if features & required == required {
            return Some(c.format);
        }
        i = i + 1;
    }
    None
}

} // verus!

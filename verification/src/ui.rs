//! The uniform data the overlay pipeline consumes: the matrix that maps
//! screen-space pixel positions into normalized device coordinates, in
//! fixed-point entries.

use vstd::prelude::*;

verus! {

/// A 4×4 matrix in row-major order; each entry counts 1/65536 units.
#[derive(Clone, Debug)]
pub struct Mat4 {
    pub entries: Vec<i64>,
}

impl Mat4 {
    /// A matrix holds exactly sixteen entries.
    pub open spec fn wf(self) -> bool {
        self.entries@.len() == 16
    }

    /// The identity matrix, scaled to fixed point.
    pub fn identity() -> (r: Mat4)
        ensures
            r.wf(),
            forall|j: int|
                0 <= j < 16 ==> r.entries@[j] == if j % 5 == 0 {
                    0x10000i64
                } else {
                    0i64
                },
    {
        let mut entries: Vec<i64> = Vec::new();
        let mut i: usize = 0;
        while i < 16
            invariant
                0 <= i <= 16,
                entries@.len() == i,
                forall|j: int|
                    0 <= j < i ==> entries@[j] == if j % 5 == 0 {
                        0x10000i64
                    } else {
                        0i64
                    },
            decreases 16 - i,
        {
            if i % 5 == 0 {
                entries.push(0x10000i64);
            } else {
                entries.push(0i64);
            }
            i = i + 1;
        }
        Mat4 { entries }
    }
}

/// The per-image uniform block of the overlay pipeline.
#[derive(Clone, Debug)]
pub struct UiUniforms {
    pub screen_space_normalize_mat: Mat4,
}

impl UiUniforms {
    /// Wrap the screen-space normalization matrix for upload.
    pub fn new(screen_space_normalize_mat: Mat4) -> (r: UiUniforms)
        requires
            screen_space_normalize_mat.wf(),
        ensures
            r.screen_space_normalize_mat.wf(),
            r.screen_space_normalize_mat.entries@ == screen_space_normalize_mat.entries@,
    {
        UiUniforms { screen_space_normalize_mat }
    }
}

} // verus!

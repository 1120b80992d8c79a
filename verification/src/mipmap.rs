//! The mip-chain arithmetic: how many levels an image of a given extent
//! carries and the extent of each level. Generating the chain by blitting
//! needs linear-filter support; without it the renderer fails hard rather
//! than silently falling back to an unfiltered copy.

use vstd::prelude::*;

use crate::error::RenderError;
use crate::extent::Extent2D;

verus! {

/// How many mip levels a longest side of `m` pixels yields: one plus one
/// per halving down to a single pixel.
pub open spec fn spec_mip_levels(m: nat) -> nat
    decreases m,
{
    if m <= 1 {
        1
    } else {
        (1 + spec_mip_levels((m / 2) as nat)) as nat
    }
}

proof fn lemma_mip_levels_pos(m: nat)
    ensures
        spec_mip_levels(m) >= 1,
    decreases m,
{
    if m > 1 {
        lemma_mip_levels_pos((m / 2) as nat);
    }
}

proof fn lemma_mip_levels_le(m: nat)
    requires
        m >= 1,
    ensures
        spec_mip_levels(m) <= m,
    decreases m,
{
    if m > 1 {
        lemma_mip_levels_le((m / 2) as nat);
    }
}

/// The longer side of an extent.
pub open spec fn ext_max(e: Extent2D) -> u32 {
    if e.width >= e.height {
        e.width
    } else {
        e.height
    }
}

/// The next mip level's extent: both sides halve, but never below one
/// pixel.
pub open spec fn halved(e: Extent2D) -> Extent2D {
    Extent2D {
        width: if e.width > 1 {
            e.width / 2
        } else {
            1u32
        },
        height: if e.height > 1 {
            e.height / 2
        } else {
            1u32
        },
    }
}

/// The number of mip levels for an image extent.
pub fn mip_levels(width: u32, height: u32) -> (r: u32)
    requires
        width >= 1,
        height >= 1,
    ensures
        r == spec_mip_levels(ext_max(Extent2D { width, height }) as nat),
{
    let m0: Ghost<nat> = Ghost(ext_max(Extent2D { width, height }) as nat);
    let mut m: u32 = if width >= height {
        width
    } else {
        height
    };
    let mut levels: u32 = 1;
    proof {
        lemma_mip_levels_le(m0@);
    }
    while m > 1
        invariant
            m >= 1,
            levels >= 1,
            spec_mip_levels(m0@) == levels - 1 + spec_mip_levels(m as nat),
            spec_mip_levels(m0@) <= u32::MAX,
        decreases m,
    {
        proof {
            lemma_mip_levels_pos((m / 2) as nat);
        }
        m = m / 2;
        levels = levels + 1;
    }
    levels
}

/// Plan the whole mip chain for an image: level zero is the image's own
/// extent and every further level halves, down to a single pixel. When
/// the device cannot blit with linear filtering the chain cannot be
/// generated and that is a hard error, not a fallback.
pub fn mip_chain(width: u32, height: u32, linear_filter_supported: bool) -> (r: Result<
    Vec<Extent2D>,
    RenderError,
>)
    requires
        width >= 1,
        height >= 1,
    ensures
        match r {
            Ok(chain) => {
                &&& linear_filter_supported
                &&& chain@.len() == spec_mip_levels(ext_max(Extent2D { width, height }) as nat)
                &&& chain@[0] == (Extent2D { width, height })
                &&& forall|i: int|
                    0 <= i < chain@.len() - 1 ==> chain@[i + 1] == halved(#[trigger] chain@[i])
                &&& forall|i: int|
                    0 <= i < chain@.len() ==> (#[trigger] chain@[i]).width >= 1 && chain@[i].height
                        >= 1
            },
            Err(e) => {
                &&& !linear_filter_supported
                &&& e == RenderError::LinearFilterUnsupported
            },
        },
{
    if !linear_filter_supported {
        return Err(RenderError::LinearFilterUnsupported);
    }
    let m0: Ghost<nat> = Ghost(ext_max(Extent2D { width, height }) as nat);
    let mut cur = Extent2D { width, height };
    let mut chain: Vec<Extent2D> = Vec::new();
    chain.push(cur);
    proof {
        lemma_mip_levels_le(m0@);
    }
    while cur.width > 1 || cur.height > 1
        invariant
            cur.width >= 1,
            cur.height >= 1,
            chain@.len() >= 1,
            chain@[0] == (Extent2D { width, height }),
            chain@[chain@.len() - 1] == cur,
            forall|i: int| 0 <= i < chain@.len() - 1 ==> chain@[i + 1] == halved(#[trigger] chain@[i]),
            forall|i: int|
                0 <= i < chain@.len() ==> (#[trigger] chain@[i]).width >= 1 && chain@[i].height
                    >= 1,
            spec_mip_levels(m0@) == chain@.len() - 1 + spec_mip_levels(ext_max(cur) as nat),
            spec_mip_levels(m0@) <= u32::MAX,
        decreases ext_max(cur),
    {
        proof {
            lemma_mip_levels_pos((ext_max(cur) / 2) as nat);
            assert(ext_max(halved(cur)) == ext_max(cur) / 2);
        }
        cur = Extent2D {
            width: if cur.width > 1 {
                cur.width / 2
            } else {
                1u32
            },
            height: if cur.height > 1 {
                cur.height / 2
            } else {
                1u32
            },
        };
        chain.push(cur);
    }
    proof {
        assert(ext_max(cur) == 1);
    }
    Ok(chain)
}

} // verus!

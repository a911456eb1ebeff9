//! Shape classes of a texture and the arithmetic on their extents.

use vstd::prelude::*;

verus! {

/// Type of a texture: its shape class together with its extents.
///
/// An extent of `0` is legal and denotes an empty placeholder allocation.
#[derive(Copy, Clone, Debug, PartialEq, Eq, Structural)]
pub enum Dimensions {
    Texture1d { width: u32 },
    Texture1dArray { width: u32, array_size: u32 },
    Texture2d { width: u32, height: u32 },
    Texture2dArray { width: u32, height: u32, array_size: u32 },
    Texture2dMultisample { width: u32, height: u32, samples: u32 },
    Texture2dMultisampleArray { width: u32, height: u32, array_size: u32, samples: u32 },
    Texture3d { width: u32, height: u32, depth: u32 },
}

/// Driver-side bind-target code for a one-dimensional texture.
pub const TEXTURE_1D: u32 = 0x0DE0;
/// Driver-side bind-target code for a two-dimensional texture.
pub const TEXTURE_2D: u32 = 0x0DE1;
/// Driver-side bind-target code for a three-dimensional texture.
pub const TEXTURE_3D: u32 = 0x806F;
/// Driver-side bind-target code for an array of one-dimensional textures.
pub const TEXTURE_1D_ARRAY: u32 = 0x8C18;
/// Driver-side bind-target code for an array of two-dimensional textures.
pub const TEXTURE_2D_ARRAY: u32 = 0x8C1A;
/// Driver-side bind-target code for a two-dimensional multisample texture.
pub const TEXTURE_2D_MULTISAMPLE: u32 = 0x9100;
/// Driver-side bind-target code for an array of two-dimensional multisample textures.
pub const TEXTURE_2D_MULTISAMPLE_ARRAY: u32 = 0x9102;

impl Dimensions {
    /// Width of the base level.
    pub open spec fn spec_width(self) -> u32 {
        match self {
            Dimensions::Texture1d { width } => width,
            Dimensions::Texture1dArray { width, .. } => width,
            Dimensions::Texture2d { width, .. } => width,
            Dimensions::Texture2dArray { width, .. } => width,
            Dimensions::Texture2dMultisample { width, .. } => width,
            Dimensions::Texture2dMultisampleArray { width, .. } => width,
            Dimensions::Texture3d { width, .. } => width,
        }
    }

    /// Height of the base level, absent for shape classes without that axis.
    pub open spec fn spec_height(self) -> Option<u32> {
        match self {
            Dimensions::Texture1d { .. } => None,
            Dimensions::Texture1dArray { .. } => None,
            Dimensions::Texture2d { height, .. } => Some(height),
            Dimensions::Texture2dArray { height, .. } => Some(height),
            Dimensions::Texture2dMultisample { height, .. } => Some(height),
            Dimensions::Texture2dMultisampleArray { height, .. } => Some(height),
            Dimensions::Texture3d { height, .. } => Some(height),
        }
    }

    /// Depth of the base level, present only for three-dimensional textures.
    pub open spec fn spec_depth(self) -> Option<u32> {
        match self {
            Dimensions::Texture3d { depth, .. } => Some(depth),
            _ => None,
        }
    }

    /// Number of layers, absent for non-array shape classes.
    pub open spec fn spec_array_size(self) -> Option<u32> {
        match self {
            Dimensions::Texture1dArray { array_size, .. } => Some(array_size),
            Dimensions::Texture2dArray { array_size, .. } => Some(array_size),
            Dimensions::Texture2dMultisampleArray { array_size, .. } => Some(array_size),
            _ => None,
        }
    }

    /// Sample count, present only for multisample shape classes.
    pub open spec fn spec_samples(self) -> Option<u32> {
        match self {
            Dimensions::Texture2dMultisample { samples, .. } => Some(samples),
            Dimensions::Texture2dMultisampleArray { samples, .. } => Some(samples),
            _ => None,
        }
    }

    /// Whether this shape class is a multisample one.
    pub open spec fn spec_is_multisample(self) -> bool {
        self.spec_samples() is Some
    }

    /// Driver bind-target code of this shape class.
    pub open spec fn spec_bind_point(self) -> u32 {
        match self {
            Dimensions::Texture1d { .. } => TEXTURE_1D,
            Dimensions::Texture1dArray { .. } => TEXTURE_1D_ARRAY,
            Dimensions::Texture2d { .. } => TEXTURE_2D,
            Dimensions::Texture2dArray { .. } => TEXTURE_2D_ARRAY,
            Dimensions::Texture2dMultisample { .. } => TEXTURE_2D_MULTISAMPLE,
            Dimensions::Texture2dMultisampleArray { .. } => TEXTURE_2D_MULTISAMPLE_ARRAY,
            Dimensions::Texture3d { .. } => TEXTURE_3D,
        }
    }

    /// Width of the base level.
    pub fn width(&self) -> (r: u32)
        ensures
            r == self.spec_width(),
    {
        match *self {
            Dimensions::Texture1d { width } => width,
            Dimensions::Texture1dArray { width, .. } => width,
            Dimensions::Texture2d { width, .. } => width,
            Dimensions::Texture2dArray { width, .. } => width,
            Dimensions::Texture2dMultisample { width, .. } => width,
            Dimensions::Texture2dMultisampleArray { width, .. } => width,
            Dimensions::Texture3d { width, .. } => width,
        }
    }

    /// Height of the base level, absent for shape classes without that axis.
    pub fn height(&self) -> (r: Option<u32>)
        ensures
            r == self.spec_height(),
    {
        match *self {
            Dimensions::Texture1d { .. } => None,
            Dimensions::Texture1dArray { .. } => None,
            Dimensions::Texture2d { height, .. } => Some(height),
            Dimensions::Texture2dArray { height, .. } => Some(height),
            Dimensions::Texture2dMultisample { height, .. } => Some(height),
            Dimensions::Texture2dMultisampleArray { height, .. } => Some(height),
            Dimensions::Texture3d { height, .. } => Some(height),
        }
    }

    /// Depth of the base level, present only for three-dimensional textures.
    pub fn depth(&self) -> (r: Option<u32>)
        ensures
            r == self.spec_depth(),
    {
        match *self {
            Dimensions::Texture3d { depth, .. } => Some(depth),
            _ => None,
        }
    }

    /// Number of layers, absent for non-array shape classes.
    pub fn array_size(&self) -> (r: Option<u32>)
        ensures
            r == self.spec_array_size(),
    {
        match *self {
            Dimensions::Texture1dArray { array_size, .. } => Some(array_size),
            Dimensions::Texture2dArray { array_size, .. } => Some(array_size),
            Dimensions::Texture2dMultisampleArray { array_size, .. } => Some(array_size),
            _ => None,
        }
    }

    /// Sample count, present only for multisample shape classes.
    pub fn samples(&self) -> (r: Option<u32>)
        ensures
            r == self.spec_samples(),
    {
        match *self {
            Dimensions::Texture2dMultisample { samples, .. } => Some(samples),
            Dimensions::Texture2dMultisampleArray { samples, .. } => Some(samples),
            _ => None,
        }
    }

    /// Driver bind-target code of this shape class.
    pub fn bind_point(&self) -> (r: u32)
        ensures
            r == self.spec_bind_point(),
    {
        match *self {
            Dimensions::Texture1d { .. } => TEXTURE_1D,
            Dimensions::Texture1dArray { .. } => TEXTURE_1D_ARRAY,
            Dimensions::Texture2d { .. } => TEXTURE_2D,
            Dimensions::Texture2dArray { .. } => TEXTURE_2D_ARRAY,
            Dimensions::Texture2dMultisample { .. } => TEXTURE_2D_MULTISAMPLE,
            Dimensions::Texture2dMultisampleArray { .. } => TEXTURE_2D_MULTISAMPLE_ARRAY,
            Dimensions::Texture3d { .. } => TEXTURE_3D,
        }
    }
}

/// Whether `x` is a power of two; zero is not one.
pub open spec fn spec_is_power_of_two(x: u32) -> bool
    decreases x,
{
    if x == 0 {
        false
    } else if x == 1 {
        true
    } else {
        x % 2 == 0 && spec_is_power_of_two(x / 2)
    }
}

/// Whether `x` is a power of two; zero is not one.
pub fn is_power_of_two(x: u32) -> (r: bool)
    ensures
        r == spec_is_power_of_two(x),
{
    let mut v: u32 = x;
    loop
        invariant
            spec_is_power_of_two(x) == spec_is_power_of_two(v),
        decreases v,
    {
        if v == 0 {
            return false;
        }
        if v == 1 {
            return true;
        }
        if v % 2 != 0 {
            return false;
        }
        v = v / 2;
    }
}

/// The extent of mipmap level `level` derived from a base extent:
/// successive halving, floored at one.
pub open spec fn spec_level_extent(base: u32, level: u32) -> u32
    recommends
        level < 32,
{
    let shifted = base >> level;
    if shifted == 0 {
        1u32
    } else {
        shifted
    }
}

/// The extent of mipmap level `level` derived from a base extent.
pub fn level_extent(base: u32, level: u32) -> (r: u32)
    requires
        level < 32,
    ensures
        r == spec_level_extent(base, level),
        1 <= r <= base || (base == 0 && r == 1),
{
    proof {
        assert(base >> level <= base && (base >> level == 0 ==> base >> level <= base))
            by (bit_vector);
        assert(base >> level >= 1 ==> base >= 1) by (bit_vector);
    }
    let shifted = base >> level;
    if shifted == 0 {
        1
    } else {
        shifted
    }
}

/// Number of levels in a full mipmap chain over a base extent `m`:
/// one more than the floor of the base-two logarithm, and one when `m` is zero.
pub open spec fn spec_chain_levels(m: u32) -> nat
    decreases m,
{
    if m <= 1 {
        1nat
    } else {
        1 + spec_chain_levels(m / 2)
    }
}

/// A full mipmap chain over a `u32` extent never exceeds 32 levels.
pub proof fn lemma_chain_levels_bound(m: u32)
    ensures
        1 <= spec_chain_levels(m) <= 32,
{
    assert((m as u64) < (1u64 << 32u64)) by (bit_vector);
    lemma_chain_levels_pow_bound(m, 32);
}

/// If `m < 2^k` then the chain over `m` has at most `k` levels.
proof fn lemma_chain_levels_pow_bound(m: u32, k: u32)
    requires
        1 <= k <= 32,
        (m as u64) < (1u64 << (k as u64)),
    ensures
        spec_chain_levels(m) <= k,
    decreases m,
{
    if m > 1 {
        assert(k >= 2) by {
            assert(k == 1 ==> (1u64 << (k as u64)) == 2) by (bit_vector);
        }
        assert(((m / 2) as u64) < (1u64 << ((k - 1) as u64))) by {
            let p = 1u64 << (k as u64);
            let q = 1u64 << ((k - 1) as u64);
            assert(p == 2 * q) by (bit_vector)
                requires
                    p == 1u64 << (k as u64),
                    q == 1u64 << ((k - 1) as u64),
                    2 <= k <= 32,
            ;
            assert(m == 2 * (m / 2) + m % 2);
        }
        lemma_chain_levels_pow_bound(m / 2, (k - 1) as u32);
    }
}

/// Number of levels in a full mipmap chain over a base extent `m`.
pub fn chain_levels(m: u32) -> (r: u32)
    ensures
        r == spec_chain_levels(m),
        1 <= r <= 32,
{
    proof {
        lemma_chain_levels_bound(m);
    }
    let mut v: u32 = m;
    let mut c: u32 = 1;
    loop
        invariant
            1 <= c <= 33,
            spec_chain_levels(m) == c - 1 + spec_chain_levels(v),
            spec_chain_levels(v) >= 1,
            c - 1 + spec_chain_levels(v) <= 32,
        decreases v,
    {
        if v <= 1 {
            return c;
        }
        proof {
            assert(spec_chain_levels(v) == 1 + spec_chain_levels(v / 2));
        }
        v = v / 2;
        c = c + 1;
    }
}

} // verus!

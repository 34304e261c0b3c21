use vstd::prelude::*;

use crate::world::Color;
use crate::world::Transform;
use crate::world::scaled_channel;

verus! {

/// The camera: a transform, the configured pixels per world unit and the
/// focal length. Its fields are mutated between frames by the
/// input-handling collaborator; during a frame it is a read-only snapshot.
pub struct Camera<S> {
    pub transform: Transform<S>,
    pub px_per_unit: S,
    pub focal_length: S,
}

/// The bit pattern of the positive infinity of the 32-bit floating-point
/// format. A nonnegative finite scalar has a pattern strictly below it,
/// and the patterns of such scalars order exactly as the scalars do; a
/// pattern at or above it is an infinity or a not-a-number payload, or
/// carries the sign bit.
pub const DIST_INF_BITS: u32 = 0x7f80_0000;

/// The sign bit of a 32-bit floating-point pattern: set on negative
/// scalars, the negative zero included.
pub const SIGN_BIT: u32 = 0x8000_0000;

/// A usable distance along a ray, given by bit pattern: nonnegative and
/// finite. A ray parallel to a plane, or degenerate geometry, yields a
/// pattern outside this set, and the candidate is discarded rather than
/// reported as an error.
pub open spec fn valid_dist(bits: u32) -> bool {
    bits < DIST_INF_BITS
}

/// Whether a scalar, given by bit pattern, carries the sign bit.
pub open spec fn sign_negative(bits: u32) -> bool {
    bits >= SIGN_BIT
}

/// The guard on a candidate distance, used by the triangle test and by
/// the shadow ray: a distance is kept only when it is finite and does not
/// carry the sign bit.
pub fn ray_dist_valid(bits: u32) -> (r: bool)
    ensures
        r == valid_dist(bits),
{
    bits < DIST_INF_BITS
}

/// Root selection of the sphere test, on the two candidate roots of the
/// quadratic, given by bit pattern: a root with the sign bit set lies
/// behind the ray origin and is dropped; of the survivors the smaller one
/// under the total order on patterns — the nearest point of entry — is
/// kept. Both behind the origin means no hit.
pub fn smaller_root(a: u32, b: u32) -> (r: Option<u32>)
    ensures
        r is Some <==> (!sign_negative(a) || !sign_negative(b)),
        !sign_negative(a) && !sign_negative(b) ==> r == Some(
            if a <= b {
                a
            } else {
                b
            },
        ),
        !sign_negative(a) && sign_negative(b) ==> r == Some(a),
        sign_negative(a) && !sign_negative(b) ==> r == Some(b),
{
    if a < SIGN_BIT && b < SIGN_BIT {
        if a <= b {
            Some(a)
        } else {
            Some(b)
        }
    } else if a < SIGN_BIT {
        Some(a)
    } else if b < SIGN_BIT {
        Some(b)
    } else {
        None
    }
}

/// The in-triangle test: the reference determinant of the vertex-relative
/// coordinate matrix and the three per-edge terms projected onto the ray,
/// all given by bit pattern, agree in sign exactly when the ray passes
/// through the triangle's interior. Agreement of the sign bits is
/// agreement of the floating-point signs.
pub fn tri_signs_match(det: u32, e1: u32, e2: u32, e3: u32) -> (r: bool)
    ensures
        r == (sign_negative(e1) == sign_negative(det) && sign_negative(e2) == sign_negative(det)
            && sign_negative(e3) == sign_negative(det)),
{
    ((e1 >= SIGN_BIT) == (det >= SIGN_BIT)) && ((e2 >= SIGN_BIT) == (det >= SIGN_BIT)) && ((e3
        >= SIGN_BIT) == (det >= SIGN_BIT))
}

/// A candidate that takes part in the ranking: present, and a valid
/// distance. A not-a-number or infinite distance out of degenerate
/// geometry is excluded before any comparison, so that such a pixel falls
/// back to the background rather than shading nonsense.
pub open spec fn is_hit(c: Option<u32>) -> bool {
    c is Some && valid_dist(c->Some_0)
}

/// Nearest-hit selection for one primary ray. `candidates` holds one entry
/// per scene object, in scene order: the hit distance as a bit pattern, or
/// nothing where the object was missed. An entry whose pattern is not a
/// valid distance is excluded before ranking. The selected index carries
/// the least distance under the total order on patterns, and on an exactly
/// equal distance the earlier object wins; a scene with no valid hit at
/// all selects nothing.
pub fn nearest_hit(candidates: &Vec<Option<u32>>) -> (r: Option<usize>)
    ensures
        r is Some <==> exists|i: int| 0 <= i < candidates@.len() && is_hit(candidates@[i]),
        r matches Some(sel) ==> {
            &&& sel < candidates@.len()
            &&& is_hit(candidates@[sel as int])
            &&& forall|j: int|
                0 <= j < candidates@.len() && is_hit(candidates@[j])
                    ==> candidates@[sel as int]->Some_0 <= candidates@[j]->Some_0
            &&& forall|j: int|
                0 <= j < sel && is_hit(candidates@[j]) ==> candidates@[sel as int]->Some_0
                    < candidates@[j]->Some_0
        },
{
    let mut best: Option<usize> = None;
    let mut best_key: u32 = 0;
    let mut idx: usize = 0;
    while idx < candidates.len()
        invariant
            idx <= candidates@.len(),
            best is Some <==> exists|i: int| 0 <= i < idx && is_hit(candidates@[i]),
            best matches Some(sel) ==> {
                &&& sel < idx
                &&& is_hit(candidates@[sel as int])
                &&& candidates@[sel as int]->Some_0 == best_key
                &&& forall|j: int|
                    0 <= j < idx && is_hit(candidates@[j]) ==> best_key <= candidates@[j]->Some_0
                &&& forall|j: int|
                    0 <= j < sel && is_hit(candidates@[j]) ==> best_key < candidates@[j]->Some_0
            },
        decreases candidates@.len() - idx,
    {
        if let Some(key) = candidates[idx] {
            if key < DIST_INF_BITS {
                match best {
                    None => {
                        best = Some(idx);
                        best_key = key;
                    },
                    Some(_) => {
                        if key < best_key {
                            best = Some(idx);
                            best_key = key;
                        }
                    },
                }
            }
        }
        idx = idx + 1;
    }
    best
}

/// The self-intersection guard of the shadow test: the bit pattern of the
/// scalar 1.0e-4. A secondary hit at or below this distance is the shaded
/// surface itself, struck again by floating-point noise, not an occluder.
/// The machine epsilon is too small a guard and creates visual artifacts.
pub const SHADOW_EPS_BITS: u32 = 0x38d1_b717;

/// Whether one hit of the shadow ray occludes the light: it must stand
/// strictly beyond the self-intersection guard, and its squared distance
/// strictly below the squared distance to the light, so that geometry
/// past the light casts no shadow. The two squared distances come as bit
/// patterns no greater than the infinity pattern: on such patterns the
/// comparison agrees exactly with the numeric one, an infinite squared
/// distance losing to nothing.
pub fn shadow_qualifies(t_bits: u32, t_sq_bits: u32, light_sq_bits: u32) -> (r: bool)
    requires
        valid_dist(t_bits),
        t_sq_bits <= DIST_INF_BITS,
        light_sq_bits <= DIST_INF_BITS,
    ensures
        r == (t_bits > SHADOW_EPS_BITS && t_sq_bits < light_sq_bits),
{
    t_bits > SHADOW_EPS_BITS && t_sq_bits < light_sq_bits
}

/// Whether any object of the scene occludes the light for the shaded
/// point, from the verdict of the shadow test on each object.
pub fn any_occluder(occluded: &Vec<bool>) -> (r: bool)
    ensures
        r == exists|i: int| 0 <= i < occluded@.len() && occluded@[i],
{
    let mut idx: usize = 0;
    while idx < occluded.len()
        invariant
            idx <= occluded@.len(),
            forall|i: int| 0 <= i < idx ==> !occluded@[i],
        decreases occluded@.len() - idx,
    {
        if occluded[idx] {
            return true;
        }
        idx = idx + 1;
    }
    false
}

/// The hard-shadow shading rule for the nearest hit: an occluded point is
/// fully shadowed and shades to black; a lit point shades to the base
/// color scaled channel-wise by the illumination, handed over as the exact
/// ratio `illum_num / illum_den` (the clamped cosine between the surface
/// normal and the direction toward the light).
pub fn shade(base: Color, occluded: bool, illum_num: u32, illum_den: u32) -> (r: Color)
    requires
        0 < illum_den,
    ensures
        occluded ==> r == (Color { r: 0, g: 0, b: 0 }),
        !occluded ==> r.r == scaled_channel(base.r, illum_num, illum_den) && r.g == scaled_channel(
            base.g,
            illum_num,
            illum_den,
        ) && r.b == scaled_channel(base.b, illum_num, illum_den),
{
    if occluded {
        Color::black()
    } else {
        base.scale(illum_num, illum_den)
    }
}

} // verus!

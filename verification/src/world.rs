use vstd::prelude::*;

use crate::math::Quat;
use crate::math::Vec3;

verus! {

/// An RGB color: three 8-bit channels, in the order red, green, blue.
#[derive(Clone, Copy, Debug, PartialEq, Eq, Structural)]
pub struct Color {
    pub r: u8,
    pub g: u8,
    pub b: u8,
}

/// A channel value times the exact ratio `num / den`, rounded half-up:
/// the mathematical product before any clamping.
pub open spec fn round_ratio(c: u8, num: int, den: int) -> int
    recommends
        0 < den,
{
    (2 * c * num + den) / (2 * den)
}

/// A channel magnitude forced into the representable range of one byte.
pub open spec fn clamp_channel(q: int) -> u8 {
    if q > 255 {
        255u8
    } else if q < 0 {
        0u8
    } else {
        q as u8
    }
}

/// One channel scaled by `num / den`: rounded, then clamped.
pub open spec fn scaled_channel(c: u8, num: u32, den: u32) -> u8
    recommends
        0 < den,
{
    clamp_channel(round_ratio(c, num as int, den as int))
}

/// One channel interpolated from `a` toward `b` by the ratio `num / den`:
/// the rounded share `1 - num/den` of `a` plus the rounded share `num/den`
/// of `b`, clamped.
pub open spec fn lerp_channel(a: u8, b: u8, num: u32, den: u32) -> u8
    recommends
        0 < den,
        num <= den,
{
    clamp_channel(round_ratio(a, den - num, den as int) + round_ratio(b, num as int, den as int))
}

fn scale_channel(c: u8, num: u32, den: u32) -> (r: u8)
    requires
        0 < den,
    ensures
        r == scaled_channel(c, num, den),
{
    assert(2 * (c as int) * (num as int) <= 510 * 0xffff_ffff) by (nonlinear_arith)
        requires
            c <= 255,
            num <= 0xffff_ffffu32,
    ;
    let q: u64 = (2 * (c as u64) * (num as u64) + (den as u64)) / (2 * (den as u64));
    if q > 255 {
        255
    } else {
        q as u8
    }
}

impl Color {
    /// The background color: every channel zero.
    pub fn black() -> (c: Color)
        ensures
            c == (Color { r: 0, g: 0, b: 0 }),
    {
        Color { r: 0, g: 0, b: 0 }
    }

    /// Intensity scaling: each channel times the exact ratio `num / den`,
    /// independently rounded and clamped into the representable range.
    pub fn scale(self, num: u32, den: u32) -> (r: Color)
        requires
            0 < den,
        ensures
            r.r == scaled_channel(self.r, num, den),
            r.g == scaled_channel(self.g, num, den),
            r.b == scaled_channel(self.b, num, den),
    {
        Color {
            r: scale_channel(self.r, num, den),
            g: scale_channel(self.g, num, den),
            b: scale_channel(self.b, num, den),
        }
    }

    /// Linear interpolation from `self` toward `rhs` by the exact ratio
    /// `num / den` in `[0, 1]`, channel by channel.
    pub fn interpolate(self, rhs: Color, num: u32, den: u32) -> (r: Color)
        requires
            0 < den,
            num <= den,
        ensures
            r.r == lerp_channel(self.r, rhs.r, num, den),
            r.g == lerp_channel(self.g, rhs.g, num, den),
            r.b == lerp_channel(self.b, rhs.b, num, den),
    {
        Color {
            r: lerp_one(self.r, rhs.r, num, den),
            g: lerp_one(self.g, rhs.g, num, den),
            b: lerp_one(self.b, rhs.b, num, den),
        }
    }
}

fn lerp_one(a: u8, b: u8, num: u32, den: u32) -> (r: u8)
    requires
        0 < den,
        num <= den,
    ensures
        r == lerp_channel(a, b, num, den),
{
    assert(2 * (a as int) * ((den - num) as int) <= 510 * 0xffff_ffff) by (nonlinear_arith)
        requires
            a <= 255,
            den - num <= 0xffff_ffffu32,
    ;
    assert(2 * (b as int) * (num as int) <= 510 * 0xffff_ffff) by (nonlinear_arith)
        requires
            b <= 255,
            num <= 0xffff_ffffu32,
    ;
    let own_share: u64 = (2 * (a as u64) * ((den - num) as u64) + (den as u64)) / (2 * (den
        as u64));
    let rhs_share: u64 = (2 * (b as u64) * (num as u64) + (den as u64)) / (2 * (den as u64));
    let q: u64 = own_share + rhs_share;
    if q > 255 {
        255
    } else {
        q as u8
    }
}

proof fn lemma_round_ratio_full(c: u8, den: int)
    requires
        0 < den,
    ensures
        round_ratio(c, den, den) == c,
{
    assert(2 * c * den + den == c * (2 * den) + den) by (nonlinear_arith);
    vstd::arithmetic::div_mod::lemma_fundamental_div_mod_converse(
        2 * c * den + den,
        2 * den,
        c as int,
        den,
    );
}

proof fn lemma_round_ratio_zero(c: u8, den: int)
    requires
        0 < den,
    ensures
        round_ratio(c, 0, den) == 0,
{
    vstd::arithmetic::div_mod::lemma_fundamental_div_mod_converse(den, 2 * den, 0, den);
}

/// Law: scaling a color by the whole ratio `den / den` changes no
/// channel.
pub proof fn lemma_scale_full(c: Color, den: u32)
    requires
        0 < den,
    ensures
        scaled_channel(c.r, den, den) == c.r,
        scaled_channel(c.g, den, den) == c.g,
        scaled_channel(c.b, den, den) == c.b,
{
    lemma_round_ratio_full(c.r, den as int);
    lemma_round_ratio_full(c.g, den as int);
    lemma_round_ratio_full(c.b, den as int);
}

/// Law: scaling a color by the zero ratio yields black on every channel.
pub proof fn lemma_scale_zero(c: Color, den: u32)
    requires
        0 < den,
    ensures
        scaled_channel(c.r, 0, den) == 0,
        scaled_channel(c.g, 0, den) == 0,
        scaled_channel(c.b, 0, den) == 0,
{
    lemma_round_ratio_zero(c.r, den as int);
    lemma_round_ratio_zero(c.g, den as int);
    lemma_round_ratio_zero(c.b, den as int);
}

/// Law: interpolation by the ratio zero returns the first color exactly,
/// and by the whole ratio `den / den` the second.
pub proof fn lemma_interpolate_ends(a: Color, b: Color, den: u32)
    requires
        0 < den,
    ensures
        lerp_channel(a.r, b.r, 0, den) == a.r,
        lerp_channel(a.g, b.g, 0, den) == a.g,
        lerp_channel(a.b, b.b, 0, den) == a.b,
        lerp_channel(a.r, b.r, den, den) == b.r,
        lerp_channel(a.g, b.g, den, den) == b.g,
        lerp_channel(a.b, b.b, den, den) == b.b,
{
    lemma_round_ratio_full(a.r, den as int);
    lemma_round_ratio_full(a.g, den as int);
    lemma_round_ratio_full(a.b, den as int);
    lemma_round_ratio_full(b.r, den as int);
    lemma_round_ratio_full(b.g, den as int);
    lemma_round_ratio_full(b.b, den as int);
    lemma_round_ratio_zero(a.r, den as int);
    lemma_round_ratio_zero(a.g, den as int);
    lemma_round_ratio_zero(a.b, den as int);
    lemma_round_ratio_zero(b.r, den as int);
    lemma_round_ratio_zero(b.g, den as int);
    lemma_round_ratio_zero(b.b, den as int);
}

/// A scene object: a sphere (center, radius, color) or a triangle (three
/// vertices, color), immutable for the duration of a frame. The scalar type
/// `S` carries the coordinates; the collaborator that owns the
/// floating-point algebra instantiates it.
pub enum Object<S> {
    /// Three vertices and the base color.
    Triangle(Vec3<S>, Vec3<S>, Vec3<S>, Color),
    /// Center, radius and the base color.
    Sphere(Vec3<S>, S, Color),
}

impl<S> Object<S> {
    /// The base color of either variant.
    pub open spec fn spec_color(&self) -> Color {
        match self {
            Object::Triangle(_, _, _, c) => *c,
            Object::Sphere(_, _, c) => *c,
        }
    }

    /// Fetch the base color of the object.
    pub fn get_color(&self) -> (c: Color)
        ensures
            c == self.spec_color(),
    {
        match self {
            Object::Triangle(_, _, _, c) => *c,
            Object::Sphere(_, _, c) => *c,
        }
    }
}

/// A scene: an ordered sequence of objects (the order only breaks ties
/// between equally near hits) and one point-light position.
pub struct World<S> {
    pub objects: Vec<Object<S>>,
    pub light: Vec3<S>,
}

/// A position and an orientation, owned by the camera.
pub struct Transform<S> {
    pub position: Vec3<S>,
    pub rotation: Quat<S>,
}

} // verus!

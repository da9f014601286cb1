//! Fixed-width vector types with the lane layout of the target shading
//! language, and the numeric kernels on them.
//!
//! `Int3` and `Int4` carry signed 32-bit lanes and back the bitwise masking
//! kernel. `Float2` is the dual-lane carrier that the fast reciprocal square
//! root runs on. `Float3` and `Float4` are the primary float vectors; every
//! float lane is the `u32` bit pattern of an IEEE-754 binary32 value.
//!
//! All reinterpretation between the float-lane and integer-lane views is
//! kept to the two `reinterpret` functions below: a lane's 32 bits are moved
//! unchanged between the two same-sized views, never its numeric value.

use vstd::prelude::*;
use vstd::std_specs::cmp::PartialEqSpec;
use crate::scalar::{
    add_bits, sub_bits, mul_bits, sqrt_bits, is_nan_bits, abs_bits, lane_eq_bits,
    fast_rsqrt_bits, soft_add, soft_sub, soft_mul, rsqrt_lane, soft_sqrt, lane_eq,
    ABS_MASK_BITS,
};

verus! {

/// A three-lane signed 32-bit integer vector, used purely as a bit-pattern
/// carrier for masking operations.
///
/// In the target shading-language ABI this type occupies 16 bytes: three
/// meaningful lanes and a fourth 32-bit slot that exists only as layout
/// padding. The struct here mirrors that lane content — it does not itself
/// pin that byte layout. The padding lane's content carries no meaning, is
/// ignored by every operation, and must never be read as a value.
#[derive(Clone, Copy, Debug)]
pub struct Int3 {
    x: i32,
    y: i32,
    z: i32,
    padding: i32,
}

impl Int3 {
    /// The first meaningful lane.
    pub closed spec fn spec_x(&self) -> i32 {
        self.x
    }

    /// The second meaningful lane.
    pub closed spec fn spec_y(&self) -> i32 {
        self.y
    }

    /// The third meaningful lane.
    pub closed spec fn spec_z(&self) -> i32 {
        self.z
    }

    /// Builds a vector from its three meaningful lanes. The padding lane is
    /// left without a specified content: no contract of this crate speaks of
    /// it and no operation reads it.
    pub fn new(x: i32, y: i32, z: i32) -> (r: Int3)
        ensures
            r.spec_x() == x,
            r.spec_y() == y,
            r.spec_z() == z,
    {
        Int3 { x, y, z, padding: 0 }
    }

    /// The lane-wise bitwise multiplexer: in each meaningful lane, the bits
    /// of `other` where the corresponding bit of `mask` is one, the bits of
    /// `self` where it is zero.
    pub fn bitselect(self, other: Int3, mask: Int3) -> (r: Int3)
        ensures
            r.spec_x() == (self.spec_x() & !mask.spec_x()) | (other.spec_x() & mask.spec_x()),
            r.spec_y() == (self.spec_y() & !mask.spec_y()) | (other.spec_y() & mask.spec_y()),
            r.spec_z() == (self.spec_z() & !mask.spec_z()) | (other.spec_z() & mask.spec_z()),
    {
        Int3 {
            x: (self.x & !mask.x) | (other.x & mask.x),
            y: (self.y & !mask.y) | (other.y & mask.y),
            z: (self.z & !mask.z) | (other.z & mask.z),
            padding: 0,
        }
    }
}

/// A four-lane signed 32-bit integer vector: in the target ABI 16 bytes,
/// all four lanes meaningful.
pub struct Int4 {
    x: i32,
    y: i32,
    z: i32,
    w: i32,
}

impl Int4 {
    /// The first lane.
    pub closed spec fn spec_x(&self) -> i32 {
        self.x
    }

    /// The second lane.
    pub closed spec fn spec_y(&self) -> i32 {
        self.y
    }

    /// The third lane.
    pub closed spec fn spec_z(&self) -> i32 {
        self.z
    }

    /// The fourth lane.
    pub closed spec fn spec_w(&self) -> i32 {
        self.w
    }

    /// Builds a vector from its four lanes.
    pub fn new(x: i32, y: i32, z: i32, w: i32) -> (r: Int4)
        ensures
            r.spec_x() == x,
            r.spec_y() == y,
            r.spec_z() == z,
            r.spec_w() == w,
    {
        Int4 { x, y, z, w }
    }
}

/// A two-lane float vector: the dual-lane carrier for the reciprocal-
/// square-root kernel. Each lane holds the bit pattern of an IEEE-754
/// binary32 value.
///
/// The second lane may be left logically undefined by [`Float2::from_undef`]
/// when only a single lane's input matters. Whether it was ever written is
/// tracked in a ghost mark, and reading an unwritten second lane is ruled
/// out by contract rather than at run time.
#[derive(Clone, Copy)]
pub struct Float2 {
    x: u32,
    y: u32,
    y_written: Ghost<bool>,
}

impl Float2 {
    /// The first lane's bit pattern.
    pub closed spec fn spec_x(&self) -> u32 {
        self.x
    }

    /// The second lane's bit pattern.
    pub closed spec fn spec_y(&self) -> u32 {
        self.y
    }

    /// Whether the second lane has defined content.
    pub closed spec fn y_is_defined(&self) -> bool {
        self.y_written@
    }

    /// Builds a vector with both lanes written.
    pub fn new(x: u32, y: u32) -> (r: Float2)
        ensures
            r.spec_x() == x,
            r.spec_y() == y,
            r.y_is_defined(),
    {
        Float2 { x, y, y_written: Ghost(true) }
    }

    /// Builds a vector whose second lane is logically undefined: only the
    /// first lane's input matters to the caller, and no contract of this
    /// crate lets the second lane of the result be read.
    pub fn from_undef(x: u32) -> (r: Float2)
        ensures
            r.spec_x() == x,
            !r.y_is_defined(),
    {
        Float2 { x, y: 0, y_written: Ghost(false) }
    }

    /// Reads the first lane.
    pub fn x(&self) -> (r: u32)
        ensures
            r == self.spec_x(),
    {
        self.x
    }

    /// Reads the second lane; only a lane that was written may be read.
    pub fn y(&self) -> (r: u32)
        requires
            self.y_is_defined(),
        ensures
            r == self.spec_y(),
    {
        self.y
    }

    /// Lane-wise product. If the second lane of either operand is undefined,
    /// the second lane of the result is likewise undefined and must not be
    /// read.
    pub fn elementwise_mult(self, other: Float2) -> (r: Float2)
        ensures
            r.spec_x() == mul_bits(self.spec_x(), other.spec_x()),
            r.y_is_defined() == (self.y_is_defined() && other.y_is_defined()),
            self.y_is_defined() && other.y_is_defined()
                ==> r.spec_y() == mul_bits(self.spec_y(), other.spec_y()),
    {
        let y_written: Ghost<bool> = Ghost((self.y_written@ && other.y_written@));
        Float2 { x: soft_mul(self.x, other.x), y: soft_mul(self.y, other.y), y_written }
    }

    /// The fast reciprocal square root, lane-wise: an estimate of
    /// `1 / sqrt(lane)` refined by exactly one Newton-Raphson step
    /// ([`fast_rsqrt_bits`]). An undefined second lane stays undefined.
    ///
    /// On a zero or negative lane the kernel is total but its result encodes
    /// an infinity or a NaN; callers needing defined numeric behavior there
    /// must guard before calling.
    pub fn fast_rsqrt(self) -> (r: Float2)
        ensures
            r.spec_x() == fast_rsqrt_bits(self.spec_x()),
            r.y_is_defined() == self.y_is_defined(),
            self.y_is_defined() ==> r.spec_y() == fast_rsqrt_bits(self.spec_y()),
    {
        Float2 {
            x: rsqrt_lane(self.x),
            y: rsqrt_lane(self.y),
            y_written: self.y_written,
        }
    }
}

/// The primary three-lane float vector. Each lane holds the bit pattern of
/// an IEEE-754 binary32 value.
///
/// In the target shading-language ABI this type occupies 16 bytes: three
/// meaningful lanes and a fourth 32-bit slot that is pure padding. The
/// struct here mirrors that lane content — it does not itself pin that byte
/// layout. The padding lane's bit content is unspecified, is never read as
/// a value, and is ignored by equality.
#[derive(Clone, Copy, Debug)]
pub struct Float3 {
    x: u32,
    y: u32,
    z: u32,
    padding: u32,
}

impl PartialEq for Float3 {
    fn eq(&self, other: &Float3) -> bool {
        lane_eq(self.x, other.x) && lane_eq(self.y, other.y) && lane_eq(self.z, other.z)
    }
}

impl vstd::std_specs::cmp::PartialEqSpecImpl for Float3 {
    open spec fn obeys_eq_spec() -> bool {
        true
    }

    /// Equality compares only the three meaningful lanes, each as the
    /// IEEE-754 value it encodes ([`lane_eq_bits`]): a NaN lane equals
    /// nothing — not even itself, which is why this type has `PartialEq`
    /// and no `Eq` — and positive and negative zero lanes are equal.
    open spec fn eq_spec(&self, other: &Float3) -> bool {
        lane_eq_bits(self.spec_x(), other.spec_x())
            && lane_eq_bits(self.spec_y(), other.spec_y())
            && lane_eq_bits(self.spec_z(), other.spec_z())
    }
}

/// Equality on `Float3` ignores padding: two values whose meaningful lanes
/// hold the same non-NaN bit patterns compare equal whatever the bit
/// content of their padding lanes. (Values with a NaN lane are left out:
/// a NaN lane equals nothing, itself included.)
pub proof fn lemma_eq_ignores_padding(a: Float3, b: Float3)
    requires
        a.spec_x() == b.spec_x(),
        a.spec_y() == b.spec_y(),
        a.spec_z() == b.spec_z(),
        a.no_nan_lanes(),
    ensures
        a.eq_spec(&b),
{
}

/// The bit-selection formula gives the same 32 bits whether a lane is viewed
/// as a signed integer or as a raw pattern: reinterpretation commutes with
/// the masking kernel.
pub proof fn lemma_bitselect_reinterpret(x: u32, y: u32, m: u32)
    ensures
        (((x as i32) & !(m as i32)) | ((y as i32) & (m as i32))) as u32 == (x & !m) | (y & m),
{
    assert((((x as i32) & !(m as i32)) | ((y as i32) & (m as i32))) as u32 == (x & !m) | (y & m))
        by (bit_vector);
}

impl Float3 {
    /// The first meaningful lane's bit pattern.
    pub closed spec fn spec_x(&self) -> u32 {
        self.x
    }

    /// The second meaningful lane's bit pattern.
    pub closed spec fn spec_y(&self) -> u32 {
        self.y
    }

    /// The third meaningful lane's bit pattern.
    pub closed spec fn spec_z(&self) -> u32 {
        self.z
    }

    /// Whether no meaningful lane encodes a NaN.
    pub open spec fn no_nan_lanes(self) -> bool {
        !is_nan_bits(self.spec_x()) && !is_nan_bits(self.spec_y()) && !is_nan_bits(self.spec_z())
    }

    /// The dot product of the meaningful lanes, over bit patterns: the
    /// lane-wise products summed in the fixed order `x + y + z`.
    pub open spec fn dot_bits(self, other: Float3) -> u32 {
        add_bits(
            add_bits(
                mul_bits(self.spec_x(), other.spec_x()),
                mul_bits(self.spec_y(), other.spec_y()),
            ),
            mul_bits(self.spec_z(), other.spec_z()),
        )
    }

    /// The length of the encoded vector, over bit patterns: the correctly
    /// rounded square root of the dot product with itself.
    pub open spec fn precise_length_bits(self) -> u32 {
        sqrt_bits(self.dot_bits(self))
    }

    /// What `fast_length` returns: defined to be exactly the precise length.
    /// This core deliberately resolves its fast length to the same
    /// computation as [`Float3::precise_length_bits`]; it is not an
    /// approximation.
    pub open spec fn fast_length_bits(self) -> u32 {
        self.precise_length_bits()
    }

    /// The scale factor that fast normalization applies to every lane: the
    /// fast reciprocal square root of the squared length.
    pub open spec fn fast_normalize_scale_bits(self) -> u32 {
        fast_rsqrt_bits(self.dot_bits(self))
    }

    /// Builds a vector from its three meaningful lanes' bit patterns. The
    /// padding lane is left without specified content: no contract of this
    /// crate speaks of it and no operation reads it as a value.
    pub fn new(x: u32, y: u32, z: u32) -> (r: Float3)
        ensures
            r.spec_x() == x,
            r.spec_y() == y,
            r.spec_z() == z,
    {
        Float3 { x, y, z, padding: 0 }
    }

    /// Reinterprets four raw 32-bit lanes as a vector, as a raw copy of a
    /// 16-byte lane group out of a GPU-visible buffer would: the fourth lane
    /// is kept as the padding slot's bits, which stay unspecified to every
    /// contract and are never read as a value.
    pub fn from_raw(x: u32, y: u32, z: u32, padding: u32) -> (r: Float3)
        ensures
            r.spec_x() == x,
            r.spec_y() == y,
            r.spec_z() == z,
    {
        Float3 { x, y, z, padding }
    }

    /// The all-zero vector: every meaningful lane encodes positive zero.
    pub fn zero() -> (r: Float3)
        ensures
            r.spec_x() == 0,
            r.spec_y() == 0,
            r.spec_z() == 0,
    {
        Float3::new(0, 0, 0)
    }

    /// Reads the first meaningful lane.
    pub fn x(&self) -> (r: u32)
        ensures
            r == self.spec_x(),
    {
        self.x
    }

    /// Reads the second meaningful lane.
    pub fn y(&self) -> (r: u32)
        ensures
            r == self.spec_y(),
    {
        self.y
    }

    /// Reads the third meaningful lane.
    pub fn z(&self) -> (r: u32)
        ensures
            r == self.spec_z(),
    {
        self.z
    }

    /// Borrows the first meaningful lane for in-place editing.
    pub fn x_mut(&mut self) -> (r: &mut u32)
        ensures
            *r == old(self).spec_x(),
            final(self).spec_x() == *final(r),
            final(self).spec_y() == old(self).spec_y(),
            final(self).spec_z() == old(self).spec_z(),
    {
        &mut self.x
    }

    /// Borrows the second meaningful lane for in-place editing.
    pub fn y_mut(&mut self) -> (r: &mut u32)
        ensures
            *r == old(self).spec_y(),
            final(self).spec_y() == *final(r),
            final(self).spec_x() == old(self).spec_x(),
            final(self).spec_z() == old(self).spec_z(),
    {
        &mut self.y
    }

    /// Borrows the third meaningful lane for in-place editing.
    pub fn z_mut(&mut self) -> (r: &mut u32)
        ensures
            *r == old(self).spec_z(),
            final(self).spec_z() == *final(r),
            final(self).spec_x() == old(self).spec_x(),
            final(self).spec_y() == old(self).spec_y(),
    {
        &mut self.z
    }

    /// Reinterprets the vector's lanes as signed integer lanes: each lane's
    /// 32 bits move unchanged into the integer view.
    pub fn reinterpret_int(self) -> (r: Int3)
        ensures
            r.spec_x() == self.spec_x() as i32,
            r.spec_y() == self.spec_y() as i32,
            r.spec_z() == self.spec_z() as i32,
    {
        Int3::new(
            #[verifier::truncate] (self.x as i32),
            #[verifier::truncate] (self.y as i32),
            #[verifier::truncate] (self.z as i32),
        )
    }

    /// Reinterprets integer lanes back into the float-pattern view: each
    /// lane's 32 bits move unchanged.
    pub fn reinterpret_from_int(v: Int3) -> (r: Float3)
        ensures
            r.spec_x() == v.spec_x() as u32,
            r.spec_y() == v.spec_y() as u32,
            r.spec_z() == v.spec_z() as u32,
    {
        Float3::new(
            #[verifier::truncate] (v.x as u32),
            #[verifier::truncate] (v.y as u32),
            #[verifier::truncate] (v.z as u32),
        )
    }

    /// Lane-wise product.
    ///
    /// For non-NaN lanes the product does not depend on the operand order,
    /// which is what makes the dot product symmetric.
    pub fn elementwise_mult(self, other: Float3) -> (r: Float3)
        ensures
            r.spec_x() == mul_bits(self.spec_x(), other.spec_x()),
            r.spec_y() == mul_bits(self.spec_y(), other.spec_y()),
            r.spec_z() == mul_bits(self.spec_z(), other.spec_z()),
            self.no_nan_lanes() && other.no_nan_lanes() ==> {
                &&& r.spec_x() == mul_bits(other.spec_x(), self.spec_x())
                &&& r.spec_y() == mul_bits(other.spec_y(), self.spec_y())
                &&& r.spec_z() == mul_bits(other.spec_z(), self.spec_z())
            },
    {
        Float3::new(
            soft_mul(self.x, other.x),
            soft_mul(self.y, other.y),
            soft_mul(self.z, other.z),
        )
    }

    /// Scales every meaningful lane by one scalar bit pattern.
    pub fn elementwise_mult_scalar(self, s: u32) -> (r: Float3)
        ensures
            r.spec_x() == mul_bits(self.spec_x(), s),
            r.spec_y() == mul_bits(self.spec_y(), s),
            r.spec_z() == mul_bits(self.spec_z(), s),
    {
        Float3::new(soft_mul(self.x, s), soft_mul(self.y, s), soft_mul(self.z, s))
    }

    /// Lane-wise sum.
    pub fn elementwise_add(self, other: Float3) -> (r: Float3)
        ensures
            r.spec_x() == add_bits(self.spec_x(), other.spec_x()),
            r.spec_y() == add_bits(self.spec_y(), other.spec_y()),
            r.spec_z() == add_bits(self.spec_z(), other.spec_z()),
    {
        Float3::new(
            soft_add(self.x, other.x),
            soft_add(self.y, other.y),
            soft_add(self.z, other.z),
        )
    }

    /// Lane-wise difference.
    pub fn elementwise_sub(self, other: Float3) -> (r: Float3)
        ensures
            r.spec_x() == sub_bits(self.spec_x(), other.spec_x()),
            r.spec_y() == sub_bits(self.spec_y(), other.spec_y()),
            r.spec_z() == sub_bits(self.spec_z(), other.spec_z()),
    {
        Float3::new(
            soft_sub(self.x, other.x),
            soft_sub(self.y, other.y),
            soft_sub(self.z, other.z),
        )
    }

    /// Sums the three meaningful lanes in the fixed order `x + y + z`. The
    /// order is part of the contract: float addition does not reassociate.
    pub fn reduce_add(self) -> (r: u32)
        ensures
            r == add_bits(add_bits(self.spec_x(), self.spec_y()), self.spec_z()),
    {
        soft_add(soft_add(self.x, self.y), self.z)
    }

    /// The dot product: the lane-wise products summed as `x + y + z`.
    ///
    /// The dot product is symmetric: when no lane of either operand is NaN,
    /// `a.dot(b)` and `b.dot(a)` are the same bit pattern, because the
    /// per-lane IEEE-754 product is commutative and swapping the arguments
    /// leaves the addition order unchanged.
    pub fn dot(self, other: Float3) -> (r: u32)
        ensures
            r == self.dot_bits(other),
            self.no_nan_lanes() && other.no_nan_lanes() ==> r == other.dot_bits(self),
    {
        self.elementwise_mult(other).reduce_add()
    }

    /// The squared length: the dot product of the vector with itself.
    pub fn length_squared(self) -> (r: u32)
        ensures
            r == self.dot_bits(self),
    {
        self.dot(self)
    }

    /// The length, through the correctly rounded square root of the squared
    /// length.
    pub fn precise_length(self) -> (r: u32)
        ensures
            r == self.precise_length_bits(),
    {
        soft_sqrt(self.length_squared())
    }

    /// The fast length. Deliberately, this core's fast length resolves to
    /// exactly the same computation as [`Float3::precise_length`]; see
    /// [`lemma_fast_length_matches_precise`].
    pub fn fast_length(self) -> (r: u32)
        ensures
            r == self.fast_length_bits(),
    {
        self.precise_length()
    }

    /// Fast normalization: the squared length is widened into a dual-lane
    /// carrier with an undefined second lane, run through the fast
    /// reciprocal-square-root kernel, and the first lane of the result
    /// scales every lane of `self`.
    ///
    /// The result is approximately unit length for finite nonzero vectors;
    /// exact unit length is not guaranteed, and a zero or degenerate
    /// magnitude gives lanes that encode infinities or NaNs.
    pub fn fast_normalize(self) -> (r: Float3)
        ensures
            r.spec_x() == mul_bits(self.spec_x(), self.fast_normalize_scale_bits()),
            r.spec_y() == mul_bits(self.spec_y(), self.fast_normalize_scale_bits()),
            r.spec_z() == mul_bits(self.spec_z(), self.fast_normalize_scale_bits()),
    {
        let ls = self.length_squared();
        let carrier = Float2::from_undef(ls);
        let scale = carrier.fast_rsqrt().x();
        self.elementwise_mult_scalar(scale)
    }

    /// The lane-wise bitwise multiplexer at the float level: the lanes are
    /// reinterpreted onto the integer masking kernel of [`Int3::bitselect`]
    /// and the selected bits reinterpreted back. Bits, not numeric values,
    /// are selected.
    pub fn bitselect(self, other: Float3, mask: Float3) -> (r: Float3)
        ensures
            r.spec_x() == (self.spec_x() & !mask.spec_x()) | (other.spec_x() & mask.spec_x()),
            r.spec_y() == (self.spec_y() & !mask.spec_y()) | (other.spec_y() & mask.spec_y()),
            r.spec_z() == (self.spec_z() & !mask.spec_z()) | (other.spec_z() & mask.spec_z()),
    {
        let xi = self.reinterpret_int();
        let yi = other.reinterpret_int();
        let mi = mask.reinterpret_int();
        let r = Float3::reinterpret_from_int(xi.bitselect(yi, mi));
        proof {
            lemma_bitselect_reinterpret(self.spec_x(), other.spec_x(), mask.spec_x());
            lemma_bitselect_reinterpret(self.spec_y(), other.spec_y(), mask.spec_y());
            lemma_bitselect_reinterpret(self.spec_z(), other.spec_z(), mask.spec_z());
        }
        r
    }

    /// The lane-wise absolute value, without a branch or a library call:
    /// bits are selected between an all-zero vector and `self` through a
    /// mask with the sign bit cleared in every lane. Each result lane is the
    /// IEEE-754 absolute value of the input lane — the same bits with the
    /// sign bit cleared ([`abs_bits`]).
    pub fn abs(self) -> (r: Float3)
        ensures
            r.spec_x() == abs_bits(self.spec_x()),
            r.spec_y() == abs_bits(self.spec_y()),
            r.spec_z() == abs_bits(self.spec_z()),
    {
        let zero = Float3::zero();
        let mask = Float3::new(ABS_MASK_BITS, ABS_MASK_BITS, ABS_MASK_BITS);
        let r = zero.bitselect(self, mask);
        proof {
            assert forall|b: u32| (0u32 & !ABS_MASK_BITS) | (b & ABS_MASK_BITS) == b
                & ABS_MASK_BITS by {
                assert((0u32 & !0x7FFF_FFFFu32) | (b & 0x7FFF_FFFFu32) == b & 0x7FFF_FFFFu32)
                    by (bit_vector);
            }
        }
        r
    }
}

/// The law behind [`Float3::fast_length`]: the fast length and the precise
/// length of this core are defined to be the very same computation, so they
/// agree exactly on every vector.
pub proof fn lemma_fast_length_matches_precise(v: Float3)
    ensures
        v.fast_length_bits() == v.precise_length_bits(),
{
}

/// The primary four-lane float vector: in the target ABI 16 bytes, all four
/// lanes meaningful, no padding. Each lane holds the bit pattern of an
/// IEEE-754 binary32 value. It exposes the construction and lane access
/// that matrix columns need.
#[derive(Clone, Copy, Debug)]
pub struct Float4 {
    x: u32,
    y: u32,
    z: u32,
    w: u32,
}

impl Float4 {
    /// The first lane's bit pattern.
    pub closed spec fn spec_x(&self) -> u32 {
        self.x
    }

    /// The second lane's bit pattern.
    pub closed spec fn spec_y(&self) -> u32 {
        self.y
    }

    /// The third lane's bit pattern.
    pub closed spec fn spec_z(&self) -> u32 {
        self.z
    }

    /// The fourth lane's bit pattern.
    pub closed spec fn spec_w(&self) -> u32 {
        self.w
    }

    /// Builds a vector from its four lanes' bit patterns.
    pub fn new(x: u32, y: u32, z: u32, w: u32) -> (r: Float4)
        ensures
            r.spec_x() == x,
            r.spec_y() == y,
            r.spec_z() == z,
            r.spec_w() == w,
    {
        Float4 { x, y, z, w }
    }

    /// Reads the first lane.
    pub fn x(&self) -> (r: u32)
        ensures
            r == self.spec_x(),
    {
        self.x
    }

    /// Reads the second lane.
    pub fn y(&self) -> (r: u32)
        ensures
            r == self.spec_y(),
    {
        self.y
    }

    /// Reads the third lane.
    pub fn z(&self) -> (r: u32)
        ensures
            r == self.spec_z(),
    {
        self.z
    }

    /// Reads the fourth lane.
    pub fn w(&self) -> (r: u32)
        ensures
            r == self.spec_w(),
    {
        self.w
    }

    /// Borrows the first lane for in-place editing.
    pub fn x_mut(&mut self) -> (r: &mut u32)
        ensures
            *r == old(self).spec_x(),
            final(self).spec_x() == *final(r),
            final(self).spec_y() == old(self).spec_y(),
            final(self).spec_z() == old(self).spec_z(),
            final(self).spec_w() == old(self).spec_w(),
    {
        &mut self.x
    }

    /// Borrows the second lane for in-place editing.
    pub fn y_mut(&mut self) -> (r: &mut u32)
        ensures
            *r == old(self).spec_y(),
            final(self).spec_y() == *final(r),
            final(self).spec_x() == old(self).spec_x(),
            final(self).spec_z() == old(self).spec_z(),
            final(self).spec_w() == old(self).spec_w(),
    {
        &mut self.y
    }

    /// Borrows the third lane for in-place editing.
    pub fn z_mut(&mut self) -> (r: &mut u32)
        ensures
            *r == old(self).spec_z(),
            final(self).spec_z() == *final(r),
            final(self).spec_x() == old(self).spec_x(),
            final(self).spec_y() == old(self).spec_y(),
            final(self).spec_w() == old(self).spec_w(),
    {
        &mut self.z
    }

    /// Borrows the fourth lane for in-place editing.
    pub fn w_mut(&mut self) -> (r: &mut u32)
        ensures
            *r == old(self).spec_w(),
            final(self).spec_w() == *final(r),
            final(self).spec_x() == old(self).spec_x(),
            final(self).spec_y() == old(self).spec_y(),
            final(self).spec_z() == old(self).spec_z(),
    {
        &mut self.w
    }
}

} // verus!

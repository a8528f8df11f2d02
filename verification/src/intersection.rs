//! Hit distances as ordering keys, and the choice of the nearest hit.
//!
//! A distance along a ray reaches this crate as the bit pattern of an IEEE-754
//! binary64 number. For patterns that are neither negative nor NaN the unsigned
//! order of the magnitude bits is the numeric order, so the magnitude serves as
//! a key: comparing keys compares distances.

use vstd::prelude::*;

verus! {

/// Mask of the sign bit of a binary64 pattern.
pub const SIGN_MASK: u64 = 0x8000_0000_0000_0000;

/// Mask of the exponent and fraction bits of a binary64 pattern.
pub const MAGNITUDE_MASK: u64 = 0x7fff_ffff_ffff_ffff;

/// The pattern of positive infinity, which is also its key: no finite distance
/// has a larger one.
pub const INFINITE_DISTANCE: u64 = 0x7ff0_0000_0000_0000;

/// Exponent and fraction of `bits`, without the sign.
pub open spec fn spec_magnitude(bits: u64) -> u64 {
    bits & MAGNITUDE_MASK
}

/// The biased exponent field of `bits`.
pub open spec fn spec_exponent(bits: u64) -> u64 {
    (bits >> 52) & 0x7ff
}

/// The fraction field of `bits`.
pub open spec fn spec_fraction(bits: u64) -> u64 {
    bits & 0x000f_ffff_ffff_ffff
}

/// `bits` encodes a NaN: all exponent bits set and a fraction that is not zero.
pub open spec fn spec_is_nan(bits: u64) -> bool {
    spec_magnitude(bits) > INFINITE_DISTANCE
}

/// `bits` encodes a number below zero. Negative zero is zero.
pub open spec fn spec_is_negative(bits: u64) -> bool {
    bits & SIGN_MASK != 0 && spec_magnitude(bits) != 0 && !spec_is_nan(bits)
}

/// The key of the distance encoded by `bits`: its magnitude, unless the
/// pattern is a NaN or a negative number, which are no distances.
pub open spec fn spec_distance_key(bits: u64) -> Option<u64> {
    if spec_is_nan(bits) || spec_is_negative(bits) {
        None
    } else {
        Some(spec_magnitude(bits))
    }
}

/// Turns the bit pattern of a distance into its ordering key. A ray that
/// meets a surface behind its origin, or whose distance is not a number, has
/// not hit it: such patterns give `None`. Both zeros give the key 0.
pub fn distance_key(bits: u64) -> (key: Option<u64>)
    ensures
        key == spec_distance_key(bits),
        key matches Some(k) ==> k <= INFINITE_DISTANCE,
{
    let magnitude: u64 = bits & MAGNITUDE_MASK;
    if magnitude > INFINITE_DISTANCE {
        None
    } else if bits & SIGN_MASK != 0 && magnitude != 0 {
        None
    } else {
        Some(magnitude)
    }
}

/// Keys order distances as binary64 orders them: first by exponent, then by
/// fraction. Equal keys are equal fields.
pub proof fn lemma_key_order(a: u64, b: u64)
    requires
        spec_distance_key(a) is Some,
        spec_distance_key(b) is Some,
    ensures
        spec_distance_key(a)->0 < spec_distance_key(b)->0 <==> (spec_exponent(a) < spec_exponent(b)
            || (spec_exponent(a) == spec_exponent(b) && spec_fraction(a) < spec_fraction(b))),
        spec_distance_key(a)->0 == spec_distance_key(b)->0 <==> (spec_exponent(a) == spec_exponent(
            b,
        ) && spec_fraction(a) == spec_fraction(b)),
{
    let ka: u64 = a & MAGNITUDE_MASK;
    let kb: u64 = b & MAGNITUDE_MASK;
    assert(ka < kb <==> (((a >> 52) & 0x7ff) < ((b >> 52) & 0x7ff) || (((a >> 52) & 0x7ff) == ((b
        >> 52) & 0x7ff) && (a & 0x000f_ffff_ffff_ffff) < (b & 0x000f_ffff_ffff_ffff))))
        by (bit_vector)
        requires
            ka == a & 0x7fff_ffff_ffff_ffff,
            kb == b & 0x7fff_ffff_ffff_ffff,
    ;
    assert(ka == kb <==> (((a >> 52) & 0x7ff) == ((b >> 52) & 0x7ff) && (a & 0x000f_ffff_ffff_ffff)
        == (b & 0x000f_ffff_ffff_ffff))) by (bit_vector)
        requires
            ka == a & 0x7fff_ffff_ffff_ffff,
            kb == b & 0x7fff_ffff_ffff_ffff,
    ;
}

/// The smaller of two optional keys; a missing one does not count.
pub open spec fn spec_nearer(a: Option<u64>, b: Option<u64>) -> Option<u64> {
    match (a, b) {
        (Some(x), Some(y)) => Some(if x <= y {
            x
        } else {
            y
        }),
        (Some(x), None) => Some(x),
        (None, _) => b,
    }
}

/// Chooses between the two points at which a line through a closed surface
/// meets it, given the bit patterns of their distances along the ray: the
/// nearer one that is not behind the origin. With both behind it the surface
/// is not hit.
pub fn nearer_root(t0: u64, t1: u64) -> (key: Option<u64>)
    ensures
        key == spec_nearer(spec_distance_key(t0), spec_distance_key(t1)),
        key is None <==> spec_distance_key(t0) is None && spec_distance_key(t1) is None,
{
    match (distance_key(t0), distance_key(t1)) {
        (Some(x), Some(y)) => Some(if x <= y {
            x
        } else {
            y
        }),
        (Some(x), None) => Some(x),
        (None, other) => other,
    }
}

/// The nearest hit of one ray: which object, and how far along the ray.
#[derive(Clone, Copy, Debug)]
pub struct Intersection {
    /// Key of the distance from the ray's origin to the hit point.
    pub distance: u64,
    /// Position of the hit object in the scene's object list.
    pub object: usize,
}

impl Intersection {
    pub fn new(distance: u64, object: usize) -> (hit: Intersection)
        ensures
            hit.distance == distance,
            hit.object == object,
    {
        Intersection { distance, object }
    }
}

/// Some object is hit: `hits` holds one entry per object, `None` where the ray
/// misses it.
pub open spec fn spec_any_hit(hits: Seq<Option<u64>>) -> bool {
    exists|i: int| 0 <= i < hits.len() && (#[trigger] hits[i]) is Some
}

/// Object `i` is hit, no object is hit at a smaller distance, and of the
/// objects hit at that same distance `i` comes first in the list.
pub open spec fn spec_is_nearest(hits: Seq<Option<u64>>, i: int) -> bool {
    &&& 0 <= i < hits.len()
    &&& hits[i] is Some
    &&& forall|j: int|
        0 <= j < hits.len() && (#[trigger] hits[j]) is Some ==> hits[i]->0 <= hits[j]->0
    &&& forall|j: int| 0 <= j < i && (#[trigger] hits[j]) is Some ==> hits[i]->0 < hits[j]->0
}

/// Scans the per-object hit distances of one ray and keeps the smallest. With
/// no hit at all there is no intersection; among equal distances the object
/// that stands first wins.
pub fn trace(hits: &Vec<Option<u64>>) -> (found: Option<Intersection>)
    ensures
        found is Some <==> spec_any_hit(hits@),
        found matches Some(hit) ==> spec_is_nearest(hits@, hit.object as int) && hits@[hit.object as int]
            == Some(hit.distance),
{
    let mut best: Option<Intersection> = None;
    let mut i: usize = 0;
    while i < hits.len()
        invariant
            i <= hits.len(),
            best is None ==> forall|j: int| 0 <= j < i ==> (#[trigger] hits@[j]) is None,
            best matches Some(hit) ==> {
                &&& hit.object < i
                &&& hits@[hit.object as int] == Some(hit.distance)
                &&& forall|j: int|
                    0 <= j < i && (#[trigger] hits@[j]) is Some ==> hit.distance <= hits@[j]->0
                &&& forall|j: int|
                    0 <= j < hit.object && (#[trigger] hits@[j]) is Some ==> hit.distance
                        < hits@[j]->0
            },
        decreases hits.len() - i,
    {
        match hits[i] {
            Some(distance) => {
                let closer: bool = match best {
                    Some(hit) => distance < hit.distance,
                    None => true,
                };
                if closer {
                    best = Some(Intersection::new(distance, i));
                }
            },
            None => {},
        }
        i += 1;
    }
    best
}

/// At most one object is the nearest: the contract of [`trace`] leaves no
/// choice.
pub proof fn lemma_nearest_is_unique(hits: Seq<Option<u64>>, i: int, j: int)
    requires
        spec_is_nearest(hits, i),
        spec_is_nearest(hits, j),
    ensures
        i == j,
{
    if i < j {
        assert(hits[i] is Some);
    } else if j < i {
        assert(hits[j] is Some);
    }
}

} // verus!

//! What a scene decides: which colour source a ray ends in, which secondary
//! rays a hit sends out, whether a light reaches a point, and how the shaded
//! pixels become a frame.
//!
//! The tracer is a recursion over a bounce budget. Each cast spends one unit
//! of it, and a cast with nothing left is black whatever the scene holds, so
//! the recursion ends after `max_recursion_depth` bounces.

use vstd::prelude::*;
use crate::frame::{frame_from_vec, spec_pack, spec_pixel_count, Frame, Pixel};
use crate::intersection::{spec_any_hit, spec_is_nearest, trace, Intersection};

verus! {

/// How the surface of an object treats light. Every object has one of these
/// and only one.
#[derive(Clone, Copy, Debug, PartialEq, Eq, Structural)]
pub enum SurfaceType {
    /// Direct light from every light, and one scattered sample.
    Diffuse,
    /// Diffuse shading blended with a mirror bounce.
    Reflective,
    /// A reflected and a transmitted ray, weighted by the Fresnel reflectance.
    Refractive,
}

/// The secondary rays that shading one hit sends out.
#[derive(Clone, Copy, Debug, PartialEq, Eq, Structural)]
pub struct Bounces {
    /// One shadow ray toward each light.
    pub shadows: bool,
    /// One randomly scattered ray for indirect light.
    pub scatter: bool,
    /// The mirror ray.
    pub reflection: bool,
    /// The refracted ray.
    pub transmission: bool,
}

impl SurfaceType {
    /// The rays of a surface of this type. `transmits` says that the
    /// reflectance is below one and that refraction is possible; only a
    /// refractive surface asks for it.
    pub open spec fn spec_bounces(self, transmits: bool) -> Bounces {
        match self {
            SurfaceType::Diffuse => Bounces {
                shadows: true,
                scatter: true,
                reflection: false,
                transmission: false,
            },
            SurfaceType::Reflective => Bounces {
                shadows: true,
                scatter: true,
                reflection: true,
                transmission: false,
            },
            SurfaceType::Refractive => Bounces {
                shadows: false,
                scatter: false,
                reflection: true,
                transmission: transmits,
            },
        }
    }

    /// Chooses the secondary rays of a hit on a surface of this type. A
    /// diffuse surface is lit directly and by one scattered sample; a
    /// reflective one adds the mirror ray to that; a refractive one always
    /// reflects, and transmits unless the light is reflected totally.
    pub fn bounces(self, transmits: bool) -> (rays: Bounces)
        ensures
            rays == self.spec_bounces(transmits),
    {
        match self {
            SurfaceType::Diffuse => Bounces {
                shadows: true,
                scatter: true,
                reflection: false,
                transmission: false,
            },
            SurfaceType::Reflective => Bounces {
                shadows: true,
                scatter: true,
                reflection: true,
                transmission: false,
            },
            SurfaceType::Refractive => Bounces {
                shadows: false,
                scatter: false,
                reflection: true,
                transmission: transmits,
            },
        }
    }
}

/// Where a cast ray gets its colour from.
#[derive(Clone, Copy, Debug)]
pub enum Step {
    /// The bounce budget is spent: the ray is black.
    Exhausted,
    /// The ray leaves the scene: it takes the background colour.
    Missed,
    /// The ray ends on an object, which is shaded according to its surface.
    /// Secondary rays of this hit are cast with the budget `depth`.
    Shade { hit: Intersection, surface: SurfaceType, depth: u32 },
}

/// The budgets along one path of the ray tree, from a primary ray down: every
/// ray but the first is a secondary ray, cast with one bounce less than the
/// ray before it, as [`Scene::cast_ray`] hands the budget out.
pub open spec fn spec_is_path(depths: Seq<u32>) -> bool {
    forall|i: int| 0 < i < depths.len() ==> #[trigger] depths[i] + 1 == depths[i - 1]
}

/// The recursion ends: on a path that starts with the budget `depths[0]` the
/// budget falls by one with every bounce, so the path has no more than
/// `depths[0]` bounces.
pub proof fn lemma_path_is_bounded(depths: Seq<u32>)
    requires
        depths.len() > 0,
        spec_is_path(depths),
    ensures
        depths.len() <= depths[0] + 1,
        forall|i: int| 0 <= i < depths.len() ==> #[trigger] depths[i] == depths[0] - i,
    decreases depths.len(),
{
    if depths.len() > 1 {
        let rest = depths.subrange(1, depths.len() as int);
        assert forall|i: int| 0 < i < rest.len() implies #[trigger] rest[i] + 1 == rest[i - 1] by {
            assert(depths[i + 1] + 1 == depths[i]);
        }
        lemma_path_is_bounded(rest);
        assert(depths[1] + 1 == depths[0]);
        assert forall|i: int| 0 <= i < depths.len() implies #[trigger] depths[i] == depths[0]
            - i by {
            if i > 0 {
                assert(rest[i - 1] == depths[i]);
            }
        }
    }
}

/// What a shadow ray finds between a point and a light.
#[derive(Clone, Copy, Debug, PartialEq, Eq, Structural)]
pub enum Shadow {
    /// No object is nearer than the light: the light contributes in full.
    Lit,
    /// The nearest object is nearer than the light and opaque: the light
    /// contributes nothing.
    Blocked,
    /// The nearest object is nearer than the light and refractive: it does
    /// not block, and the light is followed through it by casting the shadow
    /// ray itself.
    Through,
}

/// No object is hit nearer than `light_distance`: nothing stands between the
/// point and the light.
pub open spec fn spec_unoccluded(hits: Seq<Option<u64>>, light_distance: u64) -> bool {
    forall|j: int|
        0 <= j < hits.len() && (#[trigger] hits[j]) is Some ==> hits[j]->0 >= light_distance
}

/// The verdict on a shadow ray whose nearest hit has the given surface and
/// distance, for a light at `light_distance`. An object at or beyond the
/// light occludes nothing, whatever its surface.
pub open spec fn spec_shadow(surface: SurfaceType, distance: u64, light_distance: u64) -> Shadow {
    if distance >= light_distance {
        Shadow::Lit
    } else if surface is Refractive {
        Shadow::Through
    } else {
        Shadow::Blocked
    }
}

/// The part of a scene that steers the tracer: the surface type of every
/// object, in the order in which rays are tested against them, and the render
/// parameters.
pub struct Scene {
    /// Surface type of each object.
    pub surfaces: Vec<SurfaceType>,
    /// Image width in pixels.
    pub width: u32,
    /// Image height in pixels.
    pub height: u32,
    /// Bounce budget of a primary ray.
    pub max_recursion_depth: u32,
    /// Primary rays per pixel.
    pub max_rays: u32,
}

impl Scene {
    /// Decides one cast. `hits` holds, for each object of the scene, the key
    /// of the distance at which the ray meets it, or `None`; `depth` is the
    /// bounce budget of the ray.
    ///
    /// With no budget the ray is black, whatever it would hit: `hits` is not
    /// read then and may be left empty. Otherwise the ray is shaded at the
    /// nearest hit, by that object's surface and with one bounce less, or
    /// takes the background where it hits nothing.
    pub fn cast_ray(&self, hits: &Vec<Option<u64>>, depth: u32) -> (step: Step)
        requires
            depth > 0 ==> hits@.len() == self.surfaces@.len(),
        ensures
            depth == 0 ==> step is Exhausted,
            depth > 0 && !spec_any_hit(hits@) ==> step is Missed,
            depth > 0 && spec_any_hit(hits@) ==> {
                &&& step matches Step::Shade { hit, surface, depth: left }
                &&& spec_is_nearest(hits@, hit.object as int)
                &&& hits@[hit.object as int] == Some(hit.distance)
                &&& surface == self.surfaces@[hit.object as int]
                &&& left == depth - 1
            },
    {
        if depth == 0 {
            return Step::Exhausted;
        }
        match trace(hits) {
            Some(hit) => Step::Shade { hit, surface: self.surfaces[hit.object], depth: depth - 1 },
            None => Step::Missed,
        }
    }

    /// Decides whether a light reaches a point. `hits` holds the distance
    /// keys of the shadow ray, cast from the point toward the light, against
    /// each object; `light_distance` is the key of the distance to the light,
    /// infinite for a directional light.
    ///
    /// The light contributes in full exactly when no object is hit nearer
    /// than the light. Otherwise the nearest object on the ray decides: a
    /// refractive one lets the light through, any other blocks it.
    pub fn shadow(&self, hits: &Vec<Option<u64>>, light_distance: u64) -> (verdict: Shadow)
        requires
            hits@.len() == self.surfaces@.len(),
        ensures
            verdict == Shadow::Lit <==> spec_unoccluded(hits@, light_distance),
            forall|i: int| #[trigger]
                spec_is_nearest(hits@, i) ==> verdict == spec_shadow(
                    self.surfaces@[i],
                    hits@[i]->0,
                    light_distance,
                ),
    {
        match trace(hits) {
            Some(hit) => {
                proof {
                    assert forall|i: int| #[trigger] spec_is_nearest(hits@, i) implies i
                        == hit.object by {
                        crate::intersection::lemma_nearest_is_unique(hits@, i, hit.object as int);
                    }
                    assert(hits@[hit.object as int] is Some);
                }
                if hit.distance >= light_distance {
                    Shadow::Lit
                } else {
                    match self.surfaces[hit.object] {
                        SurfaceType::Refractive => Shadow::Through,
                        _ => Shadow::Blocked,
                    }
                }
            },
            None => Shadow::Lit,
        }
    }

    /// Whether primary rays are jittered inside their pixel: with one ray per
    /// pixel they are not.
    pub fn antialiased(&self) -> (jitter: bool)
        ensures
            jitter == (self.max_rays > 1),
    {
        self.max_rays > 1
    }

    /// Assembles the frame from the shaded pixels, given row by row from the
    /// top and left to right within a row. The frame holds four bytes for
    /// each pixel in that order, the last of them opaque.
    ///
    /// There is no frame when the number of pixels is not that of the scene's
    /// image, or when one row of it has more bytes than the machine can
    /// count.
    pub fn create_image(&self, pixels: &Vec<Pixel>) -> (made: Option<Frame>)
        ensures
            made is Some <==> pixels@.len() == spec_pixel_count(self.width, self.height) && 4
                * self.width <= usize::MAX,
            made matches Some(frame) ==> {
                &&& frame@ == spec_pack(pixels@)
                &&& frame.spec_width() == self.width
                &&& frame.spec_height() == self.height
            },
    {
        assert((self.width as u64) * (self.height as u64) <= 0xffff_ffff * 0xffff_ffff)
            by (nonlinear_arith);
        let count: u64 = (self.width as u64) * (self.height as u64);
        if pixels.len() as u64 != count {
            return None;
        }
        frame_from_vec(self.width, self.height, crate::frame::pack(pixels))
    }
}

} // verus!

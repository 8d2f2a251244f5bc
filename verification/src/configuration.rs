//! What a render is made of: a scene, a camera looking at it, an integrator
//! that estimates the light along each camera ray, and a sampler. A
//! configuration here is a description of those parts; the renderer builds
//! the parts from it. Numbers are kept exactly, as fractions of integers, so
//! that every constant of a scene is the one its `f32` literal denotes.
use vstd::prelude::*;

verus! {

/// The real number `numerator / denominator`.
#[derive(Clone, Copy, Debug, PartialEq, Eq, Structural)]
pub struct Ratio {
    pub numerator: i64,
    pub denominator: u64,
}

/// A point or a direction in space.
#[derive(Clone, Copy, Debug, PartialEq, Eq, Structural)]
pub struct Coordinates {
    pub x: Ratio,
    pub y: Ratio,
    pub z: Ratio,
}

/// An angle, as `pi` divided by a number.
#[derive(Clone, Copy, Debug, PartialEq, Eq, Structural)]
pub enum Angle {
    PiOver(Ratio),
}

/// A color, as its red, green and blue components.
#[derive(Clone, Copy, Debug, PartialEq, Eq, Structural)]
pub struct Rgb {
    pub r: Ratio,
    pub g: Ratio,
    pub b: Ratio,
}

/// How a surface scatters light.
#[derive(Clone, Copy, Debug, PartialEq, Eq, Structural)]
pub enum Material {
    /// A dielectric with the given refractive index.
    Glass { refractive_index: Ratio },
    /// A diffuse surface with the given albedo.
    Lambertian { albedo: Rgb },
    /// A metal with the given albedo, its reflections blurred by `fuzz`.
    Metal { albedo: Rgb, fuzz: Ratio },
}

/// The objects and lights of a scene.
#[derive(Clone, Copy, Debug, PartialEq, Eq, Structural)]
pub enum SceneDescription {
    /// One instance of the dragon mesh made of `material`, scaled uniformly
    /// by `scale` when there is one.
    Dragon { material: Material, scale: Option<Ratio> },
    /// `count` instances of the dragon mesh made of `material`; instance `i`
    /// is scaled by `base * (1 + scale_step * i)`, turned about the `y` axis
    /// by `angle_step * i` radians, and moved to distance
    /// `base * (1 + radius_step * i)` from the origin in that direction.
    DragonSpiral {
        material: Material,
        count: u32,
        base: Ratio,
        scale_step: Ratio,
        angle_step: Ratio,
        radius_step: Ratio,
    },
    /// Small spheres of radius `sphere_radius` scattered at random (from a
    /// generator seeded with `seed`) over a ground with albedo
    /// `ground_albedo`: the parallelogram with corner `ground_corner` and
    /// edges `ground_edge_u` and `ground_edge_v`. Three instances of one
    /// dragon: the mesh turned by `dragon_turn` about the `y` axis, scaled by
    /// `dragon_scale` and lifted so that its lowest point is at height 0;
    /// the instances are moved by `left_offset`, `middle_offset` and
    /// `right_offset` and made of `left`, `middle` and `right`.
    RandomSpheresWithDragons {
        seed: u64,
        sphere_radius: Ratio,
        ground_corner: Coordinates,
        ground_edge_u: Coordinates,
        ground_edge_v: Coordinates,
        ground_albedo: Rgb,
        dragon_turn: Angle,
        dragon_scale: Ratio,
        left_offset: Coordinates,
        middle_offset: Coordinates,
        right_offset: Coordinates,
        left: Material,
        middle: Material,
        right: Material,
    },
    /// The Cornell box with diffuse walls and boxes.
    CornellBox,
    /// The Cornell box with specular boxes.
    CornellBoxSpecular,
    /// The Cornell box holding a metal dragon.
    CornellBoxMetalDragon,
    /// The scene of `smallpt`.
    Smallpt,
}

/// Where the camera stands and where it looks.
#[derive(Clone, Copy, Debug, PartialEq, Eq, Structural)]
pub enum CameraDescription {
    /// A pinhole camera at `center`, looking along `direction`, with `up`
    /// pointing up and the given vertical field of view.
    WithoutLens { center: Coordinates, direction: Coordinates, up: Coordinates, field_of_view: Angle },
    /// A thin-lens camera at `center`, looking along `direction`, with `up`
    /// pointing up, the given vertical field of view and lens `aperture`,
    /// focused at the distance from `center` to `focus_point`.
    WithLens {
        center: Coordinates,
        direction: Coordinates,
        up: Coordinates,
        field_of_view: Angle,
        aperture: Ratio,
        focus_point: Coordinates,
    },
    /// The camera that looks into the Cornell box.
    CornellBox,
}

/// How the light along a camera ray is estimated.
#[derive(Clone, Copy, Debug, PartialEq, Eq, Structural)]
pub enum IntegratorDescription {
    /// Shades a hit by the cosine between the ray and the surface normal.
    DebuggerRayCastingDotNormal,
    /// Path tracing with its default background.
    PathTrace,
    /// Path tracing with the given background color.
    PathTraceWithBackground { background: Rgb },
}

/// Which sampler draws the samples of each pixel.
#[derive(Clone, Copy, Debug, PartialEq, Eq, Structural)]
pub enum SamplerDescription {
    /// The stratified sampler.
    Stratified,
}

/// Everything a render needs.
#[derive(Clone, Copy, Debug, PartialEq, Eq, Structural)]
pub struct Configuration {
    pub scene: SceneDescription,
    pub camera: CameraDescription,
    pub integrator: IntegratorDescription,
    pub sampler: SamplerDescription,
}

/// The number `numerator / denominator`.
pub open spec fn ratio(numerator: i64, denominator: u64) -> Ratio {
    Ratio { numerator, denominator }
}

/// The color `(r, g, b)`.
pub open spec fn rgb(r: Ratio, g: Ratio, b: Ratio) -> Rgb {
    Rgb { r, g, b }
}

/// The point or direction `(x, y, z)`.
pub open spec fn coordinates(x: Ratio, y: Ratio, z: Ratio) -> Coordinates {
    Coordinates { x, y, z }
}

} // verus!

//! The configurations of the bundled test scenes.
use vstd::prelude::*;
use crate::configuration::coordinates;
use crate::configuration::ratio;
use crate::configuration::rgb;
use crate::configuration::Rgb;
use crate::configuration::Angle;
use crate::configuration::CameraDescription;
use crate::configuration::Configuration;
use crate::configuration::Coordinates;
use crate::configuration::IntegratorDescription;
use crate::configuration::Material;
use crate::configuration::Ratio;
use crate::configuration::SamplerDescription;
use crate::configuration::SceneDescription;

verus! {

/// The whole number `n`.
pub open spec fn whole(n: i64) -> Ratio {
    ratio(n, 1)
}

/// The direction of the positive `x` axis.
pub open spec fn x_axis() -> Coordinates {
    coordinates(whole(1), whole(0), whole(0))
}

/// The direction of the positive `y` axis, which is up in every scene.
pub open spec fn y_axis() -> Coordinates {
    coordinates(whole(0), whole(1), whole(0))
}

/// The whole number `n`, as a ratio over one.
fn whole_exec(n: i64) -> (r: Ratio)
    ensures
        r == whole(n),
{
    Ratio { numerator: n, denominator: 1 }
}

/// The point or direction `(x, y, z)`.
fn coordinates_exec(x: Ratio, y: Ratio, z: Ratio) -> (c: Coordinates)
    ensures
        c == coordinates(x, y, z),
{
    Coordinates { x, y, z }
}

/// A glass dragon (refractive index 1.5) floating before a pinhole camera at
/// `(-2.9, 0, 0)` that looks along `x` with a field of view of `pi / 6`,
/// shaded by the normal-dot-ray debugger and sampled by the stratified
/// sampler.
pub fn create_dragon_in_the_air() -> (configuration: Configuration)
    ensures
        configuration.scene == (SceneDescription::Dragon {
            material: Material::Glass { refractive_index: ratio(15, 10) },
            scale: None,
        }),
        configuration.camera == (CameraDescription::WithoutLens {
            center: coordinates(ratio(-29i64, 10), whole(0), whole(0)),
            direction: x_axis(),
            up: y_axis(),
            field_of_view: Angle::PiOver(whole(6)),
        }),
        configuration.integrator == IntegratorDescription::DebuggerRayCastingDotNormal,
        configuration.sampler == SamplerDescription::Stratified,
{
    let glass = Material::Glass { refractive_index: Ratio { numerator: 15, denominator: 10 } };
    let camera = CameraDescription::WithoutLens {
        center: coordinates_exec(Ratio { numerator: -29, denominator: 10 }, whole_exec(0), whole_exec(0)),
        direction: coordinates_exec(whole_exec(1), whole_exec(0), whole_exec(0)),
        up: coordinates_exec(whole_exec(0), whole_exec(1), whole_exec(0)),
        field_of_view: Angle::PiOver(whole_exec(6)),
    };
    Configuration {
        scene: SceneDescription::Dragon { material: glass, scale: None },
        camera,
        integrator: IntegratorDescription::DebuggerRayCastingDotNormal,
        sampler: SamplerDescription::Stratified,
    }
}

/// The dragon, made of glass with refractive index 1 and scaled by 400,
/// seen from far away: a pinhole camera at `(-2.2 - 1200, 0, 0)` that looks
/// along `x` with a field of view of `pi / 6`, shaded by the normal-dot-ray
/// debugger and sampled by the stratified sampler.
pub fn create_transformed_dragon_in_the_air() -> (configuration: Configuration)
    ensures
        configuration.scene == (SceneDescription::Dragon {
            material: Material::Glass { refractive_index: whole(1) },
            scale: Some(whole(400)),
        }),
        configuration.camera == (CameraDescription::WithoutLens {
            center: coordinates(ratio(-12022i64, 10), whole(0), whole(0)),
            direction: x_axis(),
            up: y_axis(),
            field_of_view: Angle::PiOver(whole(6)),
        }),
        configuration.integrator == IntegratorDescription::DebuggerRayCastingDotNormal,
        configuration.sampler == SamplerDescription::Stratified,
{
    let offset: i64 = 12000;
    let camera = CameraDescription::WithoutLens {
        center: coordinates_exec(
            Ratio { numerator: -22 - offset, denominator: 10 },
            whole_exec(0),
            whole_exec(0),
        ),
        direction: coordinates_exec(whole_exec(1), whole_exec(0), whole_exec(0)),
        up: coordinates_exec(whole_exec(0), whole_exec(1), whole_exec(0)),
        field_of_view: Angle::PiOver(whole_exec(6)),
    };
    Configuration {
        scene: SceneDescription::Dragon {
            material: Material::Glass { refractive_index: whole_exec(1) },
            scale: Some(whole_exec(400)),
        },
        camera,
        integrator: IntegratorDescription::DebuggerRayCastingDotNormal,
        sampler: SamplerDescription::Stratified,
    }
}

/// A spiral of 2000 glass dragons (refractive index 1.5): instance `i` is
/// scaled by `20000 * (1 + 0.04 i)`, turned by `0.2 i` radians and placed at
/// distance `20000 * (1 + 0.13 i)`. A pinhole camera stands at
/// `(-7, 4, 0) - 20000 * 10 * (7, -4, 0)`, looking towards the origin along
/// `(7, -4, 0)` with a field of view of `pi / 6`; shaded by the normal-dot-ray
/// debugger and sampled by the stratified sampler.
pub fn create_bvh_many_dragons() -> (configuration: Configuration)
    ensures
        configuration.scene == (SceneDescription::DragonSpiral {
            material: Material::Glass { refractive_index: ratio(15, 10) },
            count: 2000,
            base: whole(20000),
            scale_step: ratio(4, 100),
            angle_step: ratio(2, 10),
            radius_step: ratio(13, 100),
        }),
        configuration.camera == (CameraDescription::WithoutLens {
            center: coordinates(whole(-1400007i64), whole(800004), whole(0)),
            direction: coordinates(whole(7), whole(-4i64), whole(0)),
            up: y_axis(),
            field_of_view: Angle::PiOver(whole(6)),
        }),
        configuration.integrator == IntegratorDescription::DebuggerRayCastingDotNormal,
        configuration.sampler == SamplerDescription::Stratified,
{
    let glass = Material::Glass { refractive_index: Ratio { numerator: 15, denominator: 10 } };
    let ratio_scale: i64 = 20000;
    let (origin_x, origin_y, origin_z): (i64, i64, i64) = (-7, 4, 0);
    let (look_x, look_y, look_z): (i64, i64, i64) = (0 - origin_x, 0 - origin_y, 0 - origin_z);
    let camera = CameraDescription::WithoutLens {
        center: coordinates_exec(
            whole_exec(origin_x - ratio_scale * look_x * 10),
            whole_exec(origin_y - ratio_scale * look_y * 10),
            whole_exec(origin_z - ratio_scale * look_z * 10),
        ),
        direction: coordinates_exec(whole_exec(look_x), whole_exec(look_y), whole_exec(look_z)),
        up: coordinates_exec(whole_exec(0), whole_exec(1), whole_exec(0)),
        field_of_view: Angle::PiOver(whole_exec(6)),
    };
    Configuration {
        scene: SceneDescription::DragonSpiral {
            material: glass,
            count: 2000,
            base: whole_exec(ratio_scale),
            scale_step: Ratio { numerator: 4, denominator: 100 },
            angle_step: Ratio { numerator: 2, denominator: 10 },
            radius_step: Ratio { numerator: 13, denominator: 100 },
        },
        camera,
        integrator: IntegratorDescription::DebuggerRayCastingDotNormal,
        sampler: SamplerDescription::Stratified,
    }
}

/// The scene of "Ray Tracing in One Weekend" with three dragons: spheres of
/// radius 0.2 placed from a generator seeded with 11 on a 40 by 40 ground of
/// albedo 0.5 centred on the origin, and a dragon turned half a turn and
/// scaled by 2.5, standing on the ground at `x = -4, 0, 4`, made of a diffuse
/// `(0.4, 0.2, 0.1)`, glass of index 1.5, and a polished metal
/// `(0.7, 0.6, 0.5)`. A thin-lens camera at `(13, 2, 3)` looks at the origin
/// with a field of view of `pi / 6` and an aperture of 0.1, focused on
/// `(0, 1, 0)`; path traced against a `(0.7, 0.8, 1)` sky and sampled by the
/// stratified sampler.
pub fn create_rt_weekend() -> (configuration: Configuration)
    ensures
        configuration.scene == (SceneDescription::RandomSpheresWithDragons {
            seed: 11,
            sphere_radius: ratio(2, 10),
            ground_corner: coordinates(whole(-20i64), whole(0), whole(-20i64)),
            ground_edge_u: coordinates(whole(40), whole(0), whole(0)),
            ground_edge_v: coordinates(whole(0), whole(0), whole(40)),
            ground_albedo: rgb(ratio(5, 10), ratio(5, 10), ratio(5, 10)),
            dragon_turn: Angle::PiOver(whole(1)),
            dragon_scale: ratio(25, 10),
            left_offset: coordinates(whole(-4i64), whole(0), whole(0)),
            middle_offset: coordinates(whole(0), whole(0), whole(0)),
            right_offset: coordinates(whole(4), whole(0), whole(0)),
            left: Material::Lambertian { albedo: rgb(ratio(4, 10), ratio(2, 10), ratio(1, 10)) },
            middle: Material::Glass { refractive_index: ratio(15, 10) },
            right: Material::Metal {
                albedo: rgb(ratio(7, 10), ratio(6, 10), ratio(5, 10)),
                fuzz: whole(0),
            },
        }),
        configuration.camera == (CameraDescription::WithLens {
            center: coordinates(whole(13), whole(2), whole(3)),
            direction: coordinates(whole(-13i64), whole(-2i64), whole(-3i64)),
            up: y_axis(),
            field_of_view: Angle::PiOver(whole(6)),
            aperture: ratio(1, 10),
            focus_point: coordinates(whole(0), whole(1), whole(0)),
        }),
        configuration.integrator == (IntegratorDescription::PathTraceWithBackground {
            background: rgb(ratio(7, 10), ratio(8, 10), whole(1)),
        }),
        configuration.sampler == SamplerDescription::Stratified,
{
    let tenths = |n: i64| -> (r: Ratio)
        ensures
            r == ratio(n, 10),
        { Ratio { numerator: n, denominator: 10 } };
    let (center_x, center_y, center_z): (i64, i64, i64) = (13, 2, 3);
    let camera = CameraDescription::WithLens {
        center: coordinates_exec(whole_exec(center_x), whole_exec(center_y), whole_exec(center_z)),
        direction: coordinates_exec(
            whole_exec(0 - center_x),
            whole_exec(0 - center_y),
            whole_exec(0 - center_z),
        ),
        up: coordinates_exec(whole_exec(0), whole_exec(1), whole_exec(0)),
        field_of_view: Angle::PiOver(whole_exec(6)),
        aperture: tenths(1),
        focus_point: coordinates_exec(whole_exec(0), whole_exec(1), whole_exec(0)),
    };
    let length: i64 = 40;
    let scene = SceneDescription::RandomSpheresWithDragons {
        seed: 11,
        sphere_radius: tenths(2),
        ground_corner: coordinates_exec(
            whole_exec(0 - length / 2),
            whole_exec(0),
            whole_exec(0 - length / 2),
        ),
        ground_edge_u: coordinates_exec(whole_exec(length), whole_exec(0), whole_exec(0)),
        ground_edge_v: coordinates_exec(whole_exec(0), whole_exec(0), whole_exec(length)),
        ground_albedo: Rgb { r: tenths(5), g: tenths(5), b: tenths(5) },
        dragon_turn: Angle::PiOver(whole_exec(1)),
        dragon_scale: tenths(25),
        left_offset: coordinates_exec(whole_exec(-4), whole_exec(0), whole_exec(0)),
        middle_offset: coordinates_exec(whole_exec(0), whole_exec(0), whole_exec(0)),
        right_offset: coordinates_exec(whole_exec(4), whole_exec(0), whole_exec(0)),
        left: Material::Lambertian { albedo: Rgb { r: tenths(4), g: tenths(2), b: tenths(1) } },
        middle: Material::Glass { refractive_index: tenths(15) },
        right: Material::Metal {
            albedo: Rgb { r: tenths(7), g: tenths(6), b: tenths(5) },
            fuzz: whole_exec(0),
        },
    };
    Configuration {
        scene,
        camera,
        integrator: IntegratorDescription::PathTraceWithBackground {
            background: Rgb { r: tenths(7), g: tenths(8), b: whole_exec(1) },
        },
        sampler: SamplerDescription::Stratified,
    }
}

/// The Cornell box holding a metal dragon, path traced.
pub fn create_cornell_box_dragon() -> (configuration: Configuration)
    ensures
        configuration.scene == SceneDescription::CornellBoxMetalDragon,
        configuration.camera == CameraDescription::CornellBox,
        configuration.integrator == IntegratorDescription::PathTrace,
        configuration.sampler == SamplerDescription::Stratified,
{
    Configuration {
        scene: SceneDescription::CornellBoxMetalDragon,
        camera: CameraDescription::CornellBox,
        integrator: IntegratorDescription::PathTrace,
        sampler: SamplerDescription::Stratified,
    }
}

/// The diffuse Cornell box, path traced.
pub fn create_cornell_box_lambertian() -> (configuration: Configuration)
    ensures
        configuration.scene == SceneDescription::CornellBox,
        configuration.camera == CameraDescription::CornellBox,
        configuration.integrator == IntegratorDescription::PathTrace,
        configuration.sampler == SamplerDescription::Stratified,
{
    Configuration {
        scene: SceneDescription::CornellBox,
        camera: CameraDescription::CornellBox,
        integrator: IntegratorDescription::PathTrace,
        sampler: SamplerDescription::Stratified,
    }
}

/// The Cornell box with specular boxes, path traced.
pub fn create_cornell_box_specular() -> (configuration: Configuration)
    ensures
        configuration.scene == SceneDescription::CornellBoxSpecular,
        configuration.camera == CameraDescription::CornellBox,
        configuration.integrator == IntegratorDescription::PathTrace,
        configuration.sampler == SamplerDescription::Stratified,
{
    Configuration {
        scene: SceneDescription::CornellBoxSpecular,
        camera: CameraDescription::CornellBox,
        integrator: IntegratorDescription::PathTrace,
        sampler: SamplerDescription::Stratified,
    }
}

/// The scene of `smallpt`, path traced, seen by a pinhole camera at
/// `(50, 52, 275.6)` looking along `(0, -0.042612, -1)` with a field of view
/// of `pi / 4.3`.
pub fn create_smallpt() -> (configuration: Configuration)
    ensures
        configuration.scene == SceneDescription::Smallpt,
        configuration.camera == (CameraDescription::WithoutLens {
            center: coordinates(whole(50), whole(52), ratio(2756, 10)),
            direction: coordinates(whole(0), ratio(-42612i64, 1000000), whole(-1i64)),
            up: y_axis(),
            field_of_view: Angle::PiOver(ratio(43, 10)),
        }),
        configuration.integrator == IntegratorDescription::PathTrace,
        configuration.sampler == SamplerDescription::Stratified,
{
    let camera = CameraDescription::WithoutLens {
        center: coordinates_exec(whole_exec(50), whole_exec(52), Ratio { numerator: 2756, denominator: 10 }),
        direction: coordinates_exec(
            whole_exec(0),
            Ratio { numerator: -42612, denominator: 1000000 },
            whole_exec(-1),
        ),
        up: coordinates_exec(whole_exec(0), whole_exec(1), whole_exec(0)),
        field_of_view: Angle::PiOver(Ratio { numerator: 43, denominator: 10 }),
    };
    Configuration {
        scene: SceneDescription::Smallpt,
        camera,
        integrator: IntegratorDescription::PathTrace,
        sampler: SamplerDescription::Stratified,
    }
}

} // verus!

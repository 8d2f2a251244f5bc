use pbrt::configuration::Angle;
use pbrt::configuration::CameraDescription;
use pbrt::configuration::IntegratorDescription;
use pbrt::configuration::Material;
use pbrt::configuration::Ratio;
use pbrt::configuration::SamplerDescription;
use pbrt::configuration::SceneDescription;
use pbrt::configurations::create_bvh_many_dragons;
use pbrt::configurations::create_cornell_box_dragon;
use pbrt::configurations::create_rt_weekend;
use pbrt::configuration::Rgb;
use pbrt::configurations::create_cornell_box_lambertian;
use pbrt::configurations::create_cornell_box_specular;
use pbrt::configurations::create_dragon_in_the_air;
use pbrt::configurations::create_smallpt;
use pbrt::configurations::create_transformed_dragon_in_the_air;
use std::f32::consts::PI;

fn f(r: Ratio) -> f32 {
    r.numerator as f32 / r.denominator as f32
}

fn pi_over(a: Angle) -> f32 {
    match a {
        Angle::PiOver(r) => PI / f(r),
    }
}

#[test]
fn dragon_in_the_air_configuration() {
    let c = create_dragon_in_the_air();
    match c.scene {
        SceneDescription::Dragon { material: Material::Glass { refractive_index }, scale } => {
            assert_eq!(f(refractive_index), 1.5);
            assert_eq!(scale, None);
        }
        other => panic!("unexpected scene {:?}", other),
    }
    match c.camera {
        CameraDescription::WithoutLens { center, direction, up, field_of_view } => {
            assert_eq!((f(center.x), f(center.y), f(center.z)), (-2.9, 0.0, 0.0));
            assert_eq!((f(direction.x), f(direction.y), f(direction.z)), (1.0, 0.0, 0.0));
            assert_eq!((f(up.x), f(up.y), f(up.z)), (0.0, 1.0, 0.0));
            assert_eq!(pi_over(field_of_view), PI / 6.0);
        }
        other => panic!("unexpected camera {:?}", other),
    }
    assert_eq!(c.integrator, IntegratorDescription::DebuggerRayCastingDotNormal);
    assert_eq!(c.sampler, SamplerDescription::Stratified);
}

#[test]
fn transformed_dragon_configuration() {
    let c = create_transformed_dragon_in_the_air();
    match c.scene {
        SceneDescription::Dragon { material: Material::Glass { refractive_index }, scale } => {
            assert_eq!(f(refractive_index), 1.0);
            assert_eq!(scale.map(f), Some(400.0));
        }
        other => panic!("unexpected scene {:?}", other),
    }
    let offset: f32 = 1200.0;
    match c.camera {
        CameraDescription::WithoutLens { center, field_of_view, .. } => {
            assert_eq!(f(center.x), -2.2 - offset);
            assert_eq!(pi_over(field_of_view), PI / 6.0);
        }
        other => panic!("unexpected camera {:?}", other),
    }
    assert_eq!(c.integrator, IntegratorDescription::DebuggerRayCastingDotNormal);
}

#[test]
fn cornell_box_configurations() {
    let cases = [
        (create_cornell_box_dragon(), SceneDescription::CornellBoxMetalDragon),
        (create_cornell_box_lambertian(), SceneDescription::CornellBox),
        (create_cornell_box_specular(), SceneDescription::CornellBoxSpecular),
    ];
    for (c, scene) in cases {
        assert_eq!(c.scene, scene);
        assert_eq!(c.camera, CameraDescription::CornellBox);
        assert_eq!(c.integrator, IntegratorDescription::PathTrace);
        assert_eq!(c.sampler, SamplerDescription::Stratified);
    }
}

#[test]
fn smallpt_configuration() {
    let c = create_smallpt();
    assert_eq!(c.scene, SceneDescription::Smallpt);
    match c.camera {
        CameraDescription::WithoutLens { center, direction, up, field_of_view } => {
            assert_eq!((f(center.x), f(center.y), f(center.z)), (50.0, 52.0, 275.6));
            assert_eq!((f(direction.x), f(direction.y), f(direction.z)), (0.0, -0.042612, -1.0));
            assert_eq!((f(up.x), f(up.y), f(up.z)), (0.0, 1.0, 0.0));
            assert_eq!(pi_over(field_of_view), PI / 4.3);
        }
        other => panic!("unexpected camera {:?}", other),
    }
    assert_eq!(c.integrator, IntegratorDescription::PathTrace);
}

fn color(c: Rgb) -> (f32, f32, f32) {
    (f(c.r), f(c.g), f(c.b))
}

#[test]
fn bvh_many_dragons_configuration() {
    let c = create_bvh_many_dragons();
    match c.scene {
        SceneDescription::DragonSpiral { material: Material::Glass { refractive_index }, count, base, scale_step, angle_step, radius_step } => {
            assert_eq!(f(refractive_index), 1.5);
            assert_eq!(count, 2000);
            assert_eq!(f(base), 20000.0);
            assert_eq!(f(scale_step), 0.04);
            assert_eq!(f(angle_step), 0.2);
            assert_eq!(f(radius_step), 0.13);
        }
        other => panic!("unexpected scene {:?}", other),
    }
    let ratio: f32 = 20000.0;
    let origin = [-7.0f32, 4.0, 0.0];
    let look_at = [0.0 - origin[0], 0.0 - origin[1], 0.0 - origin[2]];
    match c.camera {
        CameraDescription::WithoutLens { center, direction, up, field_of_view } => {
            for k in 0..3 {
                let expected = origin[k] + (-ratio * look_at[k] * 10.0);
                let got = [center.x, center.y, center.z][k];
                assert_eq!(f(got), expected);
            }
            assert_eq!((f(direction.x), f(direction.y), f(direction.z)), (7.0, -4.0, 0.0));
            assert_eq!((f(up.x), f(up.y), f(up.z)), (0.0, 1.0, 0.0));
            assert_eq!(pi_over(field_of_view), PI / 6.0);
        }
        other => panic!("unexpected camera {:?}", other),
    }
    assert_eq!(c.integrator, IntegratorDescription::DebuggerRayCastingDotNormal);
    assert_eq!(c.sampler, SamplerDescription::Stratified);
}

#[test]
fn rt_weekend_configuration() {
    let c = create_rt_weekend();
    match c.scene {
        SceneDescription::RandomSpheresWithDragons { seed, sphere_radius, ground_corner, ground_edge_u, ground_edge_v, ground_albedo, dragon_turn, dragon_scale, left_offset, middle_offset, right_offset, left, middle, right } => {
            let length: f32 = 40.0;
            let point = |c: pbrt::configuration::Coordinates| (f(c.x), f(c.y), f(c.z));
            assert_eq!(seed, 11);
            assert_eq!(f(sphere_radius), 0.2);
            assert_eq!(point(ground_corner), (-length / 2.0, 0.0, -length / 2.0));
            assert_eq!(point(ground_edge_u), (length, 0.0, 0.0));
            assert_eq!(point(ground_edge_v), (0.0, 0.0, length));
            assert_eq!(color(ground_albedo), (0.5, 0.5, 0.5));
            assert_eq!(pi_over(dragon_turn), PI);
            assert_eq!(f(dragon_scale), 2.5);
            assert_eq!(point(left_offset), (-4.0, 0.0, 0.0));
            assert_eq!(point(middle_offset), (0.0, 0.0, 0.0));
            assert_eq!(point(right_offset), (4.0, 0.0, 0.0));
            match left {
                Material::Lambertian { albedo } => assert_eq!(color(albedo), (0.4, 0.2, 0.1)),
                other => panic!("unexpected material {:?}", other),
            }
            match middle {
                Material::Glass { refractive_index } => assert_eq!(f(refractive_index), 1.5),
                other => panic!("unexpected material {:?}", other),
            }
            match right {
                Material::Metal { albedo, fuzz } => {
                    assert_eq!(color(albedo), (0.7, 0.6, 0.5));
                    assert_eq!(f(fuzz), 0.0);
                }
                other => panic!("unexpected material {:?}", other),
            }
        }
        other => panic!("unexpected scene {:?}", other),
    }
    match c.camera {
        CameraDescription::WithLens { center, direction, up, field_of_view, aperture, focus_point } => {
            assert_eq!((f(center.x), f(center.y), f(center.z)), (13.0, 2.0, 3.0));
            assert_eq!((f(direction.x), f(direction.y), f(direction.z)), (-13.0, -2.0, -3.0));
            assert_eq!((f(up.x), f(up.y), f(up.z)), (0.0, 1.0, 0.0));
            assert_eq!(pi_over(field_of_view), PI / 6.0);
            assert_eq!(f(aperture), 0.1);
            assert_eq!((f(focus_point.x), f(focus_point.y), f(focus_point.z)), (0.0, 1.0, 0.0));
        }
        other => panic!("unexpected camera {:?}", other),
    }
    match c.integrator {
        IntegratorDescription::PathTraceWithBackground { background } => {
            assert_eq!(color(background), (0.7, 0.8, 1.0));
        }
        other => panic!("unexpected integrator {:?}", other),
    }
    assert_eq!(c.sampler, SamplerDescription::Stratified);
}

use raymarcher::march::RayState;
use raymarcher::shading::{plan_bounce, plan_shading, Blend, BounceKind, ShadePlan};

fn camera_ray() -> RayState {
    RayState::primary()
}

fn bounced_ray() -> RayState {
    RayState { bounce_depth: 3, initial: false, fog_collision_check: true }
}

#[test]
fn sun_method_one_diffuse_gathers_direct_and_split_indirect() {
    assert_eq!(
        plan_shading(&camera_ray(), 1, 1, false, 4),
        ShadePlan { indirect_rays: 4, direct: true, blend: Blend::Diffuse }
    );
    assert_eq!(
        plan_shading(&bounced_ray(), 1, 1, true, 4),
        ShadePlan { indirect_rays: 1, direct: true, blend: Blend::Diffuse }
    );
}

#[test]
fn sun_method_one_models() {
    let r = bounced_ray();
    assert_eq!(plan_shading(&r, 1, 2, false, 1).blend, Blend::Mirror);
    assert!(!plan_shading(&r, 1, 2, false, 1).direct);
    assert_eq!(plan_shading(&r, 1, 3, false, 1).blend, Blend::Refract);
    assert_eq!(plan_shading(&r, 1, 4, false, 1), ShadePlan { indirect_rays: 1, direct: true, blend: Blend::Fog });
    assert_eq!(plan_shading(&r, 1, 7, false, 1), ShadePlan { indirect_rays: 1, direct: false, blend: Blend::Black });
}

#[test]
fn sun_method_two_emissive_glows_without_rays() {
    assert_eq!(
        plan_shading(&camera_ray(), 2, 1, true, 8),
        ShadePlan { indirect_rays: 0, direct: false, blend: Blend::Emit }
    );
}

#[test]
fn sun_method_two_non_emissive() {
    assert_eq!(
        plan_shading(&camera_ray(), 2, 1, false, 2),
        ShadePlan { indirect_rays: 2, direct: false, blend: Blend::Diffuse }
    );
    assert_eq!(
        plan_shading(&bounced_ray(), 2, 4, false, 2),
        ShadePlan { indirect_rays: 1, direct: true, blend: Blend::Fog }
    );
}

#[test]
fn unknown_sun_method_is_black() {
    assert_eq!(
        plan_shading(&camera_ray(), 3, 1, true, 5),
        ShadePlan { indirect_rays: 0, direct: false, blend: Blend::Black }
    );
}

#[test]
fn non_positive_splits_gather_nothing_for_camera_rays() {
    assert_eq!(plan_shading(&camera_ray(), 1, 1, false, 0).indirect_rays, 0);
    assert_eq!(plan_shading(&camera_ray(), 1, 1, false, -3).indirect_rays, 0);
    assert_eq!(plan_shading(&camera_ray(), 1, 1, false, 127).indirect_rays, 127);
}

#[test]
fn bounce_kinds_by_model() {
    assert_eq!(plan_bounce(1), BounceKind::Diffuse);
    assert_eq!(plan_bounce(2), BounceKind::Mirror);
    assert_eq!(plan_bounce(3), BounceKind::Refract);
    assert_eq!(plan_bounce(4), BounceKind::Scatter);
    assert_eq!(plan_bounce(0), BounceKind::Absorb);
    assert_eq!(plan_bounce(-1), BounceKind::Absorb);
}

#[test]
fn spawned_rays_keep_depth_and_check_fog() {
    let parent = RayState { bounce_depth: 4, initial: true, fog_collision_check: false };
    assert_eq!(
        parent.spawn(BounceKind::Mirror),
        RayState { bounce_depth: 4, initial: true, fog_collision_check: true }
    );
    for kind in [BounceKind::Diffuse, BounceKind::Refract, BounceKind::Scatter] {
        assert_eq!(
            parent.spawn(kind),
            RayState { bounce_depth: 4, initial: false, fog_collision_check: true }
        );
    }
}

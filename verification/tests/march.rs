use raymarcher::march::{March, MarchLimits, RayState, StepOutcome};

fn limits(max_steps: u32, max_bounce_depth: u8) -> MarchLimits {
    MarchLimits { max_steps, max_bounce_depth }
}

#[test]
fn fresh_march_starts_at_one() {
    let m = March::new(RayState::primary());
    assert_eq!(m.steps, 1);
    assert_eq!(m.ray, RayState { bounce_depth: 0, initial: true, fog_collision_check: true });
}

#[test]
fn step_budget_grants_max_steps_minus_one_samples() {
    let l = limits(5, 10);
    let mut m = March::new(RayState::primary());
    let mut granted = 0;
    while m.begin_step(&l) {
        granted += 1;
    }
    assert_eq!(granted, 4);
    assert_eq!(m.steps, 6);
}

#[test]
fn zero_and_one_step_budgets_grant_nothing() {
    for max in [0u32, 1] {
        let mut m = March::new(RayState::primary());
        assert!(!m.begin_step(&limits(max, 10)));
        assert_eq!(m.steps, 2);
    }
}

#[test]
fn escaping_wins_over_hitting() {
    let mut m = March::new(RayState::primary());
    assert_eq!(m.end_step(&limits(10, 10), true, true, true), StepOutcome::Escaped);
    assert_eq!(m.ray.bounce_depth, 0);
}

#[test]
fn hit_below_limit_is_shaded_and_deepens() {
    let mut m = March::new(RayState::primary());
    assert_eq!(m.end_step(&limits(10, 2), false, false, true), StepOutcome::Shade);
    assert_eq!(m.ray.bounce_depth, 1);
    assert_eq!(m.end_step(&limits(10, 2), true, false, false), StepOutcome::Shade);
    assert_eq!(m.ray.bounce_depth, 2);
    assert_eq!(m.end_step(&limits(10, 2), false, false, true), StepOutcome::DepthLimit);
    assert_eq!(m.ray.bounce_depth, 2);
}

#[test]
fn nothing_found_continues() {
    let mut m = March::new(RayState::primary());
    let before = m;
    assert_eq!(m.end_step(&limits(10, 2), false, false, false), StepOutcome::Continue);
    assert_eq!(m, before);
}

#[test]
fn zero_bounce_limit_never_shades() {
    let mut m = March::new(RayState::primary());
    assert_eq!(m.end_step(&limits(10, 0), false, false, true), StepOutcome::DepthLimit);
}

#[test]
fn bounce_chain_from_depth_two_allows_three_shades_with_limit_five() {
    let l = limits(10, 5);
    let mut ray = RayState { bounce_depth: 2, initial: false, fog_collision_check: true };
    let mut shades = 0;
    loop {
        let mut m = March::new(ray);
        match m.end_step(&l, false, false, true) {
            StepOutcome::Shade => {
                shades += 1;
                ray = m.ray;
            }
            other => {
                assert_eq!(other, StepOutcome::DepthLimit);
                break;
            }
        }
    }
    assert_eq!(shades, 3);
    assert_eq!(ray.bounce_depth, 5);
}

#[test]
fn shadow_rays_stop_at_first_hit() {
    let shadow = RayState::shadow();
    assert_eq!(shadow, RayState { bounce_depth: 100, initial: false, fog_collision_check: false });
    let mut m = March::new(shadow);
    assert!(!m.fog_scatter(true, true));
    assert_eq!(m.end_step(&limits(1000, 10), false, false, true), StepOutcome::DepthLimit);
    assert_eq!(m.end_step(&limits(1000, 100), false, false, true), StepOutcome::DepthLimit);
}

#[test]
fn fog_scatter_needs_all_three_conditions() {
    let m = March::new(RayState::primary());
    assert!(m.fog_scatter(true, true));
    assert!(!m.fog_scatter(false, true));
    assert!(!m.fog_scatter(true, false));
}

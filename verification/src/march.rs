//! The step and bounce budget of one marched ray.
//!
//! A ray advances through the scene one distance-field sample at a time. Each
//! iteration first asks [`March::begin_step`] whether the step budget allows
//! another sample; the caller then evaluates the distance field, lets
//! [`March::fog_scatter`] decide whether the ray scatters in fog, moves the ray
//! and reports what it found to [`March::end_step`], which says whether the ray
//! escaped the scene, ran out of bounces, must be shaded, or keeps marching.
use vstd::prelude::*;

verus! {

/// The limits that bound every marched ray.
#[derive(Clone, Copy, Debug, PartialEq, Eq)]
pub struct MarchLimits {
    /// A ray is stopped once its step counter exceeds this value.
    pub max_steps: u32,
    /// A surface hit at this bounce depth or deeper is not shaded.
    pub max_bounce_depth: u8,
}

/// The integer and flag state that a ray carries from bounce to bounce.
#[derive(Clone, Copy, Debug, PartialEq, Eq)]
pub struct RayState {
    /// How many surfaces the ray's ancestors have been shaded at.
    pub bounce_depth: u8,
    /// Whether the ray may be split into several indirect rays at its next hit.
    pub initial: bool,
    /// Whether the ray can scatter in fog.
    pub fog_collision_check: bool,
}

impl RayState {
    /// The state of a ray leaving the camera.
    pub fn primary() -> (ray: RayState)
        ensures
            ray.bounce_depth == 0,
            ray.initial,
            ray.fog_collision_check,
    {
        RayState { bounce_depth: 0, initial: true, fog_collision_check: true }
    }

    /// The state of a ray cast towards the sun to test for shadow.
    pub fn shadow() -> (ray: RayState)
        ensures
            ray.bounce_depth == 100,
            !ray.initial,
            !ray.fog_collision_check,
    {
        RayState { bounce_depth: 100, initial: false, fog_collision_check: false }
    }
}

/// What a march step found once the ray has moved.
#[derive(Clone, Copy, Debug, PartialEq, Eq)]
pub enum StepOutcome {
    /// Nothing was hit: march on.
    Continue,
    /// The ray left the scene: it takes the background colour.
    Escaped,
    /// A hit at the bounce limit: the ray takes the bounce-limit colour.
    DepthLimit,
    /// A hit below the bounce limit: the bounce depth was raised and the hit is shaded.
    Shade,
}

/// A ray being marched: its step counter and its carried state.
#[derive(Clone, Copy, Debug, PartialEq, Eq)]
pub struct March {
    /// The step counter; a fresh march starts at 1.
    pub steps: u32,
    /// The ray's carried state.
    pub ray: RayState,
}

/// The march state and the verdict after one more step has been asked for.
pub open spec fn begin_spec(m: March, limits: MarchLimits) -> (March, bool) {
    let next = March { steps: (m.steps + 1) as u32, ray: m.ray };
    (next, next.steps <= limits.max_steps)
}

/// The march state and the outcome once a moved ray reports what it found.
pub open spec fn end_spec(
    m: March,
    limits: MarchLimits,
    fog_hit: bool,
    outside: bool,
    surface_hit: bool,
) -> (March, StepOutcome) {
    if outside {
        (m, StepOutcome::Escaped)
    } else if surface_hit || fog_hit {
        if m.ray.bounce_depth >= limits.max_bounce_depth {
            (m, StepOutcome::DepthLimit)
        } else {
            (
                March {
                    steps: m.steps,
                    ray: RayState { bounce_depth: (m.ray.bounce_depth + 1) as u8, ..m.ray },
                },
                StepOutcome::Shade,
            )
        }
    } else {
        (m, StepOutcome::Continue)
    }
}

/// A march that has not taken a step yet.
pub open spec fn fresh(ray: RayState) -> March {
    March { steps: 1, ray }
}

/// The march after `k` more steps were asked of it.
pub open spec fn after_begins(m: March, limits: MarchLimits, k: nat) -> March
    decreases k,
{
    if k == 0 {
        m
    } else {
        begin_spec(after_begins(m, limits, (k - 1) as nat), limits).0
    }
}

/// Whether a chain of `n` rays, each spawned at the previous ray's shaded hit
/// and carrying its bounce depth on, can all be shaded when the first ray
/// starts at bounce depth `depth`.
pub open spec fn shade_chain(depth: u8, limits: MarchLimits, n: nat) -> bool
    decreases n,
{
    if n == 0 {
        true
    } else {
        let m = fresh(RayState { bounce_depth: depth, initial: false, fog_collision_check: true });
        let (next, outcome) = end_spec(m, limits, false, false, true);
        outcome == StepOutcome::Shade && shade_chain(next.ray.bounce_depth, limits, (n - 1) as nat)
    }
}

/// Step budget: the `k`-th step asked of a fresh march is granted exactly when
/// `k < max_steps`, so a ray samples the distance field at most
/// `max_steps - 1` times; asking for steps never changes the carried state.
pub proof fn step_budget(ray: RayState, limits: MarchLimits, k: nat)
    requires
        1 <= k < u32::MAX,
    ensures
        after_begins(fresh(ray), limits, (k - 1) as nat).steps == k,
        after_begins(fresh(ray), limits, (k - 1) as nat).ray == ray,
        begin_spec(after_begins(fresh(ray), limits, (k - 1) as nat), limits).1 <==> k
            < limits.max_steps,
    decreases k,
{
    if k > 1 {
        step_budget(ray, limits, (k - 1) as nat);
    }
}

/// Bounce budget: a chain of rays, each spawned at its parent's shaded hit,
/// can be shaded `n >= 1` times from bounce depth `depth` exactly when
/// `depth + n <= max_bounce_depth`; so no ray is shaded deeper than the limit.
pub proof fn bounce_budget(depth: u8, limits: MarchLimits, n: nat)
    ensures
        shade_chain(depth, limits, n) <==> (n == 0 || depth + n <= limits.max_bounce_depth),
    decreases n,
{
    if n > 0 {
        if depth < limits.max_bounce_depth {
            assert(shade_chain(depth, limits, n) == shade_chain(
                (depth + 1) as u8,
                limits,
                (n - 1) as nat,
            ));
            bounce_budget((depth + 1) as u8, limits, (n - 1) as nat);
        } else {
            assert(!shade_chain(depth, limits, n));
        }
    }
}

/// Leaving the scene comes first: whenever the moved ray is outside the scene
/// it escapes and takes the background colour, whether or not it also hit a
/// surface or scattered in fog, and its state is left as it was.
pub proof fn escape_comes_first(
    m: March,
    limits: MarchLimits,
    fog_hit: bool,
    surface_hit: bool,
)
    ensures
        end_spec(m, limits, fog_hit, true, surface_hit).0 == m,
        end_spec(m, limits, fog_hit, true, surface_hit).1 == StepOutcome::Escaped,
{
}

/// Inside the scene, a fog scatter is a hit like a surface hit: a hit at or
/// beyond the bounce limit ends the ray with the bounce-limit colour and
/// leaves its state alone; a hit below the limit is shaded and deepens the
/// ray by one bounce, keeping its step counter and flags; without a hit the
/// ray marches on unchanged.
pub proof fn hits_inside_the_scene(
    m: March,
    limits: MarchLimits,
    fog_hit: bool,
    surface_hit: bool,
)
    ensures
        end_spec(m, limits, true, false, false) == end_spec(m, limits, false, false, true),
        end_spec(m, limits, true, false, true) == end_spec(m, limits, false, false, true),
        (fog_hit || surface_hit) && m.ray.bounce_depth >= limits.max_bounce_depth ==> end_spec(
            m,
            limits,
            fog_hit,
            false,
            surface_hit,
        ).1 == StepOutcome::DepthLimit && end_spec(m, limits, fog_hit, false, surface_hit).0
            == m,
        (fog_hit || surface_hit) && m.ray.bounce_depth < limits.max_bounce_depth ==> {
            let (next, outcome) = end_spec(m, limits, fog_hit, false, surface_hit);
            &&& outcome == StepOutcome::Shade
            &&& next.ray.bounce_depth == m.ray.bounce_depth + 1
            &&& next.ray.initial == m.ray.initial
            &&& next.ray.fog_collision_check == m.ray.fog_collision_check
            &&& next.steps == m.steps
        },
        !fog_hit && !surface_hit ==> end_spec(m, limits, fog_hit, false, surface_hit) == (
        m,
        StepOutcome::Continue,
        ),
{
}

/// Shadow rays never bounce: with a bounce limit of at most 100, no step of a
/// shadow ray is shaded, and a shadow ray never scatters in fog.
pub proof fn shadow_rays_never_bounce(
    m: March,
    limits: MarchLimits,
    fog_enabled: bool,
    fog_closer: bool,
    outside: bool,
    surface_hit: bool,
)
    requires
        m.ray.bounce_depth == 100,
        !m.ray.fog_collision_check,
        limits.max_bounce_depth <= 100,
    ensures
        !(fog_closer && fog_enabled && m.ray.fog_collision_check),
        end_spec(m, limits, false, outside, surface_hit).1 != StepOutcome::Shade,
{
}

impl March {
    /// Starts marching a ray with the given carried state.
    pub fn new(ray: RayState) -> (m: March)
        ensures
            m == fresh(ray),
    {
        March { steps: 1, ray }
    }

    /// Counts one more step and says whether the step budget still allows
    /// sampling the distance field; when it does not, the ray takes the
    /// step-limit colour.
    pub fn begin_step(&mut self, limits: &MarchLimits) -> (granted: bool)
        requires
            old(self).steps < u32::MAX,
        ensures
            (*final(self), granted) == begin_spec(*old(self), *limits),
    {
        self.steps = self.steps + 1;
        self.steps <= limits.max_steps
    }

    /// Whether the ray scatters in fog before reaching the next surface:
    /// fog is enabled, the ray checks for fog collisions, and the sampled fog
    /// distance is shorter than the step the ray would take.
    pub fn fog_scatter(&self, fog_enabled: bool, fog_closer: bool) -> (scatter: bool)
        ensures
            scatter == (fog_closer && fog_enabled && self.ray.fog_collision_check),
    {
        fog_closer && fog_enabled && self.ray.fog_collision_check
    }

    /// Decides what happens to the ray once it has moved: `outside` says the
    /// ray left the scene, `surface_hit` that it is within the hit distance of
    /// a surface, `fog_hit` that it scattered in fog.
    pub fn end_step(
        &mut self,
        limits: &MarchLimits,
        fog_hit: bool,
        outside: bool,
        surface_hit: bool,
    ) -> (outcome: StepOutcome)
        ensures
            (*final(self), outcome) == end_spec(
                *old(self),
                *limits,
                fog_hit,
                outside,
                surface_hit,
            ),
    {
        if outside {
            StepOutcome::Escaped
        } else if surface_hit || fog_hit {
            if self.ray.bounce_depth >= limits.max_bounce_depth {
                StepOutcome::DepthLimit
            } else {
                self.ray.bounce_depth = self.ray.bounce_depth + 1;
                StepOutcome::Shade
            }
        } else {
            StepOutcome::Continue
        }
    }
}

} // verus!

//! What a shaded surface hit spawns, and how the colours it gathers blend.
//!
//! Surface models: 1 is Lambertian (diffuse), 2 a mirror, 3 glass (refraction
//! and reflection), 4 fog. Sun-light method 1 lights surfaces with direct sun
//! light plus indirect light; method 2 lights them with indirect light only and
//! lets emissive surfaces glow.
use crate::march::RayState;
use vstd::prelude::*;

verus! {

/// How the colours gathered at a hit combine into the colour of the ray.
///
/// With `m` the material colour, `D` the direct light (zero when the plan
/// asks for none), `I` the mean of the indirect rays' colours, `r` the
/// reflectance and `e` the emission rate:
#[derive(Clone, Copy, Debug, PartialEq, Eq)]
pub enum Blend {
    /// `m * (D + I)`, componentwise.
    Diffuse,
    /// `I * r + m * (1 - r)`.
    Mirror,
    /// `I * m`, componentwise.
    Refract,
    /// `fog colour * (D * sun multiplier + I)`, componentwise.
    Fog,
    /// `m * e`.
    Emit,
    /// Black.
    Black,
}

/// The work a shaded hit asks for.
#[derive(Clone, Copy, Debug, PartialEq, Eq)]
pub struct ShadePlan {
    /// How many indirect-lighting samples to gather and average.
    pub indirect_rays: u8,
    /// Whether to gather direct sun light.
    pub direct: bool,
    /// How the gathered colours combine.
    pub blend: Blend,
}

/// How a surface model blends gathered light.
pub open spec fn model_blend(surface_model: i8) -> Blend {
    if surface_model == 1 {
        Blend::Diffuse
    } else if surface_model == 2 {
        Blend::Mirror
    } else if surface_model == 3 {
        Blend::Refract
    } else if surface_model == 4 {
        Blend::Fog
    } else {
        Blend::Black
    }
}

/// How many indirect samples a hit gathers: a ray leaving the camera is split
/// into `initial_splits` samples (none when that is not positive), any other
/// ray gathers one.
pub open spec fn indirect_count(initial: bool, initial_splits: i8) -> int {
    if initial {
        if initial_splits > 0 {
            initial_splits as int
        } else {
            0
        }
    } else {
        1
    }
}

/// The plan for shading a hit of a ray carrying `ray`, on a surface of model
/// `surface_model`, under sun-light method `sun_light_method`.
pub open spec fn shade_spec(
    ray: RayState,
    sun_light_method: i8,
    surface_model: i8,
    emissive: bool,
    initial_splits: i8,
) -> ShadePlan {
    let n = indirect_count(ray.initial, initial_splits) as u8;
    if sun_light_method == 1 {
        ShadePlan {
            indirect_rays: n,
            direct: surface_model == 1 || surface_model == 4,
            blend: model_blend(surface_model),
        }
    } else if sun_light_method == 2 {
        if emissive {
            ShadePlan { indirect_rays: 0, direct: false, blend: Blend::Emit }
        } else {
            ShadePlan {
                indirect_rays: n,
                direct: surface_model == 4,
                blend: model_blend(surface_model),
            }
        }
    } else {
        ShadePlan { indirect_rays: 0, direct: false, blend: Blend::Black }
    }
}

/// Plans the shading of a hit. `emissive` says that the surface's emission
/// rate is not below the emission threshold.
pub fn plan_shading(
    ray: &RayState,
    sun_light_method: i8,
    surface_model: i8,
    emissive: bool,
    initial_splits: i8,
) -> (plan: ShadePlan)
    ensures
        plan == shade_spec(*ray, sun_light_method, surface_model, emissive, initial_splits),
{
    let n: u8 = if ray.initial {
        if initial_splits > 0 {
            initial_splits as u8
        } else {
            0
        }
    } else {
        1
    };
    let blend = if surface_model == 1 {
        Blend::Diffuse
    } else if surface_model == 2 {
        Blend::Mirror
    } else if surface_model == 3 {
        Blend::Refract
    } else if surface_model == 4 {
        Blend::Fog
    } else {
        Blend::Black
    };
    if sun_light_method == 1 {
        ShadePlan { indirect_rays: n, direct: surface_model == 1 || surface_model == 4, blend }
    } else if sun_light_method == 2 {
        if emissive {
            ShadePlan { indirect_rays: 0, direct: false, blend: Blend::Emit }
        } else {
            ShadePlan { indirect_rays: n, direct: surface_model == 4, blend }
        }
    } else {
        ShadePlan { indirect_rays: 0, direct: false, blend: Blend::Black }
    }
}

/// The ray an indirect-lighting sample sends out.
#[derive(Clone, Copy, Debug, PartialEq, Eq)]
pub enum BounceKind {
    /// A cosine-weighted diffuse bounce, pushed off the surface.
    Diffuse,
    /// A mirror reflection, pushed off the surface.
    Mirror,
    /// A refraction into the surface, or a reflection off it.
    Refract,
    /// A scatter in a random direction from a fog particle.
    Scatter,
    /// No ray: the sample is black.
    Absorb,
}

/// The indirect ray a surface model sends out.
pub open spec fn bounce_spec(surface_model: i8) -> BounceKind {
    if surface_model == 1 {
        BounceKind::Diffuse
    } else if surface_model == 2 {
        BounceKind::Mirror
    } else if surface_model == 3 {
        BounceKind::Refract
    } else if surface_model == 4 {
        BounceKind::Scatter
    } else {
        BounceKind::Absorb
    }
}

/// Chooses the indirect ray that a surface of model `surface_model` sends out.
pub fn plan_bounce(surface_model: i8) -> (kind: BounceKind)
    ensures
        kind == bounce_spec(surface_model),
{
    if surface_model == 1 {
        BounceKind::Diffuse
    } else if surface_model == 2 {
        BounceKind::Mirror
    } else if surface_model == 3 {
        BounceKind::Refract
    } else if surface_model == 4 {
        BounceKind::Scatter
    } else {
        BounceKind::Absorb
    }
}

impl RayState {
    /// The state of the indirect ray of kind `kind` sent out at a hit of this
    /// ray: it keeps the bounce depth, checks for fog, and may be split again
    /// at its own hit only when it is a mirror reflection.
    pub fn spawn(&self, kind: BounceKind) -> (child: RayState)
        requires
            kind != BounceKind::Absorb,
        ensures
            child.bounce_depth == self.bounce_depth,
            child.initial == (kind == BounceKind::Mirror),
            child.fog_collision_check,
    {
        RayState {
            bounce_depth: self.bounce_depth,
            initial: match kind {
                BounceKind::Mirror => true,
                _ => false,
            },
            fog_collision_check: true,
        }
    }
}

/// Under sun-light methods 1 and 2, a hit that does not glow blends by its
/// surface model alone: Lambertian surfaces diffusely, mirrors as mirrors,
/// glass as glass, fog as fog, anything else black. The blend is the same
/// under both methods.
pub proof fn blend_follows_surface_model(
    ray: RayState,
    sun_light_method: i8,
    surface_model: i8,
    emissive: bool,
    initial_splits: i8,
)
    requires
        sun_light_method == 1 || (sun_light_method == 2 && !emissive),
    ensures
        (shade_spec(ray, sun_light_method, surface_model, emissive, initial_splits).blend
            == Blend::Diffuse) <==> surface_model == 1,
        (shade_spec(ray, sun_light_method, surface_model, emissive, initial_splits).blend
            == Blend::Mirror) <==> surface_model == 2,
        (shade_spec(ray, sun_light_method, surface_model, emissive, initial_splits).blend
            == Blend::Refract) <==> surface_model == 3,
        (shade_spec(ray, sun_light_method, surface_model, emissive, initial_splits).blend
            == Blend::Fog) <==> surface_model == 4,
        (shade_spec(ray, sun_light_method, surface_model, emissive, initial_splits).blend
            == Blend::Black) <==> !(1 <= surface_model <= 4),
        shade_spec(ray, 1, surface_model, emissive, initial_splits).blend == shade_spec(
            ray,
            2,
            surface_model,
            false,
            initial_splits,
        ).blend,
{
}

/// What a hit gathers under sun-light methods 1 and 2 when it does not glow:
/// one indirect sample for a ray that is not initial, `initial_splits`
/// samples (none if that is not positive) for an initial one; direct sun
/// light for Lambertian surfaces under method 1 and for fog under both.
pub proof fn gathering_follows_ray_and_model(
    ray: RayState,
    sun_light_method: i8,
    surface_model: i8,
    emissive: bool,
    initial_splits: i8,
)
    requires
        sun_light_method == 1 || (sun_light_method == 2 && !emissive),
    ensures
        !ray.initial ==> shade_spec(
            ray,
            sun_light_method,
            surface_model,
            emissive,
            initial_splits,
        ).indirect_rays == 1,
        ray.initial && initial_splits > 0 ==> shade_spec(
            ray,
            sun_light_method,
            surface_model,
            emissive,
            initial_splits,
        ).indirect_rays == initial_splits,
        ray.initial && initial_splits <= 0 ==> shade_spec(
            ray,
            sun_light_method,
            surface_model,
            emissive,
            initial_splits,
        ).indirect_rays == 0,
        shade_spec(ray, sun_light_method, surface_model, emissive, initial_splits).direct <==> (
        surface_model == 4 || (sun_light_method == 1 && surface_model == 1)),
{
}

/// Under a sun-light method other than 1 and 2 a hit gathers nothing and
/// comes out black, whatever the surface.
pub proof fn unknown_methods_gather_nothing(
    ray: RayState,
    sun_light_method: i8,
    surface_model: i8,
    emissive: bool,
    initial_splits: i8,
)
    requires
        sun_light_method != 1,
        sun_light_method != 2,
    ensures
        shade_spec(ray, sun_light_method, surface_model, emissive, initial_splits).indirect_rays
            == 0,
        !shade_spec(ray, sun_light_method, surface_model, emissive, initial_splits).direct,
        shade_spec(ray, sun_light_method, surface_model, emissive, initial_splits).blend
            == Blend::Black,
{
}

/// Each surface model sends out its own kind of indirect ray: Lambertian
/// surfaces bounce diffusely, mirrors reflect, glass refracts, fog scatters,
/// and anything else absorbs.
pub proof fn bounce_follows_surface_model(surface_model: i8)
    ensures
        (bounce_spec(surface_model) == BounceKind::Diffuse) <==> surface_model == 1,
        (bounce_spec(surface_model) == BounceKind::Mirror) <==> surface_model == 2,
        (bounce_spec(surface_model) == BounceKind::Refract) <==> surface_model == 3,
        (bounce_spec(surface_model) == BounceKind::Scatter) <==> surface_model == 4,
        (bounce_spec(surface_model) == BounceKind::Absorb) <==> !(1 <= surface_model <= 4),
{
}

/// Emissive surfaces under sun-light method 2 glow and trace nothing: no
/// indirect sample and no direct light is gathered for them.
pub proof fn emissive_surfaces_trace_nothing(
    ray: RayState,
    surface_model: i8,
    initial_splits: i8,
)
    ensures
        shade_spec(ray, 2, surface_model, true, initial_splits) == (ShadePlan {
            indirect_rays: 0,
            direct: false,
            blend: Blend::Emit,
        }),
{
}

/// Only rays leaving the camera (or mirror reflections of them) are split: a
/// ray that is not initial gathers at most one indirect sample at a hit, and
/// no hit gathers more than `max(initial_splits, 1)`.
pub proof fn splitting_is_bounded(
    ray: RayState,
    sun_light_method: i8,
    surface_model: i8,
    emissive: bool,
    initial_splits: i8,
)
    ensures
        !ray.initial ==> shade_spec(
            ray,
            sun_light_method,
            surface_model,
            emissive,
            initial_splits,
        ).indirect_rays <= 1,
        shade_spec(ray, sun_light_method, surface_model, emissive, initial_splits).indirect_rays
            <= if initial_splits > 1 {
            initial_splits as int
        } else {
            1
        },
{
}

/// Hits under an unknown sun-light method, or on a non-emissive surface of
/// unknown model, come out black; a surface of unknown model sends out no
/// indirect ray.
pub proof fn unknown_models_are_black(
    ray: RayState,
    sun_light_method: i8,
    surface_model: i8,
    emissive: bool,
    initial_splits: i8,
)
    requires
        !(1 <= surface_model <= 4) || !(1 <= sun_light_method <= 2),
        sun_light_method != 2 || !emissive,
    ensures
        shade_spec(ray, sun_light_method, surface_model, emissive, initial_splits).blend
            == Blend::Black,
        !(1 <= surface_model <= 4) ==> bounce_spec(surface_model) == BounceKind::Absorb,
{
}

} // verus!

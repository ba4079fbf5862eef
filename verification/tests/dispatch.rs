use raytracer::animate::{animation_phase, AnimationPhase};
use raytracer::material::MaterialFlags;
use raytracer::ray::{ray_kind, refraction_action, RayKind, RefractionAction};
use raytracer::scene::{active_terms, bounce_kind, BounceKind, TermMask};
use raytracer::sphere::{sphere_hit, SphereHit};

#[test]
fn degenerate_animation_is_skipped_at_every_time() {
    // start_time > end_time: whatever the evaluation time says about the
    // start and end comparisons, the animation never alters the ray.
    for started in [false, true] {
        for running in [false, true] {
            assert_eq!(animation_phase(started, true, running), AnimationPhase::Skipped);
        }
    }
}

#[test]
fn animation_before_start_is_skipped() {
    assert_eq!(animation_phase(false, false, true), AnimationPhase::Skipped);
}

#[test]
fn animation_between_start_and_end_interpolates() {
    assert_eq!(animation_phase(true, false, true), AnimationPhase::Interpolating);
}

#[test]
fn animation_past_end_saturates() {
    assert_eq!(animation_phase(true, false, false), AnimationPhase::Saturated);
}

#[test]
fn zero_bounces_evaluates_no_term() {
    let nothing = TermMask {
        point_light: false,
        mirror: false,
        transparent: false,
        emissive: false,
        indirect: false,
        direct: false,
    };
    // In particular the mirror term is inactive regardless of geometry.
    assert_eq!(active_terms(0, MaterialFlags::mirror_only(), true), nothing);
    assert_eq!(active_terms(0, MaterialFlags::transparent_only(), false), nothing);
    assert_eq!(active_terms(0, MaterialFlags::emissive_only(), true), nothing);
    assert_eq!(active_terms(0, MaterialFlags::diffuse(), false), nothing);
}

#[test]
fn diffuse_surface_terms() {
    let mask = active_terms(5, MaterialFlags::diffuse(), true);
    assert!(mask.point_light && mask.indirect && mask.direct);
    assert!(!mask.mirror && !mask.transparent && !mask.emissive);
}

#[test]
fn emissive_term_needs_the_visibility_toggle() {
    assert!(active_terms(1, MaterialFlags::emissive_only(), true).emissive);
    assert!(!active_terms(1, MaterialFlags::emissive_only(), false).emissive);
}

#[test]
fn flag_terms_follow_the_material() {
    let mask = active_terms(2, MaterialFlags::mirror_only(), false);
    assert!(mask.mirror && !mask.transparent);
    let mask = active_terms(2, MaterialFlags::transparent_only(), false);
    assert!(mask.transparent && !mask.mirror);
}

#[test]
fn indirect_bounce_kind_split() {
    assert_eq!(bounce_kind(true, true), BounceKind::PhongLobe);
    assert_eq!(bounce_kind(true, false), BounceKind::Diffuse);
    assert_eq!(bounce_kind(false, true), BounceKind::Diffuse);
    assert_eq!(bounce_kind(false, false), BounceKind::Diffuse);
}

#[test]
fn sphere_hit_picks_smallest_nonnegative_root() {
    assert_eq!(sphere_hit(true, true, true), SphereHit::Near);
    assert_eq!(sphere_hit(true, false, true), SphereHit::Far);
}

#[test]
fn sphere_misses_without_real_or_forward_roots() {
    assert_eq!(sphere_hit(false, false, false), SphereHit::Miss);
    assert_eq!(sphere_hit(true, false, false), SphereHit::Miss);
}

#[test]
fn refraction_happens_only_when_accepted_and_not_total_internal() {
    assert_eq!(refraction_action(true, false, true), RefractionAction::Refract);
    assert_eq!(refraction_action(true, true, true), RefractionAction::Refract);
}

#[test]
fn total_internal_reflection_falls_back_to_mirror() {
    assert_eq!(refraction_action(true, false, false), RefractionAction::MirrorFallback);
    assert_eq!(refraction_action(true, true, false), RefractionAction::MirrorFallbackFlipped);
}

#[test]
fn fresnel_rejection_falls_back_to_mirror() {
    assert_eq!(refraction_action(false, false, true), RefractionAction::MirrorFallback);
    assert_eq!(refraction_action(false, true, true), RefractionAction::MirrorFallbackFlipped);
}

#[test]
fn ray_kind_dispatch() {
    assert_eq!(ray_kind(1, true, true), RayKind::Basic);
    assert_eq!(ray_kind(2, true, true), RayKind::DepthOfField);
    assert_eq!(ray_kind(2, false, true), RayKind::AntiAliased);
    assert_eq!(ray_kind(2, false, false), RayKind::Basic);
}

#[test]
fn material_flag_constructors() {
    assert!(MaterialFlags::mirror_only().mirror);
    assert!(MaterialFlags::transparent_only().transparent);
    assert!(MaterialFlags::emissive_only().emissive);
    assert!(MaterialFlags::phong_only().phong);
    let diffuse = MaterialFlags::diffuse();
    assert!(!diffuse.mirror && !diffuse.transparent && !diffuse.emissive && !diffuse.phong);
}

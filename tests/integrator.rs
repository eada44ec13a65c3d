use raytracer::integrator::{next_step, samples_lights_at, Interaction, Step};

#[test]
fn exhausted_depth_is_black() {
    for i in [Interaction::Missed, Interaction::Absorbed, Interaction::Emitted, Interaction::Scattered] {
        assert_eq!(next_step(0, 5, 3, true, i), Step::Black);
    }
}

#[test]
fn missed_ray_takes_the_background() {
    assert_eq!(next_step(2, 2, 0, false, Interaction::Missed), Step::Background);
}

#[test]
fn absorbed_ray_is_black_and_emitter_is_final() {
    assert_eq!(next_step(3, 5, 1, true, Interaction::Absorbed), Step::Black);
    assert_eq!(next_step(3, 5, 1, true, Interaction::Emitted), Step::Radiance);
}

#[test]
fn scattered_ray_continues_one_level_deeper() {
    assert_eq!(
        next_step(50, 50, 0, true, Interaction::Scattered),
        Step::Continue { gather_lights: false, depth: 49 }
    );
    assert_eq!(
        next_step(50, 50, 2, true, Interaction::Scattered),
        Step::Continue { gather_lights: true, depth: 49 }
    );
    assert_eq!(
        next_step(49, 50, 2, true, Interaction::Scattered),
        Step::Continue { gather_lights: true, depth: 48 }
    );
    assert_eq!(
        next_step(48, 50, 2, true, Interaction::Scattered),
        Step::Continue { gather_lights: false, depth: 47 }
    );
    assert_eq!(
        next_step(50, 50, 2, false, Interaction::Scattered),
        Step::Continue { gather_lights: false, depth: 49 }
    );
}

#[test]
fn light_sampling_depth_gate() {
    assert!(samples_lights_at(10, 10));
    assert!(samples_lights_at(9, 10));
    assert!(!samples_lights_at(8, 10));
    assert!(samples_lights_at(1, 1));
    assert!(samples_lights_at(1, 2));
    assert!(samples_lights_at(0, 1));
    assert!(!samples_lights_at(0, 2));
}

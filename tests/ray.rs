use raytracer::ray::Ray;

fn close(a: f64, b: f64) -> bool {
    (a - b).abs() < 1.0e-6
}

#[test]
fn test_ray() {
    let p = (0.1, 0.2, 0.3);
    let q = (0.2, 0.3, 0.4);

    let r = Ray::new(p, q);

    assert!(close(r.origin.0, 0.1));
    assert!(close(r.origin.1, 0.2));
    assert!(close(r.origin.2, 0.3));
    assert!(close(r.direction.0, 0.2));
    assert!(close(r.direction.1, 0.3));
    assert!(close(r.direction.2, 0.4));
}

#[test]
fn ray_keeps_origin_and_direction_apart() {
    let r = Ray::new([1i64, 2, 3], [-4i64, 5, -6]);
    assert_eq!(r.origin, [1, 2, 3]);
    assert_eq!(r.direction, [-4, 5, -6]);
}

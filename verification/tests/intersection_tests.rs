//! Ray/primitive intersections, the nearest-hit query, and secondary
//! ray construction.

use ray_tracing::color::Color;
use ray_tracing::fixed::SCALE;
use ray_tracing::math::{Point, Vector3};
use ray_tracing::rendering::Ray;
use ray_tracing::scene::{
    Coloration, Element, Intersectable, Material, Plane, Scene, Sphere, SurfaceType,
};

fn diffuse_gray() -> Material {
    Material {
        surface_type: SurfaceType::Diffuse,
        color: Coloration::Color(Color { red: 0, green: 0, blue: 0 }),
        albedo: 11141,  // 0.17
    }
}

#[test]
fn test_intersect() {
    let sphere = Sphere {
        center: Point { x: 65536, y: 0, z: 0 },
        radius: 32768,  // 0.5
        material: diffuse_gray(),
    };

    let ray = Ray {
        direction: Vector3 { x: 65536, y: 0, z: 0 },
        origin: Point::zero(),
    };

    let ray2 = Ray {
        direction: Vector3 { x: 0, y: 65536, z: 0 },
        origin: Point::zero(),
    };

    assert!(sphere.intersect(&ray).is_some());
    assert!(sphere.intersect(&ray).unwrap() > 0);
    assert!(sphere.intersect(&ray2).is_none());
}

#[test]
fn test_plane_intersect() {
    let plane = Plane {
        normal: Vector3 { x: 0, y: 0, z: -65536 },
        p0: Point { x: 0, y: 0, z: -20 * 65536 },
        material: Material {
            surface_type: SurfaceType::Diffuse,
            color: Coloration::Color(Color { red: 39322, green: 52429, blue: 65536 }),
            albedo: 11796,
        },
    };

    let ray = Ray {
        direction: Vector3 { x: 0, y: 0, z: -65536 },
        origin: Point::zero(),
    };

    let ray2 = Ray {
        direction: Vector3 { x: 65536, y: 65536, z: -65536 },
        origin: Point::zero(),
    };

    let intersection = plane.intersect(&ray);
    let intersection2 = plane.intersect(&ray2);

    assert!(intersection.is_some());
    assert!(intersection2.is_some());
}

#[test]
fn test_sphere_axial_distance_exact() {
    // A unit sphere five units ahead is hit at distance four exactly.
    let sphere = Sphere {
        center: Point { x: 0, y: 0, z: -5 * SCALE },
        radius: SCALE,
        material: diffuse_gray(),
    };
    let aimed = Ray {
        origin: Point::zero(),
        direction: Vector3 { x: 0, y: 0, z: -SCALE },
    };
    assert_eq!(sphere.intersect(&aimed), Some(4 * SCALE));

    let perpendicular = Ray {
        origin: Point::zero(),
        direction: Vector3 { x: SCALE, y: 0, z: 0 },
    };
    assert_eq!(sphere.intersect(&perpendicular), None);
}

#[test]
fn test_plane_distance_exact() {
    let plane = Plane {
        normal: Vector3 { x: 0, y: 0, z: -SCALE },
        p0: Point { x: 0, y: 0, z: -20 * SCALE },
        material: diffuse_gray(),
    };
    let toward = Ray {
        origin: Point::zero(),
        direction: Vector3 { x: 0, y: 0, z: -SCALE },
    };
    assert_eq!(plane.intersect(&toward), Some(20 * SCALE));

    let away = Ray {
        origin: Point::zero(),
        direction: Vector3 { x: 0, y: 0, z: SCALE },
    };
    assert_eq!(plane.intersect(&away), None);

    // A plane through the origin, with the ray origin lying in it: the
    // ray cast along the normal's side still hits (at distance zero),
    // the ray cast the other way misses.
    let through_origin = Plane {
        normal: Vector3 { x: 0, y: 0, z: -SCALE },
        p0: Point::zero(),
        material: diffuse_gray(),
    };
    assert_eq!(through_origin.intersect(&toward), Some(0));
    assert_eq!(through_origin.intersect(&away), None);
}

#[test]
fn test_trace_picks_nearest_and_first_on_tie() {
    let mut scene = Scene::new(10, 10, 5898240, 16, 5);
    let far = Element::Sphere(Sphere {
        center: Point { x: 0, y: 0, z: -9 * SCALE },
        radius: SCALE,
        material: diffuse_gray(),
    });
    let near = Element::Sphere(Sphere {
        center: Point { x: 0, y: 0, z: -5 * SCALE },
        radius: SCALE,
        material: diffuse_gray(),
    });
    scene.add_element(far);
    scene.add_element(near);

    let ray = Ray {
        origin: Point::zero(),
        direction: Vector3 { x: 0, y: 0, z: -SCALE },
    };
    let hit = scene.trace(&ray).unwrap();
    assert_eq!(hit.distance, 4 * SCALE);
    assert_eq!(hit.object_index, 1);

    // Two identical spheres: the first one scanned wins the tie.
    let mut twins = Scene::new(10, 10, 5898240, 16, 5);
    twins.add_element(Element::Sphere(Sphere {
        center: Point { x: 0, y: 0, z: -5 * SCALE },
        radius: SCALE,
        material: diffuse_gray(),
    }));
    twins.add_element(Element::Sphere(Sphere {
        center: Point { x: 0, y: 0, z: -5 * SCALE },
        radius: SCALE,
        material: diffuse_gray(),
    }));
    let tied = twins.trace(&ray).unwrap();
    assert_eq!(tied.object_index, 0);

    // An empty scene yields no intersection.
    let empty = Scene::new(10, 10, 5898240, 16, 5);
    assert!(empty.trace(&ray).is_none());
}

#[test]
fn test_create_reflection_exact() {
    // A ray straight down bounces straight up off a floor.
    let normal = Vector3 { x: 0, y: SCALE, z: 0 };
    let incident = Vector3 { x: 0, y: -SCALE, z: 0 };
    let hit = Point { x: 0, y: 0, z: 0 };
    let r = Ray::create_reflection(normal, &incident, &hit, 16);
    assert_eq!(r.direction, Vector3 { x: 0, y: SCALE, z: 0 });
    assert_eq!(r.origin, Point { x: 0, y: 16, z: 0 });
}

#[test]
fn test_create_transmission_exact() {
    // With an index of one the ray passes straight through.
    let normal = Vector3 { x: 0, y: SCALE, z: 0 };
    let incident = Vector3 { x: 0, y: -SCALE, z: 0 };
    let hit = Point { x: 0, y: 0, z: 0 };
    let t = Ray::create_transmission(normal, incident, &hit, 16, SCALE).unwrap();
    assert_eq!(t.direction, Vector3 { x: 0, y: -SCALE, z: 0 });
    assert_eq!(t.origin, Point { x: 0, y: -16, z: 0 });
}

#[test]
fn test_prime_ray_points_into_scene() {
    let scene = Scene::new(80, 60, 5898240, 16, 5);
    let center = Ray::create_prime(40, 30, &scene);
    assert_eq!(center.origin, Point { x: 0, y: 0, z: 0 });
    // The camera looks down the negative z axis.
    assert!(center.direction.z < 0);
    // A pixel on the right half leans right, one on the left leans left.
    let right = Ray::create_prime(79, 30, &scene);
    let left = Ray::create_prime(0, 30, &scene);
    assert!(right.direction.x > 0);
    assert!(left.direction.x < 0);
    // A pixel on the top half leans up.
    let top = Ray::create_prime(40, 0, &scene);
    assert!(top.direction.y > 0);
}

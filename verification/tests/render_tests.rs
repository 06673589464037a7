//! End-to-end rendering scenarios: the recursion cap, determinism,
//! shadows, and whole-image output.

use ray_tracing::color::Color;
use ray_tracing::fixed::SCALE;
use ray_tracing::math::{Point, Vector3};
use ray_tracing::rendering::Ray;
use ray_tracing::scene::{
    Coloration, DirectionalLight, Element, Light, Material, Plane, Scene, Sphere, SphericalLight,
    SurfaceType,
};
use ray_tracing::test_scene::test_scene;
use ray_tracing::{cast_ray, render, render_to_image_data};

const BLACK: Color = Color { red: 0, green: 0, blue: 0 };

fn green_diffuse_sphere() -> Element {
    Element::Sphere(Sphere {
        center: Point { x: 0, y: 0, z: -5 * SCALE },
        radius: SCALE,
        material: Material {
            surface_type: SurfaceType::Diffuse,
            color: Coloration::Color(Color { red: 26214, green: SCALE, blue: 26214 }),
            albedo: 11796,  // 0.18
        },
    })
}

fn single_sphere_scene(max_recursion_depth: u32) -> Scene {
    Scene {
        width: 80,
        height: 60,
        max_recursion_depth,
        shadow_bias: 16,
        fov: 5898240,  // 90 degrees
        lights: vec![Light::Directional(DirectionalLight {
            direction: Vector3 { x: 0, y: 0, z: -SCALE },
            color: Color { red: SCALE, green: SCALE, blue: SCALE },
            intensity: 100 * SCALE,
        })],
        elements: vec![green_diffuse_sphere()],
    }
}

#[test]
fn test_can_render_scene() {
    let scene = single_sphere_scene(3);

    let pixels = render(&scene);
    assert_eq!(pixels.len(), (scene.width * scene.height) as usize);

    let raw = render_to_image_data(&scene);
    assert_eq!(raw.width, scene.width as usize);
    assert_eq!(raw.height, scene.height as usize);
    assert_eq!(raw.data.len(), 4 * 80 * 60);
}

#[test]
fn test_zero_recursion_depth_is_black() {
    // With no recursion budget every ray comes back black, whatever
    // stands in the scene.
    let scene = single_sphere_scene(0);
    for (x, y) in [(40u32, 30u32), (0, 0), (79, 59), (10, 50)] {
        let ray = Ray::create_prime(x, y, &scene);
        assert_eq!(cast_ray(&scene, &ray, 0), BLACK);
    }
}

#[test]
fn test_cast_ray_is_deterministic() {
    let scene = single_sphere_scene(3);
    let ray = Ray::create_prime(40, 30, &scene);
    let first = cast_ray(&scene, &ray, 0);
    let second = cast_ray(&scene, &ray, 0);
    assert_eq!(first, second);

    let whole_first = render(&scene);
    let whole_second = render(&scene);
    assert_eq!(whole_first, whole_second);
}

#[test]
fn test_center_lit_corner_black() {
    // An 80 x 60 image of one diffuse sphere straight ahead: the center
    // pixel hits it, the corner misses everything.
    let scene = single_sphere_scene(3);
    let pixels = render(&scene);
    assert_eq!(pixels.len(), 80 * 60);

    let center = pixels[30 * 80 + 40];
    assert_ne!(center, BLACK);

    let corner = pixels[0];
    assert_eq!(corner, BLACK);
}

#[test]
fn test_shadow_blocks_point_light() {
    // A point light two units above a floor hit point; a small opaque
    // sphere halfway between kills that light's whole contribution.
    let floor = Element::Plane(Plane {
        normal: Vector3 { x: 0, y: -SCALE, z: 0 },
        p0: Point { x: 0, y: -2 * SCALE, z: 0 },
        material: Material {
            surface_type: SurfaceType::Diffuse,
            color: Coloration::Color(Color { red: SCALE, green: 0, blue: 0 }),
            albedo: 11796,
        },
    });
    let light = Light::Spherical(SphericalLight {
        position: Point { x: 0, y: 0, z: -3 * SCALE },
        color: Color { red: SCALE, green: SCALE, blue: SCALE },
        intensity: 300 * SCALE,
    });
    let occluder = Element::Sphere(Sphere {
        center: Point { x: 0, y: -SCALE, z: -3 * SCALE },
        radius: 19661,  // 0.3
        material: Material {
            surface_type: SurfaceType::Diffuse,
            color: Coloration::Color(Color { red: SCALE, green: SCALE, blue: SCALE }),
            albedo: 11796,
        },
    });

    let open = Scene {
        width: 10,
        height: 10,
        fov: 5898240,
        lights: vec![light.clone()],
        elements: vec![floor.clone()],
        shadow_bias: 16,
        max_recursion_depth: 5,
    };
    let blocked = Scene {
        width: 10,
        height: 10,
        fov: 5898240,
        lights: vec![light],
        elements: vec![floor, occluder],
        shadow_bias: 16,
        max_recursion_depth: 5,
    };

    // A ray from the side, aimed at the floor point under the light; it
    // passes well clear of the occluder.
    let ray = Ray {
        origin: Point { x: 2 * SCALE, y: 0, z: -3 * SCALE },
        direction: Vector3 { x: -2 * SCALE, y: -2 * SCALE, z: 0 }.normalize(),
    };

    let lit = cast_ray(&open, &ray, 0);
    let shadowed = cast_ray(&blocked, &ray, 0);

    assert_ne!(lit, BLACK);
    assert_eq!(shadowed, BLACK);
}

#[test]
fn test_refraction_passes_through() {
    // A fully transparent sphere with a refractive index of one bends
    // nothing: the ray enters, leaves through the far wall and shades
    // the wall behind it exactly as if the sphere were absent.
    let wall = Element::Plane(Plane {
        normal: Vector3 { x: 0, y: 0, z: -SCALE },
        p0: Point { x: 0, y: 0, z: -20 * SCALE },
        material: Material {
            surface_type: SurfaceType::Diffuse,
            color: Coloration::Color(Color { red: 39322, green: 52429, blue: SCALE }),
            albedo: 11796,
        },
    });
    // The light comes in at a slant so the glass sphere does not shadow
    // the wall point behind it.
    let light = Light::Directional(DirectionalLight {
        direction: Vector3 { x: -SCALE, y: 0, z: -SCALE },
        color: Color { red: SCALE, green: SCALE, blue: SCALE },
        intensity: 20 * SCALE,
    });
    let glass = Element::Sphere(Sphere {
        center: Point { x: 0, y: 0, z: -5 * SCALE },
        radius: SCALE,
        material: Material {
            surface_type: SurfaceType::Refractive { index: SCALE, transparency: SCALE },
            color: Coloration::Color(BLACK),
            albedo: 11796,
        },
    });

    let direct = Scene {
        width: 10,
        height: 10,
        fov: 5898240,
        lights: vec![light.clone()],
        elements: vec![wall.clone()],
        shadow_bias: 16,
        max_recursion_depth: 5,
    };
    let through_glass = Scene {
        width: 10,
        height: 10,
        fov: 5898240,
        lights: vec![light],
        elements: vec![wall, glass],
        shadow_bias: 16,
        max_recursion_depth: 5,
    };

    let ray = Ray {
        origin: Point::zero(),
        direction: Vector3 { x: 0, y: 0, z: -SCALE },
    };

    let expected = cast_ray(&direct, &ray, 0);
    let seen = cast_ray(&through_glass, &ray, 0);
    assert_ne!(expected, BLACK);
    assert_eq!(seen, expected);
}

#[test]
fn test_raw_image_bytes() {
    let scene = single_sphere_scene(3);
    let raw = render_to_image_data(&scene);
    // The corner pixel is black: its first four bytes are zero.
    assert_eq!(&raw.data[0..4], &[0, 0, 0, 0]);
    // The center pixel is lit: some channel byte is nonzero.
    let base = 4 * (30 * 80 + 40);
    let center = &raw.data[base..base + 4];
    assert!(center[0] > 0 || center[1] > 0 || center[2] > 0);
    // The alpha byte is always zero.
    assert_eq!(center[3], 0);
}

#[test]
fn test_demo_scene_builds_and_renders() {
    let scene = test_scene(32, 24);
    assert_eq!(scene.width, 32);
    assert_eq!(scene.height, 24);
    assert_eq!(scene.elements.len(), 5);
    assert_eq!(scene.lights.len(), 3);

    let pixels = render(&scene);
    assert_eq!(pixels.len(), 32 * 24);
    // The back plane closes the scene, so some pixel is lit.
    assert!(pixels.iter().any(|p| *p != BLACK));
}

//! A ready-made demonstration scene: three reflective spheres over a
//! reflective floor plane, closed off by a diffuse back plane, lit by two
//! directional lights and one point light.

use crate::color::Color;
use crate::math::{Point, Vector3};
use crate::scene::{
    Coloration, DirectionalLight, Element, Light, Material, Plane, Scene, Sphere, SphericalLight,
    SurfaceType,
};
use vstd::prelude::*;

verus! {

/// Build the demonstration scene at the given image size.
pub fn test_scene(width: u32, height: u32) -> (r: Scene)
    requires
        0 < height <= width,
    ensures
        r.wf(),
        r.width == width,
        r.height == height,
        r.fov == 5898240,  // 90 degrees
        r.max_recursion_depth == 10,
        r.elements@.len() == 5,
        r.lights@.len() == 3,
{
    let mut scene: Scene = Scene::new(width, height, 5898240, 16, 10);

    // The point light enters first; the two directional lights follow.
    scene.add_light(
        Light::Spherical(
            SphericalLight {
                position: Point { x: 131072, y: 0, z: -196608 },  // (2, 0, -3)
                color: Color { red: 52429, green: 65536, blue: 52429 },
                intensity: 19660800,  // 300
            },
        ),
    );
    scene.add_light(
        Light::Directional(
            DirectionalLight {
                direction: Vector3 { x: 1638, y: 65536, z: -65536 },  // (0.025, 1, -1)
                color: Color { red: 65536, green: 65536, blue: 65536 },
                intensity: 1310720,  // 20
            },
        ),
    );
    scene.add_light(
        Light::Directional(
            DirectionalLight {
                direction: Vector3 { x: -16384, y: -65536, z: -65536 },  // (-0.25, -1, -1)
                color: Color { red: 65536, green: 65536, blue: 65536 },
                intensity: 1310720,  // 20
            },
        ),
    );

    scene.add_element(
        Element::Sphere(
            Sphere {
                center: Point { x: -196608, y: 65536, z: -393216 },  // (-3, 1, -6)
                radius: 131072,  // 2
                material: Material {
                    surface_type: SurfaceType::Reflective { reflectivity: 6554 },  // 0.1
                    color: Coloration::Color(Color { red: 13107, green: 13107, blue: 65536 }),
                    albedo: 38011,  // 0.58
                },
            },
        ),
    );
    scene.add_element(
        Element::Sphere(
            Sphere {
                center: Point { x: 176947, y: 98304, z: -327680 },  // (2.7, 1.5, -5)
                radius: 131072,  // 2
                material: Material {
                    surface_type: SurfaceType::Reflective { reflectivity: 6554 },  // 0.1
                    color: Coloration::Color(Color { red: 65536, green: 13107, blue: 13107 }),
                    albedo: 5243,  // 0.08
                },
            },
        ),
    );
    scene.add_element(
        Element::Sphere(
            Sphere {
                center: Point { x: 0, y: 0, z: -262144 },  // (0, 0, -4)
                radius: 65536,  // 1
                material: Material {
                    surface_type: SurfaceType::Reflective { reflectivity: 13107 },  // 0.2
                    color: Coloration::Color(Color { red: 13107, green: 65536, blue: 13107 }),
                    albedo: 11796,  // 0.18
                },
            },
        ),
    );
    scene.add_element(
        Element::Plane(
            Plane {
                normal: Vector3 { x: 0, y: -65536, z: 0 },
                p0: Point { x: 0, y: -131072, z: 0 },  // (0, -2, 0)
                material: Material {
                    surface_type: SurfaceType::Reflective { reflectivity: 19661 },  // 0.3
                    color: Coloration::Color(Color { red: 65536, green: 0, blue: 0 }),
                    albedo: 11796,  // 0.18
                },
            },
        ),
    );
    scene.add_element(
        Element::Plane(
            Plane {
                normal: Vector3 { x: 0, y: 0, z: -65536 },
                p0: Point { x: 0, y: 0, z: -1310720 },  // (0, 0, -20)
                material: Material {
                    surface_type: SurfaceType::Diffuse,
                    color: Coloration::Color(Color { red: 39322, green: 52429, blue: 65536 }),
                    albedo: 11796,  // 0.18
                },
            },
        ),
    );

    scene
}

} // verus!

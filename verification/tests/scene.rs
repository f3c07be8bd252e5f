use raytracer::bits::{F32Bits, Vec3Bits};
use raytracer::cube::{self, Cube, CubeUniform, MAT_DIELECTRIC, MAT_LAMBERTIAN, MAT_METAL};
use raytracer::sphere::{self, Sphere, SphereUniform};

fn b(x: f32) -> F32Bits {
    F32Bits(x.to_bits())
}

fn v(x: f32, y: f32, z: f32) -> Vec3Bits {
    Vec3Bits::new(b(x), b(y), b(z))
}

#[test]
fn zero_bits_are_positive_zero() {
    assert_eq!(F32Bits::zero(), b(0.0));
    assert_eq!(Vec3Bits::zero(), v(0.0, 0.0, 0.0));
}

#[test]
fn material_tags() {
    assert_eq!(MAT_LAMBERTIAN, 0);
    assert_eq!(MAT_METAL, 1);
    assert_eq!(MAT_DIELECTRIC, 2);
}

#[test]
fn lambertian_uniform_keeps_albedo_and_zeroes_the_rest() {
    let u = cube::Material::Lambertian(v(0.8, 0.3, 0.3)).to_uniform();
    assert_eq!(u.mat_type, MAT_LAMBERTIAN);
    assert_eq!(u.roughness, b(0.0));
    assert_eq!(u.refraction_index, b(0.0));
    assert_eq!(u.albedo, v(0.8, 0.3, 0.3));
}

#[test]
fn metal_uniform_keeps_albedo_and_roughness() {
    let u = cube::Material::Metal(v(0.8, 0.6, 0.2), b(0.25)).to_uniform();
    assert_eq!(u.mat_type, MAT_METAL);
    assert_eq!(u.roughness, b(0.25));
    assert_eq!(u.refraction_index, b(0.0));
    assert_eq!(u.albedo, v(0.8, 0.6, 0.2));
}

#[test]
fn dielectric_uniform_keeps_index_and_zeroes_albedo() {
    let u = cube::Material::Dielectric(b(1.5)).to_uniform();
    assert_eq!(u.mat_type, MAT_DIELECTRIC);
    assert_eq!(u.roughness, b(0.0));
    assert_eq!(u.refraction_index, b(1.5));
    assert_eq!(u.albedo, v(0.0, 0.0, 0.0));
}

fn decode(u: cube::MaterialUniform) -> Option<cube::Material> {
    match u.mat_type {
        0 => Some(cube::Material::Lambertian(u.albedo)),
        1 => Some(cube::Material::Metal(u.albedo, u.roughness)),
        2 => Some(cube::Material::Dielectric(u.refraction_index)),
        _ => None,
    }
}

#[test]
fn material_uniform_reads_back() {
    let ms = [
        cube::Material::Lambertian(v(0.1, 0.2, 0.3)),
        cube::Material::Metal(v(0.1, 0.2, 0.3), b(0.0)),
        cube::Material::Metal(v(1.0, 1.0, 1.0), b(0.9)),
        cube::Material::Dielectric(b(0.0)),
        cube::Material::Dielectric(b(1.33)),
    ];
    for m in ms.iter() {
        assert_eq!(decode(m.to_uniform()), Some(*m));
    }
    // A black Lambertian and a perfectly smooth black metal still differ.
    assert_ne!(
        cube::Material::Lambertian(v(0.0, 0.0, 0.0)).to_uniform(),
        cube::Material::Metal(v(0.0, 0.0, 0.0), b(0.0)).to_uniform()
    );
}

#[test]
fn cube_new_and_uniform() {
    let mat = cube::Material::Metal(v(0.7, 0.7, 0.7), b(0.1));
    let c = Cube::new(v(1.0, -2.0, 3.5), b(0.5), mat);
    assert_eq!(c.position, v(1.0, -2.0, 3.5));
    assert_eq!(c.size, b(0.5));
    assert_eq!(c.material, mat);
    let u = c.to_uniform();
    assert_eq!(
        u,
        CubeUniform { mat: mat.to_uniform(), center: v(1.0, -2.0, 3.5), size: b(0.5) }
    );
}

#[test]
fn cube_world_keeps_order() {
    let a = Cube::new(v(0.0, 0.0, 0.0), b(1.0), cube::Material::Lambertian(v(0.5, 0.5, 0.5)));
    let c = Cube::new(v(2.0, 0.0, 0.0), b(0.5), cube::Material::Dielectric(b(1.5)));
    let w = cube::World::new(&[a, c, a]);
    assert_eq!(w.cubes, vec![a, c, a]);
    let us = w.to_uniform();
    assert_eq!(us, vec![a.to_uniform(), c.to_uniform(), a.to_uniform()]);
    assert_eq!(us[1].mat.mat_type, MAT_DIELECTRIC);
    assert_eq!(us[1].center, v(2.0, 0.0, 0.0));
}

#[test]
fn empty_cube_world() {
    let w = cube::World::new(&[]);
    assert!(w.cubes.is_empty());
    assert!(w.to_uniform().is_empty());
}

#[test]
fn sphere_new_and_uniform() {
    let mat = sphere::Material::Lambertian(v(0.1, 0.2, 0.5));
    let s = Sphere::new(v(0.0, 0.0, -1.0), b(0.5), mat);
    assert_eq!(s.center, v(0.0, 0.0, -1.0));
    assert_eq!(s.radius, b(0.5));
    assert_eq!(s.mat, mat);
    assert_eq!(
        s.to_uniform(),
        SphereUniform { mat: mat.to_uniform(), center: v(0.0, 0.0, -1.0), radius: b(0.5) }
    );
    assert_eq!(s.to_uniform().mat.mat_type, sphere::MAT_LAMBERTIAN);
}

#[test]
fn sphere_materials_encode_like_cube_materials() {
    let u = sphere::Material::Metal(v(0.8, 0.8, 0.8), b(0.3)).to_uniform();
    assert_eq!(u.mat_type, sphere::MAT_METAL);
    assert_eq!(u.roughness, b(0.3));
    assert_eq!(u.refraction_index, b(0.0));
    let d = sphere::Material::Dielectric(b(1.5)).to_uniform();
    assert_eq!(d.mat_type, sphere::MAT_DIELECTRIC);
    assert_eq!(d.albedo, v(0.0, 0.0, 0.0));
    assert_eq!(d.refraction_index, b(1.5));
}

#[test]
fn sphere_world_keeps_order() {
    let ground = Sphere::new(v(0.0, -100.5, -1.0), b(100.0), sphere::Material::Lambertian(v(0.8, 0.8, 0.0)));
    let glass = Sphere::new(v(-1.0, 0.0, -1.0), b(0.5), sphere::Material::Dielectric(b(1.5)));
    let w = sphere::World::new(&[ground, glass]);
    assert_eq!(w.spheres, vec![ground, glass]);
    assert_eq!(w.to_uniform(), vec![ground.to_uniform(), glass.to_uniform()]);
}

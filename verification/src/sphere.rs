use vstd::prelude::*;

use crate::bits::{F32Bits, Vec3Bits};

verus! {

/// How a surface scatters light.
#[derive(Debug, Clone, Copy, PartialEq, Eq, Structural)]
pub enum Material {
    /// Diffuse surface with the given albedo.
    Lambertian(Vec3Bits),
    /// Reflective surface with the given albedo and roughness.
    Metal(Vec3Bits, F32Bits),
    /// Transparent surface with the given refraction index.
    Dielectric(F32Bits),
}

/// Tag of a Lambertian material in a [`MaterialUniform`].
pub const MAT_LAMBERTIAN: u32 = 0;

/// Tag of a metal material in a [`MaterialUniform`].
pub const MAT_METAL: u32 = 1;

/// Tag of a dielectric material in a [`MaterialUniform`].
pub const MAT_DIELECTRIC: u32 = 2;

/// A material as the shader reads it: a tag and every parameter slot, the
/// slots that the tag does not use being zero.
///
/// The GPU-side copy adds the alignment padding; its fields are these.
#[derive(Debug, Clone, Copy, PartialEq, Eq, Structural)]
pub struct MaterialUniform {
    pub mat_type: u32,
    pub roughness: F32Bits,
    pub refraction_index: F32Bits,
    pub albedo: Vec3Bits,
}

/// The uniform of a material: the tag of its variant, its own parameters in
/// their slots and zero in the others.
pub open spec fn material_uniform(m: Material) -> MaterialUniform {
    match m {
        Material::Lambertian(albedo) => MaterialUniform {
            mat_type: MAT_LAMBERTIAN,
            roughness: F32Bits(0),
            refraction_index: F32Bits(0),
            albedo,
        },
        Material::Metal(albedo, roughness) => MaterialUniform {
            mat_type: MAT_METAL,
            roughness,
            refraction_index: F32Bits(0),
            albedo,
        },
        Material::Dielectric(refraction_index) => MaterialUniform {
            mat_type: MAT_DIELECTRIC,
            roughness: F32Bits(0),
            refraction_index,
            albedo: Vec3Bits::spec_zero(),
        },
    }
}

/// The material that the shader reads back from a uniform, if its tag is known.
pub open spec fn material_of_uniform(u: MaterialUniform) -> Option<Material> {
    if u.mat_type == MAT_LAMBERTIAN {
        Some(Material::Lambertian(u.albedo))
    } else if u.mat_type == MAT_METAL {
        Some(Material::Metal(u.albedo, u.roughness))
    } else if u.mat_type == MAT_DIELECTRIC {
        Some(Material::Dielectric(u.refraction_index))
    } else {
        None
    }
}

impl Material {
    /// Encodes the material for the shader.
    pub fn to_uniform(&self) -> (u: MaterialUniform)
        ensures
            u == material_uniform(*self),
            material_of_uniform(u) == Some(*self),
            match *self {
                Material::Lambertian(albedo) => u.mat_type == MAT_LAMBERTIAN && u.albedo == albedo
                    && u.roughness == F32Bits(0) && u.refraction_index == F32Bits(0),
                Material::Metal(albedo, roughness) => u.mat_type == MAT_METAL && u.albedo == albedo
                    && u.roughness == roughness && u.refraction_index == F32Bits(0),
                Material::Dielectric(index) => u.mat_type == MAT_DIELECTRIC
                    && u.refraction_index == index && u.roughness == F32Bits(0)
                    && u.albedo == Vec3Bits::spec_zero(),
            },
    {
        match self {
            Material::Lambertian(albedo) => MaterialUniform {
                mat_type: MAT_LAMBERTIAN,
                roughness: F32Bits::zero(),
                refraction_index: F32Bits::zero(),
                albedo: *albedo,
            },
            Material::Metal(albedo, roughness) => MaterialUniform {
                mat_type: MAT_METAL,
                roughness: *roughness,
                refraction_index: F32Bits::zero(),
                albedo: *albedo,
            },
            Material::Dielectric(refraction_index) => MaterialUniform {
                mat_type: MAT_DIELECTRIC,
                roughness: F32Bits::zero(),
                refraction_index: *refraction_index,
                albedo: Vec3Bits::zero(),
            },
        }
    }
}

/// Reading a material's uniform back gives the material: the encoding loses nothing.
pub proof fn lemma_material_uniform_round_trip(m: Material)
    ensures
        material_of_uniform(material_uniform(m)) == Some(m),
{
}

/// Two materials with the same uniform are the same material.
pub proof fn lemma_material_uniform_injective(a: Material, b: Material)
    requires
        material_uniform(a) == material_uniform(b),
    ensures
        a == b,
{
    lemma_material_uniform_round_trip(a);
    lemma_material_uniform_round_trip(b);
}

/// A sphere in the scene.
#[derive(Debug, Clone, Copy, PartialEq, Eq, Structural)]
pub struct Sphere {
    pub center: Vec3Bits,
    pub radius: F32Bits,
    pub mat: Material,
}

/// A sphere as the shader reads it.
#[derive(Debug, Clone, Copy, PartialEq, Eq, Structural)]
pub struct SphereUniform {
    pub mat: MaterialUniform,
    pub center: Vec3Bits,
    pub radius: F32Bits,
}

/// The uniform of a sphere: its material's uniform, its center, its radius.
pub open spec fn sphere_uniform(s: Sphere) -> SphereUniform {
    SphereUniform { mat: material_uniform(s.mat), center: s.center, radius: s.radius }
}

/// A sphere's uniform carries the sphere's own values unchanged: its center is
/// the sphere's center, its radius is the sphere's radius, and its material slots
/// read back as the sphere's material, with that material's tag.
pub proof fn lemma_sphere_uniform_carries_fields(s: Sphere)
    ensures
        sphere_uniform(s).center == s.center,
        sphere_uniform(s).radius == s.radius,
        sphere_uniform(s).mat == material_uniform(s.mat),
        material_of_uniform(sphere_uniform(s).mat) == Some(s.mat),
        match s.mat {
            Material::Lambertian(albedo) => sphere_uniform(s).mat.mat_type == MAT_LAMBERTIAN
                && sphere_uniform(s).mat.albedo == albedo,
            Material::Metal(albedo, roughness) => sphere_uniform(s).mat.mat_type == MAT_METAL
                && sphere_uniform(s).mat.albedo == albedo && sphere_uniform(s).mat.roughness == roughness,
            Material::Dielectric(index) => sphere_uniform(s).mat.mat_type == MAT_DIELECTRIC
                && sphere_uniform(s).mat.refraction_index == index,
        },
{
    lemma_material_uniform_round_trip(s.mat);
}

impl Sphere {
    pub fn new(center: Vec3Bits, radius: F32Bits, mat: Material) -> (s: Sphere)
        ensures
            s == (Sphere { center, radius, mat }),
    {
        Sphere { center, radius, mat }
    }

    /// Encodes the sphere for the shader.
    pub fn to_uniform(&self) -> (u: SphereUniform)
        ensures
            u == sphere_uniform(*self),
            u.center == self.center,
            u.radius == self.radius,
            u.mat == material_uniform(self.mat),
            material_of_uniform(u.mat) == Some(self.mat),
    {
        proof {
            lemma_sphere_uniform_carries_fields(*self);
        }
        SphereUniform { mat: self.mat.to_uniform(), center: self.center, radius: self.radius }
    }
}

/// The spheres of a scene, in drawing order.
pub struct World {
    pub spheres: Vec<Sphere>,
}

impl World {
    /// A world holding a copy of the given spheres, in the same order.
    pub fn new(spheres: &[Sphere]) -> (w: World)
        ensures
            w.spheres@ == spheres@,
    {
        let mut v: Vec<Sphere> = Vec::new();
        let mut i: usize = 0;
        while i < spheres.len()
            invariant
                i <= spheres@.len(),
                v@ == spheres@.subrange(0, i as int),
            decreases spheres@.len() - i,
        {
            v.push(spheres[i]);
            i = i + 1;
        }
        World { spheres: v }
    }

    /// The uniforms of all spheres, one per sphere and in the same order: the
    /// contents of the shader's scene buffer.
    pub fn to_uniform(&self) -> (us: Vec<SphereUniform>)
        ensures
            us@ == self.spheres@.map_values(|s: Sphere| sphere_uniform(s)),
            us@.len() == self.spheres@.len(),
            forall|i: int|
                0 <= i < us@.len() ==> {
                    &&& (#[trigger] us@[i]).center == self.spheres@[i].center
                    &&& us@[i].radius == self.spheres@[i].radius
                    &&& material_of_uniform(us@[i].mat) == Some(self.spheres@[i].mat)
                },
    {
        let mut us: Vec<SphereUniform> = Vec::new();
        let mut i: usize = 0;
        while i < self.spheres.len()
            invariant
                i <= self.spheres@.len(),
                us@ == self.spheres@.subrange(0, i as int).map_values(|s: Sphere| sphere_uniform(s)),
            decreases self.spheres@.len() - i,
        {
            us.push(self.spheres[i].to_uniform());
            proof {
                assert(self.spheres@.subrange(0, i + 1) == self.spheres@.subrange(0, i as int).push(self.spheres@[i as int]));
            }
            i = i + 1;
        }
        proof {
            assert(self.spheres@.subrange(0, i as int) == self.spheres@);
            assert forall|j: int| 0 <= j < us@.len() implies {
                &&& (#[trigger] us@[j]).center == self.spheres@[j].center
                &&& us@[j].radius == self.spheres@[j].radius
                &&& material_of_uniform(us@[j].mat) == Some(self.spheres@[j].mat)
            } by {
                lemma_sphere_uniform_carries_fields(self.spheres@[j]);
            }
        }
        us
    }
}

} // verus!

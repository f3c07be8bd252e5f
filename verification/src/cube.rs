use vstd::prelude::*;

use crate::bits::{F32Bits, Vec3Bits, F32_ONE_BITS, F32_NEG_ONE_BITS, unit_value};

verus! {

/// How a surface scatters light.
#[derive(Debug, Clone, Copy, PartialEq, Eq, Structural)]
pub enum Material {
    /// Diffuse surface with the given albedo.
    Lambertian(Vec3Bits),
    /// Reflective surface with the given albedo and roughness.
    Metal(Vec3Bits, F32Bits),
    /// Transparent surface with the given refraction index.
    Dielectric(F32Bits),
}

/// Tag of a Lambertian material in a [`MaterialUniform`].
pub const MAT_LAMBERTIAN: u32 = 0;

/// Tag of a metal material in a [`MaterialUniform`].
pub const MAT_METAL: u32 = 1;

/// Tag of a dielectric material in a [`MaterialUniform`].
pub const MAT_DIELECTRIC: u32 = 2;

/// A material as the shader reads it: a tag and every parameter slot, the
/// slots that the tag does not use being zero.
///
/// The GPU-side copy adds the alignment padding; its fields are these.
#[derive(Debug, Clone, Copy, PartialEq, Eq, Structural)]
pub struct MaterialUniform {
    pub mat_type: u32,
    pub roughness: F32Bits,
    pub refraction_index: F32Bits,
    pub albedo: Vec3Bits,
}

/// The uniform of a material: the tag of its variant, its own parameters in
/// their slots and zero in the others.
pub open spec fn material_uniform(m: Material) -> MaterialUniform {
    match m {
        Material::Lambertian(albedo) => MaterialUniform {
            mat_type: MAT_LAMBERTIAN,
            roughness: F32Bits(0),
            refraction_index: F32Bits(0),
            albedo,
        },
        Material::Metal(albedo, roughness) => MaterialUniform {
            mat_type: MAT_METAL,
            roughness,
            refraction_index: F32Bits(0),
            albedo,
        },
        Material::Dielectric(refraction_index) => MaterialUniform {
            mat_type: MAT_DIELECTRIC,
            roughness: F32Bits(0),
            refraction_index,
            albedo: Vec3Bits::spec_zero(),
        },
    }
}

/// The material that the shader reads back from a uniform, if its tag is known.
pub open spec fn material_of_uniform(u: MaterialUniform) -> Option<Material> {
    if u.mat_type == MAT_LAMBERTIAN {
        Some(Material::Lambertian(u.albedo))
    } else if u.mat_type == MAT_METAL {
        Some(Material::Metal(u.albedo, u.roughness))
    } else if u.mat_type == MAT_DIELECTRIC {
        Some(Material::Dielectric(u.refraction_index))
    } else {
        None
    }
}

impl Material {
    /// Encodes the material for the shader.
    pub fn to_uniform(&self) -> (u: MaterialUniform)
        ensures
            u == material_uniform(*self),
            material_of_uniform(u) == Some(*self),
            match *self {
                Material::Lambertian(albedo) => u.mat_type == MAT_LAMBERTIAN && u.albedo == albedo
                    && u.roughness == F32Bits(0) && u.refraction_index == F32Bits(0),
                Material::Metal(albedo, roughness) => u.mat_type == MAT_METAL && u.albedo == albedo
                    && u.roughness == roughness && u.refraction_index == F32Bits(0),
                Material::Dielectric(index) => u.mat_type == MAT_DIELECTRIC
                    && u.refraction_index == index && u.roughness == F32Bits(0)
                    && u.albedo == Vec3Bits::spec_zero(),
            },
    {
        match self {
            Material::Lambertian(albedo) => MaterialUniform {
                mat_type: MAT_LAMBERTIAN,
                roughness: F32Bits::zero(),
                refraction_index: F32Bits::zero(),
                albedo: *albedo,
            },
            Material::Metal(albedo, roughness) => MaterialUniform {
                mat_type: MAT_METAL,
                roughness: *roughness,
                refraction_index: F32Bits::zero(),
                albedo: *albedo,
            },
            Material::Dielectric(refraction_index) => MaterialUniform {
                mat_type: MAT_DIELECTRIC,
                roughness: F32Bits::zero(),
                refraction_index: *refraction_index,
                albedo: Vec3Bits::zero(),
            },
        }
    }
}

/// Reading a material's uniform back gives the material: the encoding loses nothing.
pub proof fn lemma_material_uniform_round_trip(m: Material)
    ensures
        material_of_uniform(material_uniform(m)) == Some(m),
{
}

/// Two materials with the same uniform are the same material.
pub proof fn lemma_material_uniform_injective(a: Material, b: Material)
    requires
        material_uniform(a) == material_uniform(b),
    ensures
        a == b,
{
    lemma_material_uniform_round_trip(a);
    lemma_material_uniform_round_trip(b);
}

/// An axis-aligned cube in the scene.
#[derive(Debug, Clone, Copy, PartialEq, Eq, Structural)]
pub struct Cube {
    pub position: Vec3Bits,
    pub size: F32Bits,
    pub material: Material,
}

/// A cube as the shader reads it.
#[derive(Debug, Clone, Copy, PartialEq, Eq, Structural)]
pub struct CubeUniform {
    pub mat: MaterialUniform,
    pub center: Vec3Bits,
    pub size: F32Bits,
}

/// The uniform of a cube: its material's uniform, its position as center, its size.
pub open spec fn cube_uniform(c: Cube) -> CubeUniform {
    CubeUniform { mat: material_uniform(c.material), center: c.position, size: c.size }
}

/// A cube's uniform carries the cube's own values unchanged: its center is
/// the cube's position, its size is the cube's size, and its material slots
/// read back as the cube's material, with that material's tag.
pub proof fn lemma_cube_uniform_carries_fields(c: Cube)
    ensures
        cube_uniform(c).center == c.position,
        cube_uniform(c).size == c.size,
        cube_uniform(c).mat == material_uniform(c.material),
        material_of_uniform(cube_uniform(c).mat) == Some(c.material),
        match c.material {
            Material::Lambertian(albedo) => cube_uniform(c).mat.mat_type == MAT_LAMBERTIAN
                && cube_uniform(c).mat.albedo == albedo,
            Material::Metal(albedo, roughness) => cube_uniform(c).mat.mat_type == MAT_METAL
                && cube_uniform(c).mat.albedo == albedo && cube_uniform(c).mat.roughness == roughness,
            Material::Dielectric(index) => cube_uniform(c).mat.mat_type == MAT_DIELECTRIC
                && cube_uniform(c).mat.refraction_index == index,
        },
{
    lemma_material_uniform_round_trip(c.material);
}

impl Cube {
    pub fn new(position: Vec3Bits, size: F32Bits, material: Material) -> (c: Cube)
        ensures
            c == (Cube { position, size, material }),
    {
        Cube { position, size, material }
    }

    /// Encodes the cube for the shader.
    pub fn to_uniform(&self) -> (u: CubeUniform)
        ensures
            u == cube_uniform(*self),
            u.center == self.position,
            u.size == self.size,
            u.mat == material_uniform(self.material),
            material_of_uniform(u.mat) == Some(self.material),
    {
        proof {
            lemma_cube_uniform_carries_fields(*self);
        }
        CubeUniform { mat: self.material.to_uniform(), center: self.position, size: self.size }
    }
}

/// The cubes of a scene, in drawing order.
pub struct World {
    pub cubes: Vec<Cube>,
}

impl World {
    /// A world holding a copy of the given cubes, in the same order.
    pub fn new(cubes: &[Cube]) -> (w: World)
        ensures
            w.cubes@ == cubes@,
    {
        let mut v: Vec<Cube> = Vec::new();
        let mut i: usize = 0;
        while i < cubes.len()
            invariant
                i <= cubes@.len(),
                v@ == cubes@.subrange(0, i as int),
            decreases cubes@.len() - i,
        {
            v.push(cubes[i]);
            i = i + 1;
        }
        World { cubes: v }
    }

    /// The uniforms of all cubes, one per cube and in the same order: the
    /// contents of the shader's scene buffer.
    pub fn to_uniform(&self) -> (us: Vec<CubeUniform>)
        ensures
            us@ == self.cubes@.map_values(|c: Cube| cube_uniform(c)),
            us@.len() == self.cubes@.len(),
            forall|i: int|
                0 <= i < us@.len() ==> {
                    &&& (#[trigger] us@[i]).center == self.cubes@[i].position
                    &&& us@[i].size == self.cubes@[i].size
                    &&& material_of_uniform(us@[i].mat) == Some(self.cubes@[i].material)
                },
    {
        let mut us: Vec<CubeUniform> = Vec::new();
        let mut i: usize = 0;
        while i < self.cubes.len()
            invariant
                i <= self.cubes@.len(),
                us@ == self.cubes@.subrange(0, i as int).map_values(|c: Cube| cube_uniform(c)),
            decreases self.cubes@.len() - i,
        {
            us.push(self.cubes[i].to_uniform());
            proof {
                assert(self.cubes@.subrange(0, i + 1) == self.cubes@.subrange(0, i as int).push(self.cubes@[i as int]));
            }
            i = i + 1;
        }
        proof {
            assert(self.cubes@.subrange(0, i as int) == self.cubes@);
            assert forall|j: int| 0 <= j < us@.len() implies {
                &&& (#[trigger] us@[j]).center == self.cubes@[j].position
                &&& us@[j].size == self.cubes@[j].size
                &&& material_of_uniform(us@[j].mat) == Some(self.cubes@[j].material)
            } by {
                lemma_cube_uniform_carries_fields(self.cubes@[j]);
            }
        }
        us
    }
}

/// A mesh vertex: a position and the normal of the face it belongs to.
#[derive(Debug, Clone, Copy)]
pub struct Vertex {
    pub position: [F32Bits; 3],
    pub normal: [F32Bits; 3],
}

/// The unit cube `[-1, 1]^3` as four vertices per face, in the order
/// front (z = 1), back (z = -1), top (y = 1), bottom (y = -1), right (x = 1), left (x = -1).
pub open spec fn cube_vertices_spec() -> Seq<Vertex> {
    seq![
        Vertex { position: [F32Bits(F32_NEG_ONE_BITS), F32Bits(F32_NEG_ONE_BITS), F32Bits(F32_ONE_BITS)], normal: [F32Bits(0), F32Bits(0), F32Bits(F32_ONE_BITS)] },
        Vertex { position: [F32Bits(F32_ONE_BITS), F32Bits(F32_NEG_ONE_BITS), F32Bits(F32_ONE_BITS)], normal: [F32Bits(0), F32Bits(0), F32Bits(F32_ONE_BITS)] },
        Vertex { position: [F32Bits(F32_ONE_BITS), F32Bits(F32_ONE_BITS), F32Bits(F32_ONE_BITS)], normal: [F32Bits(0), F32Bits(0), F32Bits(F32_ONE_BITS)] },
        Vertex { position: [F32Bits(F32_NEG_ONE_BITS), F32Bits(F32_ONE_BITS), F32Bits(F32_ONE_BITS)], normal: [F32Bits(0), F32Bits(0), F32Bits(F32_ONE_BITS)] },
        Vertex { position: [F32Bits(F32_NEG_ONE_BITS), F32Bits(F32_NEG_ONE_BITS), F32Bits(F32_NEG_ONE_BITS)], normal: [F32Bits(0), F32Bits(0), F32Bits(F32_NEG_ONE_BITS)] },
        Vertex { position: [F32Bits(F32_NEG_ONE_BITS), F32Bits(F32_ONE_BITS), F32Bits(F32_NEG_ONE_BITS)], normal: [F32Bits(0), F32Bits(0), F32Bits(F32_NEG_ONE_BITS)] },
        Vertex { position: [F32Bits(F32_ONE_BITS), F32Bits(F32_ONE_BITS), F32Bits(F32_NEG_ONE_BITS)], normal: [F32Bits(0), F32Bits(0), F32Bits(F32_NEG_ONE_BITS)] },
        Vertex { position: [F32Bits(F32_ONE_BITS), F32Bits(F32_NEG_ONE_BITS), F32Bits(F32_NEG_ONE_BITS)], normal: [F32Bits(0), F32Bits(0), F32Bits(F32_NEG_ONE_BITS)] },
        Vertex { position: [F32Bits(F32_NEG_ONE_BITS), F32Bits(F32_ONE_BITS), F32Bits(F32_NEG_ONE_BITS)], normal: [F32Bits(0), F32Bits(F32_ONE_BITS), F32Bits(0)] },
        Vertex { position: [F32Bits(F32_NEG_ONE_BITS), F32Bits(F32_ONE_BITS), F32Bits(F32_ONE_BITS)], normal: [F32Bits(0), F32Bits(F32_ONE_BITS), F32Bits(0)] },
        Vertex { position: [F32Bits(F32_ONE_BITS), F32Bits(F32_ONE_BITS), F32Bits(F32_ONE_BITS)], normal: [F32Bits(0), F32Bits(F32_ONE_BITS), F32Bits(0)] },
        Vertex { position: [F32Bits(F32_ONE_BITS), F32Bits(F32_ONE_BITS), F32Bits(F32_NEG_ONE_BITS)], normal: [F32Bits(0), F32Bits(F32_ONE_BITS), F32Bits(0)] },
        Vertex { position: [F32Bits(F32_NEG_ONE_BITS), F32Bits(F32_NEG_ONE_BITS), F32Bits(F32_NEG_ONE_BITS)], normal: [F32Bits(0), F32Bits(F32_NEG_ONE_BITS), F32Bits(0)] },
        Vertex { position: [F32Bits(F32_ONE_BITS), F32Bits(F32_NEG_ONE_BITS), F32Bits(F32_NEG_ONE_BITS)], normal: [F32Bits(0), F32Bits(F32_NEG_ONE_BITS), F32Bits(0)] },
        Vertex { position: [F32Bits(F32_ONE_BITS), F32Bits(F32_NEG_ONE_BITS), F32Bits(F32_ONE_BITS)], normal: [F32Bits(0), F32Bits(F32_NEG_ONE_BITS), F32Bits(0)] },
        Vertex { position: [F32Bits(F32_NEG_ONE_BITS), F32Bits(F32_NEG_ONE_BITS), F32Bits(F32_ONE_BITS)], normal: [F32Bits(0), F32Bits(F32_NEG_ONE_BITS), F32Bits(0)] },
        Vertex { position: [F32Bits(F32_ONE_BITS), F32Bits(F32_NEG_ONE_BITS), F32Bits(F32_NEG_ONE_BITS)], normal: [F32Bits(F32_ONE_BITS), F32Bits(0), F32Bits(0)] },
        Vertex { position: [F32Bits(F32_ONE_BITS), F32Bits(F32_ONE_BITS), F32Bits(F32_NEG_ONE_BITS)], normal: [F32Bits(F32_ONE_BITS), F32Bits(0), F32Bits(0)] },
        Vertex { position: [F32Bits(F32_ONE_BITS), F32Bits(F32_ONE_BITS), F32Bits(F32_ONE_BITS)], normal: [F32Bits(F32_ONE_BITS), F32Bits(0), F32Bits(0)] },
        Vertex { position: [F32Bits(F32_ONE_BITS), F32Bits(F32_NEG_ONE_BITS), F32Bits(F32_ONE_BITS)], normal: [F32Bits(F32_ONE_BITS), F32Bits(0), F32Bits(0)] },
        Vertex { position: [F32Bits(F32_NEG_ONE_BITS), F32Bits(F32_NEG_ONE_BITS), F32Bits(F32_NEG_ONE_BITS)], normal: [F32Bits(F32_NEG_ONE_BITS), F32Bits(0), F32Bits(0)] },
        Vertex { position: [F32Bits(F32_NEG_ONE_BITS), F32Bits(F32_NEG_ONE_BITS), F32Bits(F32_ONE_BITS)], normal: [F32Bits(F32_NEG_ONE_BITS), F32Bits(0), F32Bits(0)] },
        Vertex { position: [F32Bits(F32_NEG_ONE_BITS), F32Bits(F32_ONE_BITS), F32Bits(F32_ONE_BITS)], normal: [F32Bits(F32_NEG_ONE_BITS), F32Bits(0), F32Bits(0)] },
        Vertex { position: [F32Bits(F32_NEG_ONE_BITS), F32Bits(F32_ONE_BITS), F32Bits(F32_NEG_ONE_BITS)], normal: [F32Bits(F32_NEG_ONE_BITS), F32Bits(0), F32Bits(0)] },
    ]
}

/// Two triangles per face of the cube, three vertex indices each.
pub open spec fn cube_indices_spec() -> Seq<u16> {
    seq![
        0, 1, 2, 0, 2, 3, // front
        4, 5, 6, 4, 6, 7, // back
        8, 9, 10, 8, 10, 11, // top
        12, 13, 14, 12, 14, 15, // bottom
        16, 17, 18, 16, 18, 19, // right
        20, 21, 22, 20, 22, 23, // left
    ]
}

/// The integer coordinates of a vector of `-1.0`, `0.0` and `1.0` components.
pub open spec fn int_coords(p: [F32Bits; 3]) -> (int, int, int) {
    (unit_value(p[0]), unit_value(p[1]), unit_value(p[2]))
}

pub open spec fn dot(a: (int, int, int), b: (int, int, int)) -> int {
    a.0 * b.0 + a.1 * b.1 + a.2 * b.2
}

pub open spec fn cross(a: (int, int, int), b: (int, int, int)) -> (int, int, int) {
    (a.1 * b.2 - a.2 * b.1, a.2 * b.0 - a.0 * b.2, a.0 * b.1 - a.1 * b.0)
}

pub open spec fn minus(a: (int, int, int), b: (int, int, int)) -> (int, int, int) {
    (a.0 - b.0, a.1 - b.1, a.2 - b.2)
}

/// The bit pattern is that of `-1.0` or `1.0`.
pub open spec fn is_corner_coord(b: F32Bits) -> bool {
    b.0 == F32_ONE_BITS || b.0 == F32_NEG_ONE_BITS
}

/// The vertex is a corner of the cube `[-1, 1]^3`, its normal is a unit axis
/// vector, and the vertex lies on the face that the normal points out of: on
/// the normal's axis, the position's coordinate equals the normal's.
pub open spec fn vertex_on_its_face(v: Vertex) -> bool {
    &&& is_corner_coord(v.position[0])
    &&& is_corner_coord(v.position[1])
    &&& is_corner_coord(v.position[2])
    &&& is_unit_axis(v.normal)
    &&& v.normal[0].0 != 0 ==> v.position[0] == v.normal[0]
    &&& v.normal[1].0 != 0 ==> v.position[1] == v.normal[1]
    &&& v.normal[2].0 != 0 ==> v.position[2] == v.normal[2]
}

/// The vector is one of the six unit axis vectors: one coordinate is `-1.0` or
/// `1.0`, the other two are `+0.0`.
pub open spec fn is_unit_axis(n: [F32Bits; 3]) -> bool {
    ||| is_corner_coord(n[0]) && n[1].0 == 0 && n[2].0 == 0
    ||| n[0].0 == 0 && is_corner_coord(n[1]) && n[2].0 == 0
    ||| n[0].0 == 0 && n[1].0 == 0 && is_corner_coord(n[2])
}

/// Triangle `t` of the mesh lies on one face, and its vertices run
/// counter-clockwise seen from outside the cube (the edge cross product points
/// along the face normal).
pub open spec fn triangle_winds_outward(vs: Seq<Vertex>, is: Seq<u16>, t: int) -> bool {
    let a = vs[is[3 * t] as int];
    let b = vs[is[3 * t + 1] as int];
    let c = vs[is[3 * t + 2] as int];
    &&& b.normal == a.normal
    &&& c.normal == a.normal
    &&& dot(
        cross(
            minus(int_coords(b.position), int_coords(a.position)),
            minus(int_coords(c.position), int_coords(a.position)),
        ),
        int_coords(a.normal),
    ) > 0
}

/// Every vertex of the cube mesh lies on the face its normal points out of.
pub proof fn lemma_cube_vertices_on_faces()
    ensures
        cube_vertices_spec().len() == 24,
        forall|i: int| 0 <= i < 24 ==> vertex_on_its_face(#[trigger] cube_vertices_spec()[i]),
{
    let vs = cube_vertices_spec();
    assert(vertex_on_its_face(vs[0]));
    assert(vertex_on_its_face(vs[1]));
    assert(vertex_on_its_face(vs[2]));
    assert(vertex_on_its_face(vs[3]));
    assert(vertex_on_its_face(vs[4]));
    assert(vertex_on_its_face(vs[5]));
    assert(vertex_on_its_face(vs[6]));
    assert(vertex_on_its_face(vs[7]));
    assert(vertex_on_its_face(vs[8]));
    assert(vertex_on_its_face(vs[9]));
    assert(vertex_on_its_face(vs[10]));
    assert(vertex_on_its_face(vs[11]));
    assert(vertex_on_its_face(vs[12]));
    assert(vertex_on_its_face(vs[13]));
    assert(vertex_on_its_face(vs[14]));
    assert(vertex_on_its_face(vs[15]));
    assert(vertex_on_its_face(vs[16]));
    assert(vertex_on_its_face(vs[17]));
    assert(vertex_on_its_face(vs[18]));
    assert(vertex_on_its_face(vs[19]));
    assert(vertex_on_its_face(vs[20]));
    assert(vertex_on_its_face(vs[21]));
    assert(vertex_on_its_face(vs[22]));
    assert(vertex_on_its_face(vs[23]));
    assert forall|i: int| 0 <= i < 24 implies vertex_on_its_face(#[trigger] vs[i]) by {
        assert(i == 0 || i == 1 || i == 2 || i == 3 || i == 4 || i == 5 || i == 6 || i == 7
            || i == 8 || i == 9 || i == 10 || i == 11 || i == 12 || i == 13 || i == 14 || i == 15
            || i == 16 || i == 17 || i == 18 || i == 19 || i == 20 || i == 21 || i == 22
            || i == 23);
    }
}

/// Every index of the cube mesh names a vertex, and every triangle lies on one
/// face and is wound counter-clockwise as seen from outside the cube.
pub proof fn lemma_cube_triangles_wind_outward()
    ensures
        cube_indices_spec().len() == 36,
        forall|k: int| 0 <= k < 36 ==> #[trigger] cube_indices_spec()[k] < 24,
        forall|t: int|
            0 <= t < 12 ==> triangle_winds_outward(cube_vertices_spec(), cube_indices_spec(), t),
{
    let vs = cube_vertices_spec();
    let is = cube_indices_spec();
    assert(triangle_winds_outward(vs, is, 0)) by {
        let pa = int_coords(vs[is[0] as int].position);
        let pb = int_coords(vs[is[1] as int].position);
        let pc = int_coords(vs[is[2] as int].position);
        let n = int_coords(vs[is[0] as int].normal);
        assert(pa == (-1int, -1int, 1int) && pb == (1int, -1int, 1int) && pc == (1int, 1int, 1int));
        assert(n == (0int, 0int, 1int));
        assert(dot(cross(minus(pb, pa), minus(pc, pa)), n) > 0) by (nonlinear_arith)
            requires
                pa == (-1int, -1int, 1int),
                pb == (1int, -1int, 1int),
                pc == (1int, 1int, 1int),
                n == (0int, 0int, 1int),
        ;
    }
    assert(triangle_winds_outward(vs, is, 1)) by {
        let pa = int_coords(vs[is[3] as int].position);
        let pb = int_coords(vs[is[4] as int].position);
        let pc = int_coords(vs[is[5] as int].position);
        let n = int_coords(vs[is[3] as int].normal);
        assert(pa == (-1int, -1int, 1int) && pb == (1int, 1int, 1int) && pc == (-1int, 1int, 1int));
        assert(n == (0int, 0int, 1int));
        assert(dot(cross(minus(pb, pa), minus(pc, pa)), n) > 0) by (nonlinear_arith)
            requires
                pa == (-1int, -1int, 1int),
                pb == (1int, 1int, 1int),
                pc == (-1int, 1int, 1int),
                n == (0int, 0int, 1int),
        ;
    }
    assert(triangle_winds_outward(vs, is, 2)) by {
        let pa = int_coords(vs[is[6] as int].position);
        let pb = int_coords(vs[is[7] as int].position);
        let pc = int_coords(vs[is[8] as int].position);
        let n = int_coords(vs[is[6] as int].normal);
        assert(pa == (-1int, -1int, -1int) && pb == (-1int, 1int, -1int) && pc == (1int, 1int, -1int));
        assert(n == (0int, 0int, -1int));
        assert(dot(cross(minus(pb, pa), minus(pc, pa)), n) > 0) by (nonlinear_arith)
            requires
                pa == (-1int, -1int, -1int),
                pb == (-1int, 1int, -1int),
                pc == (1int, 1int, -1int),
                n == (0int, 0int, -1int),
        ;
    }
    assert(triangle_winds_outward(vs, is, 3)) by {
        let pa = int_coords(vs[is[9] as int].position);
        let pb = int_coords(vs[is[10] as int].position);
        let pc = int_coords(vs[is[11] as int].position);
        let n = int_coords(vs[is[9] as int].normal);
        assert(pa == (-1int, -1int, -1int) && pb == (1int, 1int, -1int) && pc == (1int, -1int, -1int));
        assert(n == (0int, 0int, -1int));
        assert(dot(cross(minus(pb, pa), minus(pc, pa)), n) > 0) by (nonlinear_arith)
            requires
                pa == (-1int, -1int, -1int),
                pb == (1int, 1int, -1int),
                pc == (1int, -1int, -1int),
                n == (0int, 0int, -1int),
        ;
    }
    assert(triangle_winds_outward(vs, is, 4)) by {
        let pa = int_coords(vs[is[12] as int].position);
        let pb = int_coords(vs[is[13] as int].position);
        let pc = int_coords(vs[is[14] as int].position);
        let n = int_coords(vs[is[12] as int].normal);
        assert(pa == (-1int, 1int, -1int) && pb == (-1int, 1int, 1int) && pc == (1int, 1int, 1int));
        assert(n == (0int, 1int, 0int));
        assert(dot(cross(minus(pb, pa), minus(pc, pa)), n) > 0) by (nonlinear_arith)
            requires
                pa == (-1int, 1int, -1int),
                pb == (-1int, 1int, 1int),
                pc == (1int, 1int, 1int),
                n == (0int, 1int, 0int),
        ;
    }
    assert(triangle_winds_outward(vs, is, 5)) by {
        let pa = int_coords(vs[is[15] as int].position);
        let pb = int_coords(vs[is[16] as int].position);
        let pc = int_coords(vs[is[17] as int].position);
        let n = int_coords(vs[is[15] as int].normal);
        assert(pa == (-1int, 1int, -1int) && pb == (1int, 1int, 1int) && pc == (1int, 1int, -1int));
        assert(n == (0int, 1int, 0int));
        assert(dot(cross(minus(pb, pa), minus(pc, pa)), n) > 0) by (nonlinear_arith)
            requires
                pa == (-1int, 1int, -1int),
                pb == (1int, 1int, 1int),
                pc == (1int, 1int, -1int),
                n == (0int, 1int, 0int),
        ;
    }
    assert(triangle_winds_outward(vs, is, 6)) by {
        let pa = int_coords(vs[is[18] as int].position);
        let pb = int_coords(vs[is[19] as int].position);
        let pc = int_coords(vs[is[20] as int].position);
        let n = int_coords(vs[is[18] as int].normal);
        assert(pa == (-1int, -1int, -1int) && pb == (1int, -1int, -1int) && pc == (1int, -1int, 1int));
        assert(n == (0int, -1int, 0int));
        assert(dot(cross(minus(pb, pa), minus(pc, pa)), n) > 0) by (nonlinear_arith)
            requires
                pa == (-1int, -1int, -1int),
                pb == (1int, -1int, -1int),
                pc == (1int, -1int, 1int),
                n == (0int, -1int, 0int),
        ;
    }
    assert(triangle_winds_outward(vs, is, 7)) by {
        let pa = int_coords(vs[is[21] as int].position);
        let pb = int_coords(vs[is[22] as int].position);
        let pc = int_coords(vs[is[23] as int].position);
        let n = int_coords(vs[is[21] as int].normal);
        assert(pa == (-1int, -1int, -1int) && pb == (1int, -1int, 1int) && pc == (-1int, -1int, 1int));
        assert(n == (0int, -1int, 0int));
        assert(dot(cross(minus(pb, pa), minus(pc, pa)), n) > 0) by (nonlinear_arith)
            requires
                pa == (-1int, -1int, -1int),
                pb == (1int, -1int, 1int),
                pc == (-1int, -1int, 1int),
                n == (0int, -1int, 0int),
        ;
    }
    assert(triangle_winds_outward(vs, is, 8)) by {
        let pa = int_coords(vs[is[24] as int].position);
        let pb = int_coords(vs[is[25] as int].position);
        let pc = int_coords(vs[is[26] as int].position);
        let n = int_coords(vs[is[24] as int].normal);
        assert(pa == (1int, -1int, -1int) && pb == (1int, 1int, -1int) && pc == (1int, 1int, 1int));
        assert(n == (1int, 0int, 0int));
        assert(dot(cross(minus(pb, pa), minus(pc, pa)), n) > 0) by (nonlinear_arith)
            requires
                pa == (1int, -1int, -1int),
                pb == (1int, 1int, -1int),
                pc == (1int, 1int, 1int),
                n == (1int, 0int, 0int),
        ;
    }
    assert(triangle_winds_outward(vs, is, 9)) by {
        let pa = int_coords(vs[is[27] as int].position);
        let pb = int_coords(vs[is[28] as int].position);
        let pc = int_coords(vs[is[29] as int].position);
        let n = int_coords(vs[is[27] as int].normal);
        assert(pa == (1int, -1int, -1int) && pb == (1int, 1int, 1int) && pc == (1int, -1int, 1int));
        assert(n == (1int, 0int, 0int));
        assert(dot(cross(minus(pb, pa), minus(pc, pa)), n) > 0) by (nonlinear_arith)
            requires
                pa == (1int, -1int, -1int),
                pb == (1int, 1int, 1int),
                pc == (1int, -1int, 1int),
                n == (1int, 0int, 0int),
        ;
    }
    assert(triangle_winds_outward(vs, is, 10)) by {
        let pa = int_coords(vs[is[30] as int].position);
        let pb = int_coords(vs[is[31] as int].position);
        let pc = int_coords(vs[is[32] as int].position);
        let n = int_coords(vs[is[30] as int].normal);
        assert(pa == (-1int, -1int, -1int) && pb == (-1int, -1int, 1int) && pc == (-1int, 1int, 1int));
        assert(n == (-1int, 0int, 0int));
        assert(dot(cross(minus(pb, pa), minus(pc, pa)), n) > 0) by (nonlinear_arith)
            requires
                pa == (-1int, -1int, -1int),
                pb == (-1int, -1int, 1int),
                pc == (-1int, 1int, 1int),
                n == (-1int, 0int, 0int),
        ;
    }
    assert(triangle_winds_outward(vs, is, 11)) by {
        let pa = int_coords(vs[is[33] as int].position);
        let pb = int_coords(vs[is[34] as int].position);
        let pc = int_coords(vs[is[35] as int].position);
        let n = int_coords(vs[is[33] as int].normal);
        assert(pa == (-1int, -1int, -1int) && pb == (-1int, 1int, 1int) && pc == (-1int, 1int, -1int));
        assert(n == (-1int, 0int, 0int));
        assert(dot(cross(minus(pb, pa), minus(pc, pa)), n) > 0) by (nonlinear_arith)
            requires
                pa == (-1int, -1int, -1int),
                pb == (-1int, 1int, 1int),
                pc == (-1int, 1int, -1int),
                n == (-1int, 0int, 0int),
        ;
    }
    assert forall|t: int| 0 <= t < 12 implies triangle_winds_outward(vs, is, t) by {
        assert(t == 0 || t == 1 || t == 2 || t == 3 || t == 4 || t == 5 || t == 6 || t == 7
            || t == 8 || t == 9 || t == 10 || t == 11);
    }
}

/// The vertices of the cube mesh.
pub fn cube_vertices() -> (v: Vec<Vertex>)
    ensures
        v@ == cube_vertices_spec(),
{
    vec![
        Vertex { position: [F32Bits(F32_NEG_ONE_BITS), F32Bits(F32_NEG_ONE_BITS), F32Bits(F32_ONE_BITS)], normal: [F32Bits(0), F32Bits(0), F32Bits(F32_ONE_BITS)] },
        Vertex { position: [F32Bits(F32_ONE_BITS), F32Bits(F32_NEG_ONE_BITS), F32Bits(F32_ONE_BITS)], normal: [F32Bits(0), F32Bits(0), F32Bits(F32_ONE_BITS)] },
        Vertex { position: [F32Bits(F32_ONE_BITS), F32Bits(F32_ONE_BITS), F32Bits(F32_ONE_BITS)], normal: [F32Bits(0), F32Bits(0), F32Bits(F32_ONE_BITS)] },
        Vertex { position: [F32Bits(F32_NEG_ONE_BITS), F32Bits(F32_ONE_BITS), F32Bits(F32_ONE_BITS)], normal: [F32Bits(0), F32Bits(0), F32Bits(F32_ONE_BITS)] },
        Vertex { position: [F32Bits(F32_NEG_ONE_BITS), F32Bits(F32_NEG_ONE_BITS), F32Bits(F32_NEG_ONE_BITS)], normal: [F32Bits(0), F32Bits(0), F32Bits(F32_NEG_ONE_BITS)] },
        Vertex { position: [F32Bits(F32_NEG_ONE_BITS), F32Bits(F32_ONE_BITS), F32Bits(F32_NEG_ONE_BITS)], normal: [F32Bits(0), F32Bits(0), F32Bits(F32_NEG_ONE_BITS)] },
        Vertex { position: [F32Bits(F32_ONE_BITS), F32Bits(F32_ONE_BITS), F32Bits(F32_NEG_ONE_BITS)], normal: [F32Bits(0), F32Bits(0), F32Bits(F32_NEG_ONE_BITS)] },
        Vertex { position: [F32Bits(F32_ONE_BITS), F32Bits(F32_NEG_ONE_BITS), F32Bits(F32_NEG_ONE_BITS)], normal: [F32Bits(0), F32Bits(0), F32Bits(F32_NEG_ONE_BITS)] },
        Vertex { position: [F32Bits(F32_NEG_ONE_BITS), F32Bits(F32_ONE_BITS), F32Bits(F32_NEG_ONE_BITS)], normal: [F32Bits(0), F32Bits(F32_ONE_BITS), F32Bits(0)] },
        Vertex { position: [F32Bits(F32_NEG_ONE_BITS), F32Bits(F32_ONE_BITS), F32Bits(F32_ONE_BITS)], normal: [F32Bits(0), F32Bits(F32_ONE_BITS), F32Bits(0)] },
        Vertex { position: [F32Bits(F32_ONE_BITS), F32Bits(F32_ONE_BITS), F32Bits(F32_ONE_BITS)], normal: [F32Bits(0), F32Bits(F32_ONE_BITS), F32Bits(0)] },
        Vertex { position: [F32Bits(F32_ONE_BITS), F32Bits(F32_ONE_BITS), F32Bits(F32_NEG_ONE_BITS)], normal: [F32Bits(0), F32Bits(F32_ONE_BITS), F32Bits(0)] },
        Vertex { position: [F32Bits(F32_NEG_ONE_BITS), F32Bits(F32_NEG_ONE_BITS), F32Bits(F32_NEG_ONE_BITS)], normal: [F32Bits(0), F32Bits(F32_NEG_ONE_BITS), F32Bits(0)] },
        Vertex { position: [F32Bits(F32_ONE_BITS), F32Bits(F32_NEG_ONE_BITS), F32Bits(F32_NEG_ONE_BITS)], normal: [F32Bits(0), F32Bits(F32_NEG_ONE_BITS), F32Bits(0)] },
        Vertex { position: [F32Bits(F32_ONE_BITS), F32Bits(F32_NEG_ONE_BITS), F32Bits(F32_ONE_BITS)], normal: [F32Bits(0), F32Bits(F32_NEG_ONE_BITS), F32Bits(0)] },
        Vertex { position: [F32Bits(F32_NEG_ONE_BITS), F32Bits(F32_NEG_ONE_BITS), F32Bits(F32_ONE_BITS)], normal: [F32Bits(0), F32Bits(F32_NEG_ONE_BITS), F32Bits(0)] },
        Vertex { position: [F32Bits(F32_ONE_BITS), F32Bits(F32_NEG_ONE_BITS), F32Bits(F32_NEG_ONE_BITS)], normal: [F32Bits(F32_ONE_BITS), F32Bits(0), F32Bits(0)] },
        Vertex { position: [F32Bits(F32_ONE_BITS), F32Bits(F32_ONE_BITS), F32Bits(F32_NEG_ONE_BITS)], normal: [F32Bits(F32_ONE_BITS), F32Bits(0), F32Bits(0)] },
        Vertex { position: [F32Bits(F32_ONE_BITS), F32Bits(F32_ONE_BITS), F32Bits(F32_ONE_BITS)], normal: [F32Bits(F32_ONE_BITS), F32Bits(0), F32Bits(0)] },
        Vertex { position: [F32Bits(F32_ONE_BITS), F32Bits(F32_NEG_ONE_BITS), F32Bits(F32_ONE_BITS)], normal: [F32Bits(F32_ONE_BITS), F32Bits(0), F32Bits(0)] },
        Vertex { position: [F32Bits(F32_NEG_ONE_BITS), F32Bits(F32_NEG_ONE_BITS), F32Bits(F32_NEG_ONE_BITS)], normal: [F32Bits(F32_NEG_ONE_BITS), F32Bits(0), F32Bits(0)] },
        Vertex { position: [F32Bits(F32_NEG_ONE_BITS), F32Bits(F32_NEG_ONE_BITS), F32Bits(F32_ONE_BITS)], normal: [F32Bits(F32_NEG_ONE_BITS), F32Bits(0), F32Bits(0)] },
        Vertex { position: [F32Bits(F32_NEG_ONE_BITS), F32Bits(F32_ONE_BITS), F32Bits(F32_ONE_BITS)], normal: [F32Bits(F32_NEG_ONE_BITS), F32Bits(0), F32Bits(0)] },
        Vertex { position: [F32Bits(F32_NEG_ONE_BITS), F32Bits(F32_ONE_BITS), F32Bits(F32_NEG_ONE_BITS)], normal: [F32Bits(F32_NEG_ONE_BITS), F32Bits(0), F32Bits(0)] },
    ]
}

/// The triangle indices of the cube mesh.
pub fn cube_indices() -> (v: Vec<u16>)
    ensures
        v@ == cube_indices_spec(),
{
    vec![
        0, 1, 2, 0, 2, 3, // front
        4, 5, 6, 4, 6, 7, // back
        8, 9, 10, 8, 10, 11, // top
        12, 13, 14, 12, 14, 15, // bottom
        16, 17, 18, 16, 18, 19, // right
        20, 21, 22, 20, 22, 23, // left
    ]
}

} // verus!

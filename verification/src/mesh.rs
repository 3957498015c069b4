//! Triangle meshes, and the scene records that a model of several meshes
//! turns into.

use vstd::prelude::*;
use crate::raytracing::RTMaterial;
use crate::raytracing::RTMeshInfo;
use crate::raytracing::RTTriangle;
use crate::raytracing::Vec3a16;
use crate::scalar::Scalar;
use crate::vector::Vec3;
use crate::vector::Vec4;

verus! {

/// The bit pattern of `0.5`.
pub const HALF: u32 = 0x3f00_0000;

/// The bit pattern of `1.0`.
pub const ONE: u32 = 0x3f80_0000;

/// One mesh: flat arrays of corner positions and normals, three numbers
/// each, of colours, four numbers each, and of corner indices, three to a
/// triangle.
pub struct Mesh {
    pub vertices: Vec<Scalar>,
    pub normals: Vec<Scalar>,
    pub colors: Vec<Scalar>,
    pub indices: Vec<u32>,
    pub index_count: i32,
}

/// Several meshes that make up one model.
pub struct Model {
    pub meshes: Vec<Mesh>,
}

/// Component `i` of the colour that every corner of a loaded mesh gets: an
/// opaque red.
pub open spec fn default_color_component(i: int) -> Scalar {
    if i % 4 == 0 || i % 4 == 3 {
        Scalar { bits: ONE }
    } else {
        Scalar { bits: 0 }
    }
}

impl Mesh {
    /// The number of whole vertices.
    pub open spec fn vertex_count(&self) -> int {
        self.vertices@.len() as int / 3
    }

    /// The number of whole normals.
    pub open spec fn normal_count(&self) -> int {
        self.normals@.len() as int / 3
    }

    /// The number of whole colours.
    pub open spec fn color_count(&self) -> int {
        self.colors@.len() as int / 4
    }

    /// The number of triangles: a third of the index count, none where that
    /// is negative.
    pub open spec fn triangle_count(&self) -> int {
        if self.index_count > 0 {
            self.index_count as int / 3
        } else {
            0
        }
    }

    /// Vertex `i`.
    pub open spec fn spec_vertex(&self, i: int) -> Vec3 {
        Vec3 {
            x: self.vertices@[3 * i],
            y: self.vertices@[3 * i + 1],
            z: self.vertices@[3 * i + 2],
        }
    }

    /// Normal `i`.
    pub open spec fn spec_normal(&self, i: int) -> Vec3 {
        Vec3 { x: self.normals@[3 * i], y: self.normals@[3 * i + 1], z: self.normals@[3 * i + 2] }
    }

    /// Colour `i`.
    pub open spec fn spec_color(&self, i: int) -> Vec4 {
        Vec4 {
            x: self.colors@[4 * i],
            y: self.colors@[4 * i + 1],
            z: self.colors@[4 * i + 2],
            w: self.colors@[4 * i + 3],
        }
    }

    /// Whether triangle `t` can be read: its three indices exist, each names
    /// a vertex and a normal, and the first names a colour.
    pub open spec fn triangle_readable(&self, t: int) -> bool {
        &&& 3 * t + 2 < self.indices@.len()
        &&& (self.indices@[3 * t] as int) < self.vertex_count()
        &&& (self.indices@[3 * t + 1] as int) < self.vertex_count()
        &&& (self.indices@[3 * t + 2] as int) < self.vertex_count()
        &&& (self.indices@[3 * t] as int) < self.normal_count()
        &&& (self.indices@[3 * t + 1] as int) < self.normal_count()
        &&& (self.indices@[3 * t + 2] as int) < self.normal_count()
        &&& (self.indices@[3 * t] as int) < self.color_count()
    }

    /// Whether every triangle of the mesh can be read.
    pub open spec fn well_formed(&self) -> bool {
        forall|t: int| 0 <= t < self.triangle_count() ==> self.triangle_readable(t)
    }

    /// Triangle `t` as a scene record. Its corners and normals are those its
    /// indices name. Its material takes the colour of the first corner, emits
    /// that colour at half strength, and is half smooth with no specular
    /// colour.
    pub open spec fn spec_triangle(&self, t: int) -> RTTriangle {
        let i0 = self.indices@[3 * t] as int;
        let i1 = self.indices@[3 * t + 1] as int;
        let i2 = self.indices@[3 * t + 2] as int;
        let color = self.spec_color(i0);
        RTTriangle {
            p0: Vec3a16::spec_from_vec3(self.spec_vertex(i0)),
            p1: Vec3a16::spec_from_vec3(self.spec_vertex(i1)),
            p2: Vec3a16::spec_from_vec3(self.spec_vertex(i2)),
            normal0: Vec3a16::spec_from_vec3(self.spec_normal(i0)),
            normal1: Vec3a16::spec_from_vec3(self.spec_normal(i1)),
            normal2: Vec3a16::spec_from_vec3(self.spec_normal(i2)),
            material: RTMaterial {
                color,
                emission_color: Vec4 { x: color.x, y: color.y, z: color.z, w: Scalar { bits: HALF } },
                specular_color: Vec4::spec_zeros(),
                smoothness: Scalar { bits: HALF },
            },
        }
    }

    /// The triangles of the mesh, in the order of its indices.
    pub open spec fn spec_triangles(&self) -> Seq<RTTriangle> {
        Seq::new(self.triangle_count() as nat, |t: int| self.spec_triangle(t))
    }

    /// The box around the first `n` vertices, as its least and its greatest
    /// corner: both at the origin for no vertex; else each vertex in turn is
    /// held against the box so far, the first against itself.
    pub open spec fn spec_bounds(&self, n: int) -> (Vec3, Vec3)
        decreases n,
    {
        if n <= 0 {
            (Vec3::spec_zeros(), Vec3::spec_zeros())
        } else {
            let v = self.spec_vertex(n - 1);
            let so_far = if n == 1 {
                (v, v)
            } else {
                self.spec_bounds(n - 1)
            };
            (Vec3::spec_min2(v, so_far.0), Vec3::spec_max2(v, so_far.1))
        }
    }

    /// Whether every component of the first `n` vertices is a number.
    pub open spec fn vertices_are_numbers(&self, n: int) -> bool {
        forall|j: int| 0 <= j < 3 * n ==> !(#[trigger] self.vertices@[j]).is_nan()
    }

    /// Whether no component of `corner` is greater than that component of
    /// any of the first `n` vertices.
    pub open spec fn lies_below(&self, n: int, corner: Vec3) -> bool {
        forall|i: int|
            #![trigger self.spec_vertex(i)]
            0 <= i < n ==> {
                &&& corner.x.spec_le(self.spec_vertex(i).x)
                &&& corner.y.spec_le(self.spec_vertex(i).y)
                &&& corner.z.spec_le(self.spec_vertex(i).z)
            }
    }

    /// Whether no component of `corner` is less than that component of any
    /// of the first `n` vertices.
    pub open spec fn lies_above(&self, n: int, corner: Vec3) -> bool {
        forall|i: int|
            #![trigger self.spec_vertex(i)]
            0 <= i < n ==> {
                &&& self.spec_vertex(i).x.spec_le(corner.x)
                &&& self.spec_vertex(i).y.spec_le(corner.y)
                &&& self.spec_vertex(i).z.spec_le(corner.z)
            }
    }

    /// Whether each component of `corner` is that component of one of the
    /// first `n` vertices, bit for bit.
    pub open spec fn touches(&self, n: int, corner: Vec3) -> bool {
        &&& exists|i: int| 0 <= i < n && corner.x == (#[trigger] self.spec_vertex(i)).x
        &&& exists|i: int| 0 <= i < n && corner.y == (#[trigger] self.spec_vertex(i)).y
        &&& exists|i: int| 0 <= i < n && corner.z == (#[trigger] self.spec_vertex(i)).z
    }

    /// The box is the tightest one around the vertices. Of at least one
    /// vertex, all of whose components are numbers, the least corner lies
    /// below every vertex and the greatest corner above, component by
    /// component, and each component of either corner is that of some vertex.
    pub proof fn lemma_bounds(&self, n: int)
        requires
            1 <= n <= self.vertex_count(),
            self.vertices_are_numbers(n),
        ensures
            self.lies_below(n, self.spec_bounds(n).0),
            self.touches(n, self.spec_bounds(n).0),
            self.lies_above(n, self.spec_bounds(n).1),
            self.touches(n, self.spec_bounds(n).1),
        decreases n,
    {
        let v = self.spec_vertex(n - 1);
        let low = self.spec_bounds(n).0;
        let high = self.spec_bounds(n).1;
        assert(!v.x.is_nan() && !v.y.is_nan() && !v.z.is_nan()) by {
            assert(!self.vertices@[3 * (n - 1)].is_nan());
            assert(!self.vertices@[3 * (n - 1) + 1].is_nan());
            assert(!self.vertices@[3 * (n - 1) + 2].is_nan());
        }
        if n == 1 {
            Scalar::lemma_min2_max2(v.x, v.x);
            Scalar::lemma_min2_max2(v.y, v.y);
            Scalar::lemma_min2_max2(v.z, v.z);
            assert(low == v && high == v);
            assert(self.spec_vertex(0) == v);
        } else {
            let before = self.spec_bounds(n - 1);
            assert(self.vertices_are_numbers(n - 1));
            self.lemma_bounds(n - 1);
            let lx = choose|i: int| 0 <= i < n - 1 && before.0.x == self.spec_vertex(i).x;
            let ly = choose|i: int| 0 <= i < n - 1 && before.0.y == self.spec_vertex(i).y;
            let lz = choose|i: int| 0 <= i < n - 1 && before.0.z == self.spec_vertex(i).z;
            let hx = choose|i: int| 0 <= i < n - 1 && before.1.x == self.spec_vertex(i).x;
            let hy = choose|i: int| 0 <= i < n - 1 && before.1.y == self.spec_vertex(i).y;
            let hz = choose|i: int| 0 <= i < n - 1 && before.1.z == self.spec_vertex(i).z;
            self.lemma_vertex_is_number(n, lx);
            self.lemma_vertex_is_number(n, ly);
            self.lemma_vertex_is_number(n, lz);
            self.lemma_vertex_is_number(n, hx);
            self.lemma_vertex_is_number(n, hy);
            self.lemma_vertex_is_number(n, hz);
            Scalar::lemma_min2_max2(v.x, before.0.x);
            Scalar::lemma_min2_max2(v.y, before.0.y);
            Scalar::lemma_min2_max2(v.z, before.0.z);
            Scalar::lemma_min2_max2(v.x, before.1.x);
            Scalar::lemma_min2_max2(v.y, before.1.y);
            Scalar::lemma_min2_max2(v.z, before.1.z);
            assert forall|i: int| #![trigger self.spec_vertex(i)] 0 <= i < n implies {
                &&& low.x.spec_le(self.spec_vertex(i).x)
                &&& low.y.spec_le(self.spec_vertex(i).y)
                &&& low.z.spec_le(self.spec_vertex(i).z)
                &&& self.spec_vertex(i).x.spec_le(high.x)
                &&& self.spec_vertex(i).y.spec_le(high.y)
                &&& self.spec_vertex(i).z.spec_le(high.z)
            } by {
                if i < n - 1 {
                    let u = self.spec_vertex(i);
                    self.lemma_vertex_is_number(n, i);
                    Scalar::lemma_le_orders(low.x, before.0.x, u.x);
                    Scalar::lemma_le_orders(low.y, before.0.y, u.y);
                    Scalar::lemma_le_orders(low.z, before.0.z, u.z);
                    Scalar::lemma_le_orders(u.x, before.1.x, high.x);
                    Scalar::lemma_le_orders(u.y, before.1.y, high.y);
                    Scalar::lemma_le_orders(u.z, before.1.z, high.z);
                }
            }
            assert(self.touches(n, low)) by {
                let ix = if low.x == v.x { n - 1 } else { lx };
                let iy = if low.y == v.y { n - 1 } else { ly };
                let iz = if low.z == v.z { n - 1 } else { lz };
                assert(0 <= ix < n && low.x == self.spec_vertex(ix).x);
                assert(0 <= iy < n && low.y == self.spec_vertex(iy).y);
                assert(0 <= iz < n && low.z == self.spec_vertex(iz).z);
            }
            assert(self.touches(n, high)) by {
                let ix = if high.x == v.x { n - 1 } else { hx };
                let iy = if high.y == v.y { n - 1 } else { hy };
                let iz = if high.z == v.z { n - 1 } else { hz };
                assert(0 <= ix < n && high.x == self.spec_vertex(ix).x);
                assert(0 <= iy < n && high.y == self.spec_vertex(iy).y);
                assert(0 <= iz < n && high.z == self.spec_vertex(iz).z);
            }
        }
    }

    /// Every component of each of the first `n` vertices is a number where
    /// the mesh says so of all of them.
    proof fn lemma_vertex_is_number(&self, n: int, i: int)
        requires
            0 <= i < n,
            self.vertices_are_numbers(n),
        ensures
            !self.spec_vertex(i).x.is_nan(),
            !self.spec_vertex(i).y.is_nan(),
            !self.spec_vertex(i).z.is_nan(),
    {
        assert(!self.vertices@[3 * i].is_nan());
        assert(!self.vertices@[3 * i + 1].is_nan());
        assert(!self.vertices@[3 * i + 2].is_nan());
    }

    /// A mesh of the given corners, with every colour an opaque red: four
    /// colour components for each number in `positions`. Its index count is
    /// the number of indices, cut to 32 bits.
    pub fn from_parts(positions: Vec<Scalar>, normals: Vec<Scalar>, indices: Vec<u32>) -> (mesh:
        Mesh)
        requires
            positions@.len() * 4 <= usize::MAX,
        ensures
            mesh.vertices@ == positions@,
            mesh.normals@ == normals@,
            mesh.indices@ == indices@,
            mesh.index_count == indices@.len() as i32,
            mesh.colors@.len() == positions@.len() * 4,
            forall|i: int|
                0 <= i < mesh.colors@.len() ==> mesh.colors@[i] == default_color_component(i),
    {
        let wanted: usize = positions.len() * 4;
        let mut colors: Vec<Scalar> = Vec::new();
        let mut i: usize = 0;
        while i < wanted
            invariant
                i <= wanted,
                colors@.len() == i,
                forall|j: int| 0 <= j < i ==> colors@[j] == default_color_component(j),
            decreases wanted - i,
        {
            let component = if i % 4 == 0 || i % 4 == 3 {
                Scalar::from_bits(ONE)
            } else {
                Scalar::zero()
            };
            colors.push(component);
            i = i + 1;
        }
        #[verifier::truncate]
        let index_count: i32 = indices.len() as i32;
        Mesh { vertices: positions, normals, colors, indices, index_count }
    }

    /// The number of triangles.
    pub fn count_triangles(&self) -> (n: usize)
        ensures
            n == self.triangle_count(),
    {
        if self.index_count > 0 {
            (self.index_count / 3) as usize
        } else {
            0
        }
    }

    /// Whether triangle `t` can be read.
    fn is_triangle_readable(&self, t: usize) -> (b: bool)
        requires
            t < self.triangle_count(),
        ensures
            b == self.triangle_readable(t as int),
    {
        let n: usize = self.indices.len();
        if n < 3 || t > (n - 3) / 3 {
            return false;
        }
        let vertices: usize = self.vertices.len() / 3;
        let normals: usize = self.normals.len() / 3;
        let colors: usize = self.colors.len() / 4;
        let i0: usize = self.indices[3 * t] as usize;
        let i1: usize = self.indices[3 * t + 1] as usize;
        let i2: usize = self.indices[3 * t + 2] as usize;
        i0 < vertices && i1 < vertices && i2 < vertices && i0 < normals && i1 < normals && i2
            < normals && i0 < colors
    }

    /// Whether every triangle of the mesh can be read.
    pub fn is_well_formed(&self) -> (b: bool)
        ensures
            b == self.well_formed(),
    {
        let count: usize = self.count_triangles();
        let mut t: usize = 0;
        while t < count
            invariant
                t <= count,
                count == self.triangle_count(),
                forall|u: int| 0 <= u < t ==> self.triangle_readable(u),
            decreases count - t,
        {
            if !self.is_triangle_readable(t) {
                return false;
            }
            t = t + 1;
        }
        true
    }

    /// Vertex `i`.
    fn vertex(&self, i: usize) -> (v: Vec3)
        requires
            i < self.vertex_count(),
        ensures
            v == self.spec_vertex(i as int),
    {
        let len: usize = self.vertices.len();
        assert(3 * i + 2 < len);
        Vec3 { x: self.vertices[3 * i], y: self.vertices[3 * i + 1], z: self.vertices[3 * i + 2] }
    }

    /// Normal `i`.
    fn normal(&self, i: usize) -> (v: Vec3)
        requires
            i < self.normal_count(),
        ensures
            v == self.spec_normal(i as int),
    {
        let len: usize = self.normals.len();
        assert(3 * i + 2 < len);
        Vec3 { x: self.normals[3 * i], y: self.normals[3 * i + 1], z: self.normals[3 * i + 2] }
    }

    /// Colour `i`.
    fn color(&self, i: usize) -> (v: Vec4)
        requires
            i < self.color_count(),
        ensures
            v == self.spec_color(i as int),
    {
        let len: usize = self.colors.len();
        assert(4 * i + 3 < len);
        Vec4 {
            x: self.colors[4 * i],
            y: self.colors[4 * i + 1],
            z: self.colors[4 * i + 2],
            w: self.colors[4 * i + 3],
        }
    }

    /// Triangle `t` as a scene record.
    fn triangle(&self, t: usize) -> (record: RTTriangle)
        requires
            t < self.triangle_count(),
            self.triangle_readable(t as int),
        ensures
            record == self.spec_triangle(t as int),
    {
        let i0: usize = self.indices[3 * t] as usize;
        let i1: usize = self.indices[3 * t + 1] as usize;
        let i2: usize = self.indices[3 * t + 2] as usize;
        let color = self.color(i0);
        RTTriangle {
            p0: Vec3a16::from_vec3(self.vertex(i0)),
            p1: Vec3a16::from_vec3(self.vertex(i1)),
            p2: Vec3a16::from_vec3(self.vertex(i2)),
            normal0: Vec3a16::from_vec3(self.normal(i0)),
            normal1: Vec3a16::from_vec3(self.normal(i1)),
            normal2: Vec3a16::from_vec3(self.normal(i2)),
            material: RTMaterial {
                color,
                emission_color: Vec4 {
                    x: color.x,
                    y: color.y,
                    z: color.z,
                    w: Scalar::from_bits(HALF),
                },
                specular_color: Vec4::zeros(),
                smoothness: Scalar::from_bits(HALF),
            },
        }
    }

    /// The box around all vertices of the mesh.
    pub fn bounds(&self) -> (corners: (Vec3, Vec3))
        ensures
            corners == self.spec_bounds(self.vertex_count()),
    {
        let count: usize = self.vertices.len() / 3;
        let mut low = Vec3::zeros();
        let mut high = Vec3::zeros();
        let mut i: usize = 0;
        while i < count
            invariant
                i <= count,
                count == self.vertex_count(),
                (low, high) == self.spec_bounds(i as int),
            decreases count - i,
        {
            let v = self.vertex(i);
            if i == 0 {
                low = v;
                high = v;
            }
            low = Vec3::min2(v, low);
            high = Vec3::max2(v, high);
            i = i + 1;
        }
        (low, high)
    }

    /// Appends the triangles of the mesh to `triangles`.
    fn append_triangles(&self, triangles: &mut Vec<RTTriangle>)
        requires
            self.well_formed(),
        ensures
            final(triangles)@ == old(triangles)@ + self.spec_triangles(),
    {
        let count: usize = self.count_triangles();
        let mut t: usize = 0;
        while t < count
            invariant
                t <= count,
                count == self.triangle_count(),
                self.well_formed(),
                triangles@ == old(triangles)@ + self.spec_triangles().take(t as int),
            decreases count - t,
        {
            let record = self.triangle(t);
            triangles.push(record);
            t = t + 1;
            assert(triangles@ =~= old(triangles)@ + self.spec_triangles().take(t as int));
        }
        assert(self.spec_triangles().take(t as int) =~= self.spec_triangles());
    }
}

/// The triangles of the first `k` meshes, mesh after mesh.
pub open spec fn triangles_of(meshes: Seq<Mesh>, k: int) -> Seq<RTTriangle>
    decreases k,
{
    if k <= 0 {
        Seq::<RTTriangle>::empty()
    } else {
        triangles_of(meshes, k - 1) + meshes[k - 1].spec_triangles()
    }
}

/// The start index recorded for mesh `k`: zero for the first mesh, and for
/// every later one the index of the last triangle before it.
pub open spec fn start_of(meshes: Seq<Mesh>, k: int) -> int {
    if k <= 0 {
        0
    } else {
        triangles_of(meshes, k).len() - 1
    }
}

/// The record of mesh `k`: its start index, the number of triangles from
/// there to its last one, and its box.
pub open spec fn info_of(meshes: Seq<Mesh>, k: int) -> RTMeshInfo {
    let corners = meshes[k].spec_bounds(meshes[k].vertex_count());
    RTMeshInfo {
        start_index: start_of(meshes, k) as u32,
        count: (triangles_of(meshes, k + 1).len() - start_of(meshes, k)) as u32,
        boundingbox_min: Vec3a16::spec_from_vec3(corners.0),
        boundingbox_max: Vec3a16::spec_from_vec3(corners.1),
    }
}

impl Model {
    /// Whether the model can be turned into scene records: every mesh is well
    /// formed, the first one has a triangle, and the triangles can be counted
    /// in 32 bits.
    pub open spec fn well_formed(&self) -> bool {
        &&& forall|k: int| 0 <= k < self.meshes@.len() ==> (#[trigger] self.meshes@[k]).well_formed()
        &&& self.meshes@.len() > 0 ==> self.meshes@[0].triangle_count() > 0
        &&& triangles_of(self.meshes@, self.meshes@.len() as int).len() <= u32::MAX
    }

    /// A model without meshes.
    pub fn new() -> (model: Model)
        ensures
            model.meshes@ == Seq::<Mesh>::empty(),
    {
        Model { meshes: Vec::new() }
    }

    /// The model with one more mesh, made of the given corners as
    /// [`Mesh::from_parts`] makes it.
    pub fn add_part(self, positions: Vec<Scalar>, normals: Vec<Scalar>, indices: Vec<u32>) -> (model:
        Model)
        requires
            positions@.len() * 4 <= usize::MAX,
        ensures
            model.meshes@.len() == self.meshes@.len() + 1,
            model.meshes@.drop_last() == self.meshes@,
            model.meshes@.last().vertices@ == positions@,
            model.meshes@.last().normals@ == normals@,
            model.meshes@.last().indices@ == indices@,
            model.meshes@.last().index_count == indices@.len() as i32,
            model.meshes@.last().colors@.len() == positions@.len() * 4,
            forall|i: int|
                0 <= i < model.meshes@.last().colors@.len() ==> model.meshes@.last().colors@[i]
                    == default_color_component(i),
    {
        let mesh = Mesh::from_parts(positions, normals, indices);
        let mut meshes = self.meshes;
        meshes.push(mesh);
        assert(meshes@.drop_last() =~= self.meshes@);
        Model { meshes }
    }

    /// Whether the model can be turned into scene records.
    pub fn is_well_formed(&self) -> (b: bool)
        ensures
            b == self.well_formed(),
    {
        let mut total: usize = 0;
        let mut k: usize = 0;
        while k < self.meshes.len()
            invariant
                k <= self.meshes@.len(),
                total == triangles_of(self.meshes@, k as int).len(),
                total <= u32::MAX,
                forall|j: int| 0 <= j < k ==> (#[trigger] self.meshes@[j]).well_formed(),
                k > 0 ==> self.meshes@[0].triangle_count() > 0,
            decreases self.meshes@.len() - k,
        {
            let mesh = &self.meshes[k];
            if !mesh.is_well_formed() {
                return false;
            }
            let count: usize = mesh.count_triangles();
            if k == 0 && count == 0 {
                return false;
            }
            if count > u32::MAX as usize - total {
                proof {
                    lemma_triangles_grow(self.meshes@, k as int + 1, self.meshes@.len() as int);
                }
                return false;
            }
            total = total + count;
            k = k + 1;
        }
        true
    }

    /// Turns the model into scene records: the triangles of all meshes, mesh
    /// after mesh, and for each mesh the record of where its triangles stand.
    pub fn generate_raytracing_structs(self) -> (records: (Vec<RTTriangle>, Vec<RTMeshInfo>))
        requires
            self.well_formed(),
        ensures
            records.0@ == triangles_of(self.meshes@, self.meshes@.len() as int),
            records.1@.len() == self.meshes@.len(),
            forall|k: int|
                0 <= k < self.meshes@.len() ==> #[trigger] records.1@[k] == info_of(
                    self.meshes@,
                    k,
                ),
    {
        let mut triangles: Vec<RTTriangle> = Vec::new();
        let mut meshes: Vec<RTMeshInfo> = Vec::new();
        let mut start_index: u32 = 0;
        let mut k: usize = 0;
        while k < self.meshes.len()
            invariant
                k <= self.meshes@.len(),
                self.well_formed(),
                triangles@ == triangles_of(self.meshes@, k as int),
                start_index == start_of(self.meshes@, k as int),
                k > 0 ==> triangles@.len() > 0,
                meshes@.len() == k,
                forall|j: int| 0 <= j < k ==> #[trigger] meshes@[j] == info_of(self.meshes@, j),
            decreases self.meshes@.len() - k,
        {
            let part = &self.meshes[k];
            let corners = part.bounds();
            part.append_triangles(&mut triangles);
            proof {
                lemma_triangles_grow(self.meshes@, k as int + 1, self.meshes@.len() as int);
                lemma_triangles_grow(self.meshes@, 1, k as int + 1);
            }
            let total: u32 = triangles.len() as u32;
            meshes.push(
                RTMeshInfo {
                    start_index,
                    count: total - start_index,
                    boundingbox_min: Vec3a16::from_vec3(corners.0),
                    boundingbox_max: Vec3a16::from_vec3(corners.1),
                },
            );
            start_index = total - 1;
            k = k + 1;
        }
        (triangles, meshes)
    }
}

/// The triangles of more meshes are no fewer.
pub proof fn lemma_triangles_grow(meshes: Seq<Mesh>, j: int, k: int)
    requires
        j <= k,
    ensures
        triangles_of(meshes, j).len() <= triangles_of(meshes, k).len(),
    decreases k - j,
{
    if j < k {
        lemma_triangles_grow(meshes, j, k - 1);
    }
}

} // verus!

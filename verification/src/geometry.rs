//! The static textured quad: four corners and the two triangles that cover it.
//!
//! Coordinates are kept as integers. A position is counted in half units, so
//! that the quad of side one centred at the origin has its corners at
//! `(+-1, +-1)`; a texture coordinate is counted in whole units and is 0 or 1.
//! The renderer divides a position by [`POSITION_SCALE`] when it fills the
//! vertex buffer.

use vstd::prelude::*;

verus! {

/// How many position steps make one unit of length.
pub const POSITION_SCALE: i32 = 2;

/// Number of corners of the quad.
pub const QUAD_VERTEX_COUNT: usize = 4;

/// Number of entries of the index buffer: two triangles.
pub const QUAD_INDEX_COUNT: usize = 6;

/// One corner of the quad: where it lies and which point of the texture it shows.
#[derive(Clone, Copy, Debug, PartialEq, Eq, Structural)]
pub struct Vertex {
    /// Horizontal position, in half units.
    pub x: i32,
    /// Vertical position, in half units, growing upwards.
    pub y: i32,
    /// Horizontal texture coordinate, 0 at the left edge and 1 at the right.
    pub u: i32,
    /// Vertical texture coordinate, 0 at the top edge and 1 at the bottom.
    pub v: i32,
}

/// The corners in buffer order: bottom right, bottom left, top left, top right.
pub open spec fn quad_vertices_spec() -> Seq<Vertex> {
    seq![
        Vertex { x: 1, y: -1i32, u: 1, v: 1 },
        Vertex { x: -1i32, y: -1i32, u: 0, v: 1 },
        Vertex { x: -1i32, y: 1, u: 0, v: 0 },
        Vertex { x: 1, y: 1, u: 1, v: 0 },
    ]
}

/// The index buffer: triangle (0, 1, 2) followed by triangle (2, 3, 0).
pub open spec fn quad_indices_spec() -> Seq<u16> {
    seq![0u16, 1u16, 2u16, 2u16, 3u16, 0u16]
}

/// Twice the signed area of the triangle `a`, `b`, `c`, in squared position
/// steps. Positive when the corners run counter-clockwise, zero when they lie
/// on one line.
pub open spec fn doubled_area(a: Vertex, b: Vertex, c: Vertex) -> int {
    (b.x - a.x) * (c.y - a.y) - (c.x - a.x) * (b.y - a.y)
}

/// A corner shows the point of the texture that lies where the corner lies in
/// the quad: the left edge of the quad shows the left edge of the texture, the
/// top edge the top edge.
pub open spec fn uv_matches_position(p: Vertex) -> bool {
    &&& 2 * p.u == p.x + 1
    &&& 2 * p.v == 1 - p.y
}

/// Every index names a vertex.
pub open spec fn indices_in_range(vertex_count: nat, indices: Seq<u16>) -> bool {
    forall|i: int| 0 <= i < indices.len() ==> (#[trigger] indices[i]) < vertex_count
}

/// Some triangle has vertex `i` for a corner.
pub open spec fn vertex_used(indices: Seq<u16>, i: int) -> bool {
    exists|j: int| 0 <= j < indices.len() && #[trigger] indices[j] == i
}

/// Twice the signed area of the `k`-th triangle that `indices` picks out of
/// `vertices`.
pub open spec fn triangle_doubled_area(vertices: Seq<Vertex>, indices: Seq<u16>, k: int) -> int
    recommends
        0 <= k,
        3 * k + 2 < indices.len(),
{
    doubled_area(
        vertices[indices[3 * k] as int],
        vertices[indices[3 * k + 1] as int],
        vertices[indices[3 * k + 2] as int],
    )
}

/// The index list is made of whole triangles, every index names a vertex, and
/// no triangle is flat.
pub open spec fn mesh_well_formed(vertices: Seq<Vertex>, indices: Seq<u16>) -> bool {
    &&& indices.len() % 3 == 0
    &&& indices_in_range(vertices.len(), indices)
    &&& forall|k: int|
        0 <= k < indices.len() / 3 ==> #[trigger] triangle_doubled_area(vertices, indices, k) != 0
}

/// The entry of the transform at a row and a column. The transform is the
/// identity: the quad is drawn where its corners lie.
pub open spec fn transform_entry_spec(row: int, col: int) -> int {
    if row == col {
        1
    } else {
        0
    }
}

/// The entry of the four-by-four transform at a row and a column.
pub fn transform_entry(row: usize, col: usize) -> (r: i32)
    ensures
        r == transform_entry_spec(row as int, col as int),
{
    if row == col {
        1
    } else {
        0
    }
}

/// The four corners of the quad, in buffer order.
pub fn quad_vertices() -> (r: Vec<Vertex>)
    ensures
        r@ == quad_vertices_spec(),
{
    let mut r: Vec<Vertex> = Vec::new();
    r.push(Vertex { x: 1, y: -1, u: 1, v: 1 });
    r.push(Vertex { x: -1, y: -1, u: 0, v: 1 });
    r.push(Vertex { x: -1, y: 1, u: 0, v: 0 });
    r.push(Vertex { x: 1, y: 1, u: 1, v: 0 });
    assert(r@ =~= quad_vertices_spec());
    r
}

/// The six indices of the quad's two triangles.
pub fn quad_indices() -> (r: Vec<u16>)
    ensures
        r@ == quad_indices_spec(),
{
    let mut r: Vec<u16> = Vec::new();
    r.push(0);
    r.push(1);
    r.push(2);
    r.push(2);
    r.push(3);
    r.push(0);
    assert(r@ =~= quad_indices_spec());
    r
}

/// Whether the corners of triangle `k` are vertices of the mesh and do not lie
/// on one line.
fn triangle_is_sound(vertices: &Vec<Vertex>, indices: &Vec<u16>, k: usize) -> (r: bool)
    requires
        3 * k + 2 < indices@.len(),
    ensures
        r == (indices@[3 * k] < vertices@.len() && indices@[3 * k + 1] < vertices@.len()
            && indices@[3 * k + 2] < vertices@.len() && triangle_doubled_area(
            vertices@,
            indices@,
            k as int,
        ) != 0),
{
    let len: usize = indices.len();
    assert(3 * k + 2 < len);
    let ia: usize = indices[3 * k] as usize;
    let ib: usize = indices[3 * k + 1] as usize;
    let ic: usize = indices[3 * k + 2] as usize;
    if ia >= vertices.len() || ib >= vertices.len() || ic >= vertices.len() {
        return false;
    }
    let a: Vertex = vertices[ia];
    let b: Vertex = vertices[ib];
    let c: Vertex = vertices[ic];
    let abx: i64 = b.x as i64 - a.x as i64;
    let aby: i64 = b.y as i64 - a.y as i64;
    let acx: i64 = c.x as i64 - a.x as i64;
    let acy: i64 = c.y as i64 - a.y as i64;
    assert(-0x1_0000_0000 < abx < 0x1_0000_0000 && -0x1_0000_0000 < acy < 0x1_0000_0000);
    assert(-0x1_0000_0000 < acx < 0x1_0000_0000 && -0x1_0000_0000 < aby < 0x1_0000_0000);
    assert(-0x1_0000_0000_0000_0000 < abx * acy < 0x1_0000_0000_0000_0000) by (nonlinear_arith)
        requires
            -0x1_0000_0000 < abx < 0x1_0000_0000,
            -0x1_0000_0000 < acy < 0x1_0000_0000,
    ;
    assert(-0x1_0000_0000_0000_0000 < acx * aby < 0x1_0000_0000_0000_0000) by (nonlinear_arith)
        requires
            -0x1_0000_0000 < acx < 0x1_0000_0000,
            -0x1_0000_0000 < aby < 0x1_0000_0000,
    ;
    let left: i128 = abx as i128 * acy as i128;
    let right: i128 = acx as i128 * aby as i128;
    left != right
}

/// Checks a mesh before it is handed to the device: the index list is made of
/// whole triangles, every index names a vertex, and no triangle is flat.
pub fn mesh_is_well_formed(vertices: &Vec<Vertex>, indices: &Vec<u16>) -> (r: bool)
    ensures
        r == mesh_well_formed(vertices@, indices@),
{
    if indices.len() % 3 != 0 {
        return false;
    }
    let count: usize = indices.len() / 3;
    let mut k: usize = 0;
    while k < count
        invariant
            count == indices@.len() / 3,
            indices@.len() % 3 == 0,
            0 <= k <= count,
            forall|i: int| 0 <= i < 3 * k ==> (#[trigger] indices@[i]) < vertices@.len(),
            forall|j: int|
                0 <= j < k ==> #[trigger] triangle_doubled_area(vertices@, indices@, j) != 0,
        decreases count - k,
    {
        if !triangle_is_sound(vertices, indices, k) {
            proof {
                if mesh_well_formed(vertices@, indices@) {
                    assert(indices@[3 * k] < vertices@.len());
                    assert(indices@[3 * k + 1] < vertices@.len());
                    assert(indices@[3 * k + 2] < vertices@.len());
                    assert(triangle_doubled_area(vertices@, indices@, k as int) != 0);
                }
            }
            return false;
        }
        k = k + 1;
    }
    true
}

/// The entries of the quad's two buffers, one by one.
proof fn quad_entries()
    ensures
        quad_vertices_spec().len() == 4,
        quad_indices_spec().len() == 6,
        quad_vertices_spec()[0] == (Vertex { x: 1, y: -1i32, u: 1, v: 1 }),
        quad_vertices_spec()[1] == (Vertex { x: -1i32, y: -1i32, u: 0, v: 1 }),
        quad_vertices_spec()[2] == (Vertex { x: -1i32, y: 1, u: 0, v: 0 }),
        quad_vertices_spec()[3] == (Vertex { x: 1, y: 1, u: 1, v: 0 }),
        quad_indices_spec()[0] == 0,
        quad_indices_spec()[1] == 1,
        quad_indices_spec()[2] == 2,
        quad_indices_spec()[3] == 2,
        quad_indices_spec()[4] == 3,
        quad_indices_spec()[5] == 0,
        triangle_doubled_area(quad_vertices_spec(), quad_indices_spec(), 0) == -4,
        triangle_doubled_area(quad_vertices_spec(), quad_indices_spec(), 1) == -4,
        doubled_area(quad_vertices_spec()[0], quad_vertices_spec()[2], quad_vertices_spec()[1])
            == 4,
        doubled_area(quad_vertices_spec()[0], quad_vertices_spec()[2], quad_vertices_spec()[3])
            == -4,
{
    let v = quad_vertices_spec();
    doubled_area_by_sides(v[0], v[1], v[2], -2, 0, -2, 2);
    doubled_area_by_sides(v[2], v[3], v[0], 2, 0, 2, -2);
    doubled_area_by_sides(v[0], v[2], v[1], -2, 2, -2, 0);
    doubled_area_by_sides(v[0], v[2], v[3], -2, 2, 0, 2);
    let idx = quad_indices_spec();
    assert(idx[0] == 0 && idx[1] == 1 && idx[2] == 2 && idx[3] == 2 && idx[4] == 3 && idx[5] == 0);
    assert(triangle_doubled_area(v, idx, 0) == doubled_area(v[0], v[1], v[2]));
    assert(triangle_doubled_area(v, idx, 1) == doubled_area(v[2], v[3], v[0]));
}

/// The doubled area from the two sides that leave `a`.
proof fn doubled_area_by_sides(a: Vertex, b: Vertex, c: Vertex, abx: int, aby: int, acx: int, acy: int)
    requires
        abx == b.x - a.x,
        aby == b.y - a.y,
        acx == c.x - a.x,
        acy == c.y - a.y,
    ensures
        doubled_area(a, b, c) == abx * acy - acx * aby,
{
}

/// The quad's buffers hold exactly four vertices and six indices; every index
/// lies between 0 and 3; the indices form exactly two triangles, neither of
/// them flat.
pub proof fn quad_mesh_is_well_formed()
    ensures
        quad_vertices_spec().len() == QUAD_VERTEX_COUNT,
        quad_indices_spec().len() == QUAD_INDEX_COUNT,
        forall|i: int|
            0 <= i < quad_indices_spec().len() ==> 0 <= (#[trigger] quad_indices_spec()[i]) <= 3,
        quad_indices_spec().len() / 3 == 2,
        mesh_well_formed(quad_vertices_spec(), quad_indices_spec()),
{
    let v = quad_vertices_spec();
    let idx = quad_indices_spec();
    quad_entries();
    assert forall|k: int| 0 <= k < idx.len() / 3 implies #[trigger] triangle_doubled_area(
        v,
        idx,
        k,
    ) != 0 by {
        assert(k == 0 || k == 1);
    }
}

/// The two triangles of the quad cover it: both run clockwise, they
/// meet along the diagonal from corner 0 to corner 2 with corners 1 and 3 on
/// opposite sides of it, their areas add up to the area of the square of
/// side [`POSITION_SCALE`], and every corner of the quad is a corner of one of
/// them.
pub proof fn quad_triangles_cover_the_quad()
    ensures
        triangle_doubled_area(quad_vertices_spec(), quad_indices_spec(), 0) < 0,
        triangle_doubled_area(quad_vertices_spec(), quad_indices_spec(), 1) < 0,
        -(triangle_doubled_area(quad_vertices_spec(), quad_indices_spec(), 0)
            + triangle_doubled_area(quad_vertices_spec(), quad_indices_spec(), 1)) == 2
            * POSITION_SCALE * POSITION_SCALE,
        doubled_area(quad_vertices_spec()[0], quad_vertices_spec()[2], quad_vertices_spec()[1])
            > 0,
        doubled_area(quad_vertices_spec()[0], quad_vertices_spec()[2], quad_vertices_spec()[3])
            < 0,
        forall|i: int|
            0 <= i < quad_vertices_spec().len() ==> #[trigger] vertex_used(
                quad_indices_spec(),
                i,
            ),
{
    let v = quad_vertices_spec();
    let idx = quad_indices_spec();
    quad_entries();
    assert(idx[0] == 0 && idx[1] == 1 && idx[2] == 2 && idx[4] == 3);
    assert forall|i: int| 0 <= i < v.len() implies #[trigger] vertex_used(idx, i) by {
        let j: int = if i == 3 { 4 } else { i };
        assert(idx[j] == i);
    }
}

/// Every corner of the quad shows the matching corner of the texture, so the
/// whole texture is spread over the whole quad.
pub proof fn quad_shows_whole_texture()
    ensures
        forall|i: int|
            0 <= i < quad_vertices_spec().len() ==> uv_matches_position(
                #[trigger] quad_vertices_spec()[i],
            ),
{
}

} // verus!

use vstd::prelude::*;

verus! {

/// Colour of a mesh vertex: the three axes are red, green and blue, the grid
/// lines white.
#[derive(Clone, Copy, Debug, PartialEq, Eq, Structural)]
pub enum LineColor {
    Red,
    Green,
    Blue,
    White,
}

/// A grid position: each coordinate, divided by the mesh's grid unit (see
/// `grid_unit`), is the coordinate in world units, between 0 and 1.
#[derive(Clone, Copy, Debug, PartialEq, Eq, Structural)]
pub struct GridPos {
    pub x: u32,
    pub y: u32,
    pub z: u32,
}

#[derive(Clone, Copy, Debug, PartialEq, Eq, Structural)]
pub struct MeshVertex {
    pub pos: GridPos,
    pub color: LineColor,
}

/// Number of vertices (and of indices) that each grid step adds.
pub const VERTICES_PER_STEP: usize = 12;

/// Number of vertices of the three axes.
pub const AXIS_VERTICES: usize = 6;

/// Grid positions per world unit: the resolution, or 1 for a mesh with no
/// grid lines.
pub open spec fn grid_unit_of(resolution: u16) -> u32 {
    if resolution == 0 {
        1
    } else {
        resolution as u32
    }
}

pub open spec fn at(x: u32, y: u32, z: u32, color: LineColor) -> MeshVertex {
    MeshVertex { pos: GridPos { x, y, z }, color }
}

/// The axes, as line segments from the origin to one unit along x (red),
/// y (green) and z (blue).
pub open spec fn axis_vertices(u: u32) -> Seq<MeshVertex> {
    seq![
        at(0, 0, 0, LineColor::Red),
        at(u, 0, 0, LineColor::Red),
        at(0, 0, 0, LineColor::Green),
        at(0, u, 0, LineColor::Green),
        at(0, 0, 0, LineColor::Blue),
        at(0, 0, u, LineColor::Blue),
    ]
}

/// The white segments at grid step `i`: two on the bottom face (z = 0), two
/// on the left face (x = 0) and two on the back face (y = 0), each crossing
/// the unit square at `i` grid positions from an edge.
pub open spec fn grid_step_vertices(u: u32, i: u32) -> Seq<MeshVertex> {
    seq![
        at(0, i, 0, LineColor::White),
        at(u, i, 0, LineColor::White),
        at(i, 0, 0, LineColor::White),
        at(i, u, 0, LineColor::White),
        at(0, i, 0, LineColor::White),
        at(0, i, u, LineColor::White),
        at(0, 0, i, LineColor::White),
        at(0, u, i, LineColor::White),
        at(i, 0, 0, LineColor::White),
        at(i, 0, u, LineColor::White),
        at(0, 0, i, LineColor::White),
        at(u, 0, i, LineColor::White),
    ]
}

/// Grid steps `1..=n`, in order.
pub open spec fn grid_vertices(u: u32, n: nat) -> Seq<MeshVertex>
    decreases n,
{
    if n == 0 {
        seq![]
    } else {
        grid_vertices(u, (n - 1) as nat) + grid_step_vertices(u, n as u32)
    }
}

/// The vertices of the mesh of the given resolution: the axes, then the
/// grid steps.
pub open spec fn mesh_vertices(resolution: u16) -> Seq<MeshVertex> {
    axis_vertices(grid_unit_of(resolution)) + grid_vertices(grid_unit_of(resolution), resolution as nat)
}

/// The index list of a line list of `n` vertices taken in order: index `k`
/// is `k` kept to 16 bits.
pub open spec fn mesh_indices(n: nat) -> Seq<u16> {
    Seq::new(n, |k: int| (k % 0x1_0000) as u16)
}

pub proof fn lemma_grid_vertices_len(u: u32, n: nat)
    ensures
        grid_vertices(u, n).len() == 12 * n,
    decreases n,
{
    if n > 0 {
        lemma_grid_vertices_len(u, (n - 1) as nat);
    }
}

/// Grid positions per world unit for a mesh of the given resolution.
pub fn grid_unit(resolution: u16) -> (r: u32)
    ensures
        r == grid_unit_of(resolution),
{
    if resolution == 0 {
        1
    } else {
        resolution as u32
    }
}

fn vertex(pos: GridPos, color: LineColor) -> (r: MeshVertex)
    ensures
        r == (MeshVertex { pos, color }),
{
    MeshVertex { pos, color }
}

fn white_vertex(pos: GridPos) -> (r: MeshVertex)
    ensures
        r == (MeshVertex { pos, color: LineColor::White }),
{
    vertex(pos, LineColor::White)
}

/// Appends `v` and its index.
fn push_indexed(vertices: &mut Vec<MeshVertex>, indices: &mut Vec<u16>, v: MeshVertex)
    requires
        old(indices)@ == mesh_indices(old(vertices)@.len()),
        old(vertices)@.len() < usize::MAX,
    ensures
        final(vertices)@ == old(vertices)@.push(v),
        final(indices)@ == mesh_indices(final(vertices)@.len()),
{
    vertices.push(v);
    let k: usize = vertices.len() - 1;
    indices.push((k % 0x1_0000) as u16);
    assert(indices@ =~= mesh_indices(vertices@.len()));
}

/// Builds the line-list mesh of the axes and of a grid with `resolution`
/// steps per unit on the three coordinate faces of the unit cube: the
/// vertices, and their indices in order.
pub fn generate_mesh_vertices(resolution: u16) -> (r: (Vec<MeshVertex>, Vec<u16>))
    ensures
        r.0@ == mesh_vertices(resolution),
        r.0@.len() == AXIS_VERTICES + VERTICES_PER_STEP * resolution,
        r.1@ == mesh_indices(r.0@.len()),
{
    let u = grid_unit(resolution);
    let mut vertices: Vec<MeshVertex> = Vec::new();
    let mut indices: Vec<u16> = Vec::new();
    assert(indices@ =~= mesh_indices(0));

    push_indexed(&mut vertices, &mut indices, vertex(GridPos { x: 0, y: 0, z: 0 }, LineColor::Red));
    push_indexed(&mut vertices, &mut indices, vertex(GridPos { x: u, y: 0, z: 0 }, LineColor::Red));
    push_indexed(&mut vertices, &mut indices, vertex(GridPos { x: 0, y: 0, z: 0 }, LineColor::Green));
    push_indexed(&mut vertices, &mut indices, vertex(GridPos { x: 0, y: u, z: 0 }, LineColor::Green));
    push_indexed(&mut vertices, &mut indices, vertex(GridPos { x: 0, y: 0, z: 0 }, LineColor::Blue));
    push_indexed(&mut vertices, &mut indices, vertex(GridPos { x: 0, y: 0, z: u }, LineColor::Blue));
    assert(vertices@ =~= axis_vertices(u) + grid_vertices(u, 0));

    let n: u32 = resolution as u32;
    let mut i: u32 = 1;
    while i <= n
        invariant
            u == grid_unit_of(resolution),
            n == resolution,
            1 <= i <= n + 1,
            vertices@ == axis_vertices(u) + grid_vertices(u, (i - 1) as nat),
            vertices@.len() == 6 + 12 * (i - 1),
            indices@ == mesh_indices(vertices@.len()),
        decreases n + 1 - i,
    {
        proof {
            lemma_grid_vertices_len(u, (i - 1) as nat);
        }
        let ghost before = vertices@;
        // bottom face
        push_indexed(&mut vertices, &mut indices, white_vertex(GridPos { x: 0, y: i, z: 0 }));
        push_indexed(&mut vertices, &mut indices, white_vertex(GridPos { x: u, y: i, z: 0 }));
        push_indexed(&mut vertices, &mut indices, white_vertex(GridPos { x: i, y: 0, z: 0 }));
        push_indexed(&mut vertices, &mut indices, white_vertex(GridPos { x: i, y: u, z: 0 }));
        // left face
        push_indexed(&mut vertices, &mut indices, white_vertex(GridPos { x: 0, y: i, z: 0 }));
        push_indexed(&mut vertices, &mut indices, white_vertex(GridPos { x: 0, y: i, z: u }));
        push_indexed(&mut vertices, &mut indices, white_vertex(GridPos { x: 0, y: 0, z: i }));
        push_indexed(&mut vertices, &mut indices, white_vertex(GridPos { x: 0, y: u, z: i }));
        // back face
        push_indexed(&mut vertices, &mut indices, white_vertex(GridPos { x: i, y: 0, z: 0 }));
        push_indexed(&mut vertices, &mut indices, white_vertex(GridPos { x: i, y: 0, z: u }));
        push_indexed(&mut vertices, &mut indices, white_vertex(GridPos { x: 0, y: 0, z: i }));
        push_indexed(&mut vertices, &mut indices, white_vertex(GridPos { x: u, y: 0, z: i }));
        assert(vertices@ =~= before + grid_step_vertices(u, i));
        assert(grid_vertices(u, i as nat) == grid_vertices(u, (i - 1) as nat) + grid_step_vertices(u, i));
        assert(vertices@ =~= axis_vertices(u) + grid_vertices(u, i as nat));
        i = i + 1;
    }
    (vertices, indices)
}

} // verus!

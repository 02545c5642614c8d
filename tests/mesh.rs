use orbit_grid::{generate_mesh_vertices, grid_unit, GridPos, LineColor, MeshVertex};

fn v(x: u32, y: u32, z: u32, color: LineColor) -> MeshVertex {
    MeshVertex { pos: GridPos { x, y, z }, color }
}

#[test]
fn grid_unit_is_resolution_or_one() {
    assert_eq!(grid_unit(0), 1);
    assert_eq!(grid_unit(1), 1);
    assert_eq!(grid_unit(16), 16);
    assert_eq!(grid_unit(u16::MAX), 65535);
}

#[test]
fn resolution_zero_has_axes_only() {
    let (verts, idx) = generate_mesh_vertices(0);
    assert_eq!(
        verts,
        vec![
            v(0, 0, 0, LineColor::Red),
            v(1, 0, 0, LineColor::Red),
            v(0, 0, 0, LineColor::Green),
            v(0, 1, 0, LineColor::Green),
            v(0, 0, 0, LineColor::Blue),
            v(0, 0, 1, LineColor::Blue),
        ]
    );
    assert_eq!(idx, vec![0, 1, 2, 3, 4, 5]);
}

#[test]
fn resolution_one_adds_one_step() {
    let (verts, idx) = generate_mesh_vertices(1);
    assert_eq!(verts.len(), 18);
    let w = LineColor::White;
    assert_eq!(
        verts[6..].to_vec(),
        vec![
            v(0, 1, 0, w),
            v(1, 1, 0, w),
            v(1, 0, 0, w),
            v(1, 1, 0, w),
            v(0, 1, 0, w),
            v(0, 1, 1, w),
            v(0, 0, 1, w),
            v(0, 1, 1, w),
            v(1, 0, 0, w),
            v(1, 0, 1, w),
            v(0, 0, 1, w),
            v(1, 0, 1, w),
        ]
    );
    assert_eq!(idx, (0u16..18).collect::<Vec<u16>>());
}

#[test]
fn default_resolution_mesh() {
    let (verts, idx) = generate_mesh_vertices(16);
    assert_eq!(verts.len(), 6 + 12 * 16);
    assert_eq!(idx.len(), verts.len());
    assert_eq!(verts[1], v(16, 0, 0, LineColor::Red));
    // first segment of the third step
    assert_eq!(verts[6 + 12 * 2], v(0, 3, 0, LineColor::White));
    assert_eq!(verts[6 + 12 * 2 + 1], v(16, 3, 0, LineColor::White));
    // last segment of the last step
    assert_eq!(verts[6 + 12 * 16 - 1], v(16, 0, 16, LineColor::White));
    for (k, i) in idx.iter().enumerate() {
        assert_eq!(*i as usize, k);
    }
}

#[test]
fn indices_wrap_past_sixteen_bits() {
    let (verts, idx) = generate_mesh_vertices(6000);
    assert_eq!(verts.len(), 72_006);
    assert_eq!(idx[65_535], 65_535);
    assert_eq!(idx[65_536], 0);
    assert_eq!(idx[72_005], 6_469);
}

use cube_viewer::mesh::{create_vertices, cube_colors, cube_positions, pair_vertices, IntVec3, MeshVertex};

fn iv(x: i8, y: i8, z: i8) -> IntVec3 {
    IntVec3 { x, y, z }
}

#[test]
fn cube_has_thirty_six_vertices() {
    assert_eq!(cube_positions().len(), 36);
    assert_eq!(cube_colors().len(), 36);
    assert_eq!(create_vertices().len(), 36);
}

#[test]
fn every_triangle_lies_on_one_face() {
    let pos = cube_positions();
    for t in pos.chunks(3) {
        let on_plane = |f: fn(&IntVec3) -> i8| {
            let v = f(&t[0]);
            (v == 1 || v == -1) && f(&t[1]) == v && f(&t[2]) == v
        };
        assert!(on_plane(|p| p.x) || on_plane(|p| p.y) || on_plane(|p| p.z));
    }
}

#[test]
fn faces_have_one_color_each() {
    let col = cube_colors();
    for face in col.chunks(6) {
        assert!(face.iter().all(|c| *c == face[0]));
    }
    assert_eq!(col[0], iv(1, 0, 0));
    assert_eq!(col[35], iv(0, 1, 1));
}

#[test]
fn vertices_pair_positions_with_colors() {
    let v = create_vertices();
    let pos = cube_positions();
    let col = cube_colors();
    for i in 0..36 {
        assert_eq!(v[i], MeshVertex { position: pos[i], color: col[i] });
    }
    assert_eq!(v[0].position, iv(-1, -1, 1));
}

#[test]
fn pairing_uses_index_order() {
    let pos = vec![iv(1, 2, 3), iv(4, 5, 6)];
    let col = vec![iv(0, 0, 1), iv(1, 0, 0), iv(1, 1, 1)];
    let r = pair_vertices(&pos, &col);
    assert_eq!(r.len(), 2);
    assert_eq!(r[1], MeshVertex { position: iv(4, 5, 6), color: iv(1, 0, 0) });
}

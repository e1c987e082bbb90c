use vstd::prelude::*;

verus! {

/// Number of vertices of the cube: six faces, two triangles each.
pub const CUBE_VERTEX_COUNT: usize = 36;

/// A vector of small integers: a cube corner, or a color whose components
/// are 0 or 1.
#[derive(Clone, Copy, Debug, PartialEq, Eq, Structural)]
pub struct IntVec3 {
    pub x: i8,
    pub y: i8,
    pub z: i8,
}

/// One vertex of the mesh: a position and its color.
#[derive(Clone, Copy, Debug, PartialEq, Eq, Structural)]
pub struct MeshVertex {
    pub position: IntVec3,
    pub color: IntVec3,
}

/// The vector with the given small components.
pub open spec fn ivec(x: int, y: int, z: int) -> IntVec3 {
    IntVec3 { x: x as i8, y: y as i8, z: z as i8 }
}

/// The cube's corners, face by face (front, right, back, left, top,
/// bottom), each face as two counter-clockwise triangles seen from outside.
pub open spec fn cube_position_table() -> Seq<IntVec3> {
    seq![
        ivec(-1, -1, 1), ivec(1, -1, 1), ivec(1, 1, 1),
        ivec(1, 1, 1), ivec(-1, 1, 1), ivec(-1, -1, 1),
        ivec(1, -1, 1), ivec(1, -1, -1), ivec(1, 1, -1),
        ivec(1, 1, -1), ivec(1, 1, 1), ivec(1, -1, 1),
        ivec(1, -1, -1), ivec(-1, -1, -1), ivec(-1, 1, -1),
        ivec(-1, 1, -1), ivec(1, 1, -1), ivec(1, -1, -1),
        ivec(-1, -1, -1), ivec(-1, -1, 1), ivec(-1, 1, 1),
        ivec(-1, 1, 1), ivec(-1, 1, -1), ivec(-1, -1, -1),
        ivec(-1, 1, 1), ivec(1, 1, 1), ivec(1, 1, -1),
        ivec(1, 1, -1), ivec(-1, 1, -1), ivec(-1, 1, 1),
        ivec(-1, -1, -1), ivec(1, -1, -1), ivec(1, -1, 1),
        ivec(1, -1, 1), ivec(-1, -1, 1), ivec(-1, -1, -1),
    ]
}

/// The color of each face: red, green, blue, yellow, magenta, cyan.
pub open spec fn face_color_table() -> Seq<IntVec3> {
    seq![ivec(1, 0, 0), ivec(0, 1, 0), ivec(0, 0, 1), ivec(1, 1, 0), ivec(1, 0, 1), ivec(0, 1, 1)]
}

/// The color of each vertex: the color of the face it belongs to.
pub open spec fn cube_color_table() -> Seq<IntVec3> {
    Seq::new(CUBE_VERTEX_COUNT as nat, |i: int| face_color_table()[i / 6])
}

/// The vertices made by pairing positions and colors index by index.
pub open spec fn paired(pos: Seq<IntVec3>, col: Seq<IntVec3>) -> Seq<MeshVertex> {
    Seq::new(pos.len(), |i: int| MeshVertex { position: pos[i], color: col[i] })
}

/// The coordinate of `v` along axis 0 (x), 1 (y) or 2 (z).
pub open spec fn coord(v: IntVec3, axis: int) -> int {
    if axis == 0 {
        v.x as int
    } else if axis == 1 {
        v.y as int
    } else {
        v.z as int
    }
}

/// The axis that face `f` is perpendicular to.
pub open spec fn face_axis(f: int) -> int {
    seq![2int, 0, 2, 0, 1, 1][f]
}

/// The side of the cube that face `f` lies on: 1 or -1 along its axis.
pub open spec fn face_side(f: int) -> int {
    seq![1int, 1, -1, -1, 1, -1][f]
}

/// `v` is a corner of the cube, all coordinates 1 or -1, lying on face `f`.
pub open spec fn corner_on_face(v: IntVec3, f: int) -> bool {
    &&& v.x == 1 || v.x == -1
    &&& v.y == 1 || v.y == -1
    &&& v.z == 1 || v.z == -1
    &&& coord(v, face_axis(f)) == face_side(f)
}

/// Every vertex of the table is a corner of the cube, and the six vertices
/// of each face, hence the three of each of its triangles, lie on that face
/// and share its color; the six faces lie on six different sides.
pub proof fn lemma_cube_mesh_faces()
    ensures
        cube_position_table().len() == CUBE_VERTEX_COUNT,
        cube_color_table().len() == CUBE_VERTEX_COUNT,
        CUBE_VERTEX_COUNT % 3 == 0,
        forall|i: int|
            0 <= i < CUBE_VERTEX_COUNT ==> #[trigger] corner_on_face(cube_position_table()[i], i / 6),
        forall|i: int|
            0 <= i < CUBE_VERTEX_COUNT ==> #[trigger] cube_color_table()[i] == face_color_table()[i / 6],
        forall|f: int, g: int|
            0 <= f < g < 6 ==> face_axis(f) != face_axis(g) || face_side(f) != face_side(g),
{
    assert(corner_on_face(cube_position_table()[0], 0));
    assert(corner_on_face(cube_position_table()[1], 0));
    assert(corner_on_face(cube_position_table()[2], 0));
    assert(corner_on_face(cube_position_table()[3], 0));
    assert(corner_on_face(cube_position_table()[4], 0));
    assert(corner_on_face(cube_position_table()[5], 0));
    assert(corner_on_face(cube_position_table()[6], 1));
    assert(corner_on_face(cube_position_table()[7], 1));
    assert(corner_on_face(cube_position_table()[8], 1));
    assert(corner_on_face(cube_position_table()[9], 1));
    assert(corner_on_face(cube_position_table()[10], 1));
    assert(corner_on_face(cube_position_table()[11], 1));
    assert(corner_on_face(cube_position_table()[12], 2));
    assert(corner_on_face(cube_position_table()[13], 2));
    assert(corner_on_face(cube_position_table()[14], 2));
    assert(corner_on_face(cube_position_table()[15], 2));
    assert(corner_on_face(cube_position_table()[16], 2));
    assert(corner_on_face(cube_position_table()[17], 2));
    assert(corner_on_face(cube_position_table()[18], 3));
    assert(corner_on_face(cube_position_table()[19], 3));
    assert(corner_on_face(cube_position_table()[20], 3));
    assert(corner_on_face(cube_position_table()[21], 3));
    assert(corner_on_face(cube_position_table()[22], 3));
    assert(corner_on_face(cube_position_table()[23], 3));
    assert(corner_on_face(cube_position_table()[24], 4));
    assert(corner_on_face(cube_position_table()[25], 4));
    assert(corner_on_face(cube_position_table()[26], 4));
    assert(corner_on_face(cube_position_table()[27], 4));
    assert(corner_on_face(cube_position_table()[28], 4));
    assert(corner_on_face(cube_position_table()[29], 4));
    assert(corner_on_face(cube_position_table()[30], 5));
    assert(corner_on_face(cube_position_table()[31], 5));
    assert(corner_on_face(cube_position_table()[32], 5));
    assert(corner_on_face(cube_position_table()[33], 5));
    assert(corner_on_face(cube_position_table()[34], 5));
    assert(corner_on_face(cube_position_table()[35], 5));
    assert forall|i: int| 0 <= i < CUBE_VERTEX_COUNT implies #[trigger] corner_on_face(cube_position_table()[i], i / 6) by {
        assert(i == 0 || i == 1 || i == 2 || i == 3 || i == 4 || i == 5 || i == 6 || i == 7 || i == 8 || i == 9 || i == 10 || i == 11 || i == 12 || i == 13 || i == 14 || i == 15 || i == 16 || i == 17 || i == 18 || i == 19 || i == 20 || i == 21 || i == 22 || i == 23 || i == 24 || i == 25 || i == 26 || i == 27 || i == 28 || i == 29 || i == 30 || i == 31 || i == 32 || i == 33 || i == 34 || i == 35);
    }
    assert forall|f: int, g: int| 0 <= f < g < 6 implies face_axis(f) != face_axis(g) || face_side(f) != face_side(g) by {
        assert(f == 0 || f == 1 || f == 2 || f == 3 || f == 4);
        assert(g == 1 || g == 2 || g == 3 || g == 4 || g == 5);
    }
}

/// The corner positions of the cube's triangles.
pub fn cube_positions() -> (r: Vec<IntVec3>)
    ensures
        r@ == cube_position_table(),
{
    let mut v: Vec<IntVec3> = Vec::new();
    v.push(IntVec3 { x: -1, y: -1, z: 1 });
    v.push(IntVec3 { x: 1, y: -1, z: 1 });
    v.push(IntVec3 { x: 1, y: 1, z: 1 });
    v.push(IntVec3 { x: 1, y: 1, z: 1 });
    v.push(IntVec3 { x: -1, y: 1, z: 1 });
    v.push(IntVec3 { x: -1, y: -1, z: 1 });
    v.push(IntVec3 { x: 1, y: -1, z: 1 });
    v.push(IntVec3 { x: 1, y: -1, z: -1 });
    v.push(IntVec3 { x: 1, y: 1, z: -1 });
    v.push(IntVec3 { x: 1, y: 1, z: -1 });
    v.push(IntVec3 { x: 1, y: 1, z: 1 });
    v.push(IntVec3 { x: 1, y: -1, z: 1 });
    v.push(IntVec3 { x: 1, y: -1, z: -1 });
    v.push(IntVec3 { x: -1, y: -1, z: -1 });
    v.push(IntVec3 { x: -1, y: 1, z: -1 });
    v.push(IntVec3 { x: -1, y: 1, z: -1 });
    v.push(IntVec3 { x: 1, y: 1, z: -1 });
    v.push(IntVec3 { x: 1, y: -1, z: -1 });
    v.push(IntVec3 { x: -1, y: -1, z: -1 });
    v.push(IntVec3 { x: -1, y: -1, z: 1 });
    v.push(IntVec3 { x: -1, y: 1, z: 1 });
    v.push(IntVec3 { x: -1, y: 1, z: 1 });
    v.push(IntVec3 { x: -1, y: 1, z: -1 });
    v.push(IntVec3 { x: -1, y: -1, z: -1 });
    v.push(IntVec3 { x: -1, y: 1, z: 1 });
    v.push(IntVec3 { x: 1, y: 1, z: 1 });
    v.push(IntVec3 { x: 1, y: 1, z: -1 });
    v.push(IntVec3 { x: 1, y: 1, z: -1 });
    v.push(IntVec3 { x: -1, y: 1, z: -1 });
    v.push(IntVec3 { x: -1, y: 1, z: 1 });
    v.push(IntVec3 { x: -1, y: -1, z: -1 });
    v.push(IntVec3 { x: 1, y: -1, z: -1 });
    v.push(IntVec3 { x: 1, y: -1, z: 1 });
    v.push(IntVec3 { x: 1, y: -1, z: 1 });
    v.push(IntVec3 { x: -1, y: -1, z: 1 });
    v.push(IntVec3 { x: -1, y: -1, z: -1 });
    assert(v@ =~= cube_position_table());
    v
}

/// The color of each vertex of `cube_positions`.
pub fn cube_colors() -> (r: Vec<IntVec3>)
    ensures
        r@ == cube_color_table(),
{
    let faces: [IntVec3; 6] = [
        IntVec3 { x: 1, y: 0, z: 0 },
        IntVec3 { x: 0, y: 1, z: 0 },
        IntVec3 { x: 0, y: 0, z: 1 },
        IntVec3 { x: 1, y: 1, z: 0 },
        IntVec3 { x: 1, y: 0, z: 1 },
        IntVec3 { x: 0, y: 1, z: 1 },
    ];
    assert(faces@ =~= face_color_table());
    let mut v: Vec<IntVec3> = Vec::new();
    let mut i: usize = 0;
    while i < CUBE_VERTEX_COUNT
        invariant
            i <= CUBE_VERTEX_COUNT,
            faces@ == face_color_table(),
            v@ == cube_color_table().take(i as int),
        decreases CUBE_VERTEX_COUNT - i,
    {
        v.push(faces[i / 6]);
        i = i + 1;
        assert(v@ =~= cube_color_table().take(i as int));
    }
    assert(cube_color_table().take(CUBE_VERTEX_COUNT as int) =~= cube_color_table());
    v
}

/// Pairs positions and colors index by index into vertices.
pub fn pair_vertices(pos: &Vec<IntVec3>, col: &Vec<IntVec3>) -> (r: Vec<MeshVertex>)
    requires
        pos@.len() <= col@.len(),
    ensures
        r@ == paired(pos@, col@),
{
    let mut data: Vec<MeshVertex> = Vec::with_capacity(pos.len());
    let mut i: usize = 0;
    while i < pos.len()
        invariant
            i <= pos@.len(),
            pos@.len() <= col@.len(),
            data@ == paired(pos@, col@).take(i as int),
        decreases pos@.len() - i,
    {
        data.push(MeshVertex { position: pos[i], color: col[i] });
        i = i + 1;
        assert(data@ =~= paired(pos@, col@).take(i as int));
    }
    assert(paired(pos@, col@).take(pos@.len() as int) =~= paired(pos@, col@));
    data
}

/// The cube's vertices, ready for the vertex buffer.
pub fn create_vertices() -> (r: Vec<MeshVertex>)
    ensures
        r@ == paired(cube_position_table(), cube_color_table()),
        r@.len() == CUBE_VERTEX_COUNT,
{
    let pos = cube_positions();
    let col = cube_colors();
    pair_vertices(&pos, &col)
}

} // verus!

use tarsier::model::{parse_obj, MeshData, Model, ModelError};
use tarsier::vertex::{Vertex, VertexFormat, VERTEX_STRIDE};

fn vx(a: u32, b: u32) -> Vertex {
    Vertex::new([a, a + 1, a + 2], [b, b + 1])
}

#[test]
fn duplicates_collapse_to_first_occurrence() {
    let (a, b, c) = (vx(1, 1), vx(2, 2), vx(1, 9));
    let m = Model::from_corners(&vec![a, b, a, c, b, a]);
    assert_eq!(m.vertices, vec![a, b, c]);
    assert_eq!(m.indices, vec![0, 1, 0, 2, 1, 0]);
}

#[test]
fn deduplication_is_idempotent() {
    let corners = vec![vx(5, 0), vx(3, 0), vx(5, 0), vx(3, 1)];
    let first = Model::from_corners(&corners);
    let again = Model::from_corners(&corners);
    assert_eq!(first.vertices, again.vertices);
    assert_eq!(first.indices, again.indices);
    let twice = Model::from_corners(&first.vertices);
    assert_eq!(twice.vertices, first.vertices);
    assert_eq!(twice.indices, vec![0, 1, 2]);
}

#[test]
fn empty_corner_list() {
    let m = Model::from_corners(&vec![]);
    assert!(m.vertices.is_empty() && m.indices.is_empty());
}

const CUBE: &str = "\
v 0 0 0
v 1 0 0
v 1 1 0
v 0 1 0
v 0 0 1
v 1 0 1
v 1 1 1
v 0 1 1
vt 0 0
vt 0.25 0
vt 0.5 0
vt 0.75 0
vt 0 1
vt 0.25 1
vt 0.5 1
vt 0.75 1
f 1/1 2/2 3/3
f 1/1 3/3 4/4
f 5/5 6/6 7/7
f 5/5 7/7 8/8
f 1/1 2/2 6/6
f 1/1 6/6 5/5
f 4/4 3/3 7/7
f 4/4 7/7 8/8
f 1/1 4/4 8/8
f 1/1 8/8 5/5
f 2/2 3/3 7/7
f 2/2 7/7 6/6
";

#[test]
fn cube_has_eight_vertices_and_thirty_six_indices() {
    let meshes = parse_obj(CUBE.as_bytes()).unwrap();
    let m = Model::from_meshes(&meshes).unwrap();
    assert_eq!(m.vertices.len(), 8);
    assert_eq!(m.indices.len(), 36);
    assert!(m.indices.iter().all(|&i| i < 8));
    assert_eq!(&m.indices[..6], &[0, 1, 2, 0, 2, 3]);
    assert_eq!(m.vertices[1].pos, [1.0f32.to_bits(), 0, 0]);
    assert_eq!(m.vertices[1].uv, [0.25f32.to_bits(), 0]);
}

#[test]
fn obj_quads_are_triangulated() {
    let text = "v 0 0 0\nv 1 0 0\nv 1 1 0\nv 0 1 0\nvt 0 0\nvt 1 0\nvt 1 1\nvt 0 1\nf 1/1 2/2 3/3 4/4\n";
    let meshes = parse_obj(text.as_bytes()).unwrap();
    assert_eq!(meshes.len(), 1);
    assert_eq!(meshes[0].indices.len(), 6);
    assert_eq!(meshes[0].positions.len(), 12);
    assert_eq!(meshes[0].positions[3], 1.0f32.to_bits());
    let m = Model::from_meshes(&meshes).unwrap();
    assert_eq!(m.vertices.len(), 4);
    assert_eq!(m.indices.len(), 6);
}

#[test]
fn malformed_obj_is_a_parse_error() {
    assert_eq!(parse_obj(b"v 1.0 abc\n").unwrap_err(), ModelError::Parse);
}

#[test]
fn index_without_texture_coordinate_is_rejected() {
    let mesh = MeshData {
        indices: vec![0, 1],
        texcoord_indices: vec![0, 1],
        positions: vec![0; 6],
        texcoords: vec![0; 2],
    };
    assert_eq!(Model::from_meshes(&vec![mesh]).unwrap_err(), ModelError::IndexOutOfRange);
    let short = MeshData {
        indices: vec![2],
        texcoord_indices: vec![0],
        positions: vec![0; 8],
        texcoords: vec![0; 6],
    };
    assert_eq!(Model::from_meshes(&vec![short]).unwrap_err(), ModelError::IndexOutOfRange);
    let untextured = MeshData {
        indices: vec![0],
        texcoord_indices: vec![],
        positions: vec![0; 3],
        texcoords: vec![],
    };
    assert_eq!(Model::from_meshes(&vec![untextured]).unwrap_err(), ModelError::IndexOutOfRange);
}

#[test]
fn meshes_are_concatenated() {
    let m1 = MeshData {
        indices: vec![0, 0],
        texcoord_indices: vec![0, 0],
        positions: vec![1, 2, 3],
        texcoords: vec![4, 5],
    };
    let m2 = MeshData {
        indices: vec![1, 0],
        texcoord_indices: vec![1, 0],
        positions: vec![9, 9, 9, 1, 2, 3],
        texcoords: vec![0, 0, 4, 5],
    };
    let m = Model::from_meshes(&vec![m1, m2]).unwrap();
    assert_eq!(m.vertices, vec![Vertex::new([1, 2, 3], [4, 5]), Vertex::new([9, 9, 9], [0, 0])]);
    assert_eq!(m.indices, vec![0, 0, 0, 1]);
}

#[test]
fn vertex_layout() {
    let b = Vertex::binding_description();
    assert_eq!((b.binding, b.stride, b.per_instance), (0, VERTEX_STRIDE, false));
    assert_eq!(VERTEX_STRIDE, 20);
    let a = Vertex::attribute_descriptions();
    assert_eq!((a[0].location, a[0].offset, a[0].format), (0, 0, VertexFormat::R32G32B32Sfloat));
    assert_eq!((a[1].location, a[1].offset, a[1].format), (1, 12, VertexFormat::R32G32Sfloat));
    assert!(vx(1, 2).same_as(&vx(1, 2)));
    assert!(!vx(1, 2).same_as(&vx(1, 3)));
}

#[test]
fn each_corner_takes_its_own_texture_coordinate() {
    // one position used with two different texture coordinates
    let text = "v 0 0 0\nv 1 0 0\nv 0 1 0\nvt 0 0\nvt 0.5 0\nvt 1 1\nf 1/3 2/1 3/2\nf 1/1 2/1 3/2\n";
    let meshes = parse_obj(text.as_bytes()).unwrap();
    let m = Model::from_meshes(&meshes).unwrap();
    assert_eq!(m.indices.len(), 6);
    assert_eq!(m.vertices.len(), 4);
    assert_eq!(m.vertices[0].uv, [1.0f32.to_bits(), 1.0f32.to_bits()]);
    assert_eq!(m.vertices[1].uv, [0, 0]);
    assert_eq!(m.vertices[2].uv, [0.5f32.to_bits(), 0]);
    assert_eq!(m.vertices[3].pos, [0, 0, 0]);
    assert_eq!(m.vertices[3].uv, [0, 0]);
    assert_eq!(m.indices, vec![0, 1, 2, 3, 1, 2]);
}

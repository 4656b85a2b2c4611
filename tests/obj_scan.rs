use tarsier::model::{parse_obj, Model, ModelError};
use tarsier::obj_scan::faces_safe;

#[test]
fn texture_index_before_the_first_entry_is_refused() {
    let text = b"v 0 0 0\nvt 0 0\nf 1/-3 1/-3 1/-3\n";
    assert!(!faces_safe(text));
    assert_eq!(parse_obj(text).unwrap_err(), ModelError::Parse);
}

#[test]
fn normal_index_before_the_first_entry_is_refused() {
    let text = b"v 0 0 0\nvn 0 0 1\nf 1//-5 1//-5 1//-5";
    assert!(!faces_safe(text));
    assert_eq!(parse_obj(text).unwrap_err(), ModelError::Parse);
}

#[test]
fn huge_normal_index_is_refused() {
    let text = b"v 0 0 0\nvn 0 0 1\nf 1//9000000000000000000 1//1 1//1\n";
    assert!(!faces_safe(text));
    assert_eq!(parse_obj(text).unwrap_err(), ModelError::Parse);
}

#[test]
fn relative_indices_within_range_are_read() {
    let text = b"v 0 0 0\nv 1 0 0\nv 0 1 0\nvt 0 0\nvt 1 0\nvt 0 1\nf -3/-3 -2/-2 -1/-1\n";
    assert!(faces_safe(text));
    let meshes = parse_obj(text).unwrap();
    let m = Model::from_meshes(&meshes).unwrap();
    assert_eq!(m.vertices.len(), 3);
    assert_eq!(m.indices, vec![0, 1, 2]);
}

#[test]
fn index_just_before_the_first_entry_is_taken_as_missing() {
    // tex count 1, index -2: the reader treats it as absent, without overflow
    let text = b"v 0 0 0\nvt 0 0\nf 1/-2 1/-2 1/-2\n";
    assert!(faces_safe(text));
    assert!(parse_obj(text).is_ok());
}

#[test]
fn non_ascii_with_slash_is_refused_and_comments_are_ignored() {
    assert!(!faces_safe("f 1/1\u{2003}2/2 3/3\n".as_bytes()));
    assert!(faces_safe("# caf\u{e9}\nv 0 0 0\n".as_bytes()));
    assert!(faces_safe("# caf\u{e9}/bar\no r\u{e9}gion/a\nmtllib d\u{e9}j\u{e0}/m.mtl\n".as_bytes()));
    assert!(!faces_safe("\u{e9}f 1/1 1/1 1/1\n".as_bytes()));
    let named = "o pi\u{e8}ce/1\nv 0 0 0\nvt 0 0\nf 1/1 1/1 1/1\n";
    assert!(parse_obj(named.as_bytes()).is_ok());
    assert!(faces_safe(b"# f 1/-9 1/-9 1/-9\n"));
    assert!(faces_safe(b""));
}

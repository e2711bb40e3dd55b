use marauder_vis::obj::{parse_corner, Face, Model};

fn face(v: [i32; 3], t: [i32; 3]) -> Face {
    Face { vertex: v, texture: t, normal: [1, 1, 1] }
}

#[test]
fn build_resolves_one_based_corners() {
    let mut m: Model<(i32, i32), char> = Model::new();
    m.add_coord((0, 0));
    m.add_coord((1, 0));
    m.add_coord((0, 1));
    m.add_coord((1, 1));
    m.add_texture_coord('a');
    m.add_texture_coord('b');
    m.add_normal((0, 9));
    m.add_face(face([1, 2, 3], [1, 1, 2]));
    m.add_face(face([4, 3, 2], [2, 2, 1]));
    assert_eq!(m.build(), Some(vec![(0, 0), (1, 0), (0, 1), (1, 1), (0, 1), (1, 0)]));
    assert_eq!(m.build_tex_coord(), Some(vec!['a', 'a', 'b', 'b', 'b', 'a']));
}

#[test]
fn build_rejects_missing_corner() {
    let mut m: Model<u8, u8> = Model::new();
    m.add_coord(7);
    m.add_texture_coord(1);
    m.add_face(face([1, 1, 2], [1, 1, 1]));
    assert_eq!(m.build(), None);
    assert_eq!(m.build_tex_coord(), Some(vec![1, 1, 1]));
    m.add_face(face([1, 1, 1], [0, 1, 1]));
    assert_eq!(m.build_tex_coord(), None);
}

#[test]
fn empty_model_builds_nothing() {
    let m: Model<u8, u8> = Model::new();
    assert_eq!(m.build(), Some(Vec::new()));
}

#[test]
fn corner_groups_parse() {
    assert_eq!(parse_corner(b"12/7/3"), Some((12, 7, 3)));
    assert_eq!(parse_corner(b"1/2/3/4"), Some((1, 2, 3)));
    assert_eq!(parse_corner(b"2147483647/0/1"), Some((2147483647, 0, 1)));
}

#[test]
fn corner_groups_reject_bad_parts() {
    assert_eq!(parse_corner(b"1//3"), None);
    assert_eq!(parse_corner(b"1/2"), None);
    assert_eq!(parse_corner(b"1/2/"), None);
    assert_eq!(parse_corner(b"a/2/3"), None);
    assert_eq!(parse_corner(b"2147483648/1/1"), None);
    assert_eq!(parse_corner(b""), None);
}

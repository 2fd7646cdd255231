use wuengine::fx::FX_ONE;
use wuengine::obj_reader::{parse_obj, ObjError};

fn bytes(s: &str) -> Vec<u8> {
    s.as_bytes().to_vec()
}

#[test]
fn three_vertex_lines_parse_in_order() {
    let data = bytes("v 0 0 1\nv 1 0 1\nv 0 1 1\n");
    let mesh = parse_obj(&data).expect("well-formed model");
    assert_eq!(mesh.verts.len(), 3);
    assert_eq!(mesh.verts[0].x.raw, 0);
    assert_eq!(mesh.verts[0].z.raw, FX_ONE);
    assert_eq!(mesh.verts[1].x.raw, FX_ONE);
    assert_eq!(mesh.verts[2].y.raw, FX_ONE);
    for v in &mesh.verts {
        assert_eq!(v.w.raw, FX_ONE);
    }
}

#[test]
fn fractional_and_negative_coordinates_parse() {
    let data = bytes("v 1.5 -2.25 0\n");
    let mesh = parse_obj(&data).expect("well-formed model");
    assert_eq!(mesh.verts.len(), 1);
    assert_eq!(mesh.verts[0].x.raw, 3 * FX_ONE / 2);
    assert_eq!(mesh.verts[0].y.raw, -9 * FX_ONE / 4);
    assert_eq!(mesh.verts[0].z.raw, 0);
}

#[test]
fn other_lines_are_ignored() {
    let data = bytes("# comment\nvn 1 2 3\nf 1 2 3\nv 2 2 2\n");
    let mesh = parse_obj(&data).expect("well-formed model");
    assert_eq!(mesh.verts.len(), 1);
    assert_eq!(mesh.verts[0].x.raw, 2 * FX_ONE);
}

#[test]
fn empty_input_gives_empty_mesh() {
    let mesh = parse_obj(&bytes("")).expect("empty model");
    assert_eq!(mesh.verts.len(), 0);
}

#[test]
fn missing_coordinate_is_a_format_error() {
    assert!(matches!(parse_obj(&bytes("v 1 2\n")), Err(ObjError::FormatError)));
}

#[test]
fn extra_token_is_a_format_error() {
    assert!(matches!(parse_obj(&bytes("v 1 2 3 4\n")), Err(ObjError::FormatError)));
}

#[test]
fn double_space_is_a_format_error() {
    assert!(matches!(parse_obj(&bytes("v  1 2 3\n")), Err(ObjError::FormatError)));
}

#[test]
fn malformed_number_is_fatal_not_skipped() {
    assert!(matches!(parse_obj(&bytes("v 0 0 1\nv a 0 1\n")), Err(ObjError::FormatError)));
}

#[test]
fn lone_minus_or_dot_is_a_format_error() {
    assert!(matches!(parse_obj(&bytes("v - 0 1\n")), Err(ObjError::FormatError)));
    assert!(matches!(parse_obj(&bytes("v . 0 1\n")), Err(ObjError::FormatError)));
}

#[test]
fn carriage_returns_are_stripped() {
    let data = bytes("v 1 2 3\r\nv 4 5 6\r\n");
    let mesh = parse_obj(&data).expect("model with CRLF line ends");
    assert_eq!(mesh.verts.len(), 2);
    assert_eq!(mesh.verts[1].z.raw, 6 * FX_ONE);
}

#[test]
fn missing_final_newline_is_accepted() {
    let mesh = parse_obj(&bytes("v 1 1 1")).expect("model without final newline");
    assert_eq!(mesh.verts.len(), 1);
}

#[test]
fn long_fraction_keeps_six_digits() {
    let mesh = parse_obj(&bytes("v 0.9999999 0 1\n")).expect("long fraction");
    // Only the first six fractional digits contribute: 0.999999 scaled
    // and rounded down.
    assert_eq!(mesh.verts[0].x.raw, 999999i64 * 65536 / 1000000);
}

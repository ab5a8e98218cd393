use voxel_scene::adapter::adapt;
use voxel_scene::fragment::{
    validate_fragment, Attr2, Attr3, MalformedKind, MeshFragment, RawMeshFragment, Vec2Bits,
    Vec3Bits,
};

fn v3(x: u32, y: u32, z: u32) -> Vec3Bits {
    Vec3Bits { x, y, z }
}

fn v2(x: u32, y: u32) -> Vec2Bits {
    Vec2Bits { x, y }
}

fn three_vertex_fragment(normals: Attr3, uv: Attr2) -> MeshFragment {
    MeshFragment {
        vertices: vec![v3(1, 2, 3), v3(4, 5, 6), v3(7, 8, 9)],
        indices: vec![0, 1, 2],
        normals,
        uv,
    }
}

#[test]
fn absent_normals_become_zero_vectors() {
    let f = three_vertex_fragment(Attr3::Absent, Attr2::Absent);
    let m = adapt(&f);
    assert_eq!(m.normals.len(), 3);
    for n in &m.normals {
        assert_eq!(*n, v3(0, 0, 0));
    }
}

#[test]
fn present_normals_are_copied_in_order() {
    let ns = vec![v3(10, 11, 12), v3(13, 14, 15), v3(16, 17, 18)];
    let f = three_vertex_fragment(Attr3::Present(ns.clone()), Attr2::Absent);
    let m = adapt(&f);
    assert_eq!(m.normals, ns);
}

#[test]
fn absent_uvs_become_zero_vectors() {
    let f = three_vertex_fragment(Attr3::Absent, Attr2::Absent);
    let m = adapt(&f);
    assert_eq!(m.uvs.len(), 3);
    for u in &m.uvs {
        assert_eq!(*u, v2(0, 0));
    }
}

#[test]
fn present_uvs_are_copied_in_order() {
    let us = vec![v2(20, 21), v2(22, 23), v2(24, 25)];
    let f = three_vertex_fragment(Attr3::Absent, Attr2::Present(us.clone()));
    let m = adapt(&f);
    assert_eq!(m.uvs, us);
}

#[test]
fn positions_and_indices_are_bit_identical() {
    let f = three_vertex_fragment(Attr3::Absent, Attr2::Absent);
    let m = adapt(&f);
    assert_eq!(m.positions, f.vertices);
    assert_eq!(m.indices, f.indices);
}

#[test]
fn float_bit_patterns_pass_through_unchanged() {
    let raw = RawMeshFragment {
        vertices: vec![v3(1.5f32.to_bits(), (-2.25f32).to_bits(), 0.0f32.to_bits())],
        indices: vec![0],
        normals: vec![],
        uv: vec![],
    };
    let f = validate_fragment(&raw, 0).unwrap();
    let m = adapt(&f);
    assert_eq!(f32::from_bits(m.positions[0].x), 1.5);
    assert_eq!(f32::from_bits(m.positions[0].y), -2.25);
    assert_eq!(f32::from_bits(m.positions[0].z), 0.0);
    assert_eq!(f32::from_bits(m.normals[0].x), 0.0);
}

#[test]
fn adapting_twice_is_attribute_equal() {
    let f = three_vertex_fragment(
        Attr3::Present(vec![v3(1, 0, 0), v3(0, 1, 0), v3(0, 0, 1)]),
        Attr2::Absent,
    );
    let m1 = adapt(&f);
    let m2 = adapt(&f);
    assert_eq!(m1.positions, m2.positions);
    assert_eq!(m1.normals, m2.normals);
    assert_eq!(m1.uvs, m2.uvs);
    assert_eq!(m1.indices, m2.indices);
}

#[test]
fn validation_accepts_absent_attributes() {
    let raw = RawMeshFragment {
        vertices: vec![v3(1, 2, 3), v3(4, 5, 6)],
        indices: vec![0, 1, 0],
        normals: vec![],
        uv: vec![],
    };
    let f = validate_fragment(&raw, 4).unwrap();
    assert!(matches!(f.normals, Attr3::Absent));
    assert!(matches!(f.uv, Attr2::Absent));
    assert_eq!(f.vertices, raw.vertices);
    assert_eq!(f.indices, raw.indices);
}

#[test]
fn validation_accepts_full_attributes() {
    let raw = RawMeshFragment {
        vertices: vec![v3(1, 2, 3), v3(4, 5, 6)],
        indices: vec![1, 0],
        normals: vec![v3(9, 9, 9), v3(8, 8, 8)],
        uv: vec![v2(1, 1), v2(2, 2)],
    };
    let f = validate_fragment(&raw, 0).unwrap();
    match f.normals {
        Attr3::Present(ns) => assert_eq!(ns, raw.normals),
        Attr3::Absent => panic!("normals were present"),
    }
    match f.uv {
        Attr2::Present(us) => assert_eq!(us, raw.uv),
        Attr2::Absent => panic!("uvs were present"),
    }
}

#[test]
fn validation_rejects_out_of_range_index() {
    let raw = RawMeshFragment {
        vertices: vec![v3(1, 2, 3), v3(4, 5, 6)],
        indices: vec![0, 2],
        normals: vec![],
        uv: vec![],
    };
    let e = validate_fragment(&raw, 7).unwrap_err();
    assert_eq!(e.chunk, 7);
    assert_eq!(e.kind, MalformedKind::IndexOutOfRange);
}

#[test]
fn validation_rejects_partial_normals() {
    let raw = RawMeshFragment {
        vertices: vec![v3(1, 2, 3), v3(4, 5, 6)],
        indices: vec![0, 1],
        normals: vec![v3(9, 9, 9)],
        uv: vec![],
    };
    let e = validate_fragment(&raw, 2).unwrap_err();
    assert_eq!(e.chunk, 2);
    assert_eq!(e.kind, MalformedKind::NormalCountMismatch);
}

#[test]
fn validation_rejects_partial_uvs() {
    let raw = RawMeshFragment {
        vertices: vec![v3(1, 2, 3), v3(4, 5, 6)],
        indices: vec![0, 1],
        normals: vec![],
        uv: vec![v2(3, 3)],
    };
    let e = validate_fragment(&raw, 3).unwrap_err();
    assert_eq!(e.chunk, 3);
    assert_eq!(e.kind, MalformedKind::UvCountMismatch);
}

use gltf_viewer::shader::{PbrShader, ShaderFlags};

#[test]
fn empty_has_no_flag() {
    let flags = ShaderFlags::empty();
    assert_eq!(flags.bits(), 0);
    assert!(flags.is_empty());
}

#[test]
fn flag_constants_match_the_shader_defines() {
    assert_eq!(ShaderFlags::HAS_NORMALS, 1);
    assert_eq!(ShaderFlags::HAS_TANGENTS, 1 << 1);
    assert_eq!(ShaderFlags::HAS_UV, 1 << 2);
    assert_eq!(ShaderFlags::HAS_COLORS, 1 << 3);
    assert_eq!(ShaderFlags::USE_IBL, 1 << 4);
    assert_eq!(ShaderFlags::HAS_BASECOLORMAP, 1 << 5);
    assert_eq!(ShaderFlags::HAS_NORMALMAP, 1 << 6);
    assert_eq!(ShaderFlags::HAS_EMISSIVEMAP, 1 << 7);
    assert_eq!(ShaderFlags::HAS_METALROUGHNESSMAP, 1 << 8);
    assert_eq!(ShaderFlags::HAS_OCCLUSIONMAP, 1 << 9);
    assert_eq!(ShaderFlags::USE_TEX_LOD, 1 << 10);
    assert_eq!(ShaderFlags::ALL_BITS, 0x7ff);
}

#[test]
fn union_is_commutative_associative_and_idempotent() {
    let a = ShaderFlags { bits: ShaderFlags::HAS_NORMALS | ShaderFlags::HAS_UV };
    let b = ShaderFlags { bits: ShaderFlags::HAS_UV | ShaderFlags::HAS_COLORS };
    let c = ShaderFlags { bits: ShaderFlags::HAS_OCCLUSIONMAP };
    assert_eq!(a.union(b), b.union(a));
    assert_eq!(a.union(b).union(c), a.union(b.union(c)));
    assert_eq!(a.union(b).union(b), a.union(b));
    assert_eq!(a.union(ShaderFlags::empty()), a);
    assert_eq!(a.union(b).bits(), 0b1101);
}

#[test]
fn insert_adds_flags_and_contains_sees_them() {
    let mut flags = ShaderFlags::empty();
    flags.insert(ShaderFlags { bits: ShaderFlags::HAS_TANGENTS });
    flags.insert(ShaderFlags { bits: ShaderFlags::HAS_COLORS });
    assert_eq!(flags.bits(), 10);
    assert!(flags.contains(ShaderFlags { bits: ShaderFlags::HAS_TANGENTS }));
    assert!(flags.contains(ShaderFlags { bits: ShaderFlags::HAS_COLORS }));
    assert!(!flags.contains(ShaderFlags { bits: ShaderFlags::HAS_UV }));
    assert!(flags.contains(ShaderFlags::empty()));
}

#[test]
fn from_bits_truncate_drops_unknown_bits() {
    assert_eq!(ShaderFlags::from_bits_truncate(0xffff).bits(), 0x7ff);
    assert_eq!(ShaderFlags::from_bits_truncate(0x0805).bits(), 0x0005);
}

#[test]
fn pbr_shader_records_its_flags() {
    let flags = ShaderFlags { bits: ShaderFlags::HAS_UV };
    let shader = PbrShader::new(flags);
    assert_eq!(shader.flags, flags);
}

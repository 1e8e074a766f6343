use render_gl::data::{
    i2_i10_i10_i10_rev_float,
    u2_u10_u10_u10_rev_float, AttribKind, AttribLayout, GL_FLOAT, GL_UNSIGNED_INT_2_10_10_10_REV,
};

#[test]
fn all_ones_in_ten_bit_fields_leaves_top_field_zero() {
    let v = u2_u10_u10_u10_rev_float::from_fields(1023, 1023, 1023, 0);
    assert_eq!(v.raw_value(), 0x3FFF_FFFF);
    assert_eq!(v.w(), 0);
}

#[test]
fn all_fields_full_sets_every_bit() {
    let v = u2_u10_u10_u10_rev_float::from_fields(1023, 1023, 1023, 3);
    assert_eq!(v.raw_value(), 0xFFFF_FFFF);
}

#[test]
fn fields_land_at_their_offsets() {
    let v = u2_u10_u10_u10_rev_float::from_fields(1, 2, 3, 1);
    assert_eq!(v.raw_value(), 1 | (2 << 10) | (3 << 20) | (1 << 30));
    assert_eq!((v.x(), v.y(), v.z(), v.w()), (1, 2, 3, 1));
}

#[test]
fn out_of_range_fields_are_clamped() {
    let v = u2_u10_u10_u10_rev_float::from_fields(5000, 1024, 7, 9);
    assert_eq!((v.x(), v.y(), v.z(), v.w()), (1023, 1023, 7, 3));
}

#[test]
fn decode_then_encode_gives_the_word_back() {
    for bits in [0u32, 1, 0x1234_5678, 0xDEAD_BEEF, 0xFFFF_FFFF, 0x8000_0000] {
        let v = u2_u10_u10_u10_rev_float::from_raw(bits);
        let again = u2_u10_u10_u10_rev_float::from_fields(v.x(), v.y(), v.z(), v.w());
        assert_eq!(again.raw_value(), bits);
    }
}

#[test]
fn encode_then_decode_gives_the_fields_back() {
    let v = u2_u10_u10_u10_rev_float::from_fields(512, 0, 1023, 2);
    assert_eq!((v.x(), v.y(), v.z(), v.w()), (512, 0, 1023, 2));
}

#[test]
fn field_readers_split_a_word() {
    let v = u2_u10_u10_u10_rev_float::from_raw(0x1234_5678);
    assert_eq!(v.x(), 0x278);
    assert_eq!(v.y(), 0x115);
    assert_eq!(v.z(), 0x123);
    assert_eq!(v.w(), 0);
}

#[test]
fn gl_constants_match_the_bindings() {
    assert_eq!(GL_FLOAT, gl::FLOAT);
    assert_eq!(GL_UNSIGNED_INT_2_10_10_10_REV, gl::UNSIGNED_INT_2_10_10_10_REV);
    assert_eq!(render_gl::context::GL_TRIANGLES, gl::TRIANGLES);
    assert_eq!(render_gl::context::GL_VERTEX_SHADER, gl::VERTEX_SHADER);
    assert_eq!(render_gl::context::GL_FRAGMENT_SHADER, gl::FRAGMENT_SHADER);
}

#[test]
fn packed_attribute_layout() {
    let l = u2_u10_u10_u10_rev_float::vertex_attrib_pointer(16, 1, 12);
    assert_eq!(
        l,
        AttribLayout {
            location: 1,
            components: 4,
            component_type: gl::UNSIGNED_INT_2_10_10_10_REV,
            normalized: true,
            stride: 16,
            offset: 12,
        }
    );
}

#[test]
fn float_attribute_layout() {
    let l = AttribLayout::new(AttribKind::Float3, 16, 0, 0);
    assert_eq!(l.components, 3);
    assert_eq!(l.component_type, gl::FLOAT);
    assert!(!l.normalized);
    assert_eq!(AttribKind::Float3.byte_size(), 12);
    assert_eq!(AttribKind::Packed2101010.byte_size(), 4);
}

#[test]
fn signed_fields_are_twos_complement() {
    let v = i2_i10_i10_i10_rev_float::from_fields(-1, -512, 511, -2);
    assert_eq!(v.raw_value(), 1023 | (512 << 10) | (511 << 20) | (2 << 30));
    assert_eq!((v.x(), v.y(), v.z(), v.w()), (-1, -512, 511, -2));
}

#[test]
fn signed_fields_are_clamped() {
    let v = i2_i10_i10_i10_rev_float::from_fields(-9000, 600, 0, 5);
    assert_eq!((v.x(), v.y(), v.z(), v.w()), (-512, 511, 0, 1));
}

#[test]
fn signed_decode_then_encode_gives_the_word_back() {
    for bits in [0u32, 0x3FF, 0x200, 0x1234_5678, 0xDEAD_BEEF, 0xFFFF_FFFF] {
        let v = i2_i10_i10_i10_rev_float::from_raw(bits);
        let again = i2_i10_i10_i10_rev_float::from_fields(v.x(), v.y(), v.z(), v.w());
        assert_eq!(again.raw_value(), bits);
    }
}

#[test]
fn signed_packed_attribute_layout() {
    let l = i2_i10_i10_i10_rev_float::vertex_attrib_pointer(4, 2, 0);
    assert_eq!(l.component_type, gl::INT_2_10_10_10_REV);
    assert_eq!(l.components, 4);
    assert!(l.normalized);
    assert_eq!(AttribKind::SignedPacked2101010.byte_size(), 4);
}

use radar_egui::pointcloud::pcd_loader::{
    analyze_schema, declared_capacity, packed_color, ColorSource, PcdDataKind, PcdEncoding,
    PcdFieldSpec, PcdValueKind,
};

fn fields(names: &str, kinds: &[PcdValueKind], counts: &[u64]) -> Vec<PcdFieldSpec> {
    names
        .split_whitespace()
        .zip(kinds.iter().zip(counts.iter()))
        .map(|(name, (kind, count))| PcdFieldSpec { name: name.to_owned(), kind: *kind, count: *count })
        .collect()
}

fn floats(n: usize) -> Vec<PcdValueKind> {
    vec![PcdValueKind::F32; n]
}

#[test]
fn xyz_schema_falls_back_to_height_colors() {
    let schema = analyze_schema(PcdDataKind::Ascii, 3, &fields("x y z", &floats(3), &[1, 1, 1])).unwrap();
    assert_eq!(schema.encoding, PcdEncoding::Ascii);
    assert_eq!(schema.declared_points, 3);
    assert_eq!((schema.x, schema.y, schema.z), (0, 1, 2));
    assert_eq!(schema.color, ColorSource::Height);
    assert!(schema.color.uses_fallback_values());
}

#[test]
fn ignores_padding_fields_when_mapping_schema_indices() {
    let kinds = [
        PcdValueKind::F32,
        PcdValueKind::U8,
        PcdValueKind::F32,
        PcdValueKind::F32,
        PcdValueKind::U8,
        PcdValueKind::U8,
        PcdValueKind::U8,
    ];
    let schema =
        analyze_schema(PcdDataKind::Ascii, 1, &fields("x _ y z r g b", &kinds, &[1, 4, 1, 1, 1, 1, 1])).unwrap();
    assert_eq!((schema.x, schema.y, schema.z), (0, 1, 2));
    assert_eq!(schema.color, ColorSource::Separate { r: 3, g: 4, b: 5, a: None });
}

#[test]
fn applies_color_source_priority_on_colliding_schemas() {
    let u32s = |n| vec![PcdValueKind::U32; n];
    let cases = [
        ("x y z rgba rgb r g b intensity", ColorSource::Packed { index: 3, alpha: true }),
        ("x y z rgb r g b intensity", ColorSource::Packed { index: 3, alpha: false }),
        ("x y z r g b intensity", ColorSource::Separate { r: 3, g: 4, b: 5, a: None }),
        ("x y z intensity", ColorSource::Intensity(3)),
        ("x y z", ColorSource::Height),
    ];
    for (names, expected) in cases {
        let n = names.split_whitespace().count();
        let schema = analyze_schema(PcdDataKind::Ascii, 1, &fields(names, &u32s(n), &vec![1; n])).unwrap();
        assert_eq!(schema.color, expected, "schema {names} selected the wrong color source");
    }
}

#[test]
fn separate_channels_pick_up_an_optional_alpha() {
    let n = 7;
    let schema = analyze_schema(
        PcdDataKind::Binary,
        1,
        &fields("x y z r g b a", &vec![PcdValueKind::U16; n], &vec![1; n]),
    )
    .unwrap();
    assert_eq!(schema.encoding, PcdEncoding::Binary);
    assert_eq!(schema.color, ColorSource::Separate { r: 3, g: 4, b: 5, a: Some(6) });
}

#[test]
fn rejects_missing_xyz_and_reports_discovered_fields() {
    let error = analyze_schema(
        PcdDataKind::Ascii,
        1,
        &fields("x y intensity", &[PcdValueKind::F32, PcdValueKind::F32, PcdValueKind::U16], &[1, 1, 1]),
    )
    .unwrap_err();
    assert!(error.message().contains("required fields x, y, z"));
    assert!(error.message().contains("x, y, intensity"));
}

#[test]
fn rejects_binary_compressed_explicitly() {
    let error = analyze_schema(PcdDataKind::BinaryCompressed, 1, &fields("x y z", &floats(3), &[1, 1, 1]))
        .unwrap_err();
    assert!(error.message().contains("binary_compressed"));
    assert!(error.message().contains("unsupported"));
}

#[test]
fn rejects_ascii_packed_f32_rgba_that_cannot_preserve_nan_payload_bits() {
    let error = analyze_schema(PcdDataKind::Ascii, 1, &fields("x y z rgba", &floats(4), &[1, 1, 1, 1]))
        .unwrap_err();
    let text = error.message();
    assert!(text.contains("ASCII"));
    assert!(text.contains("rgba"));
    assert!(text.contains("U32 or I32"));
    assert!(text.contains("binary"));
    assert!(analyze_schema(PcdDataKind::Binary, 1, &fields("x y z rgba", &floats(4), &[1, 1, 1, 1])).is_ok());
}

#[test]
fn rejects_vector_position_and_color_fields() {
    let error = analyze_schema(PcdDataKind::Ascii, 1, &fields("x y z", &floats(3), &[1, 3, 1])).unwrap_err();
    assert_eq!(error.message(), "field y must be scalar, found count 3");
    let error = analyze_schema(
        PcdDataKind::Ascii,
        1,
        &fields("x y z rgb", &[PcdValueKind::F32, PcdValueKind::F32, PcdValueKind::F32, PcdValueKind::U32], &[1, 1, 1, 2]),
    )
    .unwrap_err();
    assert_eq!(error.message(), "field rgb must be scalar, found count 2");
}

#[test]
fn decodes_ascii_packed_integer_rgb_and_rgba_bit_patterns() {
    let packed = 0x80_0A_14_1E_u32;
    assert_eq!(packed_color(Some(packed), false, 3).unwrap(), [10, 20, 30, 255]);
    assert_eq!(packed_color(Some(packed), true, 3).unwrap(), [10, 20, 30, 128]);
}

#[test]
fn packed_color_of_a_wide_field_is_an_error() {
    let error = packed_color(None, true, 4).unwrap_err();
    assert_eq!(error.message(), "packed color field at schema index 4 must be scalar F32, U32, or I32");
}

#[test]
fn declared_capacity_fits_the_platform() {
    assert_eq!(declared_capacity(100).unwrap(), 100);
}

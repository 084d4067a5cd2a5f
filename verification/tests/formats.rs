//! Tests for the format metadata tables: texture formats, vertex formats and
//! their derived properties.

use wgpu_types::texture::{TextureComponentType, TextureFormat};
use wgpu_types::vertex::VertexFormat;

#[test]
fn texture_format_tags_are_fixed() {
    assert_eq!(TextureFormat::R8Unorm.tag(), 0);
    assert_eq!(TextureFormat::R8Snorm.tag(), 1);
    assert_eq!(TextureFormat::R8Uint.tag(), 2);
    assert_eq!(TextureFormat::R8Sint.tag(), 3);
    assert_eq!(TextureFormat::R16Uint.tag(), 4);
    assert_eq!(TextureFormat::Rg8Unorm.tag(), 7);
    assert_eq!(TextureFormat::R32Uint.tag(), 11);
    assert_eq!(TextureFormat::Rgba8Unorm.tag(), 17);
    assert_eq!(TextureFormat::Bgra8Unorm.tag(), 22);
    assert_eq!(TextureFormat::Bgra8UnormSrgb.tag(), 23);
    assert_eq!(TextureFormat::Rgb10a2Unorm.tag(), 24);
    assert_eq!(TextureFormat::Rg11b10Float.tag(), 25);
    assert_eq!(TextureFormat::Rgba32Float.tag(), 34);
    assert_eq!(TextureFormat::Depth32Float.tag(), 35);
    assert_eq!(TextureFormat::Depth24Plus.tag(), 36);
    assert_eq!(TextureFormat::Depth24PlusStencil8.tag(), 37);
}

#[test]
fn texture_format_tags_round_trip_and_are_dense() {
    for t in 0u16..38 {
        let f = TextureFormat::from_tag(t).expect("every tag below 38 names a format");
        assert_eq!(f.tag(), t);
    }
    assert_eq!(TextureFormat::from_tag(38), None);
    assert_eq!(TextureFormat::from_tag(u16::MAX), None);
}

#[test]
fn component_type_is_total_and_pure() {
    // Walk the whole enumeration through its dense tags: every format maps
    // to a component type, and a second call gives the same answer.
    for t in 0u16..38 {
        let f = TextureFormat::from_tag(t).unwrap();
        let once = TextureComponentType::from(f);
        let twice = TextureComponentType::from(f);
        assert_eq!(once, twice);
        assert!(matches!(
            once,
            TextureComponentType::Float | TextureComponentType::Sint | TextureComponentType::Uint
        ));
    }
}

#[test]
fn component_type_table_spot_checks() {
    assert_eq!(TextureComponentType::from(TextureFormat::R8Unorm), TextureComponentType::Float);
    assert_eq!(TextureComponentType::from(TextureFormat::R8Uint), TextureComponentType::Uint);
    assert_eq!(TextureComponentType::from(TextureFormat::R8Sint), TextureComponentType::Sint);
    assert_eq!(TextureComponentType::from(TextureFormat::Rg16Float), TextureComponentType::Float);
    assert_eq!(TextureComponentType::from(TextureFormat::Rgba32Uint), TextureComponentType::Uint);
    assert_eq!(TextureComponentType::from(TextureFormat::Rgba16Sint), TextureComponentType::Sint);
    assert_eq!(
        TextureComponentType::from(TextureFormat::Depth24PlusStencil8),
        TextureComponentType::Float
    );
}

#[test]
fn component_type_compatibility() {
    assert!(TextureComponentType::Float.is_compatible_with(TextureFormat::Rgba8Unorm));
    assert!(!TextureComponentType::Uint.is_compatible_with(TextureFormat::Rgba8Unorm));
    assert!(TextureComponentType::Uint.is_compatible_with(TextureFormat::Rgba8Uint));
    assert!(!TextureComponentType::Sint.is_compatible_with(TextureFormat::Rgba8Uint));
}

#[test]
fn vertex_format_tags_round_trip_and_are_dense() {
    for t in 0u8..30 {
        let f = VertexFormat::from_tag(t).expect("every tag below 30 names a format");
        assert_eq!(f.tag(), t);
    }
    assert_eq!(VertexFormat::from_tag(30), None);
    assert_eq!(VertexFormat::Uchar2.tag(), 0);
    assert_eq!(VertexFormat::Half2.tag(), 16);
    assert_eq!(VertexFormat::Float.tag(), 18);
    assert_eq!(VertexFormat::Int4.tag(), 29);
}

#[test]
fn vertex_format_sizes_exact() {
    assert_eq!(VertexFormat::Uchar2.size(), 2);
    assert_eq!(VertexFormat::Char2Norm.size(), 2);
    assert_eq!(VertexFormat::Uchar4.size(), 4);
    assert_eq!(VertexFormat::Ushort2.size(), 4);
    assert_eq!(VertexFormat::Half2.size(), 4);
    assert_eq!(VertexFormat::Float.size(), 4);
    assert_eq!(VertexFormat::Uint.size(), 4);
    assert_eq!(VertexFormat::Short4.size(), 8);
    assert_eq!(VertexFormat::Half4.size(), 8);
    assert_eq!(VertexFormat::Float2.size(), 8);
    assert_eq!(VertexFormat::Float3.size(), 12);
    assert_eq!(VertexFormat::Uint3.size(), 12);
    assert_eq!(VertexFormat::Float4.size(), 16);
    assert_eq!(VertexFormat::Int4.size(), 16);
}

#[test]
fn vertex_format_size_is_total_and_in_range() {
    for t in 0u8..30 {
        let f = VertexFormat::from_tag(t).unwrap();
        let s = f.size();
        assert!([2, 4, 8, 12, 16].contains(&s), "unexpected size {} for tag {}", s, t);
    }
}

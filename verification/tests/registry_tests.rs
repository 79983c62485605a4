use dynwinrt::registry::{PrimitiveType, TypeRegistry};

#[test]
fn bind_gen_test() {}

#[test]
fn use_bindings() {}

#[test]
fn primitive_sizes() {
    let reg = TypeRegistry::new();
    let f32_h = reg.primitive(PrimitiveType::F32);
    let f64_h = reg.primitive(PrimitiveType::F64);
    let i32_h = reg.primitive(PrimitiveType::I32);
    let u8_h = reg.primitive(PrimitiveType::U8);

    assert_eq!(f32_h.size_of(), 4);
    assert_eq!(f64_h.size_of(), 8);
    assert_eq!(i32_h.size_of(), 4);
    assert_eq!(u8_h.size_of(), 1);

    assert_eq!(f32_h.align_of(), 4);
    assert_eq!(f64_h.align_of(), 8);
}

#[test]
fn point_layout() {
    let mut reg = TypeRegistry::new();
    let f32_h = reg.primitive(PrimitiveType::F32);
    let point = reg.define_struct(&[f32_h.clone(), f32_h]);

    assert_eq!(point.size_of(), 8);
    assert_eq!(point.align_of(), 4);
    assert_eq!(point.field_count(), 2);
    assert_eq!(point.field_offset(0), 0);
    assert_eq!(point.field_offset(1), 4);
}

#[test]
fn rect_layout() {
    let mut reg = TypeRegistry::new();
    let f32_h = reg.primitive(PrimitiveType::F32);
    let rect = reg.define_struct(&[f32_h.clone(), f32_h.clone(), f32_h.clone(), f32_h]);

    assert_eq!(rect.size_of(), 16);
    assert_eq!(rect.align_of(), 4);
    assert_eq!(rect.field_offset(0), 0);
    assert_eq!(rect.field_offset(1), 4);
    assert_eq!(rect.field_offset(2), 8);
    assert_eq!(rect.field_offset(3), 12);
}

#[test]
fn basic_geoposition_layout() {
    let mut reg = TypeRegistry::new();
    let f64_h = reg.primitive(PrimitiveType::F64);
    let geo = reg.define_struct(&[f64_h.clone(), f64_h.clone(), f64_h]);

    assert_eq!(geo.size_of(), 24);
    assert_eq!(geo.align_of(), 8);
    assert_eq!(geo.field_offset(0), 0);
    assert_eq!(geo.field_offset(1), 8);
    assert_eq!(geo.field_offset(2), 16);
}

#[test]
fn mixed_field_alignment() {
    let mut reg = TypeRegistry::new();
    let u8_h = reg.primitive(PrimitiveType::U8);
    let i32_h = reg.primitive(PrimitiveType::I32);
    let s = reg.define_struct(&[u8_h.clone(), i32_h, u8_h]);

    assert_eq!(s.size_of(), 12);
    assert_eq!(s.align_of(), 4);
    assert_eq!(s.field_offset(0), 0);
    assert_eq!(s.field_offset(1), 4);
    assert_eq!(s.field_offset(2), 8);
}

#[test]
fn nested_struct_layout() {
    let mut reg = TypeRegistry::new();
    let f32_h = reg.primitive(PrimitiveType::F32);
    let f64_h = reg.primitive(PrimitiveType::F64);
    let inner = reg.define_struct(&[f32_h.clone(), f32_h]);
    let outer = reg.define_struct(&[inner, f64_h]);

    assert_eq!(outer.size_of(), 16);
    assert_eq!(outer.align_of(), 8);
    assert_eq!(outer.field_offset(0), 0);
    assert_eq!(outer.field_offset(1), 8);
}

#[test]
fn value_type_data_field_access() {
    let mut reg = TypeRegistry::new();
    let f32_h = reg.primitive(PrimitiveType::F32);
    let point = reg.define_struct(&[f32_h.clone(), f32_h]);

    let mut val = point.default_value();
    val.set_field(0, &10.0f32.to_ne_bytes());
    val.set_field(1, &20.0f32.to_ne_bytes());

    assert_eq!(f32::from_ne_bytes(val.get_field(0).try_into().unwrap()), 10.0);
    assert_eq!(f32::from_ne_bytes(val.get_field(1).try_into().unwrap()), 20.0);
}

#[test]
fn value_type_data_clone() {
    let mut reg = TypeRegistry::new();
    let f64_h = reg.primitive(PrimitiveType::F64);
    let geo = reg.define_struct(&[f64_h.clone(), f64_h.clone(), f64_h]);

    let mut val = geo.default_value();
    val.set_field(0, &47.6f64.to_ne_bytes());
    val.set_field(1, &(-122.3f64).to_ne_bytes());
    val.set_field(2, &100.0f64.to_ne_bytes());

    let cloned = val.clone();
    assert_eq!(f64::from_ne_bytes(cloned.get_field(0).try_into().unwrap()), 47.6);
    assert_eq!(f64::from_ne_bytes(cloned.get_field(1).try_into().unwrap()), -122.3);
    assert_eq!(f64::from_ne_bytes(cloned.get_field(2).try_into().unwrap()), 100.0);

    val.set_field(0, &0.0f64.to_ne_bytes());
    assert_eq!(f64::from_ne_bytes(cloned.get_field(0).try_into().unwrap()), 47.6);
}

#[test]
fn value_type_matches_windows_point_layout() {
    let mut reg = TypeRegistry::new();
    let f32_h = reg.primitive(PrimitiveType::F32);
    let point = reg.define_struct(&[f32_h.clone(), f32_h]);

    assert_eq!(point.size_of(), std::mem::size_of::<[f32; 2]>());
    assert_eq!(point.align_of(), std::mem::align_of::<[f32; 2]>());

    let mut val = point.default_value();
    val.set_field(0, &10.0f32.to_ne_bytes());
    val.set_field(1, &20.0f32.to_ne_bytes());

    let bytes = val.as_bytes();
    let x = f32::from_ne_bytes(bytes[0..4].try_into().unwrap());
    let y = f32::from_ne_bytes(bytes[4..8].try_into().unwrap());
    assert_eq!(x, 10.0);
    assert_eq!(y, 20.0);
}

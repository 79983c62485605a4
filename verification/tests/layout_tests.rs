use dynwinrt::abi::FfiType;
use dynwinrt::layout::align_up;
use libffi::middle::Type;
use dynwinrt::registry::{PrimitiveType, TypeHandle, TypeRegistry};

#[test]
fn align_up_values() {
    assert_eq!(align_up(0, 1), 0);
    assert_eq!(align_up(0, 8), 0);
    assert_eq!(align_up(1, 8), 8);
    assert_eq!(align_up(7, 8), 8);
    assert_eq!(align_up(8, 8), 8);
    assert_eq!(align_up(9, 8), 16);
    assert_eq!(align_up(5, 4), 8);
    assert_eq!(align_up(5, 2), 6);
    assert_eq!(align_up(5, 1), 5);
    assert_eq!(align_up(10, 3), 12);
}

#[test]
fn sizes_of_all_primitives() {
    let cases = [
        (PrimitiveType::Bool, 1),
        (PrimitiveType::U8, 1),
        (PrimitiveType::I16, 2),
        (PrimitiveType::U16, 2),
        (PrimitiveType::I32, 4),
        (PrimitiveType::U32, 4),
        (PrimitiveType::F32, 4),
        (PrimitiveType::I64, 8),
        (PrimitiveType::U64, 8),
        (PrimitiveType::F64, 8),
    ];
    let reg = TypeRegistry::new();
    for (p, size) in cases {
        assert_eq!(p.size_of(), size);
        assert_eq!(p.align_of(), size);
        let h = reg.primitive(p);
        assert_eq!(h.size_of(), size);
        assert_eq!(h.align_of(), size);
        assert_eq!(h.layout().size(), size);
        assert_eq!(h.layout().align(), size);
        assert_eq!(h.default_value().as_bytes().len(), size);
    }
}

#[test]
fn empty_struct_layout() {
    let mut reg = TypeRegistry::new();
    let empty = reg.define_struct(&[]);
    assert_eq!(empty.size_of(), 0);
    assert_eq!(empty.align_of(), 1);
    assert_eq!(empty.field_count(), 0);
    assert_eq!(empty.default_value().as_bytes(), &Vec::<u8>::new());
}

#[test]
fn tail_padding_and_descending_fields() {
    let mut reg = TypeRegistry::new();
    let u8_h = reg.primitive(PrimitiveType::U8);
    let u16_h = reg.primitive(PrimitiveType::U16);
    let u64_h = reg.primitive(PrimitiveType::U64);
    let s = reg.define_struct(&[u64_h.clone(), u16_h.clone(), u8_h.clone()]);
    assert_eq!(s.field_offset(0), 0);
    assert_eq!(s.field_offset(1), 8);
    assert_eq!(s.field_offset(2), 10);
    assert_eq!(s.size_of(), 16);
    assert_eq!(s.align_of(), 8);
    let t = reg.define_struct(&[u8_h, u16_h, u64_h]);
    assert_eq!(t.field_offset(0), 0);
    assert_eq!(t.field_offset(1), 2);
    assert_eq!(t.field_offset(2), 8);
    assert_eq!(t.size_of(), 16);
    assert_eq!(t.layout().size(), 16);
    assert_eq!(t.layout().align(), 8);
}

#[test]
fn nested_struct_keeps_inner_alignment() {
    let mut reg = TypeRegistry::new();
    let u8_h = reg.primitive(PrimitiveType::U8);
    let i32_h = reg.primitive(PrimitiveType::I32);
    let inner = reg.define_struct(&[u8_h.clone(), i32_h]);
    assert_eq!(inner.size_of(), 8);
    let outer = reg.define_struct(&[u8_h.clone(), inner.clone(), u8_h]);
    assert_eq!(outer.field_offset(0), 0);
    assert_eq!(outer.field_offset(1), 4);
    assert_eq!(outer.field_offset(2), 12);
    assert_eq!(outer.size_of(), 16);
    assert_eq!(outer.align_of(), 4);
    let field: TypeHandle = outer.field_type(1);
    assert_eq!(field.size_of(), 8);
    assert_eq!(field.field_count(), 2);
    assert_eq!(field.field_offset(1), 4);
    assert_eq!(outer.field_type(0).size_of(), 1);
}

#[test]
fn queries_stay_the_same_as_the_registry_grows() {
    let mut reg = TypeRegistry::new();
    let f32_h = reg.primitive(PrimitiveType::F32);
    let point = reg.define_struct(&[f32_h.clone(), f32_h.clone()]);
    let before = (point.size_of(), point.align_of(), point.field_offset(0), point.field_offset(1));
    for _ in 0..5 {
        let _ = reg.define_struct(&[point.clone(), f32_h.clone()]);
        let again = (point.size_of(), point.align_of(), point.field_offset(0), point.field_offset(1));
        assert_eq!(before, again);
    }
    let copy = point.clone();
    assert_eq!(copy.size_of(), 8);
    assert_eq!(copy.field_count(), 2);
}

#[test]
fn default_value_is_zeroed_and_fields_are_independent() {
    let mut reg = TypeRegistry::new();
    let u8_h = reg.primitive(PrimitiveType::U8);
    let i32_h = reg.primitive(PrimitiveType::I32);
    let s = reg.define_struct(&[u8_h.clone(), i32_h, u8_h]);
    let mut v = s.default_value();
    assert_eq!(v.as_bytes(), &vec![0u8; 12]);
    v.set_field(1, &[1, 2, 3, 4]);
    v.set_field(2, &[9]);
    assert_eq!(v.as_bytes(), &vec![0, 0, 0, 0, 1, 2, 3, 4, 9, 0, 0, 0]);
    assert_eq!(v.get_field(0), vec![0]);
    assert_eq!(v.get_field(1), vec![1, 2, 3, 4]);
    assert_eq!(v.get_field(2), vec![9]);
    v.set_field(0, &[7]);
    assert_eq!(v.get_field(1), vec![1, 2, 3, 4]);
    assert_eq!(v.as_bytes()[0], 7);
}

#[test]
fn geoposition_value_round_trips() {
    let mut reg = TypeRegistry::new();
    let f64_h = reg.primitive(PrimitiveType::F64);
    let geo = reg.define_struct(&[f64_h.clone(), f64_h.clone(), f64_h]);
    let mut v = geo.default_value();
    v.set_field(0, &47.643f64.to_ne_bytes());
    v.set_field(1, &(-122.131f64).to_ne_bytes());
    v.set_field(2, &100.0f64.to_ne_bytes());
    let read = |i: usize| f64::from_ne_bytes(v.get_field(i).try_into().unwrap());
    assert_eq!(read(0), 47.643);
    assert_eq!(read(1), -122.131);
    assert_eq!(read(2), 100.0);
    assert_eq!(v.as_bytes().len(), 24);
}

fn native_type(t: &FfiType) -> Type {
    match t {
        FfiType::U8 => Type::u8(),
        FfiType::I8 => Type::i8(),
        FfiType::U16 => Type::u16(),
        FfiType::I16 => Type::i16(),
        FfiType::U32 => Type::u32(),
        FfiType::I32 => Type::i32(),
        FfiType::U64 => Type::u64(),
        FfiType::I64 => Type::i64(),
        FfiType::F32 => Type::f32(),
        FfiType::F64 => Type::f64(),
        FfiType::Pointer => Type::pointer(),
        FfiType::Structure(fields) => Type::structure(fields.iter().map(native_type).collect::<Vec<_>>()),
    }
}

fn assert_matches_native_layout(handle: &TypeHandle) {
    let mut native = native_type(&handle.libffi_type());
    let offsets = native.struct_offsets(libffi::low::ffi_abi_FFI_DEFAULT_ABI).unwrap();
    assert_eq!(offsets.len(), handle.field_count());
    for (i, offset) in offsets.iter().enumerate() {
        assert_eq!(handle.field_offset(i), *offset);
    }
}

#[test]
fn layouts_match_the_native_layout_of_the_foreign_call_layer() {
    let mut reg = TypeRegistry::new();
    let u8_h = reg.primitive(PrimitiveType::U8);
    let u16_h = reg.primitive(PrimitiveType::U16);
    let i32_h = reg.primitive(PrimitiveType::I32);
    let f32_h = reg.primitive(PrimitiveType::F32);
    let f64_h = reg.primitive(PrimitiveType::F64);
    let u64_h = reg.primitive(PrimitiveType::U64);
    let bool_h = reg.primitive(PrimitiveType::Bool);

    let point = reg.define_struct(&[f32_h.clone(), f32_h.clone()]);
    let rect = reg.define_struct(&[f32_h.clone(), f32_h.clone(), f32_h.clone(), f32_h.clone()]);
    let geo = reg.define_struct(&[f64_h.clone(), f64_h.clone(), f64_h.clone()]);
    let mixed = reg.define_struct(&[u8_h.clone(), i32_h.clone(), u8_h.clone()]);
    let nested = reg.define_struct(&[point.clone(), f64_h.clone()]);
    let deep = reg.define_struct(&[bool_h, mixed.clone(), u16_h, nested.clone(), u8_h, u64_h]);
    for handle in [&point, &rect, &geo, &mixed, &nested, &deep] {
        assert_matches_native_layout(handle);
    }
}

#[test]
fn handles_know_whether_they_have_fields() {
    let mut reg = TypeRegistry::new();
    let u8_h = reg.primitive(PrimitiveType::U8);
    assert!(!u8_h.has_fields());
    let s = reg.define_struct(&[u8_h]);
    assert!(s.has_fields());
    let v = s.default_value();
    assert!(v.handle().has_fields());
    assert_eq!(v.handle().size_of(), 1);
}

#[test]
fn try_define_struct_registers_what_fits() {
    let mut reg = TypeRegistry::new();
    let u8_h = reg.primitive(PrimitiveType::U8);
    let i32_h = reg.primitive(PrimitiveType::I32);
    assert_eq!(reg.struct_count(), 0);
    let s = reg.try_define_struct(&[u8_h.clone(), i32_h, u8_h]).unwrap();
    assert_eq!(reg.struct_count(), 1);
    assert_eq!(s.size_of(), 12);
    assert_eq!(s.align_of(), 4);
    assert_eq!(s.field_offset(0), 0);
    assert_eq!(s.field_offset(1), 4);
    assert_eq!(s.field_offset(2), 8);
    let empty = reg.try_define_struct(&[]).unwrap();
    assert_eq!(reg.struct_count(), 2);
    assert_eq!(empty.size_of(), 0);
}

#[test]
fn try_define_struct_refuses_what_is_too_large() {
    let mut reg = TypeRegistry::new();
    let u64_h = reg.primitive(PrimitiveType::U64);
    let mut last = reg.define_struct(&[u64_h.clone()]);
    let mut doublings = 0;
    loop {
        match reg.try_define_struct(&[last.clone(), last.clone()]) {
            Some(next) => {
                assert_eq!(next.size_of(), 2 * last.size_of());
                last = next;
                doublings += 1;
            }
            None => break,
        }
    }
    // 8 bytes doubled until the next doubling would pass the largest size
    assert_eq!(last.size_of(), 1usize << (usize::BITS - 2));
    assert_eq!(doublings, usize::BITS as usize - 2 - 3);
    let count = reg.struct_count();
    assert!(reg.try_define_struct(&[last.clone(), last.clone()]).is_none());
    assert!(reg.try_define_struct(&[last.clone(), u64_h.clone(), last.clone()]).is_none());
    assert_eq!(reg.struct_count(), count);
    // what fits is still registered afterwards
    let small = reg.try_define_struct(&[u64_h.clone(), u64_h]).unwrap();
    assert_eq!(small.size_of(), 16);
    assert_eq!(reg.struct_count(), count + 1);
    assert_eq!(last.size_of(), 1usize << (usize::BITS - 2));
}

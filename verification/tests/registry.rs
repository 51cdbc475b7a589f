use numpy_bridge::dtype::identifier_for;
use numpy_bridge::dtype::width_of;
use numpy_bridge::ElementKind;
use numpy_bridge::Float32Bits;
use numpy_bridge::Float64Bits;
use numpy_bridge::NumpyDtype;

fn all_kinds() -> Vec<ElementKind> {
    vec![
        ElementKind::Uint16,
        ElementKind::Int16,
        ElementKind::Uint32,
        ElementKind::Int32,
        ElementKind::Float32,
        ElementKind::Uint64,
        ElementKind::Int64,
        ElementKind::Float64,
    ]
}

#[test]
fn every_kind_has_its_numpy_name() {
    assert_eq!(identifier_for(ElementKind::Uint16), "uint16");
    assert_eq!(identifier_for(ElementKind::Int16), "int16");
    assert_eq!(identifier_for(ElementKind::Uint32), "uint32");
    assert_eq!(identifier_for(ElementKind::Int32), "int32");
    assert_eq!(identifier_for(ElementKind::Float32), "float32");
    assert_eq!(identifier_for(ElementKind::Uint64), "uint64");
    assert_eq!(identifier_for(ElementKind::Int64), "int64");
    assert_eq!(identifier_for(ElementKind::Float64), "float64");
}

#[test]
fn every_kind_has_its_width() {
    assert_eq!(width_of(ElementKind::Uint16), 2);
    assert_eq!(width_of(ElementKind::Int16), 2);
    assert_eq!(width_of(ElementKind::Uint32), 4);
    assert_eq!(width_of(ElementKind::Int32), 4);
    assert_eq!(width_of(ElementKind::Float32), 4);
    assert_eq!(width_of(ElementKind::Uint64), 8);
    assert_eq!(width_of(ElementKind::Int64), 8);
    assert_eq!(width_of(ElementKind::Float64), 8);
}

#[test]
fn no_name_is_shared_and_none_is_empty() {
    let kinds = all_kinds();
    for a in &kinds {
        assert!(!identifier_for(*a).is_empty());
        for b in &kinds {
            assert_eq!(identifier_for(*a) == identifier_for(*b), a == b);
        }
    }
}

#[test]
fn host_types_carry_the_registered_name() {
    assert_eq!(<u16 as NumpyDtype>::DTYPE, "uint16");
    assert_eq!(<i16 as NumpyDtype>::DTYPE, "int16");
    assert_eq!(<u32 as NumpyDtype>::DTYPE, "uint32");
    assert_eq!(<i32 as NumpyDtype>::DTYPE, "int32");
    assert_eq!(<Float32Bits as NumpyDtype>::DTYPE, "float32");
    assert_eq!(<u64 as NumpyDtype>::DTYPE, "uint64");
    assert_eq!(<i64 as NumpyDtype>::DTYPE, "int64");
    assert_eq!(<Float64Bits as NumpyDtype>::DTYPE, "float64");
}

#[test]
fn host_types_name_their_kind() {
    assert_eq!(u16::element_kind(), ElementKind::Uint16);
    assert_eq!(i16::element_kind(), ElementKind::Int16);
    assert_eq!(u32::element_kind(), ElementKind::Uint32);
    assert_eq!(i32::element_kind(), ElementKind::Int32);
    assert_eq!(Float32Bits::element_kind(), ElementKind::Float32);
    assert_eq!(u64::element_kind(), ElementKind::Uint64);
    assert_eq!(i64::element_kind(), ElementKind::Int64);
    assert_eq!(Float64Bits::element_kind(), ElementKind::Float64);
    assert_eq!(identifier_for(u32::element_kind()), <u32 as NumpyDtype>::DTYPE);
    assert_eq!(identifier_for(Float64Bits::element_kind()), <Float64Bits as NumpyDtype>::DTYPE);
}

#[test]
fn unsigned_elements_are_their_own_pattern() {
    assert_eq!(0u16.bits(), 0);
    assert_eq!(u16::MAX.bits(), 0xffff);
    assert_eq!(0xdead_beefu32.bits(), 0xdead_beef);
    assert_eq!(u64::MAX.bits(), u64::MAX);
}

#[test]
fn signed_elements_use_twos_complement() {
    assert_eq!(1i16.bits(), 1);
    assert_eq!((-1i16).bits(), 0xffff);
    assert_eq!(i16::MIN.bits(), 0x8000);
    assert_eq!(i16::MAX.bits(), 0x7fff);
    assert_eq!((-2i32).bits(), 0xffff_fffe);
    assert_eq!(i32::MIN.bits(), 0x8000_0000);
    assert_eq!((-1i64).bits(), u64::MAX);
    assert_eq!(i64::MIN.bits(), 0x8000_0000_0000_0000);
    assert_eq!(i64::MAX.bits(), 0x7fff_ffff_ffff_ffff);
}

#[test]
fn float_elements_are_their_ieee_pattern() {
    assert_eq!(Float32Bits(1.0f32.to_bits()).bits(), 0x3f80_0000);
    assert_eq!(Float32Bits((-2.5f32).to_bits()).bits(), 0xc020_0000);
    assert_eq!(Float64Bits(1.0f64.to_bits()).bits(), 0x3ff0_0000_0000_0000);
    assert_eq!(Float64Bits(f64::NEG_INFINITY.to_bits()).bits(), 0xfff0_0000_0000_0000);
}

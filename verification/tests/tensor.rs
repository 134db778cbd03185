//! Tests for the element-type tag mapping, metadata snapshots, and byte
//! encodings.

use tfmicro::encode_all;
use tfmicro::ElementType;
use tfmicro::Error;
use tfmicro::OpCode;
use tfmicro::TensorInfo;

#[test]
fn supported_tags_map_to_element_types() {
    assert_eq!(ElementType::from_tag(1).unwrap(), ElementType::Float32);
    assert_eq!(ElementType::from_tag(2).unwrap(), ElementType::Int32);
    assert_eq!(ElementType::from_tag(3).unwrap(), ElementType::UInt8);
    assert_eq!(ElementType::from_tag(6).unwrap(), ElementType::Bool);
    assert_eq!(ElementType::from_tag(7).unwrap(), ElementType::Int16);
    assert_eq!(ElementType::from_tag(9).unwrap(), ElementType::Int8);
}

#[test]
fn unsupported_tags_are_rejected() {
    for tag in [0u32, 4, 5, 8, 10, 11, 42, 255, u32::MAX] {
        assert_eq!(ElementType::from_tag(tag).unwrap_err(), Error::ElementTypeUnimplemented);
    }
}

#[test]
fn element_byte_sizes() {
    assert_eq!(ElementType::Float32.byte_size(), 4);
    assert_eq!(ElementType::Int32.byte_size(), 4);
    assert_eq!(ElementType::UInt8.byte_size(), 1);
    assert_eq!(ElementType::Bool.byte_size(), 1);
    assert_eq!(ElementType::Int16.byte_size(), 2);
    assert_eq!(ElementType::Int8.byte_size(), 1);
}

#[test]
fn tensor_info_try_from_checks_the_tag() {
    let dims = [1i32, 1960];
    let info = TensorInfo::try_from(9, &dims).unwrap();
    assert_eq!(info.element_type, ElementType::Int8);
    assert_eq!([1, 1960], info.dims);

    assert_eq!(TensorInfo::try_from(5, &dims).unwrap_err(), Error::ElementTypeUnimplemented);
}

#[test]
fn encoding_is_little_endian() {
    assert_eq!(encode_all::<u8>(&[7, 8]), vec![7u8, 8]);
    assert_eq!(encode_all::<i8>(&[-1, 2]), vec![0xffu8, 2]);
    assert_eq!(encode_all::<bool>(&[true, false]), vec![1u8, 0]);
    assert_eq!(encode_all::<i16>(&[-2]), vec![0xfeu8, 0xff]);
    assert_eq!(encode_all::<i32>(&[1, -1]), vec![1u8, 0, 0, 0, 0xff, 0xff, 0xff, 0xff]);
}

#[test]
fn operator_codes_round_trip() {
    for op in [
        OpCode::Abs,
        OpCode::ArgMax,
        OpCode::Conv2D,
        OpCode::DepthwiseConv2D,
        OpCode::FullyConnected,
        OpCode::Reshape,
        OpCode::Softmax,
        OpCode::ZerosLike,
    ] {
        assert_eq!(OpCode::from_code(op.code()).unwrap(), op);
    }
    assert!(OpCode::from_code(0).is_none());
    assert!(OpCode::from_code(9999).is_none());
}

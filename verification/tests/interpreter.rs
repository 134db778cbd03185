//! End-to-end tests of the interpreter protocol: construction and
//! allocation planning, feeding inputs, invoking, and reading outputs.

use tfmicro::ElementType;
use tfmicro::Error;
use tfmicro::MicroInterpreter;
use tfmicro::Model;
use tfmicro::MutableOpResolver;
use tfmicro::OpCode;
use tfmicro::Status;

fn push_u32(b: &mut Vec<u8>, v: u32) {
    b.extend_from_slice(&v.to_le_bytes());
}

fn push_i32(b: &mut Vec<u8>, v: i32) {
    b.extend_from_slice(&v.to_le_bytes());
}

/// Serializes a model blob: tensors as (element-type tag, dims), operators
/// as (code, input tensor, output tensor), then graph input and output
/// tensor indices.
fn model_blob(
    tensors: &[(u32, &[i32])],
    ops: &[(u32, u32, u32)],
    inputs: &[u32],
    outputs: &[u32],
) -> Vec<u8> {
    let mut b = vec![b'T', b'F', b'L', b'M'];
    push_u32(&mut b, 1);
    push_u32(&mut b, tensors.len() as u32);
    push_u32(&mut b, ops.len() as u32);
    push_u32(&mut b, inputs.len() as u32);
    push_u32(&mut b, outputs.len() as u32);
    for (tag, dims) in tensors {
        push_u32(&mut b, *tag);
        push_u32(&mut b, dims.len() as u32);
        for j in 0..4 {
            push_i32(&mut b, if j < dims.len() { dims[j] } else { 0 });
        }
    }
    for (code, input, output) in ops {
        push_u32(&mut b, *code);
        push_u32(&mut b, *input);
        push_u32(&mut b, *output);
    }
    for idx in inputs {
        push_u32(&mut b, *idx);
    }
    for idx in outputs {
        push_u32(&mut b, *idx);
    }
    b
}

const INT8: u32 = 9;
const INT32: u32 = 2;
const FLOAT32: u32 = 1;

#[test]
fn reshape_reflects_input_in_output() {
    let blob = model_blob(
        &[(INT8, &[4]), (INT8, &[2, 2])],
        &[(OpCode::Reshape.code(), 0, 1)],
        &[0],
        &[1],
    );
    let model = Model::from_buffer(&blob).unwrap();
    let resolver = MutableOpResolver::empty().add_reshape();
    let arena = vec![0u8; 1024];
    let mut interpreter = MicroInterpreter::new(&model, resolver, arena).unwrap();

    let info = interpreter.input_info(0);
    assert_eq!(info.element_type, ElementType::Int8);
    assert_eq!([4], info.dims);

    interpreter.input(0, &[5i8, -3, 7, 1]).unwrap();
    interpreter.invoke().unwrap();

    let out = interpreter.output(0);
    assert_eq!([2, 2], out.info().dims);
    assert_eq!(out.info().element_type, ElementType::Int8);
    assert_eq!(out.as_typed_data::<i8>(), vec![5, -3, 7, 1]);
}

#[test]
fn argmax_selects_dominant_score() {
    let blob = model_blob(
        &[(INT8, &[1, 4]), (INT32, &[1])],
        &[(OpCode::ArgMax.code(), 0, 1)],
        &[0],
        &[1],
    );
    let model = Model::from_buffer(&blob).unwrap();
    let resolver = MutableOpResolver::empty().add_argmax();
    let arena = vec![0u8; 1024];
    let mut interpreter = MicroInterpreter::new(&model, resolver, arena).unwrap();

    // First sample: the third score dominates.
    interpreter.input(0, &[10i8, 20, 90, 30]).unwrap();
    interpreter.invoke().unwrap();
    assert_eq!(interpreter.output(0).as_typed_data::<i32>(), vec![2]);

    // Second sample through the same interpreter: the last dominates.
    interpreter.input(0, &[10i8, 20, 30, 90]).unwrap();
    interpreter.invoke().unwrap();
    assert_eq!(interpreter.output(0).as_typed_data::<i32>(), vec![3]);

    // Ties go to the first maximum.
    interpreter.input(0, &[7i8, 7, 7, 7]).unwrap();
    interpreter.invoke().unwrap();
    assert_eq!(interpreter.output(0).as_typed_data::<i32>(), vec![0]);
}

#[test]
fn abs_saturates_at_the_bottom_of_the_range() {
    let blob = model_blob(
        &[(INT8, &[2, 2]), (INT8, &[4])],
        &[(OpCode::Abs.code(), 0, 1)],
        &[0],
        &[1],
    );
    let model = Model::from_buffer(&blob).unwrap();
    let resolver = MutableOpResolver::empty().add_abs();
    let mut interpreter = MicroInterpreter::new(&model, resolver, vec![0u8; 256]).unwrap();
    interpreter.input(0, &[-5i8, 3, -128, 0]).unwrap();
    interpreter.invoke().unwrap();
    assert_eq!(interpreter.output(0).as_typed_data::<i8>(), vec![5, 3, 127, 0]);
}

#[test]
fn zeros_like_clears_output() {
    let blob = model_blob(
        &[(INT8, &[3]), (INT8, &[3])],
        &[(OpCode::ZerosLike.code(), 0, 1)],
        &[0],
        &[1],
    );
    let model = Model::from_buffer(&blob).unwrap();
    let resolver = MutableOpResolver::empty().add_zeros_like();
    let arena = vec![0xffu8; 256];
    let mut interpreter = MicroInterpreter::new(&model, resolver, arena).unwrap();
    interpreter.input(0, &[1i8, 2, 3]).unwrap();
    interpreter.invoke().unwrap();
    assert_eq!(interpreter.output(0).as_data(), &[0u8, 0, 0]);
}

#[test]
fn arena_sizing_decides_construction() {
    // Two int8 tensors of 100 elements: 112 aligned bytes each.
    let blob = model_blob(
        &[(INT8, &[100]), (INT8, &[100])],
        &[(OpCode::Reshape.code(), 0, 1)],
        &[0],
        &[1],
    );
    let model = Model::from_buffer(&blob).unwrap();

    let too_small = vec![0u8; 223];
    let r = MicroInterpreter::new(&model, MutableOpResolver::empty().add_reshape(), too_small);
    assert_eq!(r.err().unwrap(), Error::AllocateTensorsError);

    let exact = vec![0u8; 224];
    let interpreter =
        MicroInterpreter::new(&model, MutableOpResolver::empty().add_reshape(), exact).unwrap();
    assert_eq!(interpreter.arena_used_bytes(), 224);

    let roomy = vec![0u8; 1000];
    let interpreter =
        MicroInterpreter::new(&model, MutableOpResolver::empty().add_reshape(), roomy).unwrap();
    assert_eq!(interpreter.arena_used_bytes(), 224);
    assert!(interpreter.arena_used_bytes() <= 1000);
}

#[test]
fn input_rejects_wrong_element_count() {
    let blob = model_blob(
        &[(INT8, &[4]), (INT8, &[4])],
        &[(OpCode::Reshape.code(), 0, 1)],
        &[0],
        &[1],
    );
    let model = Model::from_buffer(&blob).unwrap();
    let resolver = MutableOpResolver::empty().add_reshape();
    let mut interpreter = MicroInterpreter::new(&model, resolver, vec![0u8; 256]).unwrap();

    assert_eq!(interpreter.input(0, &[1i8, 2, 3]).unwrap_err(), Error::InputDataLenMismatch);
    assert_eq!(interpreter.input(0, &[1i8, 2, 3, 4, 5]).unwrap_err(), Error::InputDataLenMismatch);
    assert!(interpreter.input(0, &[1i8, 2, 3, 4]).is_ok());
}

#[test]
fn unresolved_operator_fails_allocation() {
    let blob = model_blob(
        &[(INT8, &[4]), (INT8, &[4])],
        &[(OpCode::Reshape.code(), 0, 1)],
        &[0],
        &[1],
    );
    let model = Model::from_buffer(&blob).unwrap();
    // Operators are enabled, but not the one the model needs.
    let resolver = MutableOpResolver::empty().add_softmax().add_fully_connected();
    let r = MicroInterpreter::new(&model, resolver, vec![0u8; 256]);
    assert_eq!(r.err().unwrap(), Error::AllocateTensorsError);
}

#[test]
fn invalid_graphs_fail_initialization() {
    // Unsupported element-type tag.
    let blob = model_blob(&[(4, &[4])], &[], &[0], &[0]);
    let model = Model::from_buffer(&blob).unwrap();
    let r = MicroInterpreter::new(&model, MutableOpResolver::empty(), vec![0u8; 256]);
    assert_eq!(r.err().unwrap(), Error::InterpreterInitError);

    // Rank zero.
    let blob = model_blob(&[(INT8, &[])], &[], &[0], &[0]);
    let model = Model::from_buffer(&blob).unwrap();
    let r = MicroInterpreter::new(&model, MutableOpResolver::empty(), vec![0u8; 256]);
    assert_eq!(r.err().unwrap(), Error::InterpreterInitError);

    // A dimension below one.
    let blob = model_blob(&[(INT8, &[2, 0])], &[], &[0], &[0]);
    let model = Model::from_buffer(&blob).unwrap();
    let r = MicroInterpreter::new(&model, MutableOpResolver::empty(), vec![0u8; 256]);
    assert_eq!(r.err().unwrap(), Error::InterpreterInitError);

    // An operator code outside the table.
    let blob = model_blob(&[(INT8, &[4])], &[(9999, 0, 0)], &[0], &[0]);
    let model = Model::from_buffer(&blob).unwrap();
    let r = MicroInterpreter::new(&model, MutableOpResolver::empty(), vec![0u8; 256]);
    assert_eq!(r.err().unwrap(), Error::InterpreterInitError);

    // An operator that names a tensor the model does not have.
    let blob = model_blob(&[(INT8, &[4])], &[(OpCode::Reshape.code(), 0, 7)], &[0], &[0]);
    let model = Model::from_buffer(&blob).unwrap();
    let r = MicroInterpreter::new(&model, MutableOpResolver::empty().add_reshape(), vec![0u8; 256]);
    assert_eq!(r.err().unwrap(), Error::InterpreterInitError);

    // A graph input index out of range.
    let blob = model_blob(&[(INT8, &[4])], &[], &[3], &[0]);
    let model = Model::from_buffer(&blob).unwrap();
    let r = MicroInterpreter::new(&model, MutableOpResolver::empty(), vec![0u8; 256]);
    assert_eq!(r.err().unwrap(), Error::InterpreterInitError);
}

#[test]
fn kernel_without_reference_semantics_fails_invoke() {
    let blob = model_blob(
        &[(INT8, &[4]), (INT8, &[4])],
        &[(OpCode::Softmax.code(), 0, 1)],
        &[0],
        &[1],
    );
    let model = Model::from_buffer(&blob).unwrap();
    let resolver = MutableOpResolver::empty().add_softmax();
    let mut interpreter = MicroInterpreter::new(&model, resolver, vec![0u8; 256]).unwrap();
    interpreter.input(0, &[1i8, 2, 3, 4]).unwrap();
    assert_eq!(interpreter.invoke().unwrap_err(), Status::Error);
}

#[test]
fn shape_mismatch_fails_invoke() {
    // Reshape requires the same element count on both sides.
    let blob = model_blob(
        &[(INT8, &[4]), (INT8, &[5])],
        &[(OpCode::Reshape.code(), 0, 1)],
        &[0],
        &[1],
    );
    let model = Model::from_buffer(&blob).unwrap();
    let resolver = MutableOpResolver::empty().add_reshape();
    let mut interpreter = MicroInterpreter::new(&model, resolver, vec![0u8; 256]).unwrap();
    interpreter.input(0, &[1i8, 2, 3, 4]).unwrap();
    assert_eq!(interpreter.invoke().unwrap_err(), Status::Error);
}

#[test]
fn input_info_reports_float_tensor() {
    let blob = model_blob(&[(FLOAT32, &[1, 1])], &[], &[0], &[0]);
    let model = Model::from_buffer(&blob).unwrap();
    let interpreter =
        MicroInterpreter::new(&model, MutableOpResolver::empty(), vec![0u8; 64]).unwrap();
    let info = interpreter.input_info(0);
    assert_eq!(info.element_type, ElementType::Float32);
    assert_eq!([1, 1], info.dims);
}

//! Tests for model-blob validation: structural header checks are eager,
//! everything about tensor contents is lazy.

use tfmicro::Error;
use tfmicro::Model;
use tfmicro::OpCode;

fn push_u32(b: &mut Vec<u8>, v: u32) {
    b.extend_from_slice(&v.to_le_bytes());
}

fn push_i32(b: &mut Vec<u8>, v: i32) {
    b.extend_from_slice(&v.to_le_bytes());
}

/// Serializes a model blob: tensors as (element-type tag, dims), operators
/// as (code, input tensor, output tensor), then graph input and output
/// tensor indices.
fn model_blob(
    tensors: &[(u32, &[i32])],
    ops: &[(u32, u32, u32)],
    inputs: &[u32],
    outputs: &[u32],
) -> Vec<u8> {
    let mut b = vec![b'T', b'F', b'L', b'M'];
    push_u32(&mut b, 1);
    push_u32(&mut b, tensors.len() as u32);
    push_u32(&mut b, ops.len() as u32);
    push_u32(&mut b, inputs.len() as u32);
    push_u32(&mut b, outputs.len() as u32);
    for (tag, dims) in tensors {
        push_u32(&mut b, *tag);
        push_u32(&mut b, dims.len() as u32);
        for j in 0..4 {
            push_i32(&mut b, if j < dims.len() { dims[j] } else { 0 });
        }
    }
    for (code, input, output) in ops {
        push_u32(&mut b, *code);
        push_u32(&mut b, *input);
        push_u32(&mut b, *output);
    }
    for idx in inputs {
        push_u32(&mut b, *idx);
    }
    for idx in outputs {
        push_u32(&mut b, *idx);
    }
    b
}

#[test]
fn accepts_structurally_valid_blob() {
    let blob = model_blob(
        &[(9, &[4]), (9, &[2, 2])],
        &[(OpCode::Reshape.code(), 0, 1)],
        &[0],
        &[1],
    );
    let model = Model::from_buffer(&blob).unwrap();
    assert_eq!(model.tensor_count(), 2);
    assert_eq!(model.op_count(), 1);
    assert_eq!(model.input_count(), 1);
    assert_eq!(model.output_count(), 1);
    let t0 = model.tensor_record(0);
    assert_eq!(t0.type_tag, 9);
    assert_eq!(t0.rank, 1);
    assert_eq!(t0.dims4, vec![4, 0, 0, 0]);
    let t1 = model.tensor_record(1);
    assert_eq!(t1.rank, 2);
    assert_eq!(t1.dims4, vec![2, 2, 0, 0]);
    let op = model.op_record(0);
    assert_eq!(op.code, OpCode::Reshape.code());
    assert_eq!(op.input, 0);
    assert_eq!(op.output, 1);
    assert_eq!(model.graph_input(0), 0);
    assert_eq!(model.graph_output(0), 1);
}

#[test]
fn accepts_blob_without_reading_tensor_contents() {
    // The tensor records hold an unsupported tag, a hopeless rank and a
    // negative dimension; header validation must accept the blob anyway,
    // since no tensor shape is read before an interpreter is built.
    let blob = model_blob(&[(255, &[-7, 0, 0, 0]), (0, &[])], &[], &[], &[]);
    assert!(Model::from_buffer(&blob).is_ok());
}

#[test]
fn rejects_empty_and_truncated_input() {
    assert_eq!(Model::from_buffer(&[]).unwrap_err(), Error::ModelSchemaError);
    assert_eq!(Model::from_buffer(&[b'T', b'F', b'L', b'M']).unwrap_err(), Error::ModelSchemaError);
    let blob = model_blob(&[(9, &[4])], &[], &[0], &[0]);
    assert_eq!(Model::from_buffer(&blob[..blob.len() - 1]).unwrap_err(), Error::ModelSchemaError);
}

#[test]
fn rejects_wrong_identifier() {
    let mut blob = model_blob(&[(9, &[4])], &[], &[0], &[0]);
    blob[3] = b'X';
    assert_eq!(Model::from_buffer(&blob).unwrap_err(), Error::ModelSchemaError);
}

#[test]
fn rejects_unsupported_version() {
    let mut blob = model_blob(&[(9, &[4])], &[], &[0], &[0]);
    blob[4] = 2;
    assert_eq!(Model::from_buffer(&blob).unwrap_err(), Error::ModelSchemaError);
}

#[test]
fn rejects_wrong_total_length() {
    let mut blob = model_blob(&[(9, &[4])], &[], &[0], &[0]);
    blob.push(0);
    assert_eq!(Model::from_buffer(&blob).unwrap_err(), Error::ModelSchemaError);
    // A count that promises more records than the buffer holds.
    let mut short = model_blob(&[(9, &[4])], &[], &[0], &[0]);
    short[8] = 3;
    assert_eq!(Model::from_buffer(&short).unwrap_err(), Error::ModelSchemaError);
}

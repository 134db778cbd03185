//! A zero-copy, validated view over a serialized model blob.
//!
//! A blob is a little-endian container with a fixed header and four
//! fixed-stride record sections:
//!
//! - header: 4 identifier bytes `TFLM`, a schema version word, and the
//!   four section counts (tensors, operators, graph inputs, graph
//!   outputs);
//! - one 24-byte record per tensor: an element-type tag word, a rank word
//!   and four dimension words;
//! - one 12-byte record per operator: an operator-code word and the
//!   indices of its input and output tensors;
//! - one index word per graph input, then one per graph output.
//!
//! [`Model::from_buffer`] validates the header and the declared total
//! length, nothing more: no tensor shape is read until an interpreter is
//! built over the model.

use vstd::prelude::*;

use crate::Error;

verus! {

/// The value of the little-endian 32-bit word at `at`.
pub open spec fn spec_u32(b: Seq<u8>, at: int) -> int {
    b[at] as int + 0x100 * (b[at + 1] as int) + 0x10000 * (b[at + 2] as int) + 0x1000000 * (b[at
        + 3] as int)
}

/// The value of the little-endian 32-bit word at `at`, read as a signed
/// two's-complement number.
pub open spec fn spec_i32(b: Seq<u8>, at: int) -> int {
    if spec_u32(b, at) >= 0x80000000 {
        spec_u32(b, at) - 0x100000000
    } else {
        spec_u32(b, at)
    }
}

/// Number of tensor records the blob declares.
pub open spec fn spec_tensor_count(b: Seq<u8>) -> int {
    spec_u32(b, 8)
}

/// Number of operator records the blob declares.
pub open spec fn spec_op_count(b: Seq<u8>) -> int {
    spec_u32(b, 12)
}

/// Number of graph-input index words the blob declares.
pub open spec fn spec_input_count(b: Seq<u8>) -> int {
    spec_u32(b, 16)
}

/// Number of graph-output index words the blob declares.
pub open spec fn spec_output_count(b: Seq<u8>) -> int {
    spec_u32(b, 20)
}

/// Byte offset of tensor record `i`.
pub open spec fn spec_tensor_base(b: Seq<u8>, i: int) -> int {
    24 + 24 * i
}

/// Byte offset of the operator record section.
pub open spec fn spec_ops_base(b: Seq<u8>) -> int {
    24 + 24 * spec_tensor_count(b)
}

/// Byte offset of the graph-input index section.
pub open spec fn spec_inputs_base(b: Seq<u8>) -> int {
    spec_ops_base(b) + 12 * spec_op_count(b)
}

/// Byte offset of the graph-output index section.
pub open spec fn spec_outputs_base(b: Seq<u8>) -> int {
    spec_inputs_base(b) + 4 * spec_input_count(b)
}

/// Total byte length the header declares for the whole blob.
pub open spec fn spec_total_len(b: Seq<u8>) -> int {
    spec_outputs_base(b) + 4 * spec_output_count(b)
}

/// Structural validity of a model blob: the identifier bytes read `TFLM`,
/// the schema version is supported, and the blob is exactly as long as its
/// section counts require.
pub open spec fn spec_model_valid(b: Seq<u8>) -> bool {
    &&& b.len() >= 24
    &&& b[0] == 84u8  // 'T'
    &&& b[1] == 70u8  // 'F'
    &&& b[2] == 76u8  // 'L'
    &&& b[3] == 77u8  // 'M'
    &&& spec_u32(b, 4) == 1
    &&& b.len() == spec_total_len(b)
}

/// Element-type tag of tensor `i`.
pub open spec fn spec_tensor_tag(b: Seq<u8>, i: int) -> int {
    spec_u32(b, spec_tensor_base(b, i))
}

/// Rank of tensor `i`.
pub open spec fn spec_tensor_rank(b: Seq<u8>, i: int) -> int {
    spec_u32(b, spec_tensor_base(b, i) + 4)
}

/// Dimension `j` of tensor `i`, one of the record's four slots.
pub open spec fn spec_tensor_dim(b: Seq<u8>, i: int, j: int) -> int {
    spec_i32(b, spec_tensor_base(b, i) + 8 + 4 * j)
}

/// Operator code of operator `k`.
pub open spec fn spec_op_code(b: Seq<u8>, k: int) -> int {
    spec_u32(b, spec_ops_base(b) + 12 * k)
}

/// Input tensor index of operator `k`.
pub open spec fn spec_op_input(b: Seq<u8>, k: int) -> int {
    spec_u32(b, spec_ops_base(b) + 12 * k + 4)
}

/// Output tensor index of operator `k`.
pub open spec fn spec_op_output(b: Seq<u8>, k: int) -> int {
    spec_u32(b, spec_ops_base(b) + 12 * k + 8)
}

/// Tensor index of graph input `i`.
pub open spec fn spec_graph_input(b: Seq<u8>, i: int) -> int {
    spec_u32(b, spec_inputs_base(b) + 4 * i)
}

/// Tensor index of graph output `i`.
pub open spec fn spec_graph_output(b: Seq<u8>, i: int) -> int {
    spec_u32(b, spec_outputs_base(b) + 4 * i)
}

/// Reads the little-endian 32-bit word at `at`.
fn read_u32_le(buf: &[u8], at: usize) -> (r: u32)
    requires
        at + 4 <= buf@.len(),
    ensures
        r as int == spec_u32(buf@, at as int),
{
    let b0 = buf[at];
    let b1 = buf[at + 1];
    let b2 = buf[at + 2];
    let b3 = buf[at + 3];
    b0 as u32 + 0x100 * (b1 as u32) + 0x10000 * (b2 as u32) + 0x1000000 * (b3 as u32)
}

/// Reads the little-endian 32-bit word at `at` as a signed number.
fn read_i32_le(buf: &[u8], at: usize) -> (r: i32)
    requires
        at + 4 <= buf@.len(),
    ensures
        r as int == spec_i32(buf@, at as int),
{
    let u = read_u32_le(buf, at);
    if u >= 0x80000000 {
        let v: i64 = u as i64 - 0x100000000i64;
        v as i32
    } else {
        u as i32
    }
}

/// A raw tensor record, exactly as a model blob declares it: a native
/// element-type tag, a rank, and the record's four dimension slots (of
/// which the first `rank` are meaningful).
#[derive(Debug)]
pub struct TensorRecord {
    pub type_tag: u32,
    pub rank: u32,
    pub dims4: Vec<i32>,
}

/// A raw operator record: an operator code and the indices of the
/// operator's input and output tensors.
#[derive(Clone, Copy, Debug, PartialEq, Eq, Structural)]
pub struct OpRecord {
    pub code: u32,
    pub input: u32,
    pub output: u32,
}

/// A validated, zero-copy view over a serialized model blob. The view
/// borrows the caller's buffer and never copies or mutates it; it exists
/// only for structurally valid blobs.
#[derive(Debug)]
pub struct Model<'a> {
    buf: &'a [u8],
}

impl<'a> View for Model<'a> {
    type V = Seq<u8>;

    /// A model is abstractly the byte sequence it was validated from.
    closed spec fn view(&self) -> Seq<u8> {
        self.buf@
    }
}

impl<'a> Model<'a> {
    #[verifier::type_invariant]
    spec fn wf(&self) -> bool {
        spec_model_valid(self.buf@)
    }

    /// Validates `buf` as a model blob and wraps it without copying.
    /// Succeeds exactly on structurally valid blobs (see
    /// [`spec_model_valid`]); anything truncated, misidentified, of an
    /// unsupported version, or of the wrong total length is rejected with
    /// [`Error::ModelSchemaError`]. No tensor record is read here.
    pub fn from_buffer(buf: &'a [u8]) -> (r: Result<Model<'a>, Error>)
        ensures
            r matches Ok(m) ==> spec_model_valid(buf@) && m@ == buf@,
            spec_model_valid(buf@) ==> (r matches Ok(m) && m@ == buf@),
            !spec_model_valid(buf@) ==> r == Err::<Model<'a>, Error>(Error::ModelSchemaError),
    {
        if buf.len() < 24 {
            return Err(Error::ModelSchemaError);
        }
        if !(buf[0] == 84 && buf[1] == 70 && buf[2] == 76 && buf[3] == 77) {
            return Err(Error::ModelSchemaError);
        }
        if read_u32_le(buf, 4) != 1 {
            return Err(Error::ModelSchemaError);
        }
        let tc = read_u32_le(buf, 8);
        let oc = read_u32_le(buf, 12);
        let ic = read_u32_le(buf, 16);
        let uc = read_u32_le(buf, 20);
        let total: u64 = 24 + 24 * (tc as u64) + 12 * (oc as u64) + 4 * (ic as u64) + 4 * (
        uc as u64);
        if buf.len() as u64 != total {
            return Err(Error::ModelSchemaError);
        }
        Ok(Model { buf })
    }

    /// Number of tensor records in this model.
    pub fn tensor_count(&self) -> (r: usize)
        ensures
            r == spec_tensor_count(self@),
    {
        proof {
            use_type_invariant(self);
        }
        read_u32_le(self.buf, 8) as usize
    }

    /// Number of operator records in this model.
    pub fn op_count(&self) -> (r: usize)
        ensures
            r == spec_op_count(self@),
    {
        proof {
            use_type_invariant(self);
        }
        read_u32_le(self.buf, 12) as usize
    }

    /// Number of graph inputs in this model.
    pub fn input_count(&self) -> (r: usize)
        ensures
            r == spec_input_count(self@),
    {
        proof {
            use_type_invariant(self);
        }
        read_u32_le(self.buf, 16) as usize
    }

    /// Number of graph outputs in this model.
    pub fn output_count(&self) -> (r: usize)
        ensures
            r == spec_output_count(self@),
    {
        proof {
            use_type_invariant(self);
        }
        read_u32_le(self.buf, 20) as usize
    }

    /// Reads tensor record `i`.
    pub fn tensor_record(&self, i: usize) -> (r: TensorRecord)
        requires
            i < spec_tensor_count(self@),
        ensures
            r.type_tag as int == spec_tensor_tag(self@, i as int),
            r.rank as int == spec_tensor_rank(self@, i as int),
            r.dims4@.len() == 4,
            forall|j: int| 0 <= j < 4 ==> #[trigger] r.dims4@[j] as int == spec_tensor_dim(
                self@, i as int, j),
    {
        proof {
            use_type_invariant(self);
        }
        let n = self.buf.len();
        proof {
            assert(n as int == spec_total_len(self@));
        }
        let base = 24 + 24 * i;
        let type_tag = read_u32_le(self.buf, base);
        let rank = read_u32_le(self.buf, base + 4);
        let mut dims4: Vec<i32> = Vec::new();
        let mut j: usize = 0;
        while j < 4
            invariant
                j <= 4,
                dims4@.len() == j,
                base as int == spec_tensor_base(self@, i as int),
                base + 24 <= self@.len() <= usize::MAX,
                self.buf@ == self@,
                forall|k: int| 0 <= k < j ==> #[trigger] dims4@[k] as int == spec_tensor_dim(
                    self@, i as int, k),
            decreases 4 - j,
        {
            let d = read_i32_le(self.buf, base + 8 + 4 * j);
            dims4.push(d);
            j = j + 1;
        }
        TensorRecord { type_tag, rank, dims4 }
    }

    /// Reads operator record `k`.
    pub fn op_record(&self, k: usize) -> (r: OpRecord)
        requires
            k < spec_op_count(self@),
        ensures
            r.code as int == spec_op_code(self@, k as int),
            r.input as int == spec_op_input(self@, k as int),
            r.output as int == spec_op_output(self@, k as int),
    {
        proof {
            use_type_invariant(self);
        }
        let n = self.buf.len();
        proof {
            assert(n as int == spec_total_len(self@));
        }
        let tc = self.tensor_count();
        let base = 24 + 24 * tc + 12 * k;
        let code = read_u32_le(self.buf, base);
        let input = read_u32_le(self.buf, base + 4);
        let output = read_u32_le(self.buf, base + 8);
        OpRecord { code, input, output }
    }

    /// Reads the tensor index of graph input `i`.
    pub fn graph_input(&self, i: usize) -> (r: usize)
        requires
            i < spec_input_count(self@),
        ensures
            r == spec_graph_input(self@, i as int),
    {
        proof {
            use_type_invariant(self);
        }
        let n = self.buf.len();
        proof {
            assert(n as int == spec_total_len(self@));
        }
        let tc = self.tensor_count();
        let oc = self.op_count();
        let base = 24 + 24 * tc + 12 * oc + 4 * i;
        read_u32_le(self.buf, base) as usize
    }

    /// Reads the tensor index of graph output `i`.
    pub fn graph_output(&self, i: usize) -> (r: usize)
        requires
            i < spec_output_count(self@),
        ensures
            r == spec_graph_output(self@, i as int),
    {
        proof {
            use_type_invariant(self);
        }
        let n = self.buf.len();
        proof {
            assert(n as int == spec_total_len(self@));
        }
        let tc = self.tensor_count();
        let oc = self.op_count();
        let ic = self.input_count();
        let base = 24 + 24 * tc + 12 * oc + 4 * ic + 4 * i;
        read_u32_le(self.buf, base) as usize
    }
}

} // verus!

//! The interpreter: binds a validated [`Model`], a consumed
//! [`MutableOpResolver`] and a caller-supplied byte arena into one
//! long-lived execution object.
//!
//! Construction runs the one-time allocation-planning phase: every tensor
//! of the model is assigned a fixed, 16-byte-aligned offset inside the
//! arena, operators are resolved against the enabled set, and the whole
//! attempt fails — producing no object at all — if the graph is
//! malformed, an operator is not enabled, or the arena is too small.
//! After success no allocation ever happens again: `input`, `invoke` and
//! `output` only read and overwrite arena bytes in place.

use vstd::prelude::*;

use crate::micro_op_resolver::MutableOpResolver;
use crate::micro_op_resolver::OpCode;
use crate::model::Model;
use crate::model::spec_graph_input;
use crate::model::spec_graph_output;
use crate::model::spec_input_count;
use crate::model::spec_op_code;
use crate::model::spec_op_count;
use crate::model::spec_op_input;
use crate::model::spec_op_output;
use crate::model::spec_output_count;
use crate::model::spec_tensor_count;
use crate::model::spec_tensor_dim;
use crate::model::spec_tensor_rank;
use crate::model::spec_tensor_tag;
use crate::tensor::ElemTypeOf;
use crate::tensor::ElementType;
use crate::tensor::Tensor;
use crate::tensor::TensorInfo;
use crate::tensor::dims_product;
use crate::tensor::lemma_dims_product_monotone;
use crate::tensor::lemma_dims_product_pos;
use crate::tensor::lemma_encode_all_len;
use crate::tensor::spec_encode_all;
use crate::tensor::spec_write_region;
use crate::Error;
use crate::Status;

verus! {

/// The bytes of a tensor region reinterpreted as signed 8-bit elements.
pub open spec fn spec_bytes_as_i8(s: Seq<u8>) -> Seq<i8> {
    Seq::new(s.len(), |q: int| s[q] as i8)
}

/// The absolute value of a signed 8-bit element, saturated at the top of
/// the range: the one value without a negation keeps the largest
/// representable magnitude.
pub open spec fn spec_sat_abs_i8(v: i8) -> i8 {
    if v == -128 {
        127
    } else if v < 0 {
        (0 - v) as i8
    } else {
        v
    }
}

/// The index of the first maximum of `s`.
pub open spec fn spec_argmax_i8(s: Seq<i8>) -> int
    decreases s.len(),
{
    if s.len() <= 1 {
        0
    } else {
        let t = spec_argmax_i8(s.drop_last());
        if s.last() > s[t] {
            s.len() - 1
        } else {
            t
        }
    }
}

/// `x` rounded up to the next multiple of 16: the alignment the
/// allocation plan gives every tensor.
pub open spec fn spec_align16(x: int) -> int {
    ((x + 15) / 16) * 16
}

/// The element type tensor `i` declares, if its tag is supported.
pub open spec fn spec_tensor_elem(b: Seq<u8>, i: int) -> Option<ElementType> {
    ElementType::spec_from_tag(spec_tensor_tag(b, i) as u32)
}

/// The dimensions tensor `i` declares: the first `rank` slots of its
/// record.
pub open spec fn spec_tensor_dims_seq(b: Seq<u8>, i: int) -> Seq<i32> {
    Seq::new(spec_tensor_rank(b, i) as nat, |j: int| spec_tensor_dim(b, i, j) as i32)
}

/// Semantic validity of tensor record `i`: a supported element type, a
/// rank between one and four, positive dimensions, and an element count
/// that a 32-bit signed counter can hold.
pub open spec fn spec_tensor_valid(b: Seq<u8>, i: int) -> bool {
    &&& spec_tensor_elem(b, i) is Some
    &&& 1 <= spec_tensor_rank(b, i) <= 4
    &&& forall|j: int| 0 <= j < spec_tensor_rank(b, i) ==> #[trigger] spec_tensor_dim(b, i, j)
        >= 1
    &&& dims_product(spec_tensor_dims_seq(b, i)) <= 0x7fffffff
}

/// Bytes of arena storage tensor `i` needs: element count times element
/// width.
pub open spec fn spec_tensor_size(b: Seq<u8>, i: int) -> int {
    dims_product(spec_tensor_dims_seq(b, i)) * spec_tensor_elem(b, i).unwrap().spec_byte_size()
}

/// Semantic validity of operator record `k`: a known operator code and
/// in-range input and output tensor indices.
pub open spec fn spec_op_valid(b: Seq<u8>, k: int) -> bool {
    &&& OpCode::spec_from_code(spec_op_code(b, k)) is Some
    &&& spec_op_input(b, k) < spec_tensor_count(b)
    &&& spec_op_output(b, k) < spec_tensor_count(b)
}

/// Semantic validity of the whole graph: every tensor record, every
/// operator record, and every graph input and output index.
pub open spec fn spec_graph_wf(b: Seq<u8>) -> bool {
    &&& forall|i: int| 0 <= i < spec_tensor_count(b) ==> #[trigger] spec_tensor_valid(b, i)
    &&& forall|k: int| 0 <= k < spec_op_count(b) ==> #[trigger] spec_op_valid(b, k)
    &&& forall|i: int| 0 <= i < spec_input_count(b) ==> #[trigger] spec_graph_input(b, i)
        < spec_tensor_count(b)
    &&& forall|i: int| 0 <= i < spec_output_count(b) ==> #[trigger] spec_graph_output(b, i)
        < spec_tensor_count(b)
}

/// The fixed arena offset the allocation plan assigns tensor `i`: tensors
/// are laid out in record order, each aligned to 16 bytes.
pub open spec fn spec_tensor_offset(b: Seq<u8>, i: int) -> int
    decreases i,
{
    if i <= 0 {
        0
    } else {
        spec_tensor_offset(b, i - 1) + spec_align16(spec_tensor_size(b, i - 1))
    }
}

/// Bytes of arena the whole allocation plan consumes.
pub open spec fn spec_arena_needed(b: Seq<u8>) -> int {
    spec_tensor_offset(b, spec_tensor_count(b))
}

/// Whether every operator of the graph names an operator that the enabled
/// set contains.
pub open spec fn spec_ops_resolved(b: Seq<u8>, enabled: Seq<OpCode>) -> bool {
    forall|k: int| 0 <= k < spec_op_count(b) ==> enabled.contains(
        OpCode::spec_from_code(#[trigger] spec_op_code(b, k)).unwrap(),
    )
}

/// Everything interpreter construction demands: a semantically valid
/// graph, every operator resolved, and an arena at least as large as the
/// plan.
pub open spec fn spec_can_build(b: Seq<u8>, enabled: Seq<OpCode>, arena_len: int) -> bool {
    &&& spec_graph_wf(b)
    &&& spec_ops_resolved(b, enabled)
    &&& spec_arena_needed(b) <= arena_len
}

/// A valid tensor needs at least one byte of storage.
proof fn lemma_size_pos(b: Seq<u8>, i: int)
    requires
        spec_tensor_valid(b, i),
    ensures
        spec_tensor_size(b, i) >= 1,
{
    assert(forall|q: int|
        0 <= q < spec_tensor_dims_seq(b, i).len() ==> #[trigger] spec_tensor_dims_seq(b, i)[q]
            >= 1);
    lemma_dims_product_pos(spec_tensor_dims_seq(b, i));
    assert(spec_tensor_elem(b, i).unwrap().spec_byte_size() >= 1);
    assert(dims_product(spec_tensor_dims_seq(b, i)) * spec_tensor_elem(b, i).unwrap()
        .spec_byte_size() >= 1) by (nonlinear_arith)
        requires
            dims_product(spec_tensor_dims_seq(b, i)) >= 1,
            spec_tensor_elem(b, i).unwrap().spec_byte_size() >= 1,
    ;
}

/// Planned offsets grow with the tensor index.
proof fn lemma_offset_monotone(b: Seq<u8>, i: int, j: int)
    requires
        0 <= i <= j,
        forall|m: int| 0 <= m < j ==> #[trigger] spec_tensor_valid(b, m),
    ensures
        spec_tensor_offset(b, i) <= spec_tensor_offset(b, j),
    decreases j - i,
{
    if i < j {
        lemma_offset_monotone(b, i, j - 1);
        lemma_size_pos(b, j - 1);
        assert(spec_align16(spec_tensor_size(b, j - 1)) >= 0);
    }
}

/// The allocation plan is sound: for a graph whose tensors are all
/// valid, distinct tensors get disjoint arena regions, laid out in
/// record order, and every region lies within the planned footprint —
/// so `arena_used_bytes` covers the storage of every tensor.
pub proof fn lemma_plan_regions_disjoint(b: Seq<u8>, i: int, j: int)
    requires
        forall|m: int| 0 <= m < spec_tensor_count(b) ==> #[trigger] spec_tensor_valid(b, m),
        0 <= i < j < spec_tensor_count(b),
    ensures
        spec_tensor_offset(b, i) + spec_tensor_size(b, i) <= spec_tensor_offset(b, j),
        spec_tensor_offset(b, j) + spec_tensor_size(b, j) <= spec_arena_needed(b),
{
    assert(spec_tensor_offset(b, i) + spec_tensor_size(b, i) <= spec_tensor_offset(b, i + 1));
    lemma_offset_monotone(b, i + 1, j);
    assert(spec_tensor_offset(b, j) + spec_tensor_size(b, j) <= spec_tensor_offset(b, j + 1));
    lemma_offset_monotone(b, j + 1, spec_tensor_count(b));
}

/// One tensor of the allocation plan: its element type and dimensions,
/// and the fixed arena region that backs it.
struct PlannedTensor {
    element_type: ElementType,
    dims: Vec<i32>,
    offset: usize,
    byte_len: usize,
    elem_count: usize,
}

/// One operator of the pre-planned execution sequence.
#[derive(Clone, Copy)]
struct PlannedOp {
    code: OpCode,
    input: usize,
    output: usize,
}

/// An interpreter for serialized models. It owns the arena for its whole
/// life; every tensor sits at a fixed arena offset chosen once, at
/// construction.
pub struct MicroInterpreter {
    tensors: Vec<PlannedTensor>,
    ops: Vec<PlannedOp>,
    inputs: Vec<usize>,
    outputs: Vec<usize>,
    arena: Vec<u8>,
    arena_used: usize,
}

impl MicroInterpreter {
    #[verifier::type_invariant]
    spec fn wf(&self) -> bool {
        &&& forall|i: int|
            0 <= i < self.tensors@.len() ==> (#[trigger] self.tensors@[i]).offset + self.tensors@[
                i].byte_len <= self.arena@.len()
        &&& forall|i: int|
            0 <= i < self.tensors@.len() ==> (#[trigger] self.tensors@[i]).byte_len == self.tensors@[
                i].elem_count * self.tensors@[i].element_type.spec_byte_size()
        &&& forall|i: int|
            0 <= i < self.tensors@.len() ==> (#[trigger] self.tensors@[i]).elem_count == dims_product(
                self.tensors@[i].dims@)
        &&& forall|i: int|
            0 <= i < self.tensors@.len() ==> 1 <= (#[trigger] self.tensors@[i]).elem_count
                <= 0x7fffffff
        &&& forall|i: int, j: int|
            #![trigger self.tensors@[i], self.tensors@[j]]
            0 <= i < j < self.tensors@.len() ==> self.tensors@[i].offset + self.tensors@[
                i].byte_len <= self.tensors@[j].offset
        &&& forall|n: int|
            0 <= n < self.inputs@.len() ==> (#[trigger] self.inputs@[n]) < self.tensors@.len()
        &&& forall|n: int|
            0 <= n < self.outputs@.len() ==> (#[trigger] self.outputs@[n]) < self.tensors@.len()
        &&& forall|k: int|
            0 <= k < self.ops@.len() ==> (#[trigger] self.ops@[k]).input < self.tensors@.len()
                && self.ops@[k].output < self.tensors@.len()
        &&& self.arena_used <= self.arena@.len()
    }

    /// Number of tensors in the allocation plan.
    pub closed spec fn spec_num_tensors(&self) -> int {
        self.tensors@.len() as int
    }

    /// Element type of planned tensor `i`.
    pub closed spec fn spec_tensor_elem_at(&self, i: int) -> ElementType {
        self.tensors@[i].element_type
    }

    /// Dimensions of planned tensor `i`.
    pub closed spec fn spec_tensor_dims_at(&self, i: int) -> Seq<i32> {
        self.tensors@[i].dims@
    }

    /// Fixed arena offset of planned tensor `i`.
    pub closed spec fn spec_tensor_offset_at(&self, i: int) -> int {
        self.tensors@[i].offset as int
    }

    /// Bytes of arena backing planned tensor `i`.
    pub closed spec fn spec_tensor_len_at(&self, i: int) -> int {
        self.tensors@[i].byte_len as int
    }

    /// Element count of planned tensor `i`.
    pub closed spec fn spec_tensor_count_at(&self, i: int) -> int {
        self.tensors@[i].elem_count as int
    }

    /// Number of operators in the pre-planned execution sequence.
    pub closed spec fn spec_num_ops(&self) -> int {
        self.ops@.len() as int
    }

    /// Operator `k` of the execution sequence: its code and the indices
    /// of its input and output tensors.
    pub closed spec fn spec_op_at(&self, k: int) -> (OpCode, int, int) {
        (self.ops@[k].code, self.ops@[k].input as int, self.ops@[k].output as int)
    }

    /// Number of graph inputs.
    pub closed spec fn spec_num_inputs(&self) -> int {
        self.inputs@.len() as int
    }

    /// Tensor index of graph input `n`.
    pub closed spec fn spec_input_index(&self, n: int) -> int {
        self.inputs@[n] as int
    }

    /// Number of graph outputs.
    pub closed spec fn spec_num_outputs(&self) -> int {
        self.outputs@.len() as int
    }

    /// Tensor index of graph output `n`.
    pub closed spec fn spec_output_index(&self, n: int) -> int {
        self.outputs@[n] as int
    }

    /// The arena contents.
    pub closed spec fn spec_arena(&self) -> Seq<u8> {
        self.arena@
    }

    /// Bytes of arena the allocation plan consumed.
    pub closed spec fn spec_arena_used(&self) -> int {
        self.arena_used as int
    }

    /// Element type of the tensor behind graph input `n`.
    pub open spec fn spec_input_elem(&self, n: int) -> ElementType {
        self.spec_tensor_elem_at(self.spec_input_index(n))
    }

    /// Dimensions of the tensor behind graph input `n`.
    pub open spec fn spec_input_dims(&self, n: int) -> Seq<i32> {
        self.spec_tensor_dims_at(self.spec_input_index(n))
    }

    /// Element count of the tensor behind graph input `n`.
    pub open spec fn spec_input_elem_count(&self, n: int) -> int {
        self.spec_tensor_count_at(self.spec_input_index(n))
    }

    /// Arena offset of the tensor behind graph input `n`.
    pub open spec fn spec_input_offset(&self, n: int) -> int {
        self.spec_tensor_offset_at(self.spec_input_index(n))
    }

    /// Byte length of the tensor behind graph input `n`.
    pub open spec fn spec_input_len(&self, n: int) -> int {
        self.spec_tensor_len_at(self.spec_input_index(n))
    }

    /// Element type of the tensor behind graph output `n`.
    pub open spec fn spec_output_elem(&self, n: int) -> ElementType {
        self.spec_tensor_elem_at(self.spec_output_index(n))
    }

    /// Dimensions of the tensor behind graph output `n`.
    pub open spec fn spec_output_dims(&self, n: int) -> Seq<i32> {
        self.spec_tensor_dims_at(self.spec_output_index(n))
    }

    /// Arena offset of the tensor behind graph output `n`.
    pub open spec fn spec_output_offset(&self, n: int) -> int {
        self.spec_tensor_offset_at(self.spec_output_index(n))
    }

    /// Byte length of the tensor behind graph output `n`.
    pub open spec fn spec_output_len(&self, n: int) -> int {
        self.spec_tensor_len_at(self.spec_output_index(n))
    }

    /// Whether `other` has the same allocation plan and execution
    /// sequence as `self`: everything but the arena contents agrees.
    pub open spec fn spec_same_plan(&self, other: &Self) -> bool {
        &&& other.spec_num_tensors() == self.spec_num_tensors()
        &&& forall|i: int|
            0 <= i < self.spec_num_tensors() ==> #[trigger] other.spec_tensor_elem_at(i)
                == self.spec_tensor_elem_at(i)
        &&& forall|i: int|
            0 <= i < self.spec_num_tensors() ==> #[trigger] other.spec_tensor_dims_at(i)
                == self.spec_tensor_dims_at(i)
        &&& forall|i: int|
            0 <= i < self.spec_num_tensors() ==> #[trigger] other.spec_tensor_offset_at(i)
                == self.spec_tensor_offset_at(i)
        &&& forall|i: int|
            0 <= i < self.spec_num_tensors() ==> #[trigger] other.spec_tensor_len_at(i)
                == self.spec_tensor_len_at(i)
        &&& forall|i: int|
            0 <= i < self.spec_num_tensors() ==> #[trigger] other.spec_tensor_count_at(i)
                == self.spec_tensor_count_at(i)
        &&& other.spec_num_ops() == self.spec_num_ops()
        &&& forall|k: int|
            0 <= k < self.spec_num_ops() ==> #[trigger] other.spec_op_at(k) == self.spec_op_at(k)
        &&& other.spec_num_inputs() == self.spec_num_inputs()
        &&& forall|n: int|
            0 <= n < self.spec_num_inputs() ==> #[trigger] other.spec_input_index(n)
                == self.spec_input_index(n)
        &&& other.spec_num_outputs() == self.spec_num_outputs()
        &&& forall|n: int|
            0 <= n < self.spec_num_outputs() ==> #[trigger] other.spec_output_index(n)
                == self.spec_output_index(n)
        &&& other.spec_arena().len() == self.spec_arena().len()
        &&& other.spec_arena_used() == self.spec_arena_used()
    }

    /// Create a new interpreter from a model, an op resolver and a tensor
    /// arena, running the one-time allocation-planning phase.
    ///
    /// Construction succeeds exactly when the model's graph is
    /// semantically valid, every operator of the graph is enabled in the
    /// resolver, and the arena is at least as large as the allocation
    /// plan. On failure no interpreter exists at all:
    /// [`Error::InterpreterInitError`] reports an invalid graph,
    /// [`Error::AllocateTensorsError`] an unresolved operator or an arena
    /// that is too small.
    pub fn new(model: &Model<'_>, resolver: MutableOpResolver, arena: Vec<u8>) -> (r: Result<
        MicroInterpreter,
        Error,
    >)
        ensures
            r matches Ok(it) <==> spec_can_build(model@, resolver@, arena@.len() as int),
            !spec_graph_wf(model@) ==> r == Err::<MicroInterpreter, Error>(
                Error::InterpreterInitError,
            ),
            spec_graph_wf(model@) && !spec_can_build(model@, resolver@, arena@.len() as int)
                ==> r == Err::<MicroInterpreter, Error>(Error::AllocateTensorsError),
            r matches Ok(it) ==> {
                &&& it.spec_num_tensors() == spec_tensor_count(model@)
                &&& forall|i: int|
                    0 <= i < spec_tensor_count(model@) ==> #[trigger] it.spec_tensor_elem_at(i)
                        == spec_tensor_elem(model@, i).unwrap()
                &&& forall|i: int|
                    0 <= i < spec_tensor_count(model@) ==> #[trigger] it.spec_tensor_dims_at(i)
                        == spec_tensor_dims_seq(model@, i)
                &&& forall|i: int|
                    0 <= i < spec_tensor_count(model@) ==> #[trigger] it.spec_tensor_offset_at(i)
                        == spec_tensor_offset(model@, i)
                &&& forall|i: int|
                    0 <= i < spec_tensor_count(model@) ==> #[trigger] it.spec_tensor_len_at(i)
                        == spec_tensor_size(model@, i)
                &&& forall|i: int|
                    0 <= i < spec_tensor_count(model@) ==> #[trigger] it.spec_tensor_count_at(i)
                        == dims_product(spec_tensor_dims_seq(model@, i))
                &&& it.spec_num_ops() == spec_op_count(model@)
                &&& forall|k: int|
                    0 <= k < spec_op_count(model@) ==> #[trigger] it.spec_op_at(k) == (
                    OpCode::spec_from_code(spec_op_code(model@, k)).unwrap(),
                    spec_op_input(model@, k),
                    spec_op_output(model@, k),
                    )
                &&& it.spec_num_inputs() == spec_input_count(model@)
                &&& forall|n: int|
                    0 <= n < spec_input_count(model@) ==> #[trigger] it.spec_input_index(n)
                        == spec_graph_input(model@, n)
                &&& it.spec_num_outputs() == spec_output_count(model@)
                &&& forall|n: int|
                    0 <= n < spec_output_count(model@) ==> #[trigger] it.spec_output_index(n)
                        == spec_graph_output(model@, n)
                &&& it.spec_arena() == arena@
                &&& it.spec_arena_used() == spec_arena_needed(model@)
            },
    {
        let ghost b = model@;
        let tc = model.tensor_count();
        let oc = model.op_count();
        let ic = model.input_count();
        let uc = model.output_count();

        // Validate every tensor record; remember element types and counts.
        let mut elems: Vec<ElementType> = Vec::new();
        let mut counts: Vec<u64> = Vec::new();
        let mut i: usize = 0;
        while i < tc
            invariant
                b == model@,
                i <= tc,
                tc == spec_tensor_count(b),
                elems@.len() == i,
                counts@.len() == i,
                forall|m: int| 0 <= m < i ==> #[trigger] spec_tensor_valid(b, m),
                forall|m: int|
                    0 <= m < i ==> #[trigger] elems@[m] == spec_tensor_elem(b, m).unwrap(),
                forall|m: int|
                    0 <= m < i ==> #[trigger] counts@[m] as int == dims_product(
                        spec_tensor_dims_seq(b, m)),
            decreases tc - i,
        {
            let rec = model.tensor_record(i);
            let elem = match ElementType::from_tag(rec.type_tag) {
                Ok(e) => e,
                Err(_) => {
                    proof {
                        assert(!spec_tensor_valid(b, i as int));
                    }
                    return Err(Error::InterpreterInitError);
                },
            };
            if rec.rank < 1 || rec.rank > 4 {
                proof {
                    assert(!spec_tensor_valid(b, i as int));
                }
                return Err(Error::InterpreterInitError);
            }
            let rank = rec.rank as usize;
            let mut j: usize = 0;
            while j < rank
                invariant
                    b == model@,
                    i < tc,
                    tc == spec_tensor_count(b),
                    j <= rank,
                    rank == spec_tensor_rank(b, i as int),
                    rank <= 4,
                    rec.dims4@.len() == 4,
                    forall|q: int|
                        0 <= q < 4 ==> #[trigger] rec.dims4@[q] as int == spec_tensor_dim(
                            b, i as int, q),
                    forall|q: int| 0 <= q < j ==> #[trigger] spec_tensor_dim(b, i as int, q) >= 1,
                decreases rank - j,
            {
                if rec.dims4[j] < 1 {
                    proof {
                        assert(!spec_tensor_valid(b, i as int));
                    }
                    return Err(Error::InterpreterInitError);
                }
                j = j + 1;
            }
            let ghost dseq = spec_tensor_dims_seq(b, i as int);
            proof {
                assert(dseq.len() == rank);
                assert(forall|q: int| 0 <= q < rank ==> #[trigger] dseq[q] >= 1);
            }
            let mut prod: u64 = 1;
            let mut j2: usize = 0;
            proof {
                assert(dseq.take(0) =~= Seq::<i32>::empty());
            }
            while j2 < rank
                invariant
                    b == model@,
                    i < tc,
                    tc == spec_tensor_count(b),
                    j2 <= rank,
                    rank == spec_tensor_rank(b, i as int),
                    rank <= 4,
                    rec.dims4@.len() == 4,
                    dseq == spec_tensor_dims_seq(b, i as int),
                    dseq.len() == rank,
                    forall|q: int|
                        0 <= q < 4 ==> #[trigger] rec.dims4@[q] as int == spec_tensor_dim(
                            b, i as int, q),
                    forall|q: int| 0 <= q < rank ==> #[trigger] dseq[q] >= 1,
                    prod as int == dims_product(dseq.take(j2 as int)),
                    prod <= 0x7fffffff,
                decreases rank - j2,
            {
                let d = rec.dims4[j2];
                proof {
                    assert(dseq[j2 as int] == d);
                    assert(d >= 1);
                }
                let du = d as u64;
                proof {
                    assert(prod * du < 0x4000000000000000) by (nonlinear_arith)
                        requires
                            prod <= 0x7fffffff,
                            du <= 0x7fffffff,
                    ;
                }
                let p2: u64 = prod * du;
                proof {
                    assert(dseq.take(j2 + 1).drop_last() =~= dseq.take(j2 as int));
                    assert(dseq.take(j2 + 1).last() == dseq[j2 as int]);
                }
                if p2 > 0x7fffffff {
                    proof {
                        lemma_dims_product_monotone(dseq, j2 + 1);
                        assert(!spec_tensor_valid(b, i as int));
                    }
                    return Err(Error::InterpreterInitError);
                }
                prod = p2;
                j2 = j2 + 1;
            }
            proof {
                assert(dseq.take(rank as int) =~= dseq);
                assert(spec_tensor_valid(b, i as int));
            }
            elems.push(elem);
            counts.push(prod);
            i = i + 1;
        }

        // Validate every operator record; build the execution sequence.
        let mut ops: Vec<PlannedOp> = Vec::new();
        let mut k: usize = 0;
        while k < oc
            invariant
                b == model@,
                k <= oc,
                oc == spec_op_count(b),
                tc == spec_tensor_count(b),
                ops@.len() == k,
                forall|m: int| 0 <= m < k ==> #[trigger] spec_op_valid(b, m),
                forall|m: int|
                    0 <= m < k ==> (#[trigger] ops@[m]).code == OpCode::spec_from_code(
                        spec_op_code(b, m)).unwrap(),
                forall|m: int|
                    0 <= m < k ==> (#[trigger] ops@[m]).input as int == spec_op_input(b, m),
                forall|m: int|
                    0 <= m < k ==> (#[trigger] ops@[m]).output as int == spec_op_output(b, m),
                forall|m: int|
                    0 <= m < k ==> (#[trigger] ops@[m]).input < tc && ops@[m].output < tc,
            decreases oc - k,
        {
            let rec = model.op_record(k);
            let code = match OpCode::from_code(rec.code) {
                Some(c) => c,
                None => {
                    proof {
                        assert(!spec_op_valid(b, k as int));
                    }
                    return Err(Error::InterpreterInitError);
                },
            };
            let op_in = rec.input as usize;
            let op_out = rec.output as usize;
            if op_in >= tc || op_out >= tc {
                proof {
                    assert(!spec_op_valid(b, k as int));
                }
                return Err(Error::InterpreterInitError);
            }
            ops.push(PlannedOp { code, input: op_in, output: op_out });
            k = k + 1;
        }

        // Validate the graph input and output indices.
        let mut inputs: Vec<usize> = Vec::new();
        let mut n: usize = 0;
        while n < ic
            invariant
                b == model@,
                n <= ic,
                ic == spec_input_count(b),
                tc == spec_tensor_count(b),
                inputs@.len() == n,
                forall|m: int|
                    0 <= m < n ==> (#[trigger] inputs@[m]) as int == spec_graph_input(b, m),
                forall|m: int| 0 <= m < n ==> (#[trigger] inputs@[m]) < tc,
                forall|m: int| 0 <= m < n ==> #[trigger] spec_graph_input(b, m) < tc,
            decreases ic - n,
        {
            let idx = model.graph_input(n);
            if idx >= tc {
                return Err(Error::InterpreterInitError);
            }
            inputs.push(idx);
            n = n + 1;
        }
        let mut outputs: Vec<usize> = Vec::new();
        let mut n2: usize = 0;
        while n2 < uc
            invariant
                b == model@,
                n2 <= uc,
                uc == spec_output_count(b),
                tc == spec_tensor_count(b),
                outputs@.len() == n2,
                forall|m: int|
                    0 <= m < n2 ==> (#[trigger] outputs@[m]) as int == spec_graph_output(b, m),
                forall|m: int| 0 <= m < n2 ==> (#[trigger] outputs@[m]) < tc,
                forall|m: int| 0 <= m < n2 ==> #[trigger] spec_graph_output(b, m) < tc,
            decreases uc - n2,
        {
            let idx = model.graph_output(n2);
            if idx >= tc {
                return Err(Error::InterpreterInitError);
            }
            outputs.push(idx);
            n2 = n2 + 1;
        }
        proof {
            assert(spec_graph_wf(b));
        }

        // Resolve every operator against the enabled set.
        let enabled = resolver.to_inner();
        let mut k2: usize = 0;
        while k2 < oc
            invariant
                b == model@,
                k2 <= oc,
                oc == spec_op_count(b),
                spec_graph_wf(b),
                enabled@ == resolver@,
                ops@.len() == oc,
                forall|m: int|
                    0 <= m < oc ==> (#[trigger] ops@[m]).code == OpCode::spec_from_code(
                        spec_op_code(b, m)).unwrap(),
                forall|m: int|
                    0 <= m < k2 ==> resolver@.contains(
                        OpCode::spec_from_code(#[trigger] spec_op_code(b, m)).unwrap()),
            decreases oc - k2,
        {
            let c = ops[k2].code;
            if !contains_op(&enabled, c) {
                proof {
                    assert(!spec_ops_resolved(b, resolver@));
                }
                return Err(Error::AllocateTensorsError);
            }
            k2 = k2 + 1;
        }
        proof {
            assert(spec_ops_resolved(b, resolver@));
        }

        proof {
            assert forall|m: int| 0 <= m < tc implies #[trigger] counts@[m] <= 0x7fffffff by {
                assert(spec_tensor_valid(b, m));
                assert(counts@[m] as int == dims_product(spec_tensor_dims_seq(b, m)));
            }
        }

        // Lay the tensors out in the arena: 16-byte-aligned, in record
        // order; fail if the plan outgrows the arena.
        let arena_len: usize = arena.len();
        let mut tensors: Vec<PlannedTensor> = Vec::new();
        let mut off: u128 = 0;
        let mut i2: usize = 0;
        while i2 < tc
            invariant
                b == model@,
                i2 <= tc,
                tc == spec_tensor_count(b),
                spec_graph_wf(b),
                spec_ops_resolved(b, resolver@),
                elems@.len() == tc,
                counts@.len() == tc,
                arena_len == arena@.len(),
                forall|m: int| 0 <= m < tc ==> #[trigger] spec_tensor_valid(b, m),
                forall|m: int|
                    0 <= m < tc ==> #[trigger] elems@[m] == spec_tensor_elem(b, m).unwrap(),
                forall|m: int|
                    0 <= m < tc ==> #[trigger] counts@[m] as int == dims_product(
                        spec_tensor_dims_seq(b, m)),
                forall|m: int| 0 <= m < tc ==> #[trigger] counts@[m] <= 0x7fffffff,
                off as int == spec_tensor_offset(b, i2 as int),
                off <= arena_len,
                tensors@.len() == i2,
                forall|m: int|
                    0 <= m < i2 ==> (#[trigger] tensors@[m]).element_type == spec_tensor_elem(
                        b, m).unwrap(),
                forall|m: int|
                    0 <= m < i2 ==> (#[trigger] tensors@[m]).dims@ == spec_tensor_dims_seq(b, m),
                forall|m: int|
                    0 <= m < i2 ==> (#[trigger] tensors@[m]).elem_count as int == dims_product(
                        spec_tensor_dims_seq(b, m)),
                forall|m: int|
                    0 <= m < i2 ==> (#[trigger] tensors@[m]).offset as int == spec_tensor_offset(
                        b, m),
                forall|m: int|
                    0 <= m < i2 ==> (#[trigger] tensors@[m]).byte_len as int == spec_tensor_size(
                        b, m),
                forall|m: int|
                    0 <= m < i2 ==> (#[trigger] tensors@[m]).offset + tensors@[m].byte_len
                        <= off,
                forall|m: int|
                    0 <= m < i2 ==> 1 <= (#[trigger] tensors@[m]).elem_count <= 0x7fffffff,
            decreases tc - i2,
        {
            let e = elems[i2];
            let cnt = counts[i2];
            // Rebuild this tensor's dimension list from its record.
            let rec = model.tensor_record(i2);
            proof {
                assert(spec_tensor_valid(b, i2 as int));
            }
            let rank = rec.rank as usize;
            let mut dims: Vec<i32> = Vec::new();
            let mut j: usize = 0;
            while j < rank
                invariant
                    b == model@,
                    i2 < tc,
                    tc == spec_tensor_count(b),
                    j <= rank,
                    rank == spec_tensor_rank(b, i2 as int),
                    rank <= 4,
                    rec.dims4@.len() == 4,
                    forall|q: int|
                        0 <= q < 4 ==> #[trigger] rec.dims4@[q] as int == spec_tensor_dim(
                            b, i2 as int, q),
                    dims@.len() == j,
                    forall|q: int|
                        0 <= q < j ==> #[trigger] dims@[q] == spec_tensor_dims_seq(b, i2 as int)[q],
                decreases rank - j,
            {
                dims.push(rec.dims4[j]);
                j = j + 1;
            }
            proof {
                assert(dims@ =~= spec_tensor_dims_seq(b, i2 as int));
                lemma_dims_product_pos(spec_tensor_dims_seq(b, i2 as int));
            }
            proof {
                assert((cnt as int) * (e.spec_byte_size() as int) <= 0x7fffffff * 4)
                    by (nonlinear_arith)
                    requires
                        0 <= cnt <= 0x7fffffff,
                        0 <= e.spec_byte_size() <= 4,
                ;
            }
            let sz: u128 = (cnt as u128) * (e.byte_size() as u128);
            proof {
                assert(sz as int == spec_tensor_size(b, i2 as int));
                assert(sz <= 0x7fffffff * 4) by (nonlinear_arith)
                    requires
                        sz as int == (cnt as int) * (e.spec_byte_size() as int),
                        cnt <= 0x7fffffff,
                        e.spec_byte_size() <= 4,
                        cnt >= 0,
                ;
            }
            let aligned: u128 = ((sz + 15) / 16) * 16;
            proof {
                assert(aligned as int == spec_align16(spec_tensor_size(b, i2 as int)));
                assert(aligned >= sz);
                assert(spec_tensor_offset(b, i2 + 1) == off + aligned);
            }
            let new_off: u128 = off + aligned;
            if new_off > arena_len as u128 {
                proof {
                    lemma_offset_monotone(b, i2 + 1, tc as int);
                    assert(spec_arena_needed(b) > arena@.len());
                }
                return Err(Error::AllocateTensorsError);
            }
            tensors.push(
                PlannedTensor {
                    element_type: e,
                    dims,
                    offset: off as usize,
                    byte_len: sz as usize,
                    elem_count: cnt as usize,
                },
            );
            off = new_off;
            i2 = i2 + 1;
        }
        let arena_used = off as usize;
        proof {
            assert(spec_arena_needed(b) <= arena@.len());
            assert(spec_can_build(b, resolver@, arena@.len() as int));
            assert forall|x: int, y: int|
                #![trigger tensors@[x], tensors@[y]]
                0 <= x < y < tensors@.len() implies tensors@[x].offset + tensors@[x].byte_len
                <= tensors@[y].offset by {
                lemma_size_pos(b, x);
                assert(tensors@[x].offset + tensors@[x].byte_len <= spec_tensor_offset(b, x + 1));
                lemma_offset_monotone(b, x + 1, y);
            }
        }
        Ok(MicroInterpreter { tensors, ops, inputs, outputs, arena, arena_used })
    }

    /// The bytes the kernel of operator `k` produces for its output
    /// tensor, given arena contents `a` — or `None` when the operator
    /// fails: the crate ships reference kernels for shape-preserving
    /// copies (`Reshape`), zero fills (`ZerosLike`) and signed 8-bit
    /// argument-maximum reduction (`ArgMax`); any other enabled operator,
    /// or a kernel applied to tensors of the wrong shape or type, fails
    /// at invocation time.
    pub open spec fn spec_kernel_output(&self, k: int, a: Seq<u8>) -> Option<Seq<u8>> {
        let code = self.spec_op_at(k).0;
        let ti = self.spec_op_at(k).1;
        let to = self.spec_op_at(k).2;
        let region = a.subrange(
            self.spec_tensor_offset_at(ti),
            self.spec_tensor_offset_at(ti) + self.spec_tensor_len_at(ti),
        );
        match code {
            OpCode::Reshape => if self.spec_tensor_elem_at(ti) == self.spec_tensor_elem_at(to)
                && self.spec_tensor_count_at(ti) == self.spec_tensor_count_at(to) {
                Some(region)
            } else {
                None
            },
            OpCode::ZerosLike => if self.spec_tensor_elem_at(ti) == self.spec_tensor_elem_at(to)
                && self.spec_tensor_count_at(ti) == self.spec_tensor_count_at(to) {
                Some(Seq::new(self.spec_tensor_len_at(to) as nat, |q: int| 0u8))
            } else {
                None
            },
            OpCode::ArgMax => if self.spec_tensor_elem_at(ti) == ElementType::Int8
                && self.spec_tensor_elem_at(to) == ElementType::Int32
                && self.spec_tensor_count_at(to) == 1 {
                Some((spec_argmax_i8(spec_bytes_as_i8(region)) as i32).spec_to_bytes())
            } else {
                None
            },
            OpCode::Abs => if self.spec_tensor_elem_at(ti) == ElementType::Int8
                && self.spec_tensor_elem_at(to) == ElementType::Int8
                && self.spec_tensor_count_at(ti) == self.spec_tensor_count_at(to) {
                Some(Seq::new(region.len(), |q: int| spec_sat_abs_i8(region[q] as i8) as u8))
            } else {
                None
            },
            _ => None,
        }
    }

    /// Arena contents after operator `k` ran on arena contents `a`, or
    /// `None` when its kernel fails.
    pub open spec fn spec_step(&self, a: Seq<u8>, k: int) -> Option<Seq<u8>> {
        match self.spec_kernel_output(k, a) {
            Some(bytes) => Some(
                spec_write_region(a, self.spec_tensor_offset_at(self.spec_op_at(k).2), bytes),
            ),
            None => None,
        }
    }

    /// Arena contents after the first `k` operators of the execution
    /// sequence ran on arena contents `a`, or `None` when one of them
    /// failed.
    pub open spec fn spec_run_prefix(&self, a: Seq<u8>, k: int) -> Option<Seq<u8>>
        decreases k,
    {
        if k <= 0 {
            Some(a)
        } else {
            match self.spec_run_prefix(a, k - 1) {
                Some(s) => self.spec_step(s, k - 1),
                None => None,
            }
        }
    }

    /// Arena contents after the whole pre-planned execution sequence ran
    /// on the current arena, or `None` when an operator failed.
    pub open spec fn spec_run(&self) -> Option<Seq<u8>> {
        self.spec_run_prefix(self.spec_arena(), self.spec_num_ops())
    }

    /// Once one operator fails, the whole run fails.
    proof fn lemma_run_prefix_none(&self, a: Seq<u8>, k: int, m: int)
        requires
            self.spec_run_prefix(a, k) is None,
            0 <= k <= m,
        ensures
            self.spec_run_prefix(a, m) is None,
        decreases m - k,
    {
        if k < m {
            self.lemma_run_prefix_none(a, k, m - 1);
        }
    }

    /// Clones data into the `n`th input tensor.
    ///
    /// `n` must be a valid input index and the element type `T` the
    /// caller picks must match the tensor's declared element type. The
    /// call fails with [`Error::InputDataLenMismatch`] exactly when
    /// `data` does not hold one element per declared tensor element; on
    /// success the data's little-endian byte image overwrites the
    /// tensor's arena region in place, and nothing else changes.
    pub fn input<T: ElemTypeOf>(&mut self, n: usize, data: &[T]) -> (r: Result<(), Error>)
        requires
            n < old(self).spec_num_inputs(),
            T::spec_elem_type() == old(self).spec_input_elem(n as int),
        ensures
            old(self).spec_same_plan(final(self)),
            old(self).spec_input_elem_count(n as int) == dims_product(
                old(self).spec_input_dims(n as int),
            ),
            r is Ok <==> data@.len() == old(self).spec_input_elem_count(n as int),
            data@.len() != old(self).spec_input_elem_count(n as int) ==> r == Err::<(), Error>(
                Error::InputDataLenMismatch,
            ) && final(self).spec_arena() == old(self).spec_arena(),
            data@.len() == old(self).spec_input_elem_count(n as int) ==> r == Ok::<(), Error>(())
                && final(self).spec_arena() == spec_write_region(
                old(self).spec_arena(),
                old(self).spec_input_offset(n as int),
                spec_encode_all(data@),
            ) && final(self).spec_arena().subrange(
                old(self).spec_input_offset(n as int),
                old(self).spec_input_offset(n as int) + old(self).spec_input_len(n as int),
            ) == spec_encode_all(data@),
    {
        proof {
            use_type_invariant(&*self);
        }
        let idx = self.inputs[n];
        let count = self.tensors[idx].elem_count;
        let offset = self.tensors[idx].offset;
        let byte_len = self.tensors[idx].byte_len;
        if data.len() != count {
            return Err(Error::InputDataLenMismatch);
        }
        // The copy is in place: element by element, byte by byte, straight
        // into the tensor's arena region, with no staging buffer.
        let size = T::elem_type().byte_size();
        let alen = self.arena.len();
        let ghost a0 = old(self).spec_arena();
        proof {
            assert(byte_len == count * size);
            assert(data@.take(0) =~= Seq::<T>::empty());
            assert(spec_encode_all(data@.take(0)) =~= Seq::<u8>::empty());
            assert(self.arena@ =~= spec_write_region(
                a0,
                offset as int,
                spec_encode_all(data@.take(0)),
            ));
        }
        let mut i: usize = 0;
        while i < count
            invariant
                i <= count,
                count == data@.len(),
                size == T::spec_elem_type().spec_byte_size(),
                byte_len == count * size,
                offset + byte_len <= alen,
                self.arena@.len() == alen,
                a0 == old(self).spec_arena(),
                a0.len() == alen,
                self.tensors == old(self).tensors,
                self.ops == old(self).ops,
                self.inputs == old(self).inputs,
                self.outputs == old(self).outputs,
                self.arena_used == old(self).arena_used,
                self.arena@ == spec_write_region(
                    a0,
                    offset as int,
                    spec_encode_all(data@.take(i as int)),
                ),
            decreases count - i,
        {
            let x = data[i];
            proof {
                lemma_encode_all_len::<T>(data@.take(i as int));
                x.lemma_to_bytes_len();
                assert((i + 1) * size as int <= count * size as int) by (nonlinear_arith)
                    requires
                        i < count,
                        size >= 0,
                ;
                assert(i * size as int + size as int == (i + 1) * size as int)
                    by (nonlinear_arith);
            }
            let base = offset + i * size;
            let ghost prefix = spec_encode_all(data@.take(i as int));
            proof {
                assert(x.spec_to_bytes().take(0) =~= Seq::<u8>::empty());
                assert(prefix + x.spec_to_bytes().take(0) =~= prefix);
            }
            let mut p: usize = 0;
            while p < size
                invariant
                    p <= size,
                    i < count,
                    count == data@.len(),
                    size == T::spec_elem_type().spec_byte_size(),
                    byte_len == count * size,
                    offset + byte_len <= alen,
                    base == offset + i * size,
                    base + size <= offset + byte_len,
                    x == data@[i as int],
                    x.spec_to_bytes().len() == size,
                    prefix == spec_encode_all(data@.take(i as int)),
                    prefix.len() == i * size,
                    self.arena@.len() == alen,
                    a0 == old(self).spec_arena(),
                    a0.len() == alen,
                    self.tensors == old(self).tensors,
                    self.ops == old(self).ops,
                    self.inputs == old(self).inputs,
                    self.outputs == old(self).outputs,
                    self.arena_used == old(self).arena_used,
                    self.arena@ == spec_write_region(
                        a0,
                        offset as int,
                        prefix + x.spec_to_bytes().take(p as int),
                    ),
                decreases size - p,
            {
                proof {
                    use_type_invariant(&*self);
                }
                let v = x.byte_of(p);
                self.arena[base + p] = v;
                proof {
                    assert(self.arena@ =~= spec_write_region(
                        a0,
                        offset as int,
                        prefix + x.spec_to_bytes().take(p + 1),
                    ));
                }
                p = p + 1;
            }
            proof {
                assert(x.spec_to_bytes().take(size as int) =~= x.spec_to_bytes());
                assert(data@.take(i + 1).drop_last() =~= data@.take(i as int));
                assert(data@.take(i + 1).last() == data@[i as int]);
            }
            i = i + 1;
        }
        proof {
            assert(data@.take(count as int) =~= data@);
            lemma_encode_all_len::<T>(data@);
            assert(self.arena@.subrange(offset as int, offset + byte_len) =~= spec_encode_all(
                data@,
            ));
        }
        Ok(())
    }

    /// Runs the pre-planned operator sequence, transforming the arena's
    /// input tensors into its output tensors in place.
    ///
    /// Succeeds exactly when every operator's kernel applies (see
    /// [`MicroInterpreter::spec_kernel_output`]); then the arena holds
    /// the run's result. Execution stops at the first failing operator;
    /// nothing is rolled back, so output contents after a failure are
    /// unspecified.
    pub fn invoke(&mut self) -> (r: Result<(), Status>)
        ensures
            old(self).spec_same_plan(final(self)),
            r is Ok <==> old(self).spec_run() is Some,
            old(self).spec_run() matches Some(a) ==> final(self).spec_arena() == a,
            r matches Err(s) ==> s == Status::Error,
    {
        proof {
            use_type_invariant(&*self);
        }
        let ghost a0 = self.arena@;
        let n_ops = self.ops.len();
        let mut k: usize = 0;
        while k < n_ops
            invariant
                k <= n_ops,
                n_ops == self.ops@.len(),
                self.tensors == old(self).tensors,
                self.ops == old(self).ops,
                self.inputs == old(self).inputs,
                self.outputs == old(self).outputs,
                self.arena_used == old(self).arena_used,
                a0 == old(self).spec_arena(),
                self.arena@.len() == a0.len(),
                old(self).spec_run_prefix(a0, k as int) == Some(self.arena@),
            decreases n_ops - k,
        {
            proof {
                use_type_invariant(&*self);
            }
            let op = self.ops[k];
            let in_off = self.tensors[op.input].offset;
            let in_len = self.tensors[op.input].byte_len;
            let in_elem = self.tensors[op.input].element_type;
            let in_count = self.tensors[op.input].elem_count;
            let out_off = self.tensors[op.output].offset;
            let out_len = self.tensors[op.output].byte_len;
            let out_elem = self.tensors[op.output].element_type;
            let out_count = self.tensors[op.output].elem_count;
            let ghost ak = self.arena@;
            match op.code {
                OpCode::Reshape => {
                    if in_elem == out_elem && in_count == out_count {
                        proof {
                            assert(in_len == out_len);
                        }
                        kernel_copy(&mut self.arena, in_off, out_off, in_len);
                        proof {
                            assert(old(self).spec_step(ak, k as int) == Some(self.arena@));
                        }
                    } else {
                        proof {
                            assert(old(self).spec_step(ak, k as int) is None);
                            old(self).lemma_run_prefix_none(a0, k + 1, n_ops as int);
                        }
                        return Err(Status::Error);
                    }
                },
                OpCode::ZerosLike => {
                    if in_elem == out_elem && in_count == out_count {
                        kernel_zero(&mut self.arena, out_off, out_len);
                        proof {
                            assert(old(self).spec_step(ak, k as int) == Some(self.arena@));
                        }
                    } else {
                        proof {
                            assert(old(self).spec_step(ak, k as int) is None);
                            old(self).lemma_run_prefix_none(a0, k + 1, n_ops as int);
                        }
                        return Err(Status::Error);
                    }
                },
                OpCode::Abs => {
                    if in_elem == ElementType::Int8 && out_elem == ElementType::Int8 && in_count
                        == out_count {
                        proof {
                            assert(in_len == out_len);
                        }
                        kernel_abs(&mut self.arena, in_off, out_off, in_len);
                        proof {
                            assert(old(self).spec_step(ak, k as int) == Some(self.arena@));
                        }
                    } else {
                        proof {
                            assert(old(self).spec_step(ak, k as int) is None);
                            old(self).lemma_run_prefix_none(a0, k + 1, n_ops as int);
                        }
                        return Err(Status::Error);
                    }
                },
                OpCode::ArgMax => {
                    if in_elem == ElementType::Int8 && out_elem == ElementType::Int32 && out_count
                        == 1 {
                        proof {
                            assert(op.input != op.output);
                            assert(in_len == in_count);
                            assert(out_len == 4);
                        }
                        kernel_argmax(&mut self.arena, in_off, in_len, out_off);
                        proof {
                            assert(old(self).spec_step(ak, k as int) == Some(self.arena@));
                        }
                    } else {
                        proof {
                            assert(old(self).spec_step(ak, k as int) is None);
                            old(self).lemma_run_prefix_none(a0, k + 1, n_ops as int);
                        }
                        return Err(Status::Error);
                    }
                },
                _ => {
                    proof {
                        assert(old(self).spec_step(ak, k as int) is None);
                        old(self).lemma_run_prefix_none(a0, k + 1, n_ops as int);
                    }
                    return Err(Status::Error);
                },
            }
            k = k + 1;
        }
        Ok(())
    }

    /// Returns a read view of the `n`th output tensor, valid until the
    /// next call that changes the arena. `n` must be a valid output
    /// index.
    pub fn output(&self, n: usize) -> (t: Tensor<'_>)
        requires
            n < self.spec_num_outputs(),
        ensures
            t.spec_element_type() == self.spec_output_elem(n as int),
            t.spec_dims() == self.spec_output_dims(n as int),
            self.spec_output_len(n as int) == dims_product(self.spec_output_dims(n as int))
                * self.spec_output_elem(n as int).spec_byte_size(),
            t.spec_data() == self.spec_arena().subrange(
                self.spec_output_offset(n as int),
                self.spec_output_offset(n as int) + self.spec_output_len(n as int),
            ),
    {
        proof {
            use_type_invariant(self);
        }
        let idx = self.outputs[n];
        let alen = self.arena.len();
        let t = &self.tensors[idx];
        let data = vstd::slice::slice_subrange(
            self.arena.as_slice(),
            t.offset,
            t.offset + t.byte_len,
        );
        Tensor::new_view(t.element_type, t.dims.as_slice(), data)
    }

    /// Returns the element type and dimensions of the `n`th input tensor.
    /// `n` must be a valid input index.
    pub fn input_info(&self, n: usize) -> (r: TensorInfo<'_>)
        requires
            n < self.spec_num_inputs(),
        ensures
            r.element_type == self.spec_input_elem(n as int),
            r.dims@ == self.spec_input_dims(n as int),
    {
        proof {
            use_type_invariant(self);
        }
        let idx = self.inputs[n];
        let t = &self.tensors[idx];
        TensorInfo { element_type: t.element_type, dims: t.dims.as_slice() }
    }

    /// Bytes of the arena actually consumed by the allocation plan;
    /// never more than the arena itself.
    pub fn arena_used_bytes(&self) -> (r: usize)
        ensures
            r == self.spec_arena_used(),
            r <= self.spec_arena().len(),
    {
        proof {
            use_type_invariant(self);
        }
        self.arena_used
    }
}

/// Copies a region of the arena onto another, non-overlapping (or
/// identical) region.
fn kernel_copy(arena: &mut Vec<u8>, src: usize, dst: usize, len: usize)
    requires
        src + len <= old(arena)@.len(),
        dst + len <= old(arena)@.len(),
        src == dst || src + len <= dst || dst + len <= src,
    ensures
        final(arena)@ == spec_write_region(
            old(arena)@,
            dst as int,
            old(arena)@.subrange(src as int, src + len),
        ),
    no_unwind
{
    let n = arena.len();
    proof {
        assert(arena@ =~= spec_write_region(
            old(arena)@,
            dst as int,
            old(arena)@.subrange(src as int, src as int),
        ));
    }
    let mut q: usize = 0;
    while q < len
        invariant
            q <= len,
            old(arena)@.len() == n,
            src + len <= old(arena)@.len(),
            dst + len <= old(arena)@.len(),
            src == dst || src + len <= dst || dst + len <= src,
            arena@.len() == old(arena)@.len(),
            arena@ == spec_write_region(
                old(arena)@,
                dst as int,
                old(arena)@.subrange(src as int, src + q),
            ),
        decreases len - q,
    {
        let v = arena[src + q];
        proof {
            assert(v == old(arena)@[src + q]);
        }
        arena[dst + q] = v;
        proof {
            assert(arena@ =~= spec_write_region(
                old(arena)@,
                dst as int,
                old(arena)@.subrange(src as int, src + q + 1),
            ));
        }
        q = q + 1;
    }
}

/// Writes the saturating absolute value of each signed 8-bit element of
/// one region into another, non-overlapping (or identical) region.
fn kernel_abs(arena: &mut Vec<u8>, src: usize, dst: usize, len: usize)
    requires
        src + len <= old(arena)@.len(),
        dst + len <= old(arena)@.len(),
        src == dst || src + len <= dst || dst + len <= src,
    ensures
        final(arena)@ == spec_write_region(
            old(arena)@,
            dst as int,
            Seq::new(len as nat, |q: int| spec_sat_abs_i8(old(arena)@[src + q] as i8) as u8),
        ),
    no_unwind
{
    let n = arena.len();
    let ghost img = Seq::new(
        len as nat,
        |q: int| spec_sat_abs_i8(old(arena)@[src + q] as i8) as u8,
    );
    proof {
        assert(arena@ =~= spec_write_region(old(arena)@, dst as int, img.take(0)));
    }
    let mut q: usize = 0;
    while q < len
        invariant
            q <= len,
            old(arena)@.len() == n,
            src + len <= old(arena)@.len(),
            dst + len <= old(arena)@.len(),
            src == dst || src + len <= dst || dst + len <= src,
            arena@.len() == old(arena)@.len(),
            img == Seq::new(
                len as nat,
                |p: int| spec_sat_abs_i8(old(arena)@[src + p] as i8) as u8,
            ),
            arena@ == spec_write_region(old(arena)@, dst as int, img.take(q as int)),
        decreases len - q,
    {
        let x = #[verifier::truncate] (arena[src + q] as i8);
        proof {
            assert(arena@[src + q] == old(arena)@[src + q]);
        }
        let y: i8 = if x == -128 {
            127
        } else if x < 0 {
            -x
        } else {
            x
        };
        arena[dst + q] = #[verifier::truncate] (y as u8);
        proof {
            assert(arena@ =~= spec_write_region(old(arena)@, dst as int, img.take(q + 1)));
        }
        q = q + 1;
    }
    proof {
        assert(img.take(len as int) =~= img);
    }
}

/// Fills a region of the arena with zero bytes.
fn kernel_zero(arena: &mut Vec<u8>, dst: usize, len: usize)
    requires
        dst + len <= old(arena)@.len(),
    ensures
        final(arena)@ == spec_write_region(
            old(arena)@,
            dst as int,
            Seq::new(len as nat, |q: int| 0u8),
        ),
    no_unwind
{
    let n = arena.len();
    proof {
        assert(arena@ =~= spec_write_region(old(arena)@, dst as int, Seq::new(0, |q: int| 0u8)));
    }
    let mut q: usize = 0;
    while q < len
        invariant
            q <= len,
            old(arena)@.len() == n,
            dst + len <= old(arena)@.len(),
            arena@.len() == old(arena)@.len(),
            arena@ == spec_write_region(old(arena)@, dst as int, Seq::new(q as nat, |p: int| 0u8)),
        decreases len - q,
    {
        arena[dst + q] = 0;
        proof {
            assert(arena@ =~= spec_write_region(
                old(arena)@,
                dst as int,
                Seq::new((q + 1) as nat, |p: int| 0u8),
            ));
        }
        q = q + 1;
    }
}

/// Scans a signed 8-bit region for the index of its first maximum and
/// writes that index, as a little-endian 32-bit count, to a disjoint
/// 4-byte region.
fn kernel_argmax(arena: &mut Vec<u8>, src: usize, len: usize, dst: usize)
    requires
        1 <= len <= 0x7fffffff,
        src + len <= old(arena)@.len(),
        dst + 4 <= old(arena)@.len(),
        src + len <= dst || dst + 4 <= src,
    ensures
        final(arena)@ == spec_write_region(
            old(arena)@,
            dst as int,
            (spec_argmax_i8(spec_bytes_as_i8(old(arena)@.subrange(src as int, src + len)))
                as i32).spec_to_bytes(),
        ),
    no_unwind
{
    let n = arena.len();
    let ghost s = spec_bytes_as_i8(old(arena)@.subrange(src as int, src + len));
    let mut best: i8 = #[verifier::truncate] (arena[src] as i8);
    let mut best_idx: usize = 0;
    let mut q: usize = 1;
    proof {
        assert(s.len() == len);
        assert(s[0] == best);
        assert(s.take(1).len() == 1);
        assert(spec_argmax_i8(s.take(1)) == 0);
        assert(s.take(1)[0] == s[0]);
    }
    while q < len
        invariant
            1 <= q <= len,
            len <= 0x7fffffff,
            old(arena)@.len() == n,
            src + len <= old(arena)@.len(),
            dst + 4 <= old(arena)@.len(),
            arena@ == old(arena)@,
            s == spec_bytes_as_i8(old(arena)@.subrange(src as int, src + len)),
            s.len() == len,
            best_idx < q,
            best_idx as int == spec_argmax_i8(s.take(q as int)),
            best == s[best_idx as int],
        decreases len - q,
    {
        let v = #[verifier::truncate] (arena[src + q] as i8);
        proof {
            assert(v == s[q as int]);
            assert(s.take(q + 1).drop_last() =~= s.take(q as int));
            assert(s.take(q + 1).last() == s[q as int]);
            assert(forall|p: int| 0 <= p < q ==> s.take(q + 1)[p] == s.take(q as int)[p]);
        }
        if v > best {
            best = v;
            best_idx = q;
        }
        q = q + 1;
    }
    proof {
        assert(s.take(len as int) =~= s);
    }
    let u = best_idx as u32;
    let ghost x = spec_argmax_i8(s) as i32;
    proof {
        assert(x as u32 == u);
    }
    let b0 = #[verifier::truncate] ((u & 0xff) as u8);
    let b1 = #[verifier::truncate] (((u >> 8) & 0xff) as u8);
    let b2 = #[verifier::truncate] (((u >> 16) & 0xff) as u8);
    let b3 = #[verifier::truncate] (((u >> 24) & 0xff) as u8);
    arena[dst] = b0;
    arena[dst + 1] = b1;
    arena[dst + 2] = b2;
    arena[dst + 3] = b3;
    proof {
        assert(x.spec_to_bytes().len() == 4);
        assert(arena@ =~= spec_write_region(old(arena)@, dst as int, x.spec_to_bytes()));
    }
}

/// Whether the enabled set contains the given operator.
fn contains_op(v: &Vec<OpCode>, c: OpCode) -> (r: bool)
    ensures
        r == v@.contains(c),
{
    let mut i: usize = 0;
    while i < v.len()
        invariant
            i <= v@.len(),
            forall|m: int| 0 <= m < i ==> v@[m] != c,
        decreases v@.len() - i,
    {
        if v[i] == c {
            return true;
        }
        i = i + 1;
    }
    false
}

} // verus!

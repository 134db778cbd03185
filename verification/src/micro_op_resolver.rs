//! The operator registry: a capacity-bounded, append-only selection of
//! compute kernels, built up in a chained builder style and then consumed
//! by an interpreter.

use vstd::prelude::*;

verus! {

/// The fixed maximum number of operator registrations one resolver holds.
pub const TFLITE_REGISTRATIONS_MAX: usize = 128;

/// Identifies one compute kernel that can be enabled in a resolver.
#[derive(Clone, Copy, Debug, PartialEq, Eq, Structural)]
pub enum OpCode {
    Abs,
    Add,
    AddN,
    ArgMax,
    ArgMin,
    AssignVariable,
    AveragePool2D,
    BatchMatMul,
    BatchToSpaceNd,
    BroadcastArgs,
    BroadcastTo,
    CallOnce,
    Cast,
    Ceil,
    CircularBuffer,
    Concatenation,
    Conv2D,
    Cos,
    CumSum,
    Delay,
    DepthToSpace,
    DepthwiseConv2D,
    Dequantize,
    DetectionPostprocess,
    Div,
    EmbeddingLookup,
    Energy,
    Elu,
    Equal,
    EthosU,
    Exp,
    ExpandDims,
    FftAutoScale,
    Fill,
    FilterBank,
    FilterBankLog,
    FilterBankSquareRoot,
    FilterBankSpectralSubtraction,
    Floor,
    FloorDiv,
    FloorMod,
    Framer,
    FullyConnected,
    Gather,
    GatherNd,
    Greater,
    GreaterEqual,
    HardSwish,
    If,
    Irfft,
    L2Normalization,
    L2Pool2D,
    LeakyRelu,
    Less,
    LessEqual,
    Log,
    LogicalAnd,
    LogicalNot,
    LogicalOr,
    Logistic,
    LogSoftmax,
    Maximum,
    MaxPool2D,
    MirrorPad,
    Mean,
    Minimum,
    Mul,
    Neg,
    NotEqual,
    OverlapAdd,
    Pack,
    PadV2,
    Pcan,
    Prelu,
    Quantize,
    ReadVariable,
    ReduceMax,
    Relu,
    Relu6,
    Reshape,
    ResizeBilinear,
    ResizeNearestNeighbor,
    Rfft,
    Round,
    Rsqrt,
    SelectV2,
    Shape,
    Sin,
    Slice,
    Softmax,
    SpaceToBatchNd,
    SpaceToDepth,
    Split,
    SplitV,
    Squeeze,
    Sqrt,
    Square,
    SquaredDifference,
    StridedSlice,
    Stacker,
    Sub,
    Sum,
    Svdf,
    Tanh,
    TransposeConv,
    Unpack,
    UnidirectionalSequenceLstm,
    VarHandle,
    While,
    Window,
    ZerosLike,
}

/// An op resolver that has no operators by default; operators are enabled
/// one by one through the builder methods, in insertion order, up to
/// [`TFLITE_REGISTRATIONS_MAX`] of them.
#[derive(Debug)]
pub struct MutableOpResolver {
    ops: Vec<OpCode>,
    capacity: usize,
}

impl View for MutableOpResolver {
    type V = Seq<OpCode>;

    /// A resolver is abstractly the sequence of operators enabled so far,
    /// in the order they were added.
    closed spec fn view(&self) -> Seq<OpCode> {
        self.ops@
    }
}

impl MutableOpResolver {
    #[verifier::type_invariant]
    spec fn wf(&self) -> bool {
        &&& self.capacity == TFLITE_REGISTRATIONS_MAX
        &&& self.ops@.len() <= TFLITE_REGISTRATIONS_MAX
    }

    /// The enabled operators, handed over to the interpreter that consumes
    /// this resolver.
    pub(crate) fn to_inner(self) -> (r: Vec<OpCode>)
        ensures
            r@ == self@,
    {
        self.ops
    }

    /// Appends one operator; the capacity bound must not yet be reached.
    /// Exceeding it is a configuration error with no recovery, so no call
    /// is possible once `len` equals the capacity.
    pub(crate) fn push_op(self, code: OpCode) -> (r: Self)
        requires
            self@.len() < TFLITE_REGISTRATIONS_MAX,
        ensures
            r@ == self@.push(code),
            r@.len() == self@.len() + 1,
    {
        proof {
            use_type_invariant(&self);
        }
        let MutableOpResolver { mut ops, capacity } = self;
        ops.push(code);
        MutableOpResolver { ops, capacity }
    }

    /// Returns the current number of operators in this resolver. No matter
    /// how the resolver was built, this never exceeds
    /// [`TFLITE_REGISTRATIONS_MAX`].
    pub fn len(&self) -> (r: usize)
        ensures
            r == self@.len(),
            r <= TFLITE_REGISTRATIONS_MAX,
    {
        proof {
            use_type_invariant(&*self);
        }
        self.ops.len()
    }

    /// Return whether there are zero operators.
    pub fn is_empty(&self) -> (r: bool)
        ensures
            r <==> self@.len() == 0,
    {
        self.ops.len() == 0
    }

    /// Create a new MutableOpResolver, initially empty.
    pub fn empty() -> (r: Self)
        ensures
            r@ == Seq::<OpCode>::empty(),
    {
        MutableOpResolver { ops: Vec::new(), capacity: TFLITE_REGISTRATIONS_MAX }
    }
}

impl Default for MutableOpResolver {
    /// Same as [`MutableOpResolver::empty`].
    fn default() -> (r: Self)
        ensures
            r@ == Seq::<OpCode>::empty(),
    {
        MutableOpResolver::empty()
    }
}

} // verus!

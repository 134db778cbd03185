//! Builder methods that enable individual operators in a
//! [`MutableOpResolver`], one method per supported kernel.

use vstd::prelude::*;

use crate::micro_op_resolver::MutableOpResolver;
use crate::micro_op_resolver::OpCode;
use crate::micro_op_resolver::TFLITE_REGISTRATIONS_MAX;

verus! {

impl MutableOpResolver {
    /// Use the Abs operator in this op resolver.
    pub fn add_abs(self) -> (r: Self)
        requires
            self@.len() < TFLITE_REGISTRATIONS_MAX,
        ensures
            r@ == self@.push(OpCode::Abs),
            r@.len() == self@.len() + 1,
    {
        self.push_op(OpCode::Abs)
    }

    /// Use the Add operator in this op resolver.
    pub fn add_add(self) -> (r: Self)
        requires
            self@.len() < TFLITE_REGISTRATIONS_MAX,
        ensures
            r@ == self@.push(OpCode::Add),
            r@.len() == self@.len() + 1,
    {
        self.push_op(OpCode::Add)
    }

    /// Use the AddN operator in this op resolver.
    pub fn add_add_n(self) -> (r: Self)
        requires
            self@.len() < TFLITE_REGISTRATIONS_MAX,
        ensures
            r@ == self@.push(OpCode::AddN),
            r@.len() == self@.len() + 1,
    {
        self.push_op(OpCode::AddN)
    }

    /// Use the ArgMax operator in this op resolver.
    pub fn add_argmax(self) -> (r: Self)
        requires
            self@.len() < TFLITE_REGISTRATIONS_MAX,
        ensures
            r@ == self@.push(OpCode::ArgMax),
            r@.len() == self@.len() + 1,
    {
        self.push_op(OpCode::ArgMax)
    }

    /// Use the ArgMin operator in this op resolver.
    pub fn add_argmin(self) -> (r: Self)
        requires
            self@.len() < TFLITE_REGISTRATIONS_MAX,
        ensures
            r@ == self@.push(OpCode::ArgMin),
            r@.len() == self@.len() + 1,
    {
        self.push_op(OpCode::ArgMin)
    }

    /// Use the AssignVariable operator in this op resolver.
    pub fn add_assign_variable(self) -> (r: Self)
        requires
            self@.len() < TFLITE_REGISTRATIONS_MAX,
        ensures
            r@ == self@.push(OpCode::AssignVariable),
            r@.len() == self@.len() + 1,
    {
        self.push_op(OpCode::AssignVariable)
    }

    /// Use the AveragePool2D operator in this op resolver.
    pub fn add_average_pool_2d(self) -> (r: Self)
        requires
            self@.len() < TFLITE_REGISTRATIONS_MAX,
        ensures
            r@ == self@.push(OpCode::AveragePool2D),
            r@.len() == self@.len() + 1,
    {
        self.push_op(OpCode::AveragePool2D)
    }

    /// Use the BatchMatMul operator in this op resolver.
    pub fn add_batch_mat_mul(self) -> (r: Self)
        requires
            self@.len() < TFLITE_REGISTRATIONS_MAX,
        ensures
            r@ == self@.push(OpCode::BatchMatMul),
            r@.len() == self@.len() + 1,
    {
        self.push_op(OpCode::BatchMatMul)
    }

    /// Use the BatchToSpaceNd operator in this op resolver.
    pub fn add_batch_to_space_nd(self) -> (r: Self)
        requires
            self@.len() < TFLITE_REGISTRATIONS_MAX,
        ensures
            r@ == self@.push(OpCode::BatchToSpaceNd),
            r@.len() == self@.len() + 1,
    {
        self.push_op(OpCode::BatchToSpaceNd)
    }

    /// Use the BroadcastArgs operator in this op resolver.
    pub fn add_broadcast_args(self) -> (r: Self)
        requires
            self@.len() < TFLITE_REGISTRATIONS_MAX,
        ensures
            r@ == self@.push(OpCode::BroadcastArgs),
            r@.len() == self@.len() + 1,
    {
        self.push_op(OpCode::BroadcastArgs)
    }

    /// Use the BroadcastTo operator in this op resolver.
    pub fn add_broadcast_to(self) -> (r: Self)
        requires
            self@.len() < TFLITE_REGISTRATIONS_MAX,
        ensures
            r@ == self@.push(OpCode::BroadcastTo),
            r@.len() == self@.len() + 1,
    {
        self.push_op(OpCode::BroadcastTo)
    }

    /// Use the CallOnce operator in this op resolver.
    pub fn add_call_once(self) -> (r: Self)
        requires
            self@.len() < TFLITE_REGISTRATIONS_MAX,
        ensures
            r@ == self@.push(OpCode::CallOnce),
            r@.len() == self@.len() + 1,
    {
        self.push_op(OpCode::CallOnce)
    }

    /// Use the Cast operator in this op resolver.
    pub fn add_cast(self) -> (r: Self)
        requires
            self@.len() < TFLITE_REGISTRATIONS_MAX,
        ensures
            r@ == self@.push(OpCode::Cast),
            r@.len() == self@.len() + 1,
    {
        self.push_op(OpCode::Cast)
    }

    /// Use the Ceil operator in this op resolver.
    pub fn add_ceil(self) -> (r: Self)
        requires
            self@.len() < TFLITE_REGISTRATIONS_MAX,
        ensures
            r@ == self@.push(OpCode::Ceil),
            r@.len() == self@.len() + 1,
    {
        self.push_op(OpCode::Ceil)
    }

    /// Use the CircularBuffer operator in this op resolver.
    pub fn add_circular_buffer(self) -> (r: Self)
        requires
            self@.len() < TFLITE_REGISTRATIONS_MAX,
        ensures
            r@ == self@.push(OpCode::CircularBuffer),
            r@.len() == self@.len() + 1,
    {
        self.push_op(OpCode::CircularBuffer)
    }

    /// Use the Concatenation operator in this op resolver.
    pub fn add_concatenation(self) -> (r: Self)
        requires
            self@.len() < TFLITE_REGISTRATIONS_MAX,
        ensures
            r@ == self@.push(OpCode::Concatenation),
            r@.len() == self@.len() + 1,
    {
        self.push_op(OpCode::Concatenation)
    }

    /// Use the Conv2D operator in this op resolver.
    pub fn add_conv_2d(self) -> (r: Self)
        requires
            self@.len() < TFLITE_REGISTRATIONS_MAX,
        ensures
            r@ == self@.push(OpCode::Conv2D),
            r@.len() == self@.len() + 1,
    {
        self.push_op(OpCode::Conv2D)
    }

    /// Use the Cos operator in this op resolver.
    pub fn add_cos(self) -> (r: Self)
        requires
            self@.len() < TFLITE_REGISTRATIONS_MAX,
        ensures
            r@ == self@.push(OpCode::Cos),
            r@.len() == self@.len() + 1,
    {
        self.push_op(OpCode::Cos)
    }

    /// Use the CumSum operator in this op resolver.
    pub fn add_cum_sum(self) -> (r: Self)
        requires
            self@.len() < TFLITE_REGISTRATIONS_MAX,
        ensures
            r@ == self@.push(OpCode::CumSum),
            r@.len() == self@.len() + 1,
    {
        self.push_op(OpCode::CumSum)
    }

    /// Use the Delay operator in this op resolver.
    pub fn add_delay(self) -> (r: Self)
        requires
            self@.len() < TFLITE_REGISTRATIONS_MAX,
        ensures
            r@ == self@.push(OpCode::Delay),
            r@.len() == self@.len() + 1,
    {
        self.push_op(OpCode::Delay)
    }

    /// Use the DepthToSpace operator in this op resolver.
    pub fn add_depth_to_space(self) -> (r: Self)
        requires
            self@.len() < TFLITE_REGISTRATIONS_MAX,
        ensures
            r@ == self@.push(OpCode::DepthToSpace),
            r@.len() == self@.len() + 1,
    {
        self.push_op(OpCode::DepthToSpace)
    }

    /// Use the DepthwiseConv2D operator in this op resolver.
    pub fn add_depthwise_conv_2d(self) -> (r: Self)
        requires
            self@.len() < TFLITE_REGISTRATIONS_MAX,
        ensures
            r@ == self@.push(OpCode::DepthwiseConv2D),
            r@.len() == self@.len() + 1,
    {
        self.push_op(OpCode::DepthwiseConv2D)
    }

    /// Use the Dequantize operator in this op resolver.
    pub fn add_dequantize(self) -> (r: Self)
        requires
            self@.len() < TFLITE_REGISTRATIONS_MAX,
        ensures
            r@ == self@.push(OpCode::Dequantize),
            r@.len() == self@.len() + 1,
    {
        self.push_op(OpCode::Dequantize)
    }

    /// Use the DetectionPostprocess operator in this op resolver.
    pub fn add_detection_postprocess(self) -> (r: Self)
        requires
            self@.len() < TFLITE_REGISTRATIONS_MAX,
        ensures
            r@ == self@.push(OpCode::DetectionPostprocess),
            r@.len() == self@.len() + 1,
    {
        self.push_op(OpCode::DetectionPostprocess)
    }

    /// Use the Div operator in this op resolver.
    pub fn add_div(self) -> (r: Self)
        requires
            self@.len() < TFLITE_REGISTRATIONS_MAX,
        ensures
            r@ == self@.push(OpCode::Div),
            r@.len() == self@.len() + 1,
    {
        self.push_op(OpCode::Div)
    }

    /// Use the EmbeddingLookup operator in this op resolver.
    pub fn add_embedding_lookup(self) -> (r: Self)
        requires
            self@.len() < TFLITE_REGISTRATIONS_MAX,
        ensures
            r@ == self@.push(OpCode::EmbeddingLookup),
            r@.len() == self@.len() + 1,
    {
        self.push_op(OpCode::EmbeddingLookup)
    }

    /// Use the Energy operator in this op resolver.
    pub fn add_energy(self) -> (r: Self)
        requires
            self@.len() < TFLITE_REGISTRATIONS_MAX,
        ensures
            r@ == self@.push(OpCode::Energy),
            r@.len() == self@.len() + 1,
    {
        self.push_op(OpCode::Energy)
    }

    /// Use the Elu operator in this op resolver.
    pub fn add_elu(self) -> (r: Self)
        requires
            self@.len() < TFLITE_REGISTRATIONS_MAX,
        ensures
            r@ == self@.push(OpCode::Elu),
            r@.len() == self@.len() + 1,
    {
        self.push_op(OpCode::Elu)
    }

    /// Use the Equal operator in this op resolver.
    pub fn add_equal(self) -> (r: Self)
        requires
            self@.len() < TFLITE_REGISTRATIONS_MAX,
        ensures
            r@ == self@.push(OpCode::Equal),
            r@.len() == self@.len() + 1,
    {
        self.push_op(OpCode::Equal)
    }

    /// Use the EthosU operator in this op resolver.
    pub fn add_ethos_u(self) -> (r: Self)
        requires
            self@.len() < TFLITE_REGISTRATIONS_MAX,
        ensures
            r@ == self@.push(OpCode::EthosU),
            r@.len() == self@.len() + 1,
    {
        self.push_op(OpCode::EthosU)
    }

    /// Use the Exp operator in this op resolver.
    pub fn add_exp(self) -> (r: Self)
        requires
            self@.len() < TFLITE_REGISTRATIONS_MAX,
        ensures
            r@ == self@.push(OpCode::Exp),
            r@.len() == self@.len() + 1,
    {
        self.push_op(OpCode::Exp)
    }

    /// Use the ExpandDims operator in this op resolver.
    pub fn add_expand_dims(self) -> (r: Self)
        requires
            self@.len() < TFLITE_REGISTRATIONS_MAX,
        ensures
            r@ == self@.push(OpCode::ExpandDims),
            r@.len() == self@.len() + 1,
    {
        self.push_op(OpCode::ExpandDims)
    }

    /// Use the FftAutoScale operator in this op resolver.
    pub fn add_fft_auto_scale(self) -> (r: Self)
        requires
            self@.len() < TFLITE_REGISTRATIONS_MAX,
        ensures
            r@ == self@.push(OpCode::FftAutoScale),
            r@.len() == self@.len() + 1,
    {
        self.push_op(OpCode::FftAutoScale)
    }

    /// Use the Fill operator in this op resolver.
    pub fn add_fill(self) -> (r: Self)
        requires
            self@.len() < TFLITE_REGISTRATIONS_MAX,
        ensures
            r@ == self@.push(OpCode::Fill),
            r@.len() == self@.len() + 1,
    {
        self.push_op(OpCode::Fill)
    }

    /// Use the FilterBank operator in this op resolver.
    pub fn add_filter_bank(self) -> (r: Self)
        requires
            self@.len() < TFLITE_REGISTRATIONS_MAX,
        ensures
            r@ == self@.push(OpCode::FilterBank),
            r@.len() == self@.len() + 1,
    {
        self.push_op(OpCode::FilterBank)
    }

    /// Use the FilterBankLog operator in this op resolver.
    pub fn add_filter_bank_log(self) -> (r: Self)
        requires
            self@.len() < TFLITE_REGISTRATIONS_MAX,
        ensures
            r@ == self@.push(OpCode::FilterBankLog),
            r@.len() == self@.len() + 1,
    {
        self.push_op(OpCode::FilterBankLog)
    }

    /// Use the FilterBankSquareRoot operator in this op resolver.
    pub fn add_filter_bank_square_root(self) -> (r: Self)
        requires
            self@.len() < TFLITE_REGISTRATIONS_MAX,
        ensures
            r@ == self@.push(OpCode::FilterBankSquareRoot),
            r@.len() == self@.len() + 1,
    {
        self.push_op(OpCode::FilterBankSquareRoot)
    }

    /// Use the FilterBankSpectralSubtraction operator in this op resolver.
    pub fn add_filter_bank_spectral_subtraction(self) -> (r: Self)
        requires
            self@.len() < TFLITE_REGISTRATIONS_MAX,
        ensures
            r@ == self@.push(OpCode::FilterBankSpectralSubtraction),
            r@.len() == self@.len() + 1,
    {
        self.push_op(OpCode::FilterBankSpectralSubtraction)
    }

    /// Use the Floor operator in this op resolver.
    pub fn add_floor(self) -> (r: Self)
        requires
            self@.len() < TFLITE_REGISTRATIONS_MAX,
        ensures
            r@ == self@.push(OpCode::Floor),
            r@.len() == self@.len() + 1,
    {
        self.push_op(OpCode::Floor)
    }

    /// Use the FloorDiv operator in this op resolver.
    pub fn add_floor_div(self) -> (r: Self)
        requires
            self@.len() < TFLITE_REGISTRATIONS_MAX,
        ensures
            r@ == self@.push(OpCode::FloorDiv),
            r@.len() == self@.len() + 1,
    {
        self.push_op(OpCode::FloorDiv)
    }

    /// Use the FloorMod operator in this op resolver.
    pub fn add_floor_mod(self) -> (r: Self)
        requires
            self@.len() < TFLITE_REGISTRATIONS_MAX,
        ensures
            r@ == self@.push(OpCode::FloorMod),
            r@.len() == self@.len() + 1,
    {
        self.push_op(OpCode::FloorMod)
    }

    /// Use the Framer operator in this op resolver.
    pub fn add_framer(self) -> (r: Self)
        requires
            self@.len() < TFLITE_REGISTRATIONS_MAX,
        ensures
            r@ == self@.push(OpCode::Framer),
            r@.len() == self@.len() + 1,
    {
        self.push_op(OpCode::Framer)
    }

    /// Use the FullyConnected operator in this op resolver.
    pub fn add_fully_connected(self) -> (r: Self)
        requires
            self@.len() < TFLITE_REGISTRATIONS_MAX,
        ensures
            r@ == self@.push(OpCode::FullyConnected),
            r@.len() == self@.len() + 1,
    {
        self.push_op(OpCode::FullyConnected)
    }

    /// Use the Gather operator in this op resolver.
    pub fn add_gather(self) -> (r: Self)
        requires
            self@.len() < TFLITE_REGISTRATIONS_MAX,
        ensures
            r@ == self@.push(OpCode::Gather),
            r@.len() == self@.len() + 1,
    {
        self.push_op(OpCode::Gather)
    }

    /// Use the GatherNd operator in this op resolver.
    pub fn add_gather_nd(self) -> (r: Self)
        requires
            self@.len() < TFLITE_REGISTRATIONS_MAX,
        ensures
            r@ == self@.push(OpCode::GatherNd),
            r@.len() == self@.len() + 1,
    {
        self.push_op(OpCode::GatherNd)
    }

    /// Use the Greater operator in this op resolver.
    pub fn add_greater(self) -> (r: Self)
        requires
            self@.len() < TFLITE_REGISTRATIONS_MAX,
        ensures
            r@ == self@.push(OpCode::Greater),
            r@.len() == self@.len() + 1,
    {
        self.push_op(OpCode::Greater)
    }

    /// Use the GreaterEqual operator in this op resolver.
    pub fn add_greater_equal(self) -> (r: Self)
        requires
            self@.len() < TFLITE_REGISTRATIONS_MAX,
        ensures
            r@ == self@.push(OpCode::GreaterEqual),
            r@.len() == self@.len() + 1,
    {
        self.push_op(OpCode::GreaterEqual)
    }

    /// Use the HardSwish operator in this op resolver.
    pub fn add_hard_swish(self) -> (r: Self)
        requires
            self@.len() < TFLITE_REGISTRATIONS_MAX,
        ensures
            r@ == self@.push(OpCode::HardSwish),
            r@.len() == self@.len() + 1,
    {
        self.push_op(OpCode::HardSwish)
    }

    /// Use the If operator in this op resolver.
    pub fn add_if(self) -> (r: Self)
        requires
            self@.len() < TFLITE_REGISTRATIONS_MAX,
        ensures
            r@ == self@.push(OpCode::If),
            r@.len() == self@.len() + 1,
    {
        self.push_op(OpCode::If)
    }

    /// Use the Irfft operator in this op resolver.
    pub fn add_irfft(self) -> (r: Self)
        requires
            self@.len() < TFLITE_REGISTRATIONS_MAX,
        ensures
            r@ == self@.push(OpCode::Irfft),
            r@.len() == self@.len() + 1,
    {
        self.push_op(OpCode::Irfft)
    }

    /// Use the L2Normalization operator in this op resolver.
    pub fn add_l2_normalization(self) -> (r: Self)
        requires
            self@.len() < TFLITE_REGISTRATIONS_MAX,
        ensures
            r@ == self@.push(OpCode::L2Normalization),
            r@.len() == self@.len() + 1,
    {
        self.push_op(OpCode::L2Normalization)
    }

    /// Use the L2Pool2D operator in this op resolver.
    pub fn add_l2_pool_2d(self) -> (r: Self)
        requires
            self@.len() < TFLITE_REGISTRATIONS_MAX,
        ensures
            r@ == self@.push(OpCode::L2Pool2D),
            r@.len() == self@.len() + 1,
    {
        self.push_op(OpCode::L2Pool2D)
    }

    /// Use the LeakyRelu operator in this op resolver.
    pub fn add_leaky_relu(self) -> (r: Self)
        requires
            self@.len() < TFLITE_REGISTRATIONS_MAX,
        ensures
            r@ == self@.push(OpCode::LeakyRelu),
            r@.len() == self@.len() + 1,
    {
        self.push_op(OpCode::LeakyRelu)
    }

    /// Use the Less operator in this op resolver.
    pub fn add_less(self) -> (r: Self)
        requires
            self@.len() < TFLITE_REGISTRATIONS_MAX,
        ensures
            r@ == self@.push(OpCode::Less),
            r@.len() == self@.len() + 1,
    {
        self.push_op(OpCode::Less)
    }

    /// Use the LessEqual operator in this op resolver.
    pub fn add_less_equal(self) -> (r: Self)
        requires
            self@.len() < TFLITE_REGISTRATIONS_MAX,
        ensures
            r@ == self@.push(OpCode::LessEqual),
            r@.len() == self@.len() + 1,
    {
        self.push_op(OpCode::LessEqual)
    }

    /// Use the Log operator in this op resolver.
    pub fn add_log(self) -> (r: Self)
        requires
            self@.len() < TFLITE_REGISTRATIONS_MAX,
        ensures
            r@ == self@.push(OpCode::Log),
            r@.len() == self@.len() + 1,
    {
        self.push_op(OpCode::Log)
    }

    /// Use the LogicalAnd operator in this op resolver.
    pub fn add_logical_and(self) -> (r: Self)
        requires
            self@.len() < TFLITE_REGISTRATIONS_MAX,
        ensures
            r@ == self@.push(OpCode::LogicalAnd),
            r@.len() == self@.len() + 1,
    {
        self.push_op(OpCode::LogicalAnd)
    }

    /// Use the LogicalNot operator in this op resolver.
    pub fn add_logical_not(self) -> (r: Self)
        requires
            self@.len() < TFLITE_REGISTRATIONS_MAX,
        ensures
            r@ == self@.push(OpCode::LogicalNot),
            r@.len() == self@.len() + 1,
    {
        self.push_op(OpCode::LogicalNot)
    }

    /// Use the LogicalOr operator in this op resolver.
    pub fn add_logical_or(self) -> (r: Self)
        requires
            self@.len() < TFLITE_REGISTRATIONS_MAX,
        ensures
            r@ == self@.push(OpCode::LogicalOr),
            r@.len() == self@.len() + 1,
    {
        self.push_op(OpCode::LogicalOr)
    }

    /// Use the Logistic operator in this op resolver.
    pub fn add_logistic(self) -> (r: Self)
        requires
            self@.len() < TFLITE_REGISTRATIONS_MAX,
        ensures
            r@ == self@.push(OpCode::Logistic),
            r@.len() == self@.len() + 1,
    {
        self.push_op(OpCode::Logistic)
    }

    /// Use the LogSoftmax operator in this op resolver.
    pub fn add_log_softmax(self) -> (r: Self)
        requires
            self@.len() < TFLITE_REGISTRATIONS_MAX,
        ensures
            r@ == self@.push(OpCode::LogSoftmax),
            r@.len() == self@.len() + 1,
    {
        self.push_op(OpCode::LogSoftmax)
    }

    /// Use the Maximum operator in this op resolver.
    pub fn add_maximum(self) -> (r: Self)
        requires
            self@.len() < TFLITE_REGISTRATIONS_MAX,
        ensures
            r@ == self@.push(OpCode::Maximum),
            r@.len() == self@.len() + 1,
    {
        self.push_op(OpCode::Maximum)
    }

    /// Use the MaxPool2D operator in this op resolver.
    pub fn add_max_pool_2d(self) -> (r: Self)
        requires
            self@.len() < TFLITE_REGISTRATIONS_MAX,
        ensures
            r@ == self@.push(OpCode::MaxPool2D),
            r@.len() == self@.len() + 1,
    {
        self.push_op(OpCode::MaxPool2D)
    }

    /// Use the MirrorPad operator in this op resolver.
    pub fn add_mirror_pad(self) -> (r: Self)
        requires
            self@.len() < TFLITE_REGISTRATIONS_MAX,
        ensures
            r@ == self@.push(OpCode::MirrorPad),
            r@.len() == self@.len() + 1,
    {
        self.push_op(OpCode::MirrorPad)
    }

    /// Use the Mean operator in this op resolver.
    pub fn add_mean(self) -> (r: Self)
        requires
            self@.len() < TFLITE_REGISTRATIONS_MAX,
        ensures
            r@ == self@.push(OpCode::Mean),
            r@.len() == self@.len() + 1,
    {
        self.push_op(OpCode::Mean)
    }

    /// Use the Minimum operator in this op resolver.
    pub fn add_minimum(self) -> (r: Self)
        requires
            self@.len() < TFLITE_REGISTRATIONS_MAX,
        ensures
            r@ == self@.push(OpCode::Minimum),
            r@.len() == self@.len() + 1,
    {
        self.push_op(OpCode::Minimum)
    }

    /// Use the Mul operator in this op resolver.
    pub fn add_mul(self) -> (r: Self)
        requires
            self@.len() < TFLITE_REGISTRATIONS_MAX,
        ensures
            r@ == self@.push(OpCode::Mul),
            r@.len() == self@.len() + 1,
    {
        self.push_op(OpCode::Mul)
    }

    /// Use the Neg operator in this op resolver.
    pub fn add_neg(self) -> (r: Self)
        requires
            self@.len() < TFLITE_REGISTRATIONS_MAX,
        ensures
            r@ == self@.push(OpCode::Neg),
            r@.len() == self@.len() + 1,
    {
        self.push_op(OpCode::Neg)
    }

    /// Use the NotEqual operator in this op resolver.
    pub fn add_not_equal(self) -> (r: Self)
        requires
            self@.len() < TFLITE_REGISTRATIONS_MAX,
        ensures
            r@ == self@.push(OpCode::NotEqual),
            r@.len() == self@.len() + 1,
    {
        self.push_op(OpCode::NotEqual)
    }

    /// Use the OverlapAdd operator in this op resolver.
    pub fn add_overlap_add(self) -> (r: Self)
        requires
            self@.len() < TFLITE_REGISTRATIONS_MAX,
        ensures
            r@ == self@.push(OpCode::OverlapAdd),
            r@.len() == self@.len() + 1,
    {
        self.push_op(OpCode::OverlapAdd)
    }

    /// Use the Pack operator in this op resolver.
    pub fn add_pack(self) -> (r: Self)
        requires
            self@.len() < TFLITE_REGISTRATIONS_MAX,
        ensures
            r@ == self@.push(OpCode::Pack),
            r@.len() == self@.len() + 1,
    {
        self.push_op(OpCode::Pack)
    }

    /// Use the PadV2 operator in this op resolver.
    pub fn add_pad_v2(self) -> (r: Self)
        requires
            self@.len() < TFLITE_REGISTRATIONS_MAX,
        ensures
            r@ == self@.push(OpCode::PadV2),
            r@.len() == self@.len() + 1,
    {
        self.push_op(OpCode::PadV2)
    }

    /// Use the Pcan operator in this op resolver.
    pub fn add_pcan(self) -> (r: Self)
        requires
            self@.len() < TFLITE_REGISTRATIONS_MAX,
        ensures
            r@ == self@.push(OpCode::Pcan),
            r@.len() == self@.len() + 1,
    {
        self.push_op(OpCode::Pcan)
    }

    /// Use the Prelu operator in this op resolver.
    pub fn add_prelu(self) -> (r: Self)
        requires
            self@.len() < TFLITE_REGISTRATIONS_MAX,
        ensures
            r@ == self@.push(OpCode::Prelu),
            r@.len() == self@.len() + 1,
    {
        self.push_op(OpCode::Prelu)
    }

    /// Use the Quantize operator in this op resolver.
    pub fn add_quantize(self) -> (r: Self)
        requires
            self@.len() < TFLITE_REGISTRATIONS_MAX,
        ensures
            r@ == self@.push(OpCode::Quantize),
            r@.len() == self@.len() + 1,
    {
        self.push_op(OpCode::Quantize)
    }

    /// Use the ReadVariable operator in this op resolver.
    pub fn add_read_variable(self) -> (r: Self)
        requires
            self@.len() < TFLITE_REGISTRATIONS_MAX,
        ensures
            r@ == self@.push(OpCode::ReadVariable),
            r@.len() == self@.len() + 1,
    {
        self.push_op(OpCode::ReadVariable)
    }

    /// Use the ReduceMax operator in this op resolver.
    pub fn add_reduce_max(self) -> (r: Self)
        requires
            self@.len() < TFLITE_REGISTRATIONS_MAX,
        ensures
            r@ == self@.push(OpCode::ReduceMax),
            r@.len() == self@.len() + 1,
    {
        self.push_op(OpCode::ReduceMax)
    }

    /// Use the Relu operator in this op resolver.
    pub fn add_relu(self) -> (r: Self)
        requires
            self@.len() < TFLITE_REGISTRATIONS_MAX,
        ensures
            r@ == self@.push(OpCode::Relu),
            r@.len() == self@.len() + 1,
    {
        self.push_op(OpCode::Relu)
    }

    /// Use the Relu6 operator in this op resolver.
    pub fn add_relu6(self) -> (r: Self)
        requires
            self@.len() < TFLITE_REGISTRATIONS_MAX,
        ensures
            r@ == self@.push(OpCode::Relu6),
            r@.len() == self@.len() + 1,
    {
        self.push_op(OpCode::Relu6)
    }

    /// Use the Reshape operator in this op resolver.
    pub fn add_reshape(self) -> (r: Self)
        requires
            self@.len() < TFLITE_REGISTRATIONS_MAX,
        ensures
            r@ == self@.push(OpCode::Reshape),
            r@.len() == self@.len() + 1,
    {
        self.push_op(OpCode::Reshape)
    }

    /// Use the ResizeBilinear operator in this op resolver.
    pub fn add_resize_bilinear(self) -> (r: Self)
        requires
            self@.len() < TFLITE_REGISTRATIONS_MAX,
        ensures
            r@ == self@.push(OpCode::ResizeBilinear),
            r@.len() == self@.len() + 1,
    {
        self.push_op(OpCode::ResizeBilinear)
    }

    /// Use the ResizeNearestNeighbor operator in this op resolver.
    pub fn add_resize_nearest_neighbor(self) -> (r: Self)
        requires
            self@.len() < TFLITE_REGISTRATIONS_MAX,
        ensures
            r@ == self@.push(OpCode::ResizeNearestNeighbor),
            r@.len() == self@.len() + 1,
    {
        self.push_op(OpCode::ResizeNearestNeighbor)
    }

    /// Use the Rfft operator in this op resolver.
    pub fn add_rfft(self) -> (r: Self)
        requires
            self@.len() < TFLITE_REGISTRATIONS_MAX,
        ensures
            r@ == self@.push(OpCode::Rfft),
            r@.len() == self@.len() + 1,
    {
        self.push_op(OpCode::Rfft)
    }

    /// Use the Round operator in this op resolver.
    pub fn add_round(self) -> (r: Self)
        requires
            self@.len() < TFLITE_REGISTRATIONS_MAX,
        ensures
            r@ == self@.push(OpCode::Round),
            r@.len() == self@.len() + 1,
    {
        self.push_op(OpCode::Round)
    }

    /// Use the Rsqrt operator in this op resolver.
    pub fn add_rsqrt(self) -> (r: Self)
        requires
            self@.len() < TFLITE_REGISTRATIONS_MAX,
        ensures
            r@ == self@.push(OpCode::Rsqrt),
            r@.len() == self@.len() + 1,
    {
        self.push_op(OpCode::Rsqrt)
    }

    /// Use the SelectV2 operator in this op resolver.
    pub fn add_select_v2(self) -> (r: Self)
        requires
            self@.len() < TFLITE_REGISTRATIONS_MAX,
        ensures
            r@ == self@.push(OpCode::SelectV2),
            r@.len() == self@.len() + 1,
    {
        self.push_op(OpCode::SelectV2)
    }

    /// Use the Shape operator in this op resolver.
    pub fn add_shape(self) -> (r: Self)
        requires
            self@.len() < TFLITE_REGISTRATIONS_MAX,
        ensures
            r@ == self@.push(OpCode::Shape),
            r@.len() == self@.len() + 1,
    {
        self.push_op(OpCode::Shape)
    }

    /// Use the Sin operator in this op resolver.
    pub fn add_sin(self) -> (r: Self)
        requires
            self@.len() < TFLITE_REGISTRATIONS_MAX,
        ensures
            r@ == self@.push(OpCode::Sin),
            r@.len() == self@.len() + 1,
    {
        self.push_op(OpCode::Sin)
    }

    /// Use the Slice operator in this op resolver.
    pub fn add_slice(self) -> (r: Self)
        requires
            self@.len() < TFLITE_REGISTRATIONS_MAX,
        ensures
            r@ == self@.push(OpCode::Slice),
            r@.len() == self@.len() + 1,
    {
        self.push_op(OpCode::Slice)
    }

    /// Use the Softmax operator in this op resolver.
    pub fn add_softmax(self) -> (r: Self)
        requires
            self@.len() < TFLITE_REGISTRATIONS_MAX,
        ensures
            r@ == self@.push(OpCode::Softmax),
            r@.len() == self@.len() + 1,
    {
        self.push_op(OpCode::Softmax)
    }

    /// Use the SpaceToBatchNd operator in this op resolver.
    pub fn add_space_to_batch_nd(self) -> (r: Self)
        requires
            self@.len() < TFLITE_REGISTRATIONS_MAX,
        ensures
            r@ == self@.push(OpCode::SpaceToBatchNd),
            r@.len() == self@.len() + 1,
    {
        self.push_op(OpCode::SpaceToBatchNd)
    }

    /// Use the SpaceToDepth operator in this op resolver.
    pub fn add_space_to_depth(self) -> (r: Self)
        requires
            self@.len() < TFLITE_REGISTRATIONS_MAX,
        ensures
            r@ == self@.push(OpCode::SpaceToDepth),
            r@.len() == self@.len() + 1,
    {
        self.push_op(OpCode::SpaceToDepth)
    }

    /// Use the Split operator in this op resolver.
    pub fn add_split(self) -> (r: Self)
        requires
            self@.len() < TFLITE_REGISTRATIONS_MAX,
        ensures
            r@ == self@.push(OpCode::Split),
            r@.len() == self@.len() + 1,
    {
        self.push_op(OpCode::Split)
    }

    /// Use the SplitV operator in this op resolver.
    pub fn add_split_v(self) -> (r: Self)
        requires
            self@.len() < TFLITE_REGISTRATIONS_MAX,
        ensures
            r@ == self@.push(OpCode::SplitV),
            r@.len() == self@.len() + 1,
    {
        self.push_op(OpCode::SplitV)
    }

    /// Use the Squeeze operator in this op resolver.
    pub fn add_squeeze(self) -> (r: Self)
        requires
            self@.len() < TFLITE_REGISTRATIONS_MAX,
        ensures
            r@ == self@.push(OpCode::Squeeze),
            r@.len() == self@.len() + 1,
    {
        self.push_op(OpCode::Squeeze)
    }

    /// Use the Sqrt operator in this op resolver.
    pub fn add_sqrt(self) -> (r: Self)
        requires
            self@.len() < TFLITE_REGISTRATIONS_MAX,
        ensures
            r@ == self@.push(OpCode::Sqrt),
            r@.len() == self@.len() + 1,
    {
        self.push_op(OpCode::Sqrt)
    }

    /// Use the Square operator in this op resolver.
    pub fn add_square(self) -> (r: Self)
        requires
            self@.len() < TFLITE_REGISTRATIONS_MAX,
        ensures
            r@ == self@.push(OpCode::Square),
            r@.len() == self@.len() + 1,
    {
        self.push_op(OpCode::Square)
    }

    /// Use the SquaredDifference operator in this op resolver.
    pub fn add_squared_difference(self) -> (r: Self)
        requires
            self@.len() < TFLITE_REGISTRATIONS_MAX,
        ensures
            r@ == self@.push(OpCode::SquaredDifference),
            r@.len() == self@.len() + 1,
    {
        self.push_op(OpCode::SquaredDifference)
    }

    /// Use the StridedSlice operator in this op resolver.
    pub fn add_strided_slice(self) -> (r: Self)
        requires
            self@.len() < TFLITE_REGISTRATIONS_MAX,
        ensures
            r@ == self@.push(OpCode::StridedSlice),
            r@.len() == self@.len() + 1,
    {
        self.push_op(OpCode::StridedSlice)
    }

    /// Use the Stacker operator in this op resolver.
    pub fn add_stacker(self) -> (r: Self)
        requires
            self@.len() < TFLITE_REGISTRATIONS_MAX,
        ensures
            r@ == self@.push(OpCode::Stacker),
            r@.len() == self@.len() + 1,
    {
        self.push_op(OpCode::Stacker)
    }

    /// Use the Sub operator in this op resolver.
    pub fn add_sub(self) -> (r: Self)
        requires
            self@.len() < TFLITE_REGISTRATIONS_MAX,
        ensures
            r@ == self@.push(OpCode::Sub),
            r@.len() == self@.len() + 1,
    {
        self.push_op(OpCode::Sub)
    }

    /// Use the Sum operator in this op resolver.
    pub fn add_sum(self) -> (r: Self)
        requires
            self@.len() < TFLITE_REGISTRATIONS_MAX,
        ensures
            r@ == self@.push(OpCode::Sum),
            r@.len() == self@.len() + 1,
    {
        self.push_op(OpCode::Sum)
    }

    /// Use the Svdf operator in this op resolver.
    pub fn add_svdf(self) -> (r: Self)
        requires
            self@.len() < TFLITE_REGISTRATIONS_MAX,
        ensures
            r@ == self@.push(OpCode::Svdf),
            r@.len() == self@.len() + 1,
    {
        self.push_op(OpCode::Svdf)
    }

    /// Use the Tanh operator in this op resolver.
    pub fn add_tanh(self) -> (r: Self)
        requires
            self@.len() < TFLITE_REGISTRATIONS_MAX,
        ensures
            r@ == self@.push(OpCode::Tanh),
            r@.len() == self@.len() + 1,
    {
        self.push_op(OpCode::Tanh)
    }

    /// Use the TransposeConv operator in this op resolver.
    pub fn add_transpose_conv(self) -> (r: Self)
        requires
            self@.len() < TFLITE_REGISTRATIONS_MAX,
        ensures
            r@ == self@.push(OpCode::TransposeConv),
            r@.len() == self@.len() + 1,
    {
        self.push_op(OpCode::TransposeConv)
    }

    /// Use the Unpack operator in this op resolver.
    pub fn add_unpack(self) -> (r: Self)
        requires
            self@.len() < TFLITE_REGISTRATIONS_MAX,
        ensures
            r@ == self@.push(OpCode::Unpack),
            r@.len() == self@.len() + 1,
    {
        self.push_op(OpCode::Unpack)
    }

    /// Use the UnidirectionalSequenceLstm operator in this op resolver.
    pub fn add_unidirectional_sequence_lstm(self) -> (r: Self)
        requires
            self@.len() < TFLITE_REGISTRATIONS_MAX,
        ensures
            r@ == self@.push(OpCode::UnidirectionalSequenceLstm),
            r@.len() == self@.len() + 1,
    {
        self.push_op(OpCode::UnidirectionalSequenceLstm)
    }

    /// Use the VarHandle operator in this op resolver.
    pub fn add_var_handle(self) -> (r: Self)
        requires
            self@.len() < TFLITE_REGISTRATIONS_MAX,
        ensures
            r@ == self@.push(OpCode::VarHandle),
            r@.len() == self@.len() + 1,
    {
        self.push_op(OpCode::VarHandle)
    }

    /// Use the While operator in this op resolver.
    pub fn add_while(self) -> (r: Self)
        requires
            self@.len() < TFLITE_REGISTRATIONS_MAX,
        ensures
            r@ == self@.push(OpCode::While),
            r@.len() == self@.len() + 1,
    {
        self.push_op(OpCode::While)
    }

    /// Use the Window operator in this op resolver.
    pub fn add_window(self) -> (r: Self)
        requires
            self@.len() < TFLITE_REGISTRATIONS_MAX,
        ensures
            r@ == self@.push(OpCode::Window),
            r@.len() == self@.len() + 1,
    {
        self.push_op(OpCode::Window)
    }

    /// Use the ZerosLike operator in this op resolver.
    pub fn add_zeros_like(self) -> (r: Self)
        requires
            self@.len() < TFLITE_REGISTRATIONS_MAX,
        ensures
            r@ == self@.push(OpCode::ZerosLike),
            r@.len() == self@.len() + 1,
    {
        self.push_op(OpCode::ZerosLike)
    }

}

} // verus!

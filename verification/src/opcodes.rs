//! Numbering of operator codes as they appear in model blobs.

use vstd::prelude::*;

use crate::micro_op_resolver::OpCode;

verus! {

impl OpCode {
    /// The operator denoted by an operator-code word, if any.
    pub open spec fn spec_from_code(c: int) -> Option<OpCode> {
        if c == 1 {
            Some(OpCode::Abs)
        } else if c == 2 {
            Some(OpCode::Add)
        } else if c == 3 {
            Some(OpCode::AddN)
        } else if c == 4 {
            Some(OpCode::ArgMax)
        } else if c == 5 {
            Some(OpCode::ArgMin)
        } else if c == 6 {
            Some(OpCode::AssignVariable)
        } else if c == 7 {
            Some(OpCode::AveragePool2D)
        } else if c == 8 {
            Some(OpCode::BatchMatMul)
        } else if c == 9 {
            Some(OpCode::BatchToSpaceNd)
        } else if c == 10 {
            Some(OpCode::BroadcastArgs)
        } else if c == 11 {
            Some(OpCode::BroadcastTo)
        } else if c == 12 {
            Some(OpCode::CallOnce)
        } else if c == 13 {
            Some(OpCode::Cast)
        } else if c == 14 {
            Some(OpCode::Ceil)
        } else if c == 15 {
            Some(OpCode::CircularBuffer)
        } else if c == 16 {
            Some(OpCode::Concatenation)
        } else if c == 17 {
            Some(OpCode::Conv2D)
        } else if c == 18 {
            Some(OpCode::Cos)
        } else if c == 19 {
            Some(OpCode::CumSum)
        } else if c == 20 {
            Some(OpCode::Delay)
        } else if c == 21 {
            Some(OpCode::DepthToSpace)
        } else if c == 22 {
            Some(OpCode::DepthwiseConv2D)
        } else if c == 23 {
            Some(OpCode::Dequantize)
        } else if c == 24 {
            Some(OpCode::DetectionPostprocess)
        } else if c == 25 {
            Some(OpCode::Div)
        } else if c == 26 {
            Some(OpCode::EmbeddingLookup)
        } else if c == 27 {
            Some(OpCode::Energy)
        } else if c == 28 {
            Some(OpCode::Elu)
        } else if c == 29 {
            Some(OpCode::Equal)
        } else if c == 30 {
            Some(OpCode::EthosU)
        } else if c == 31 {
            Some(OpCode::Exp)
        } else if c == 32 {
            Some(OpCode::ExpandDims)
        } else if c == 33 {
            Some(OpCode::FftAutoScale)
        } else if c == 34 {
            Some(OpCode::Fill)
        } else if c == 35 {
            Some(OpCode::FilterBank)
        } else if c == 36 {
            Some(OpCode::FilterBankLog)
        } else if c == 37 {
            Some(OpCode::FilterBankSquareRoot)
        } else if c == 38 {
            Some(OpCode::FilterBankSpectralSubtraction)
        } else if c == 39 {
            Some(OpCode::Floor)
        } else if c == 40 {
            Some(OpCode::FloorDiv)
        } else if c == 41 {
            Some(OpCode::FloorMod)
        } else if c == 42 {
            Some(OpCode::Framer)
        } else if c == 43 {
            Some(OpCode::FullyConnected)
        } else if c == 44 {
            Some(OpCode::Gather)
        } else if c == 45 {
            Some(OpCode::GatherNd)
        } else if c == 46 {
            Some(OpCode::Greater)
        } else if c == 47 {
            Some(OpCode::GreaterEqual)
        } else if c == 48 {
            Some(OpCode::HardSwish)
        } else if c == 49 {
            Some(OpCode::If)
        } else if c == 50 {
            Some(OpCode::Irfft)
        } else if c == 51 {
            Some(OpCode::L2Normalization)
        } else if c == 52 {
            Some(OpCode::L2Pool2D)
        } else if c == 53 {
            Some(OpCode::LeakyRelu)
        } else if c == 54 {
            Some(OpCode::Less)
        } else if c == 55 {
            Some(OpCode::LessEqual)
        } else if c == 56 {
            Some(OpCode::Log)
        } else if c == 57 {
            Some(OpCode::LogicalAnd)
        } else if c == 58 {
            Some(OpCode::LogicalNot)
        } else if c == 59 {
            Some(OpCode::LogicalOr)
        } else if c == 60 {
            Some(OpCode::Logistic)
        } else if c == 61 {
            Some(OpCode::LogSoftmax)
        } else if c == 62 {
            Some(OpCode::Maximum)
        } else if c == 63 {
            Some(OpCode::MaxPool2D)
        } else if c == 64 {
            Some(OpCode::MirrorPad)
        } else if c == 65 {
            Some(OpCode::Mean)
        } else if c == 66 {
            Some(OpCode::Minimum)
        } else if c == 67 {
            Some(OpCode::Mul)
        } else if c == 68 {
            Some(OpCode::Neg)
        } else if c == 69 {
            Some(OpCode::NotEqual)
        } else if c == 70 {
            Some(OpCode::OverlapAdd)
        } else if c == 71 {
            Some(OpCode::Pack)
        } else if c == 72 {
            Some(OpCode::PadV2)
        } else if c == 73 {
            Some(OpCode::Pcan)
        } else if c == 74 {
            Some(OpCode::Prelu)
        } else if c == 75 {
            Some(OpCode::Quantize)
        } else if c == 76 {
            Some(OpCode::ReadVariable)
        } else if c == 77 {
            Some(OpCode::ReduceMax)
        } else if c == 78 {
            Some(OpCode::Relu)
        } else if c == 79 {
            Some(OpCode::Relu6)
        } else if c == 80 {
            Some(OpCode::Reshape)
        } else if c == 81 {
            Some(OpCode::ResizeBilinear)
        } else if c == 82 {
            Some(OpCode::ResizeNearestNeighbor)
        } else if c == 83 {
            Some(OpCode::Rfft)
        } else if c == 84 {
            Some(OpCode::Round)
        } else if c == 85 {
            Some(OpCode::Rsqrt)
        } else if c == 86 {
            Some(OpCode::SelectV2)
        } else if c == 87 {
            Some(OpCode::Shape)
        } else if c == 88 {
            Some(OpCode::Sin)
        } else if c == 89 {
            Some(OpCode::Slice)
        } else if c == 90 {
            Some(OpCode::Softmax)
        } else if c == 91 {
            Some(OpCode::SpaceToBatchNd)
        } else if c == 92 {
            Some(OpCode::SpaceToDepth)
        } else if c == 93 {
            Some(OpCode::Split)
        } else if c == 94 {
            Some(OpCode::SplitV)
        } else if c == 95 {
            Some(OpCode::Squeeze)
        } else if c == 96 {
            Some(OpCode::Sqrt)
        } else if c == 97 {
            Some(OpCode::Square)
        } else if c == 98 {
            Some(OpCode::SquaredDifference)
        } else if c == 99 {
            Some(OpCode::StridedSlice)
        } else if c == 100 {
            Some(OpCode::Stacker)
        } else if c == 101 {
            Some(OpCode::Sub)
        } else if c == 102 {
            Some(OpCode::Sum)
        } else if c == 103 {
            Some(OpCode::Svdf)
        } else if c == 104 {
            Some(OpCode::Tanh)
        } else if c == 105 {
            Some(OpCode::TransposeConv)
        } else if c == 106 {
            Some(OpCode::Unpack)
        } else if c == 107 {
            Some(OpCode::UnidirectionalSequenceLstm)
        } else if c == 108 {
            Some(OpCode::VarHandle)
        } else if c == 109 {
            Some(OpCode::While)
        } else if c == 110 {
            Some(OpCode::Window)
        } else if c == 111 {
            Some(OpCode::ZerosLike)
        } else {
            None
        }
    }

    /// Maps an operator-code word from a model blob to the operator it
    /// denotes; words outside the table denote no operator.
    pub fn from_code(c: u32) -> (r: Option<OpCode>)
        ensures
            r == OpCode::spec_from_code(c as int),
    {
        if c == 1 {
            Some(OpCode::Abs)
        } else if c == 2 {
            Some(OpCode::Add)
        } else if c == 3 {
            Some(OpCode::AddN)
        } else if c == 4 {
            Some(OpCode::ArgMax)
        } else if c == 5 {
            Some(OpCode::ArgMin)
        } else if c == 6 {
            Some(OpCode::AssignVariable)
        } else if c == 7 {
            Some(OpCode::AveragePool2D)
        } else if c == 8 {
            Some(OpCode::BatchMatMul)
        } else if c == 9 {
            Some(OpCode::BatchToSpaceNd)
        } else if c == 10 {
            Some(OpCode::BroadcastArgs)
        } else if c == 11 {
            Some(OpCode::BroadcastTo)
        } else if c == 12 {
            Some(OpCode::CallOnce)
        } else if c == 13 {
            Some(OpCode::Cast)
        } else if c == 14 {
            Some(OpCode::Ceil)
        } else if c == 15 {
            Some(OpCode::CircularBuffer)
        } else if c == 16 {
            Some(OpCode::Concatenation)
        } else if c == 17 {
            Some(OpCode::Conv2D)
        } else if c == 18 {
            Some(OpCode::Cos)
        } else if c == 19 {
            Some(OpCode::CumSum)
        } else if c == 20 {
            Some(OpCode::Delay)
        } else if c == 21 {
            Some(OpCode::DepthToSpace)
        } else if c == 22 {
            Some(OpCode::DepthwiseConv2D)
        } else if c == 23 {
            Some(OpCode::Dequantize)
        } else if c == 24 {
            Some(OpCode::DetectionPostprocess)
        } else if c == 25 {
            Some(OpCode::Div)
        } else if c == 26 {
            Some(OpCode::EmbeddingLookup)
        } else if c == 27 {
            Some(OpCode::Energy)
        } else if c == 28 {
            Some(OpCode::Elu)
        } else if c == 29 {
            Some(OpCode::Equal)
        } else if c == 30 {
            Some(OpCode::EthosU)
        } else if c == 31 {
            Some(OpCode::Exp)
        } else if c == 32 {
            Some(OpCode::ExpandDims)
        } else if c == 33 {
            Some(OpCode::FftAutoScale)
        } else if c == 34 {
            Some(OpCode::Fill)
        } else if c == 35 {
            Some(OpCode::FilterBank)
        } else if c == 36 {
            Some(OpCode::FilterBankLog)
        } else if c == 37 {
            Some(OpCode::FilterBankSquareRoot)
        } else if c == 38 {
            Some(OpCode::FilterBankSpectralSubtraction)
        } else if c == 39 {
            Some(OpCode::Floor)
        } else if c == 40 {
            Some(OpCode::FloorDiv)
        } else if c == 41 {
            Some(OpCode::FloorMod)
        } else if c == 42 {
            Some(OpCode::Framer)
        } else if c == 43 {
            Some(OpCode::FullyConnected)
        } else if c == 44 {
            Some(OpCode::Gather)
        } else if c == 45 {
            Some(OpCode::GatherNd)
        } else if c == 46 {
            Some(OpCode::Greater)
        } else if c == 47 {
            Some(OpCode::GreaterEqual)
        } else if c == 48 {
            Some(OpCode::HardSwish)
        } else if c == 49 {
            Some(OpCode::If)
        } else if c == 50 {
            Some(OpCode::Irfft)
        } else if c == 51 {
            Some(OpCode::L2Normalization)
        } else if c == 52 {
            Some(OpCode::L2Pool2D)
        } else if c == 53 {
            Some(OpCode::LeakyRelu)
        } else if c == 54 {
            Some(OpCode::Less)
        } else if c == 55 {
            Some(OpCode::LessEqual)
        } else if c == 56 {
            Some(OpCode::Log)
        } else if c == 57 {
            Some(OpCode::LogicalAnd)
        } else if c == 58 {
            Some(OpCode::LogicalNot)
        } else if c == 59 {
            Some(OpCode::LogicalOr)
        } else if c == 60 {
            Some(OpCode::Logistic)
        } else if c == 61 {
            Some(OpCode::LogSoftmax)
        } else if c == 62 {
            Some(OpCode::Maximum)
        } else if c == 63 {
            Some(OpCode::MaxPool2D)
        } else if c == 64 {
            Some(OpCode::MirrorPad)
        } else if c == 65 {
            Some(OpCode::Mean)
        } else if c == 66 {
            Some(OpCode::Minimum)
        } else if c == 67 {
            Some(OpCode::Mul)
        } else if c == 68 {
            Some(OpCode::Neg)
        } else if c == 69 {
            Some(OpCode::NotEqual)
        } else if c == 70 {
            Some(OpCode::OverlapAdd)
        } else if c == 71 {
            Some(OpCode::Pack)
        } else if c == 72 {
            Some(OpCode::PadV2)
        } else if c == 73 {
            Some(OpCode::Pcan)
        } else if c == 74 {
            Some(OpCode::Prelu)
        } else if c == 75 {
            Some(OpCode::Quantize)
        } else if c == 76 {
            Some(OpCode::ReadVariable)
        } else if c == 77 {
            Some(OpCode::ReduceMax)
        } else if c == 78 {
            Some(OpCode::Relu)
        } else if c == 79 {
            Some(OpCode::Relu6)
        } else if c == 80 {
            Some(OpCode::Reshape)
        } else if c == 81 {
            Some(OpCode::ResizeBilinear)
        } else if c == 82 {
            Some(OpCode::ResizeNearestNeighbor)
        } else if c == 83 {
            Some(OpCode::Rfft)
        } else if c == 84 {
            Some(OpCode::Round)
        } else if c == 85 {
            Some(OpCode::Rsqrt)
        } else if c == 86 {
            Some(OpCode::SelectV2)
        } else if c == 87 {
            Some(OpCode::Shape)
        } else if c == 88 {
            Some(OpCode::Sin)
        } else if c == 89 {
            Some(OpCode::Slice)
        } else if c == 90 {
            Some(OpCode::Softmax)
        } else if c == 91 {
            Some(OpCode::SpaceToBatchNd)
        } else if c == 92 {
            Some(OpCode::SpaceToDepth)
        } else if c == 93 {
            Some(OpCode::Split)
        } else if c == 94 {
            Some(OpCode::SplitV)
        } else if c == 95 {
            Some(OpCode::Squeeze)
        } else if c == 96 {
            Some(OpCode::Sqrt)
        } else if c == 97 {
            Some(OpCode::Square)
        } else if c == 98 {
            Some(OpCode::SquaredDifference)
        } else if c == 99 {
            Some(OpCode::StridedSlice)
        } else if c == 100 {
            Some(OpCode::Stacker)
        } else if c == 101 {
            Some(OpCode::Sub)
        } else if c == 102 {
            Some(OpCode::Sum)
        } else if c == 103 {
            Some(OpCode::Svdf)
        } else if c == 104 {
            Some(OpCode::Tanh)
        } else if c == 105 {
            Some(OpCode::TransposeConv)
        } else if c == 106 {
            Some(OpCode::Unpack)
        } else if c == 107 {
            Some(OpCode::UnidirectionalSequenceLstm)
        } else if c == 108 {
            Some(OpCode::VarHandle)
        } else if c == 109 {
            Some(OpCode::While)
        } else if c == 110 {
            Some(OpCode::Window)
        } else if c == 111 {
            Some(OpCode::ZerosLike)
        } else {
            None
        }
    }

    /// The operator-code word that denotes this operator in a model
    /// blob; decoding it yields this operator again.
    pub fn code(self) -> (r: u32)
        ensures
            OpCode::spec_from_code(r as int) == Some(self),
    {
        match self {
            OpCode::Abs => 1,
            OpCode::Add => 2,
            OpCode::AddN => 3,
            OpCode::ArgMax => 4,
            OpCode::ArgMin => 5,
            OpCode::AssignVariable => 6,
            OpCode::AveragePool2D => 7,
            OpCode::BatchMatMul => 8,
            OpCode::BatchToSpaceNd => 9,
            OpCode::BroadcastArgs => 10,
            OpCode::BroadcastTo => 11,
            OpCode::CallOnce => 12,
            OpCode::Cast => 13,
            OpCode::Ceil => 14,
            OpCode::CircularBuffer => 15,
            OpCode::Concatenation => 16,
            OpCode::Conv2D => 17,
            OpCode::Cos => 18,
            OpCode::CumSum => 19,
            OpCode::Delay => 20,
            OpCode::DepthToSpace => 21,
            OpCode::DepthwiseConv2D => 22,
            OpCode::Dequantize => 23,
            OpCode::DetectionPostprocess => 24,
            OpCode::Div => 25,
            OpCode::EmbeddingLookup => 26,
            OpCode::Energy => 27,
            OpCode::Elu => 28,
            OpCode::Equal => 29,
            OpCode::EthosU => 30,
            OpCode::Exp => 31,
            OpCode::ExpandDims => 32,
            OpCode::FftAutoScale => 33,
            OpCode::Fill => 34,
            OpCode::FilterBank => 35,
            OpCode::FilterBankLog => 36,
            OpCode::FilterBankSquareRoot => 37,
            OpCode::FilterBankSpectralSubtraction => 38,
            OpCode::Floor => 39,
            OpCode::FloorDiv => 40,
            OpCode::FloorMod => 41,
            OpCode::Framer => 42,
            OpCode::FullyConnected => 43,
            OpCode::Gather => 44,
            OpCode::GatherNd => 45,
            OpCode::Greater => 46,
            OpCode::GreaterEqual => 47,
            OpCode::HardSwish => 48,
            OpCode::If => 49,
            OpCode::Irfft => 50,
            OpCode::L2Normalization => 51,
            OpCode::L2Pool2D => 52,
            OpCode::LeakyRelu => 53,
            OpCode::Less => 54,
            OpCode::LessEqual => 55,
            OpCode::Log => 56,
            OpCode::LogicalAnd => 57,
            OpCode::LogicalNot => 58,
            OpCode::LogicalOr => 59,
            OpCode::Logistic => 60,
            OpCode::LogSoftmax => 61,
            OpCode::Maximum => 62,
            OpCode::MaxPool2D => 63,
            OpCode::MirrorPad => 64,
            OpCode::Mean => 65,
            OpCode::Minimum => 66,
            OpCode::Mul => 67,
            OpCode::Neg => 68,
            OpCode::NotEqual => 69,
            OpCode::OverlapAdd => 70,
            OpCode::Pack => 71,
            OpCode::PadV2 => 72,
            OpCode::Pcan => 73,
            OpCode::Prelu => 74,
            OpCode::Quantize => 75,
            OpCode::ReadVariable => 76,
            OpCode::ReduceMax => 77,
            OpCode::Relu => 78,
            OpCode::Relu6 => 79,
            OpCode::Reshape => 80,
            OpCode::ResizeBilinear => 81,
            OpCode::ResizeNearestNeighbor => 82,
            OpCode::Rfft => 83,
            OpCode::Round => 84,
            OpCode::Rsqrt => 85,
            OpCode::SelectV2 => 86,
            OpCode::Shape => 87,
            OpCode::Sin => 88,
            OpCode::Slice => 89,
            OpCode::Softmax => 90,
            OpCode::SpaceToBatchNd => 91,
            OpCode::SpaceToDepth => 92,
            OpCode::Split => 93,
            OpCode::SplitV => 94,
            OpCode::Squeeze => 95,
            OpCode::Sqrt => 96,
            OpCode::Square => 97,
            OpCode::SquaredDifference => 98,
            OpCode::StridedSlice => 99,
            OpCode::Stacker => 100,
            OpCode::Sub => 101,
            OpCode::Sum => 102,
            OpCode::Svdf => 103,
            OpCode::Tanh => 104,
            OpCode::TransposeConv => 105,
            OpCode::Unpack => 106,
            OpCode::UnidirectionalSequenceLstm => 107,
            OpCode::VarHandle => 108,
            OpCode::While => 109,
            OpCode::Window => 110,
            OpCode::ZerosLike => 111,
        }
    }
}

} // verus!

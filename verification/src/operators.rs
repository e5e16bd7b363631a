//! The operators and layouts that stand as leaves of a program: their
//! names in program text, and reading them back from it.
use crate::text::spells;
use vstd::prelude::*;

verus! {

/// An operator of Relay, called through `relay-operator-call`.
#[derive(Debug, Clone, Copy, PartialEq, Eq, Structural, PartialOrd, Ord, Hash)]
pub enum RelayOperator {
    /// `(relay-operator relay-batch-norm-inference <data: access> <gamma: access> <beta: access> <moving_mean: access> <moving_var: access> <axis: usize> <epsilon: float>)`: batch normalization at inference time.
    RelayBatchNormInference,
    /// `(relay-operator relay-softmax <data: access> <axis: usize>)`
    RelaySoftmax,
    /// `(relay-operator relay-relu <data: access>)`
    RelayReLU,
    /// `(relay-operator relay-leaky-relu <data: access> <alpha: Float64>)`
    RelayLeakyReLU,
    /// `(relay-operator relay-max-pool2d <data: access> <pool size: shape> <strides: shape> <padding: shape> <layout: RelayActivationLayout>)`
    RelayMaxPool2D,
    /// `(relay-operator relay-global-avg-pool2d <data: access> <layout: RelayActivationLayout>)`
    RelayGlobalAvgPool2D,
    /// `(relay-operator relay-avg-pool2d <data: access> <pool_size: shape> <strides: shape> <padding: shape> <layout: RelayActivationLayout>)`
    RelayAvgPool2D,
    /// `(relay-operator relay-upsampling <data: access> <scale_h: Float64> <scale_w: Float64> <layout: RelayActivationLayout>)`
    RelayUpSampling,
    /// `(relay-operator relay-batch-flatten <data: access>)`
    RelayBatchFlatten,
    /// `(relay-operator relay-bias-add <data: access> <bias: access> <axis: usize>)`
    RelayBiasAdd,
    /// `(relay-operator relay-add <a: access> <b: access>)`
    RelayAdd,
    /// `(relay-operator relay-sigmoid <data: access>)`
    RelaySigmoid,
    /// `(relay-operator relay-maximum <a: access> <b: access>)`
    RelayMaximum,
    /// `(relay-operator relay-minimum <a: access> <b: access>)`
    RelayMinimum,
}

/// The name of a `RelayOperator` in program text.
pub open spec fn relay_operator_name(x: RelayOperator) -> Seq<char> {
    match x {
        RelayOperator::RelayBatchNormInference => "relay-batch-norm-inference"@,
        RelayOperator::RelaySoftmax => "relay-softmax"@,
        RelayOperator::RelayReLU => "relay-relu"@,
        RelayOperator::RelayLeakyReLU => "relay-leaky-relu"@,
        RelayOperator::RelayMaxPool2D => "relay-max-pool2d"@,
        RelayOperator::RelayGlobalAvgPool2D => "relay-global-avg-pool2d"@,
        RelayOperator::RelayAvgPool2D => "relay-avg-pool2d"@,
        RelayOperator::RelayUpSampling => "relay-upsampling"@,
        RelayOperator::RelayBatchFlatten => "relay-batch-flatten"@,
        RelayOperator::RelayBiasAdd => "relay-bias-add"@,
        RelayOperator::RelayAdd => "relay-add"@,
        RelayOperator::RelaySigmoid => "relay-sigmoid"@,
        RelayOperator::RelayMaximum => "relay-maximum"@,
        RelayOperator::RelayMinimum => "relay-minimum"@,
    }
}

/// What reading `s` as a `RelayOperator` gives: the one whose name `s` is.
pub open spec fn relay_operator_from_chars(s: Seq<char>) -> Option<RelayOperator> {
    if s == "relay-batch-norm-inference"@ {
        Some(RelayOperator::RelayBatchNormInference)
    } else if s == "relay-softmax"@ {
        Some(RelayOperator::RelaySoftmax)
    } else if s == "relay-relu"@ {
        Some(RelayOperator::RelayReLU)
    } else if s == "relay-max-pool2d"@ {
        Some(RelayOperator::RelayMaxPool2D)
    } else if s == "relay-global-avg-pool2d"@ {
        Some(RelayOperator::RelayGlobalAvgPool2D)
    } else if s == "relay-batch-flatten"@ {
        Some(RelayOperator::RelayBatchFlatten)
    } else if s == "relay-bias-add"@ {
        Some(RelayOperator::RelayBiasAdd)
    } else if s == "relay-add"@ {
        Some(RelayOperator::RelayAdd)
    } else if s == "relay-sigmoid"@ {
        Some(RelayOperator::RelaySigmoid)
    } else if s == "relay-avg-pool2d"@ {
        Some(RelayOperator::RelayAvgPool2D)
    } else if s == "relay-upsampling"@ {
        Some(RelayOperator::RelayUpSampling)
    } else if s == "relay-maximum"@ {
        Some(RelayOperator::RelayMaximum)
    } else if s == "relay-minimum"@ {
        Some(RelayOperator::RelayMinimum)
    } else if s == "relay-leaky-relu"@ {
        Some(RelayOperator::RelayLeakyReLU)
    } else {
        None
    }
}

impl RelayOperator {
    /// Reads a `RelayOperator` from its name; anything else is refused.
    pub fn from_str(input: &str) -> (r: Result<RelayOperator, ()>)
        ensures
            r == (match relay_operator_from_chars(input@) {
                Some(x) => Ok(x),
                None => Err(()),
            }),
    {
        let v = crate::text::chars_of(input);
        if spells(&v, "relay-batch-norm-inference") {
            Ok(RelayOperator::RelayBatchNormInference)
        } else if spells(&v, "relay-softmax") {
            Ok(RelayOperator::RelaySoftmax)
        } else if spells(&v, "relay-relu") {
            Ok(RelayOperator::RelayReLU)
        } else if spells(&v, "relay-max-pool2d") {
            Ok(RelayOperator::RelayMaxPool2D)
        } else if spells(&v, "relay-global-avg-pool2d") {
            Ok(RelayOperator::RelayGlobalAvgPool2D)
        } else if spells(&v, "relay-batch-flatten") {
            Ok(RelayOperator::RelayBatchFlatten)
        } else if spells(&v, "relay-bias-add") {
            Ok(RelayOperator::RelayBiasAdd)
        } else if spells(&v, "relay-add") {
            Ok(RelayOperator::RelayAdd)
        } else if spells(&v, "relay-sigmoid") {
            Ok(RelayOperator::RelaySigmoid)
        } else if spells(&v, "relay-avg-pool2d") {
            Ok(RelayOperator::RelayAvgPool2D)
        } else if spells(&v, "relay-upsampling") {
            Ok(RelayOperator::RelayUpSampling)
        } else if spells(&v, "relay-maximum") {
            Ok(RelayOperator::RelayMaximum)
        } else if spells(&v, "relay-minimum") {
            Ok(RelayOperator::RelayMinimum)
        } else if spells(&v, "relay-leaky-relu") {
            Ok(RelayOperator::RelayLeakyReLU)
        } else {
            Err(())
        }
    }

    /// The name of this `RelayOperator` in program text.
    pub fn to_string(&self) -> (s: String)
        ensures
            s@ == relay_operator_name(*self),
    {
        match self {
            RelayOperator::RelayBatchNormInference => String::from_str("relay-batch-norm-inference"),
            RelayOperator::RelaySoftmax => String::from_str("relay-softmax"),
            RelayOperator::RelayReLU => String::from_str("relay-relu"),
            RelayOperator::RelayLeakyReLU => String::from_str("relay-leaky-relu"),
            RelayOperator::RelayMaxPool2D => String::from_str("relay-max-pool2d"),
            RelayOperator::RelayGlobalAvgPool2D => String::from_str("relay-global-avg-pool2d"),
            RelayOperator::RelayAvgPool2D => String::from_str("relay-avg-pool2d"),
            RelayOperator::RelayUpSampling => String::from_str("relay-upsampling"),
            RelayOperator::RelayBatchFlatten => String::from_str("relay-batch-flatten"),
            RelayOperator::RelayBiasAdd => String::from_str("relay-bias-add"),
            RelayOperator::RelayAdd => String::from_str("relay-add"),
            RelayOperator::RelaySigmoid => String::from_str("relay-sigmoid"),
            RelayOperator::RelayMaximum => String::from_str("relay-maximum"),
            RelayOperator::RelayMinimum => String::from_str("relay-minimum"),
        }
    }

    /// Reads a `RelayOperator` from the characters of a token.
    pub fn from_chars(v: &Vec<char>) -> (r: Option<RelayOperator>)
        ensures
            r == relay_operator_from_chars(v@),
    {
        if spells(v, "relay-batch-norm-inference") {
            Some(RelayOperator::RelayBatchNormInference)
        } else if spells(v, "relay-softmax") {
            Some(RelayOperator::RelaySoftmax)
        } else if spells(v, "relay-relu") {
            Some(RelayOperator::RelayReLU)
        } else if spells(v, "relay-max-pool2d") {
            Some(RelayOperator::RelayMaxPool2D)
        } else if spells(v, "relay-global-avg-pool2d") {
            Some(RelayOperator::RelayGlobalAvgPool2D)
        } else if spells(v, "relay-batch-flatten") {
            Some(RelayOperator::RelayBatchFlatten)
        } else if spells(v, "relay-bias-add") {
            Some(RelayOperator::RelayBiasAdd)
        } else if spells(v, "relay-add") {
            Some(RelayOperator::RelayAdd)
        } else if spells(v, "relay-sigmoid") {
            Some(RelayOperator::RelaySigmoid)
        } else if spells(v, "relay-avg-pool2d") {
            Some(RelayOperator::RelayAvgPool2D)
        } else if spells(v, "relay-upsampling") {
            Some(RelayOperator::RelayUpSampling)
        } else if spells(v, "relay-maximum") {
            Some(RelayOperator::RelayMaximum)
        } else if spells(v, "relay-minimum") {
            Some(RelayOperator::RelayMinimum)
        } else if spells(v, "relay-leaky-relu") {
            Some(RelayOperator::RelayLeakyReLU)
        } else {
            None
        }
    }
}

/// The layout of activations in a Relay operator call.
#[derive(Debug, Clone, Copy, PartialEq, Eq, Structural, PartialOrd, Ord, Hash)]
pub enum RelayActivationLayout {
    NCHW,
    NHWC,
}

/// The name of a `RelayActivationLayout` in program text.
pub open spec fn relay_activation_layout_name(x: RelayActivationLayout) -> Seq<char> {
    match x {
        RelayActivationLayout::NCHW => "relay-activation-layout-nchw"@,
        RelayActivationLayout::NHWC => "relay-activation-layout-nhwc"@,
    }
}

/// What reading `s` as a `RelayActivationLayout` gives: the one whose name `s` is.
pub open spec fn relay_activation_layout_from_chars(s: Seq<char>) -> Option<RelayActivationLayout> {
    if s == "relay-activation-layout-nhwc"@ {
        Some(RelayActivationLayout::NHWC)
    } else if s == "relay-activation-layout-nchw"@ {
        Some(RelayActivationLayout::NCHW)
    } else {
        None
    }
}

impl RelayActivationLayout {
    /// Reads a `RelayActivationLayout` from its name; anything else is refused.
    pub fn from_str(input: &str) -> (r: Result<RelayActivationLayout, ()>)
        ensures
            r == (match relay_activation_layout_from_chars(input@) {
                Some(x) => Ok(x),
                None => Err(()),
            }),
    {
        let v = crate::text::chars_of(input);
        if spells(&v, "relay-activation-layout-nhwc") {
            Ok(RelayActivationLayout::NHWC)
        } else if spells(&v, "relay-activation-layout-nchw") {
            Ok(RelayActivationLayout::NCHW)
        } else {
            Err(())
        }
    }

    /// The name of this `RelayActivationLayout` in program text.
    pub fn to_string(&self) -> (s: String)
        ensures
            s@ == relay_activation_layout_name(*self),
    {
        match self {
            RelayActivationLayout::NCHW => String::from_str("relay-activation-layout-nchw"),
            RelayActivationLayout::NHWC => String::from_str("relay-activation-layout-nhwc"),
        }
    }

    /// Reads a `RelayActivationLayout` from the characters of a token.
    pub fn from_chars(v: &Vec<char>) -> (r: Option<RelayActivationLayout>)
        ensures
            r == relay_activation_layout_from_chars(v@),
    {
        if spells(v, "relay-activation-layout-nhwc") {
            Some(RelayActivationLayout::NHWC)
        } else if spells(v, "relay-activation-layout-nchw") {
            Some(RelayActivationLayout::NCHW)
        } else {
            None
        }
    }
}

/// The layout of kernels in a Relay operator call.
#[derive(Debug, Clone, Copy, PartialEq, Eq, Structural, PartialOrd, Ord, Hash)]
pub enum RelayKernelLayout {
    OIHW,
    HWIO,
}

/// The name of a `RelayKernelLayout` in program text.
pub open spec fn relay_kernel_layout_name(x: RelayKernelLayout) -> Seq<char> {
    match x {
        RelayKernelLayout::OIHW => "relay-kernel-layout-oihw"@,
        RelayKernelLayout::HWIO => "relay-kernel-layout-hwio"@,
    }
}

/// What reading `s` as a `RelayKernelLayout` gives: the one whose name `s` is.
pub open spec fn relay_kernel_layout_from_chars(s: Seq<char>) -> Option<RelayKernelLayout> {
    if s == "relay-kernel-layout-hwio"@ {
        Some(RelayKernelLayout::HWIO)
    } else if s == "relay-kernel-layout-oihw"@ {
        Some(RelayKernelLayout::OIHW)
    } else {
        None
    }
}

impl RelayKernelLayout {
    /// Reads a `RelayKernelLayout` from its name; anything else is refused.
    pub fn from_str(input: &str) -> (r: Result<RelayKernelLayout, ()>)
        ensures
            r == (match relay_kernel_layout_from_chars(input@) {
                Some(x) => Ok(x),
                None => Err(()),
            }),
    {
        let v = crate::text::chars_of(input);
        if spells(&v, "relay-kernel-layout-hwio") {
            Ok(RelayKernelLayout::HWIO)
        } else if spells(&v, "relay-kernel-layout-oihw") {
            Ok(RelayKernelLayout::OIHW)
        } else {
            Err(())
        }
    }

    /// The name of this `RelayKernelLayout` in program text.
    pub fn to_string(&self) -> (s: String)
        ensures
            s@ == relay_kernel_layout_name(*self),
    {
        match self {
            RelayKernelLayout::OIHW => String::from_str("relay-kernel-layout-oihw"),
            RelayKernelLayout::HWIO => String::from_str("relay-kernel-layout-hwio"),
        }
    }

    /// Reads a `RelayKernelLayout` from the characters of a token.
    pub fn from_chars(v: &Vec<char>) -> (r: Option<RelayKernelLayout>)
        ensures
            r == relay_kernel_layout_from_chars(v@),
    {
        if spells(v, "relay-kernel-layout-hwio") {
            Some(RelayKernelLayout::HWIO)
        } else if spells(v, "relay-kernel-layout-oihw") {
            Some(RelayKernelLayout::OIHW)
        } else {
            None
        }
    }
}

/// What a `compute` node computes over the items of an access.
#[derive(Debug, Clone, Copy, PartialEq, Eq, Structural, PartialOrd, Ord, Hash)]
pub enum ComputeType {
    DotProduct,
    ReduceSum,
    ReLU,
    Sqrt,
    Negative,
    /// Expects an item shape `a x b1 x .. x bn` and adds the `a` tensors of shape `b1 x .. x bn` elementwise.
    ElementwiseAdd,
    /// Expects an item shape `a x b1 x .. x bn` and multiplies the `a` tensors of shape `b1 x .. x bn` elementwise.
    ElementwiseMul,
    ElementwiseDiv,
    /// The maximum over all elements of each item; reduces any item shape to a scalar.
    ReduceMax,
    /// Softmax over the item; expects the access axis to leave one item dimension.
    Softmax,
    /// The mean of each item: an item shape `a1 x a2 x ...` becomes a scalar.
    ReduceMean,
}

/// The name of a `ComputeType` in program text.
pub open spec fn compute_type_name(x: ComputeType) -> Seq<char> {
    match x {
        ComputeType::DotProduct => "dot-product"@,
        ComputeType::ReduceSum => "reduce-sum"@,
        ComputeType::ReLU => "relu"@,
        ComputeType::Sqrt => "sqrt"@,
        ComputeType::Negative => "negative"@,
        ComputeType::ElementwiseAdd => "elementwise-add"@,
        ComputeType::ElementwiseMul => "elementwise-mul"@,
        ComputeType::ElementwiseDiv => "elementwise-div"@,
        ComputeType::ReduceMax => "reduce-max"@,
        ComputeType::Softmax => "softmax"@,
        ComputeType::ReduceMean => "reduce-mean"@,
    }
}

/// What reading `s` as a `ComputeType` gives: the one whose name `s` is.
pub open spec fn compute_type_from_chars(s: Seq<char>) -> Option<ComputeType> {
    if s == "dot-product"@ {
        Some(ComputeType::DotProduct)
    } else if s == "reduce-sum"@ {
        Some(ComputeType::ReduceSum)
    } else if s == "reduce-max"@ {
        Some(ComputeType::ReduceMax)
    } else if s == "relu"@ {
        Some(ComputeType::ReLU)
    } else if s == "sqrt"@ {
        Some(ComputeType::Sqrt)
    } else if s == "negative"@ {
        Some(ComputeType::Negative)
    } else if s == "elementwise-add"@ {
        Some(ComputeType::ElementwiseAdd)
    } else if s == "elementwise-mul"@ {
        Some(ComputeType::ElementwiseMul)
    } else if s == "elementwise-div"@ {
        Some(ComputeType::ElementwiseDiv)
    } else if s == "softmax"@ {
        Some(ComputeType::Softmax)
    } else if s == "reduce-mean"@ {
        Some(ComputeType::ReduceMean)
    } else {
        None
    }
}

impl ComputeType {
    /// Reads a `ComputeType` from its name; anything else is refused.
    pub fn from_str(input: &str) -> (r: Result<ComputeType, ()>)
        ensures
            r == (match compute_type_from_chars(input@) {
                Some(x) => Ok(x),
                None => Err(()),
            }),
    {
        let v = crate::text::chars_of(input);
        if spells(&v, "dot-product") {
            Ok(ComputeType::DotProduct)
        } else if spells(&v, "reduce-sum") {
            Ok(ComputeType::ReduceSum)
        } else if spells(&v, "reduce-max") {
            Ok(ComputeType::ReduceMax)
        } else if spells(&v, "relu") {
            Ok(ComputeType::ReLU)
        } else if spells(&v, "sqrt") {
            Ok(ComputeType::Sqrt)
        } else if spells(&v, "negative") {
            Ok(ComputeType::Negative)
        } else if spells(&v, "elementwise-add") {
            Ok(ComputeType::ElementwiseAdd)
        } else if spells(&v, "elementwise-mul") {
            Ok(ComputeType::ElementwiseMul)
        } else if spells(&v, "elementwise-div") {
            Ok(ComputeType::ElementwiseDiv)
        } else if spells(&v, "softmax") {
            Ok(ComputeType::Softmax)
        } else if spells(&v, "reduce-mean") {
            Ok(ComputeType::ReduceMean)
        } else {
            Err(())
        }
    }

    /// The name of this `ComputeType` in program text.
    pub fn to_string(&self) -> (s: String)
        ensures
            s@ == compute_type_name(*self),
    {
        match self {
            ComputeType::DotProduct => String::from_str("dot-product"),
            ComputeType::ReduceSum => String::from_str("reduce-sum"),
            ComputeType::ReLU => String::from_str("relu"),
            ComputeType::Sqrt => String::from_str("sqrt"),
            ComputeType::Negative => String::from_str("negative"),
            ComputeType::ElementwiseAdd => String::from_str("elementwise-add"),
            ComputeType::ElementwiseMul => String::from_str("elementwise-mul"),
            ComputeType::ElementwiseDiv => String::from_str("elementwise-div"),
            ComputeType::ReduceMax => String::from_str("reduce-max"),
            ComputeType::Softmax => String::from_str("softmax"),
            ComputeType::ReduceMean => String::from_str("reduce-mean"),
        }
    }

    /// Reads a `ComputeType` from the characters of a token.
    pub fn from_chars(v: &Vec<char>) -> (r: Option<ComputeType>)
        ensures
            r == compute_type_from_chars(v@),
    {
        if spells(v, "dot-product") {
            Some(ComputeType::DotProduct)
        } else if spells(v, "reduce-sum") {
            Some(ComputeType::ReduceSum)
        } else if spells(v, "reduce-max") {
            Some(ComputeType::ReduceMax)
        } else if spells(v, "relu") {
            Some(ComputeType::ReLU)
        } else if spells(v, "sqrt") {
            Some(ComputeType::Sqrt)
        } else if spells(v, "negative") {
            Some(ComputeType::Negative)
        } else if spells(v, "elementwise-add") {
            Some(ComputeType::ElementwiseAdd)
        } else if spells(v, "elementwise-mul") {
            Some(ComputeType::ElementwiseMul)
        } else if spells(v, "elementwise-div") {
            Some(ComputeType::ElementwiseDiv)
        } else if spells(v, "softmax") {
            Some(ComputeType::Softmax)
        } else if spells(v, "reduce-mean") {
            Some(ComputeType::ReduceMean)
        } else {
            None
        }
    }
}

/// How the values that padding adds are chosen.
#[derive(Debug, Clone, Copy, PartialEq, Eq, Structural, PartialOrd, Ord, Hash)]
pub enum PadType {
    /// Pad with zeroes.
    ZeroPadding,
    /// Pad with the minimum number that the number system represents.
    MinPadding,
}

/// The name of a `PadType` in program text.
pub open spec fn pad_type_name(x: PadType) -> Seq<char> {
    match x {
        PadType::ZeroPadding => "zero-padding"@,
        PadType::MinPadding => "min-padding"@,
    }
}

/// What reading `s` as a `PadType` gives: the one whose name `s` is.
pub open spec fn pad_type_from_chars(s: Seq<char>) -> Option<PadType> {
    if s == "zero-padding"@ {
        Some(PadType::ZeroPadding)
    } else if s == "min-padding"@ {
        Some(PadType::MinPadding)
    } else {
        None
    }
}

impl PadType {
    /// Reads a `PadType` from its name; anything else is refused.
    pub fn from_str(input: &str) -> (r: Result<PadType, ()>)
        ensures
            r == (match pad_type_from_chars(input@) {
                Some(x) => Ok(x),
                None => Err(()),
            }),
    {
        let v = crate::text::chars_of(input);
        if spells(&v, "zero-padding") {
            Ok(PadType::ZeroPadding)
        } else if spells(&v, "min-padding") {
            Ok(PadType::MinPadding)
        } else {
            Err(())
        }
    }

    /// The name of this `PadType` in program text.
    pub fn to_string(&self) -> (s: String)
        ensures
            s@ == pad_type_name(*self),
    {
        match self {
            PadType::ZeroPadding => String::from_str("zero-padding"),
            PadType::MinPadding => String::from_str("min-padding"),
        }
    }

    /// Reads a `PadType` from the characters of a token.
    pub fn from_chars(v: &Vec<char>) -> (r: Option<PadType>)
        ensures
            r == pad_type_from_chars(v@),
    {
        if spells(v, "zero-padding") {
            Some(PadType::ZeroPadding)
        } else if spells(v, "min-padding") {
            Some(PadType::MinPadding)
        } else {
            None
        }
    }
}

} // verus!

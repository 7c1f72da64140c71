//! The residual attention block of a transformer: which tensors it is made
//! of, under which keys a model file holds them, and in which order its
//! layers are applied.

use crate::text::decimal;
use crate::text::write_decimal;
use vstd::prelude::*;

verus! {

pub const BLOCKS: &'static str = ".blocks.";

pub const DOT: &'static str = ".";

pub const ATTN_LN_WEIGHT: &'static str = "attn_ln.weight";

pub const ATTN_LN_BIAS: &'static str = "attn_ln.bias";

pub const ATTN_QUERY_WEIGHT: &'static str = "attn.query.weight";

pub const ATTN_QUERY_BIAS: &'static str = "attn.query.bias";

pub const ATTN_KEY_WEIGHT: &'static str = "attn.key.weight";

pub const ATTN_VALUE_WEIGHT: &'static str = "attn.value.weight";

pub const ATTN_VALUE_BIAS: &'static str = "attn.value.bias";

pub const ATTN_OUT_WEIGHT: &'static str = "attn.out.weight";

pub const ATTN_OUT_BIAS: &'static str = "attn.out.bias";

pub const CROSS_ATTN_LN_WEIGHT: &'static str = "cross_attn_ln.weight";

pub const CROSS_ATTN_LN_BIAS: &'static str = "cross_attn_ln.bias";

pub const CROSS_ATTN_QUERY_WEIGHT: &'static str = "cross_attn.query.weight";

pub const CROSS_ATTN_QUERY_BIAS: &'static str = "cross_attn.query.bias";

pub const CROSS_ATTN_KEY_WEIGHT: &'static str = "cross_attn.key.weight";

pub const CROSS_ATTN_VALUE_WEIGHT: &'static str = "cross_attn.value.weight";

pub const CROSS_ATTN_VALUE_BIAS: &'static str = "cross_attn.value.bias";

pub const CROSS_ATTN_OUT_WEIGHT: &'static str = "cross_attn.out.weight";

pub const CROSS_ATTN_OUT_BIAS: &'static str = "cross_attn.out.bias";

pub const MLP_LN_WEIGHT: &'static str = "mlp_ln.weight";

pub const MLP_LN_BIAS: &'static str = "mlp_ln.bias";

pub const MLP_0_WEIGHT: &'static str = "mlp.0.weight";

pub const MLP_0_BIAS: &'static str = "mlp.0.bias";

pub const MLP_2_WEIGHT: &'static str = "mlp.2.weight";

pub const MLP_2_BIAS: &'static str = "mlp.2.bias";

/// The key of the tensor `name` of block `layer_index`, in the part of the
/// model that `prefix` names.
pub open spec fn spec_tensor_key(prefix: Seq<char>, layer_index: nat, name: Seq<char>) -> Seq<char> {
    prefix + BLOCKS@ + decimal(layer_index) + DOT@ + name
}

/// The key of the tensor `name` of block `layer_index`, in the part of the
/// model that `prefix` names.
pub fn tensor_key(prefix: &str, layer_index: usize, name: &str) -> (key: String)
    ensures
        key@ == spec_tensor_key(prefix@, layer_index as nat, name@),
{
    let mut key = String::from_str(prefix);
    key.append(BLOCKS);
    write_decimal(&mut key, layer_index as u64);
    key.append(DOT);
    key.append(name);
    assert(key@ =~= spec_tensor_key(prefix@, layer_index as nat, name@));
    key
}

/// The tensors of self-attention, with the layer norm before it.
pub open spec fn self_attention_names() -> Seq<Seq<char>> {
    seq![
        ATTN_LN_WEIGHT@,
        ATTN_LN_BIAS@,
        ATTN_QUERY_WEIGHT@,
        ATTN_QUERY_BIAS@,
        ATTN_KEY_WEIGHT@,
        ATTN_VALUE_WEIGHT@,
        ATTN_VALUE_BIAS@,
        ATTN_OUT_WEIGHT@,
        ATTN_OUT_BIAS@,
    ]
}

/// The tensors of cross-attention, with the layer norm before it.
pub open spec fn cross_attention_names() -> Seq<Seq<char>> {
    seq![
        CROSS_ATTN_LN_WEIGHT@,
        CROSS_ATTN_LN_BIAS@,
        CROSS_ATTN_QUERY_WEIGHT@,
        CROSS_ATTN_QUERY_BIAS@,
        CROSS_ATTN_KEY_WEIGHT@,
        CROSS_ATTN_VALUE_WEIGHT@,
        CROSS_ATTN_VALUE_BIAS@,
        CROSS_ATTN_OUT_WEIGHT@,
        CROSS_ATTN_OUT_BIAS@,
    ]
}

/// The tensors of the feed-forward layers, with the layer norm before them.
pub open spec fn mlp_names() -> Seq<Seq<char>> {
    seq![
        MLP_LN_WEIGHT@,
        MLP_LN_BIAS@,
        MLP_0_WEIGHT@,
        MLP_0_BIAS@,
        MLP_2_WEIGHT@,
        MLP_2_BIAS@,
    ]
}

/// The tensors of a block in the order in which they are read: those of
/// self-attention, those of cross-attention if the block has it, and those
/// of the feed-forward layers. Keys have no bias.
pub open spec fn spec_tensor_names(enable_x_attn: bool) -> Seq<Seq<char>> {
    if enable_x_attn {
        self_attention_names() + cross_attention_names() + mlp_names()
    } else {
        self_attention_names() + mlp_names()
    }
}

/// The names of a list of strings.
pub open spec fn names_of(names: Seq<&'static str>) -> Seq<Seq<char>> {
    Seq::new(names.len(), |i: int| names[i]@)
}

/// The tensors of a block in the order in which they are read.
pub fn tensor_names(enable_x_attn: bool) -> (names: Vec<&'static str>)
    ensures
        names_of(names@) == spec_tensor_names(enable_x_attn),
{
    let mut names: Vec<&'static str> = Vec::new();
    names.push(ATTN_LN_WEIGHT);
    names.push(ATTN_LN_BIAS);
    names.push(ATTN_QUERY_WEIGHT);
    names.push(ATTN_QUERY_BIAS);
    names.push(ATTN_KEY_WEIGHT);
    names.push(ATTN_VALUE_WEIGHT);
    names.push(ATTN_VALUE_BIAS);
    names.push(ATTN_OUT_WEIGHT);
    names.push(ATTN_OUT_BIAS);
    if enable_x_attn {
        names.push(CROSS_ATTN_LN_WEIGHT);
        names.push(CROSS_ATTN_LN_BIAS);
        names.push(CROSS_ATTN_QUERY_WEIGHT);
        names.push(CROSS_ATTN_QUERY_BIAS);
        names.push(CROSS_ATTN_KEY_WEIGHT);
        names.push(CROSS_ATTN_VALUE_WEIGHT);
        names.push(CROSS_ATTN_VALUE_BIAS);
        names.push(CROSS_ATTN_OUT_WEIGHT);
        names.push(CROSS_ATTN_OUT_BIAS);
    }
    names.push(MLP_LN_WEIGHT);
    names.push(MLP_LN_BIAS);
    names.push(MLP_0_WEIGHT);
    names.push(MLP_0_BIAS);
    names.push(MLP_2_WEIGHT);
    names.push(MLP_2_BIAS);
    assert(names_of(names@) =~= spec_tensor_names(enable_x_attn));
    names
}

/// The keys of the tensors of block `layer_index`, in the order in which
/// they are read.
pub fn tensor_keys(prefix: &str, layer_index: usize, enable_x_attn: bool) -> (keys: Vec<String>)
    ensures
        keys@.len() == spec_tensor_names(enable_x_attn).len(),
        forall|i: int|
            0 <= i < keys@.len() ==> (#[trigger] keys@[i])@ == spec_tensor_key(
                prefix@,
                layer_index as nat,
                spec_tensor_names(enable_x_attn)[i],
            ),
{
    let names = tensor_names(enable_x_attn);
    let mut keys: Vec<String> = Vec::new();
    let mut i: usize = 0;
    while i < names.len()
        invariant
            0 <= i <= names.len(),
            names_of(names@) == spec_tensor_names(enable_x_attn),
            keys@.len() == i,
            forall|j: int|
                0 <= j < i ==> (#[trigger] keys@[j])@ == spec_tensor_key(
                    prefix@,
                    layer_index as nat,
                    spec_tensor_names(enable_x_attn)[j],
                ),
        decreases names.len() - i,
    {
        assert(names_of(names@)[i as int] == names@[i as int]@);
        keys.push(tensor_key(prefix, layer_index, names[i]));
        i += 1;
    }
    assert(names_of(names@).len() == names@.len());
    keys
}

/// One step of applying a block to its input.
#[derive(Clone, Copy, Debug, PartialEq, Eq, Hash, Structural)]
pub enum Step {
    /// The layer norm before self-attention.
    AttentionNorm,
    /// Self-attention, masked, with the cache.
    Attention,
    /// The layer norm before cross-attention.
    CrossAttentionNorm,
    /// Cross-attention over the encoder's output.
    CrossAttention,
    /// The layer norm before the feed-forward layers.
    MlpNorm,
    /// The feed-forward layers.
    Mlp,
    /// Adds what the block held before the last norm to what came after it.
    Residual,
}

/// The steps of a block in order. Cross-attention takes part only where the
/// block has both the attention and its layer norm.
pub open spec fn spec_steps(x_attn: bool, x_attn_ln: bool) -> Seq<Step> {
    let attention = seq![Step::AttentionNorm, Step::Attention, Step::Residual];
    let cross = seq![Step::CrossAttentionNorm, Step::CrossAttention, Step::Residual];
    let mlp = seq![Step::MlpNorm, Step::Mlp, Step::Residual];
    if x_attn && x_attn_ln {
        attention + cross + mlp
    } else {
        attention + mlp
    }
}

/// The steps of a block that has cross-attention if `x_attn`, and the layer
/// norm for it if `x_attn_ln`.
pub fn steps(x_attn: bool, x_attn_ln: bool) -> (plan: Vec<Step>)
    ensures
        plan@ == spec_steps(x_attn, x_attn_ln),
{
    let mut plan: Vec<Step> = Vec::new();
    plan.push(Step::AttentionNorm);
    plan.push(Step::Attention);
    plan.push(Step::Residual);
    if x_attn {
        if x_attn_ln {
            plan.push(Step::CrossAttentionNorm);
            plan.push(Step::CrossAttention);
            plan.push(Step::Residual);
        }
    }
    plan.push(Step::MlpNorm);
    plan.push(Step::Mlp);
    plan.push(Step::Residual);
    assert(plan@ =~= spec_steps(x_attn, x_attn_ln));
    plan
}

} // verus!

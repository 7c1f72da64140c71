//! GPU resource pooling and compute-kernel specialisation.
//!
//! The library keeps the expensive objects of a compute device in pools that
//! build each object once and hand out a stable handle for it, and it writes
//! the shader text of tensor kernels, specialised to the operands' types and
//! to the width of the elements that a kernel handles at a time.
//!
//! - [`slots`] and [`pool`] hold the cache itself: a descriptor is looked up,
//!   its resource is built on the first request, and the handle that comes
//!   back resolves for as long as the pool lives.
//! - [`pools`] and [`pipeline_pool`] are the pools of a device, one for each
//!   kind of resource, with the assembly of a compute pipeline from its
//!   source, its shader module and its layout.
//! - [`registry`] is the catalogue of kernels that are known by name.
//! - [`kernel`] puts shader text together from fragments; [`gemv`] is the
//!   matrix-vector product that is rendered with it, over the types of
//!   [`dtype`] and the operands of [`tensor`].
//! - [`device`] chooses an adapter and says how a device is acquired.
//! - [`residual_block`] names the tensors of a transformer block and orders
//!   its layers.
//!
//! Nothing here touches a GPU. Whatever does is handed in by the caller, as
//! a closure or as the outcome of a step, and every function states what it
//! returns for each outcome.

pub mod device;
pub mod dtype;
pub mod gemv;
pub mod kernel;
pub mod layout;
pub mod pipeline_pool;
pub mod pool;
pub mod pools;
pub mod registry;
pub mod residual_block;
pub mod slots;
pub mod tensor;
pub mod text;

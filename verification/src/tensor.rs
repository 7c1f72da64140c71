//! Operand descriptors.

use crate::dtype::DType;
use crate::device::Device;
use vstd::prelude::*;

verus! {

/// What a kernel needs to know of an operand: how it is stored, its extents
/// and the device that holds it.
#[derive(Clone, Debug)]
pub struct Tensor {
    dt: DType,
    shape: Vec<usize>,
    device: Device,
}

impl Tensor {
    /// The operand with the given storage type and extents on `device`.
    pub fn new(dt: DType, shape: Vec<usize>, device: Device) -> (tensor: Self)
        ensures
            tensor.spec_dt() == dt,
            tensor.spec_shape() == shape@,
            tensor.spec_device() == device,
    {
        Tensor { dt, shape, device }
    }

    /// How the operand is stored.
    pub closed spec fn spec_dt(&self) -> DType {
        self.dt
    }

    /// The extents of the operand, outermost first.
    pub closed spec fn spec_shape(&self) -> Seq<usize> {
        self.shape@
    }

    /// The device that holds the operand.
    pub closed spec fn spec_device(&self) -> Device {
        self.device
    }

    /// How the operand is stored.
    pub fn dt(&self) -> (dt: DType)
        ensures
            dt == self.spec_dt(),
    {
        self.dt
    }

    /// The extents of the operand, outermost first.
    pub fn shape(&self) -> (shape: &Vec<usize>)
        ensures
            shape@ == self.spec_shape(),
    {
        &self.shape
    }

    /// The number of axes.
    pub fn rank(&self) -> (rank: usize)
        ensures
            rank == self.spec_shape().len(),
    {
        self.shape.len()
    }

    /// The device that holds the operand.
    pub fn device(&self) -> (device: Device)
        ensures
            device == self.spec_device(),
    {
        self.device
    }
}

} // verus!

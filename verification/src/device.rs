//! Compute devices: what they offer, how one is chosen and acquired.

use crate::pool::PoolError;
use vstd::prelude::*;
use vstd::std_specs::convert::FromSpecImpl;

verus! {

/// The largest buffer that is asked of a device, in bytes.
pub const MAX_BUFFER_SIZE: u64 = 1_073_741_823;

/// What a device offers to the kernels that run on it.
#[allow(non_snake_case)]
#[derive(Clone, Copy, Debug, PartialEq, Eq, Hash, Structural)]
pub struct DeviceFeatures {
    /// Half-precision floats in shaders.
    pub SHADER_F16: bool,
}

/// Why no device could be had, or why one could not be used.
#[derive(Clone, Copy, Debug, PartialEq, Eq, Structural)]
pub enum DeviceError {
    /// No adapter was found.
    AdapterRequestFailed,
    /// The adapter gave no device, not even with its own limits.
    DeviceRequestFailed,
    /// The operation needs a device of another kind.
    DeviceMismatch,
    /// A pool of the device could not be used.
    PoolError(PoolError),
}

impl From<PoolError> for DeviceError {
    fn from(e: PoolError) -> (r: DeviceError) {
        DeviceError::PoolError(e)
    }
}

impl FromSpecImpl<PoolError> for DeviceError {
    open spec fn obeys_from_spec() -> bool {
        true
    }

    open spec fn from_spec(e: PoolError) -> DeviceError {
        DeviceError::PoolError(e)
    }
}

/// Where a tensor lives.
#[derive(Clone, Copy, Debug, PartialEq, Eq, Hash, Structural)]
pub enum Device {
    CPU,
    GPU(DeviceFeatures),
}

impl Device {
    /// What the GPU offers; a device that is no GPU is a mismatch.
    pub fn try_gpu(&self) -> (r: Result<DeviceFeatures, DeviceError>)
        ensures
            r == (match *self {
                Device::GPU(features) => Ok::<DeviceFeatures, DeviceError>(features),
                Device::CPU => Err::<DeviceFeatures, DeviceError>(DeviceError::DeviceMismatch),
            }),
    {
        match self {
            Device::GPU(features) => Ok(*features),
            Device::CPU => Err(DeviceError::DeviceMismatch),
        }
    }
}

/// The kind of hardware behind an adapter.
#[derive(Clone, Copy, Debug, PartialEq, Eq, Hash, Structural)]
pub enum DeviceType {
    Other,
    IntegratedGpu,
    DiscreteGpu,
    VirtualGpu,
    Cpu,
}

impl DeviceType {
    /// How much an adapter of this kind is preferred: the more, the better.
    pub open spec fn spec_rank(self) -> int {
        match self {
            DeviceType::DiscreteGpu => 5,
            DeviceType::Other => 4,
            DeviceType::IntegratedGpu => 3,
            DeviceType::VirtualGpu => 2,
            DeviceType::Cpu => 1,
        }
    }

    /// How much an adapter of this kind is preferred: the more, the better.
    pub fn rank(&self) -> (rank: u8)
        ensures
            rank == self.spec_rank(),
    {
        match self {
            DeviceType::DiscreteGpu => 5,
            DeviceType::Other => 4,
            DeviceType::IntegratedGpu => 3,
            DeviceType::VirtualGpu => 2,
            DeviceType::Cpu => 1,
        }
    }
}

/// Whether the adapter at `index` is the one to use: none is preferred to
/// it, and of those that are as good it is the last.
pub open spec fn selected(adapters: Seq<DeviceType>, index: int) -> bool {
    &&& 0 <= index < adapters.len()
    &&& forall|j: int|
        0 <= j < adapters.len() ==> (#[trigger] adapters[j]).spec_rank()
            <= adapters[index].spec_rank()
    &&& forall|j: int|
        index < j < adapters.len() ==> (#[trigger] adapters[j]).spec_rank()
            < adapters[index].spec_rank()
}

/// Chooses among the adapters that were found, given the kind of each: a
/// discrete GPU before any other, then an adapter of unknown kind, an
/// integrated GPU, a virtual GPU and a CPU; of several that are alike, the
/// last. Fails when none was found.
pub fn select_adapter(adapters: &Vec<DeviceType>) -> (r: Result<usize, DeviceError>)
    ensures
        adapters@.len() == 0 ==> r == Err::<usize, DeviceError>(DeviceError::AdapterRequestFailed),
        adapters@.len() > 0 ==> (r matches Ok(index) && selected(adapters@, index as int)),
{
    if adapters.len() == 0 {
        return Err(DeviceError::AdapterRequestFailed);
    }
    let mut best: usize = 0;
    let mut i: usize = 1;
    while i < adapters.len()
        invariant
            1 <= i <= adapters.len(),
            selected(adapters@.take(i as int), best as int),
        decreases adapters.len() - i,
    {
        let ghost before = adapters@.take(i as int);
        let ghost after = adapters@.take(i as int + 1);
        assert(forall|j: int| 0 <= j < i ==> before[j] == after[j]);
        if adapters[i].rank() >= adapters[best].rank() {
            best = i;
        }
        i += 1;
    }
    assert(adapters@.take(i as int) =~= adapters@);
    Ok(best)
}

/// If an adapter is selected, no other index is.
pub proof fn selected_unique(adapters: Seq<DeviceType>, a: int, b: int)
    requires
        selected(adapters, a),
        selected(adapters, b),
    ensures
        a == b,
{
    let at_a = adapters[a];
    let at_b = adapters[b];
    if a < b {
        assert(at_b.spec_rank() < at_a.spec_rank());
    } else if b < a {
        assert(at_a.spec_rank() < at_b.spec_rank());
    }
}

/// The limits that a device is asked for.
#[derive(Clone, Copy, Debug, PartialEq, Eq, Structural)]
pub enum Limits {
    /// Buffers and storage bindings of up to `MAX_BUFFER_SIZE` bytes.
    Preferred { max_buffer_size: u64, max_storage_buffer_binding_size: u32 },
    /// Whatever the adapter itself reports as its limits.
    Adapter,
}

/// The limits that are asked for first.
pub open spec fn preferred_limits() -> Limits {
    Limits::Preferred {
        max_buffer_size: MAX_BUFFER_SIZE,
        max_storage_buffer_binding_size: MAX_BUFFER_SIZE as u32,
    }
}

/// What to do next while a device is acquired.
#[derive(Clone, Copy, Debug, PartialEq, Eq, Structural)]
pub enum Acquisition {
    /// Ask the adapter for a device with these limits.
    Request(Limits),
    /// The device that was granted is the one to use.
    Ready,
    /// No device can be had.
    Failed(DeviceError),
}

/// The first step, once adapters were looked for: with an adapter, ask it
/// for a device with the preferred limits; without one, give up.
pub fn begin_acquisition(adapter: Result<usize, DeviceError>) -> (next: Acquisition)
    ensures
        next == (match adapter {
            Ok(_) => Acquisition::Request(preferred_limits()),
            Err(e) => Acquisition::Failed(e),
        }),
{
    match adapter {
        Ok(_) => Acquisition::Request(
            Limits::Preferred {
                max_buffer_size: MAX_BUFFER_SIZE,
                max_storage_buffer_binding_size: MAX_BUFFER_SIZE as u32,
            },
        ),
        Err(e) => Acquisition::Failed(e),
    }
}

/// The step after the adapter answered a request for `asked`: a device that
/// was granted is used; after a refusal of the preferred limits the adapter's
/// own are tried, once; after a refusal of those nothing is left to try.
pub fn continue_acquisition(asked: Limits, granted: bool) -> (next: Acquisition)
    ensures
        next == (if granted {
            Acquisition::Ready
        } else if asked is Preferred {
            Acquisition::Request(Limits::Adapter)
        } else {
            Acquisition::Failed(DeviceError::DeviceRequestFailed)
        }),
{
    if granted {
        Acquisition::Ready
    } else {
        match asked {
            Limits::Preferred { .. } => Acquisition::Request(Limits::Adapter),
            Limits::Adapter => Acquisition::Failed(DeviceError::DeviceRequestFailed),
        }
    }
}

} // verus!

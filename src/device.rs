//! The compute device and the arrays it holds, as provided by candle.
use candle_core::{Device, Tensor};
use vstd::prelude::*;

verus! {

#[verifier::external_type_specification]
#[verifier::external_body]
pub struct ExTensor(candle_core::Tensor);

#[verifier::external_type_specification]
#[verifier::external_body]
pub struct ExCandleError(candle_core::Error);

/// The devices a context can compute on.
#[derive(Clone, Copy, Debug, PartialEq, Eq, Structural)]
pub enum DeviceKind {
    /// The default device: host memory and the host processor.
    Cpu,
}

/// The dimensions of a tensor, outermost first.
pub uninterp spec fn tensor_dims(t: Tensor) -> Seq<usize>;

/// The elements of a tensor in layout order, read as 32-bit unsigned integers.
pub uninterp spec fn tensor_values(t: Tensor) -> Seq<u32>;

/// Whether a tensor's elements are 32-bit unsigned integers held in host memory.
pub uninterp spec fn tensor_on_host_u32(t: Tensor) -> bool;

/// Relies on `candle_core::Tensor::from_vec` with shape `(n,)`: it checks that
/// the shape's element count equals the buffer's length, then takes the buffer
/// as the storage of a one-dimensional tensor; on the CPU device this step
/// cannot fail.
#[verifier::external_body]
pub(crate) fn tensor_from_vec(values: Vec<u32>, device: DeviceKind) -> (r: Result<
    Tensor,
    candle_core::Error,
>)
    ensures
        device == DeviceKind::Cpu ==> r is Ok,
        r is Ok ==> tensor_dims(r->Ok_0) == seq![values@.len() as usize],
        r is Ok ==> tensor_values(r->Ok_0) == values@,
        r is Ok && device == DeviceKind::Cpu ==> tensor_on_host_u32(r->Ok_0),
{
    let n = values.len();
    let d = match device {
        DeviceKind::Cpu => Device::Cpu,
    };
    Tensor::from_vec(values, (n,), &d)
}

/// Relies on `candle_core::Tensor::to_vec1::<u32>`: it refuses a tensor whose
/// rank is not one, and otherwise copies its elements out in layout order;
/// for `u32` elements in CPU storage the copy cannot fail.
#[verifier::external_body]
pub(crate) fn tensor_to_vec1(t: &Tensor) -> (r: Result<Vec<u32>, candle_core::Error>)
    ensures
        tensor_dims(*t).len() != 1 ==> r is Err,
        tensor_dims(*t).len() == 1 && tensor_on_host_u32(*t) ==> r is Ok,
        r is Ok ==> r->Ok_0@ == tensor_values(*t),
{
    t.to_vec1::<u32>()
}

} // verus!

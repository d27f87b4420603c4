//! Conversion between flat host sequences and device-resident arrays.
use candle_core::Tensor;
use vstd::prelude::*;

use crate::device::{
    tensor_dims, tensor_from_vec, tensor_on_host_u32, tensor_to_vec1, tensor_values, DeviceKind,
};

verus! {

/// Why a conversion between host and device failed.
#[derive(Clone, Copy, Debug, PartialEq, Eq, Structural)]
pub enum ConversionError {
    /// The sequence could not be materialised as a device array.
    ShapeOrAllocation,
    /// The device array could not be read back to host memory.
    Extraction,
}

/// A shaped array held by a device, made from a host sequence.
pub struct DeviceArray {
    tensor: Tensor,
}

impl View for DeviceArray {
    type V = Seq<u32>;

    /// The array's elements in order.
    closed spec fn view(&self) -> Seq<u32> {
        tensor_values(self.tensor)
    }
}

impl DeviceArray {
    /// The array's dimensions, outermost first.
    pub closed spec fn dims(&self) -> Seq<usize> {
        tensor_dims(self.tensor)
    }

    /// Whether the array's elements sit in host memory, so that reading them
    /// back cannot fail on the device's side.
    pub closed spec fn on_host(&self) -> bool {
        tensor_on_host_u32(self.tensor)
    }

    /// The array is the one-dimensional image of `values` in host memory.
    pub open spec fn built_from(&self, values: Seq<u32>) -> bool {
        &&& self.dims() == seq![values.len() as usize]
        &&& self@ == values
        &&& self.on_host()
    }

    /// What reading the array back yields: its elements when it has rank one,
    /// an extraction error otherwise.
    pub open spec fn read_back(&self) -> Result<Seq<u32>, ConversionError> {
        if self.dims().len() == 1 {
            Ok(self@)
        } else {
            Err(ConversionError::Extraction)
        }
    }
}

/// Builds a one-dimensional array of shape `(values.len(),)` on `device`.
pub fn to_device_array(values: Vec<u32>, device: &DeviceKind) -> (r: Result<
    DeviceArray,
    ConversionError,
>)
    ensures
        r is Ok,
        r matches Ok(a) ==> a.built_from(values@),
{
    match tensor_from_vec(values, *device) {
        Ok(tensor) => Ok(DeviceArray { tensor }),
        Err(_) => Err(ConversionError::ShapeOrAllocation),
    }
}

/// Reads an array back into host memory as a flat sequence, in order.
/// An array whose rank is not one is refused rather than flattened.
pub fn from_device_array(array: DeviceArray) -> (r: Result<Vec<u32>, ConversionError>)
    ensures
        array.dims().len() != 1 ==> r == Err::<Vec<u32>, ConversionError>(
            ConversionError::Extraction,
        ),
        array.on_host() ==> (r is Ok <==> array.read_back() is Ok),
        r matches Ok(v) ==> array.read_back() == Ok::<Seq<u32>, ConversionError>(v@),
        r matches Err(e) ==> e == ConversionError::Extraction,
{
    match tensor_to_vec1(&array.tensor) {
        Ok(v) => Ok(v),
        Err(_) => Err(ConversionError::Extraction),
    }
}

/// Building a device array from a sequence and reading it back gives the
/// same sequence, element for element and in the same order.
pub proof fn lemma_conversion_round_trip(values: Seq<u32>, array: DeviceArray)
    requires
        array.built_from(values),
    ensures
        array.on_host(),
        array.read_back() == Ok::<Seq<u32>, ConversionError>(values),
{
}

} // verus!

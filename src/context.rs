//! The shared inference context and the request pipeline that runs on it.
use vstd::prelude::*;

use crate::convert::{
    from_device_array, lemma_conversion_round_trip, to_device_array, ConversionError, DeviceArray,
};
use crate::device::DeviceKind;

verus! {

/// A request: the values to run inference on, each the bit pattern of a
/// single-precision number.
pub struct NumericRequest {
    pub values: Vec<u32>,
}

/// A response: the values inference produced, as bit patterns.
pub struct NumericResponse {
    pub result: Vec<u32>,
}

/// Why a request failed, with the pipeline stage it failed in.
#[derive(Clone, Copy, Debug, PartialEq, Eq, Structural)]
pub enum InferenceError {
    /// The request's values could not be placed on the device.
    Input(ConversionError),
    /// The computed array could not be read back.
    Output(ConversionError),
}

impl InferenceError {
    /// A stable name for the error, for machine-readable error bodies.
    pub fn code(&self) -> (r: &'static str)
        ensures
            *self == InferenceError::Input(ConversionError::ShapeOrAllocation) ==> r@
                == "input_allocation"@,
            *self == InferenceError::Input(ConversionError::Extraction) ==> r@
                == "input_extraction"@,
            *self == InferenceError::Output(ConversionError::ShapeOrAllocation) ==> r@
                == "output_allocation"@,
            *self == InferenceError::Output(ConversionError::Extraction) ==> r@
                == "output_extraction"@,
    {
        match self {
            InferenceError::Input(ConversionError::ShapeOrAllocation) => "input_allocation",
            InferenceError::Input(ConversionError::Extraction) => "input_extraction",
            InferenceError::Output(ConversionError::ShapeOrAllocation) => "output_allocation",
            InferenceError::Output(ConversionError::Extraction) => "output_extraction",
        }
    }
}

/// The state every request computes on: the device, and in a fuller system
/// the model. One exists per process; callers share it behind a lock and
/// hold the lock for the whole of `run_inference`.
pub struct InferenceContext {
    device: DeviceKind,
}

impl InferenceContext {
    /// The device the context computes on.
    pub closed spec fn device_spec(&self) -> DeviceKind {
        self.device
    }

    /// A context on the default device.
    pub fn new() -> (r: Self)
        ensures
            r.device_spec() == DeviceKind::Cpu,
    {
        InferenceContext { device: DeviceKind::Cpu }
    }

    /// The device the context computes on.
    pub fn device(&self) -> (r: DeviceKind)
        ensures
            r == self.device_spec(),
    {
        self.device
    }

    /// The transformation applied on the device; the identity.
    pub fn compute(&self, array: DeviceArray) -> (r: DeviceArray)
        ensures
            r == array,
    {
        array
    }

    /// Runs one request: puts its values on the device, computes, and reads
    /// the result back. With the identity transformation the result is the
    /// request's values, unchanged and in order, for every length.
    pub fn run_inference(&self, request: NumericRequest) -> (r: Result<
        NumericResponse,
        InferenceError,
    >)
        ensures
            r is Ok,
            r matches Ok(resp) ==> resp.result@ == request.values@,
    {
        let ghost values = request.values@;
        let array = match to_device_array(request.values, &self.device) {
            Ok(a) => a,
            Err(e) => {
                return Err(InferenceError::Input(e));
            },
        };
        proof {
            lemma_conversion_round_trip(values, array);
        }
        let output = self.compute(array);
        match from_device_array(output) {
            Ok(result) => Ok(NumericResponse { result }),
            Err(e) => Err(InferenceError::Output(e)),
        }
    }
}

/// The HTTP status that reports an outcome: 200 for a result, 500 for a
/// failure, so that a failure is never mistaken for an empty result.
pub fn status_code(outcome: &Result<NumericResponse, InferenceError>) -> (r: u16)
    ensures
        outcome is Ok ==> r == 200,
        outcome is Err ==> r == 500,
{
    match outcome {
        Ok(_) => 200,
        Err(_) => 500,
    }
}

} // verus!

use inference_service::context::{status_code, InferenceContext, InferenceError, NumericRequest};
use inference_service::convert::{from_device_array, to_device_array, ConversionError};
use inference_service::device::DeviceKind;

fn bits(values: &[f32]) -> Vec<u32> {
    values.iter().map(|v| v.to_bits()).collect()
}

#[test]
fn three_values_come_back_unchanged() {
    let ctx = InferenceContext::new();
    let request = NumericRequest { values: bits(&[1.0, 2.0, 3.0]) };
    let response = ctx.run_inference(request).unwrap();
    let floats: Vec<f32> = response.result.iter().map(|b| f32::from_bits(*b)).collect();
    assert_eq!(floats, vec![1.0f32, 2.0, 3.0]);
}

#[test]
fn empty_request_succeeds_with_empty_result() {
    let ctx = InferenceContext::new();
    let response = ctx.run_inference(NumericRequest { values: vec![] }).unwrap();
    assert!(response.result.is_empty());
}

#[test]
fn special_values_keep_their_bits() {
    let ctx = InferenceContext::new();
    let input = bits(&[f32::NAN, -0.0, f32::INFINITY, f32::MIN_POSITIVE, -1.5e30]);
    let response = ctx.run_inference(NumericRequest { values: input.clone() }).unwrap();
    assert_eq!(response.result, input);
}

#[test]
fn long_request_keeps_order() {
    let ctx = InferenceContext::new();
    let input: Vec<u32> = (0..1000u32).map(|i| (i as f32 * 0.5).to_bits()).collect();
    let response = ctx.run_inference(NumericRequest { values: input.clone() }).unwrap();
    assert_eq!(response.result, input);
}

#[test]
fn device_round_trip_is_identity() {
    let values: Vec<u32> = vec![7, 0, u32::MAX, 42, 7];
    let array = to_device_array(values.clone(), &DeviceKind::Cpu).unwrap();
    assert_eq!(from_device_array(array).unwrap(), values);
}

#[test]
fn device_round_trip_of_empty_sequence() {
    let array = to_device_array(vec![], &DeviceKind::Cpu).unwrap();
    assert_eq!(from_device_array(array).unwrap(), Vec::<u32>::new());
}

#[test]
fn context_uses_the_default_device() {
    assert_eq!(InferenceContext::new().device(), DeviceKind::Cpu);
}

#[test]
fn status_reports_success_and_failure_apart() {
    let ctx = InferenceContext::new();
    let ok = ctx.run_inference(NumericRequest { values: vec![1, 2] });
    assert_eq!(status_code(&ok), 200);
    let failed = Err(InferenceError::Output(ConversionError::Extraction));
    assert_eq!(status_code(&failed), 500);
    let failed = Err(InferenceError::Input(ConversionError::ShapeOrAllocation));
    assert_eq!(status_code(&failed), 500);
}

#[test]
fn error_codes_name_stage_and_cause() {
    assert_eq!(InferenceError::Input(ConversionError::ShapeOrAllocation).code(), "input_allocation");
    assert_eq!(InferenceError::Input(ConversionError::Extraction).code(), "input_extraction");
    assert_eq!(InferenceError::Output(ConversionError::ShapeOrAllocation).code(), "output_allocation");
    assert_eq!(InferenceError::Output(ConversionError::Extraction).code(), "output_extraction");
}

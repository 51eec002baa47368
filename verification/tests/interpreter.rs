use tflitec::delegate;
use tflitec::error::ErrorKind;
use tflitec::interpreter::{Interpreter, InterpreterState};
use tflitec::minimal_bindings::{TfLiteStatus, TfLiteType};
use tflitec::model;
use tflitec::tensor::{DataType, RawTensor, Shape, Tensor};

fn float_input_interpreter() -> Interpreter {
    Interpreter::new(vec![Shape::new(vec![1, 4])], 1)
}

#[test]
fn creation_decisions_follow_the_handle() {
    assert!(model::load_result(true).is_ok());
    assert_eq!(
        model::load_result(false).err().unwrap().kind(),
        ErrorKind::ModelLoadError
    );

    assert!(Interpreter::create_result(true).is_ok());
    assert_eq!(
        Interpreter::create_result(false).err().unwrap().kind(),
        ErrorKind::InterpreterCreationError
    );

    assert!(delegate::xnnpack_create_result(true).is_ok());
    assert_eq!(
        delegate::xnnpack_create_result(false).err().unwrap().kind(),
        ErrorKind::DelegateCreationError
    );
}

#[test]
fn new_interpreter_needs_allocation() {
    let interp = float_input_interpreter();
    assert_eq!(interp.state(), InterpreterState::Created);
    assert_eq!(interp.input_count(), 1);
    assert_eq!(interp.output_count(), 1);
    assert_eq!(interp.input_shape(0), &Shape::new(vec![1, 4]));
}

#[test]
fn out_of_range_indices_are_refused_before_any_native_call() {
    let interp = float_input_interpreter();
    assert!(interp.check_input_index(0).is_ok());
    assert_eq!(
        interp.check_input_index(1).err().unwrap().kind(),
        ErrorKind::InvalidIndexError(1, 1)
    );
    assert_eq!(
        interp.check_input_index(usize::MAX).err().unwrap().kind(),
        ErrorKind::InvalidIndexError(usize::MAX, 1)
    );

    assert!(interp.check_output_index(0).is_ok());
    assert_eq!(
        interp.check_output_index(7).err().unwrap().kind(),
        ErrorKind::InvalidIndexError(7, 1)
    );
}

#[test]
fn failed_native_statuses_become_structured_errors() {
    let mut interp = float_input_interpreter();

    let err = interp.allocate_tensors(TfLiteStatus::kTfLiteError).err().unwrap();
    assert_eq!(err.kind(), ErrorKind::AllocateTensorsError);
    assert_eq!(interp.state(), InterpreterState::Created);

    let err = interp
        .resize_input(0, vec![2, 4], TfLiteStatus::kTfLiteApplicationError)
        .err()
        .unwrap();
    assert_eq!(err.kind(), ErrorKind::ResizeTensorError);
    assert_eq!(interp.input_shape(0), &Shape::new(vec![1, 4]));

    let err = interp.invoke(TfLiteStatus::kTfLiteDelegateError).err().unwrap();
    assert_eq!(err.kind(), ErrorKind::InvokeError);
    assert_eq!(interp.state(), InterpreterState::Created);
}

#[test]
fn resize_then_allocate_reports_the_new_shape() {
    let mut interp = float_input_interpreter();
    assert!(interp.allocate_tensors(TfLiteStatus::kTfLiteOk).is_ok());
    assert_eq!(interp.state(), InterpreterState::Allocated);

    assert!(interp
        .resize_input(0, vec![2, 4], TfLiteStatus::kTfLiteOk)
        .is_ok());
    // A successful resize invalidates previously obtained views and requires
    // allocation again before further tensor access.
    assert_eq!(interp.state(), InterpreterState::Created);

    assert!(interp.allocate_tensors(TfLiteStatus::kTfLiteOk).is_ok());
    assert_eq!(interp.state(), InterpreterState::Allocated);
    assert_eq!(interp.input_shape(0), &Shape::new(vec![2, 4]));
}

#[test]
fn allocate_twice_is_idempotent() {
    let mut interp = float_input_interpreter();
    assert!(interp.allocate_tensors(TfLiteStatus::kTfLiteOk).is_ok());
    let state_once = interp.state();
    let shape_once = interp.input_shape(0).clone();

    assert!(interp.allocate_tensors(TfLiteStatus::kTfLiteOk).is_ok());
    assert_eq!(interp.state(), state_once);
    assert_eq!(interp.input_shape(0), &shape_once);
    assert_eq!(interp.input_count(), 1);
    assert_eq!(interp.output_count(), 1);
}

#[test]
fn fresh_view_after_resize_and_reallocate_has_the_updated_shape() {
    let mut interp = float_input_interpreter();
    assert!(interp.allocate_tensors(TfLiteStatus::kTfLiteOk).is_ok());

    // A view fetched before the resize: valid only until the next resize,
    // allocation or invocation of the owning interpreter.
    let stale = Tensor::from_raw(Some(RawTensor {
        name: Some("input".to_owned()),
        tflite_type: TfLiteType::kTfLiteFloat32,
        dimensions: interp.input_shape(0).dimensions().clone(),
        data: Some(vec![0; 16]),
    }))
    .unwrap();
    assert_eq!(stale.shape(), &Shape::new(vec![1, 4]));

    assert!(interp
        .resize_input(0, vec![2, 4], TfLiteStatus::kTfLiteOk)
        .is_ok());
    assert!(interp.allocate_tensors(TfLiteStatus::kTfLiteOk).is_ok());

    // Re-fetching after the reallocation yields the updated shape.
    let fresh = Tensor::from_raw(Some(RawTensor {
        name: Some("input".to_owned()),
        tflite_type: TfLiteType::kTfLiteFloat32,
        dimensions: interp.input_shape(0).dimensions().clone(),
        data: Some(vec![0; 32]),
    }))
    .unwrap();
    assert_eq!(fresh.shape(), &Shape::new(vec![2, 4]));
    assert_eq!(fresh.element_count(4), 8);
}

#[test]
fn end_to_end_float32_inference_walk() {
    // One input of shape [1, 4] and one output of shape [1, 2], both
    // float32, as the native engine would report them for a loaded model.
    assert!(model::load_result(true).is_ok());
    assert!(Interpreter::create_result(true).is_ok());
    let mut interp = Interpreter::new(vec![Shape::new(vec![1, 4])], 1);

    assert!(interp.allocate_tensors(TfLiteStatus::kTfLiteOk).is_ok());

    assert!(interp.check_input_index(0).is_ok());
    let mut input = Tensor::from_raw(Some(RawTensor {
        name: Some("input".to_owned()),
        tflite_type: TfLiteType::kTfLiteFloat32,
        dimensions: interp.input_shape(0).dimensions().clone(),
        data: Some(vec![0; 16]),
    }))
    .unwrap();
    assert_eq!(input.data_type(), DataType::Float32);
    assert_eq!(input.shape(), &Shape::new(vec![1, 4]));

    let values = [1.0f32, 2.0, 3.0, 4.0];
    let mut bytes = Vec::new();
    for v in values {
        bytes.extend_from_slice(&v.to_le_bytes());
    }
    assert!(input.set_data(values.len(), &bytes).is_ok());
    assert_eq!(input.data(), &bytes);

    assert!(interp.invoke(TfLiteStatus::kTfLiteOk).is_ok());
    assert_eq!(interp.state(), InterpreterState::Ready);

    assert!(interp.check_output_index(0).is_ok());
    let output = Tensor::from_raw(Some(RawTensor {
        name: Some("output".to_owned()),
        tflite_type: TfLiteType::kTfLiteFloat32,
        dimensions: vec![1, 2],
        data: Some(0.5f32
            .to_le_bytes()
            .iter()
            .chain(0.5f32.to_le_bytes().iter())
            .copied()
            .collect()),
    }))
    .unwrap();
    assert_eq!(output.data_type(), DataType::Float32);
    assert_eq!(output.shape(), &Shape::new(vec![1, 2]));
    // The output is a 2-element float32 slice.
    assert_eq!(output.element_count(DataType::Float32.byte_size()), 2);
    let read: Vec<f32> = output
        .data()
        .chunks(4)
        .map(|c| f32::from_le_bytes([c[0], c[1], c[2], c[3]]))
        .collect();
    assert_eq!(read.len(), 2);
}

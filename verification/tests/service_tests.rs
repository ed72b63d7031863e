use detection_server::codec::ImageTensor;
use detection_server::detection::FLAG_CLASS;
use detection_server::model::{Engine, EngineOutput, InferenceError, ModelLoadError};
use detection_server::service::{InferenceService, ProcessError};

/// A stub engine that answers every tensor with the same fixed outputs.
struct ConstEngine {
    scores: Vec<u32>,
    classes: Vec<i32>,
}

impl Engine for ConstEngine {
    fn infer(&self, _tensor: &ImageTensor) -> Result<EngineOutput, InferenceError> {
        Ok(EngineOutput { scores: self.scores.clone(), classes: self.classes.clone() })
    }
}

/// A stub engine that always fails.
struct FailEngine;

impl Engine for FailEngine {
    fn infer(&self, _tensor: &ImageTensor) -> Result<EngineOutput, InferenceError> {
        Err(InferenceError::Engine(String::from("graph execution failed")))
    }
}

/// A stub engine that maps a distinguishable input pattern (the first
/// sample of the tensor) to a distinguishable output.
struct PatternEngine;

impl Engine for PatternEngine {
    fn infer(&self, tensor: &ImageTensor) -> Result<EngineOutput, InferenceError> {
        let tag = tensor.data.first().copied().unwrap_or(0);
        Ok(EngineOutput { scores: vec![u32::from(tag) * 1000], classes: vec![i32::from(tag)] })
    }
}

fn black_png(w: u32, h: u32) -> Vec<u8> {
    let img = image::RgbImage::new(w, h);
    let mut buf = std::io::Cursor::new(Vec::new());
    image::DynamicImage::ImageRgb8(img)
        .write_to(&mut buf, image::ImageFormat::Png)
        .unwrap();
    buf.into_inner()
}

fn gray_png(w: u32, h: u32) -> Vec<u8> {
    let img = image::GrayImage::new(w, h);
    let mut buf = std::io::Cursor::new(Vec::new());
    image::DynamicImage::ImageLuma8(img)
        .write_to(&mut buf, image::ImageFormat::Png)
        .unwrap();
    buf.into_inner()
}

#[test]
fn black_image_with_confident_flag_class_is_matched_and_flagged() {
    let engine = ConstEngine { scores: vec![950_000], classes: vec![6] };
    let svc = InferenceService::new(engine, 800_000, FLAG_CLASS);
    let r = svc.process(&black_png(10, 10)).unwrap();
    assert_eq!((r.width, r.height), (10, 10));
    assert_eq!(r.matches.len(), 1);
    assert_eq!(r.matches[0].class_id, 6);
    assert_eq!(r.matches[0].score, 950_000);
    assert!(r.flagged);
}

#[test]
fn raising_the_threshold_empties_the_matches() {
    let engine = ConstEngine { scores: vec![950_000], classes: vec![6] };
    let svc = InferenceService::new(engine, 990_000, FLAG_CLASS);
    let r = svc.process(&black_png(10, 10)).unwrap();
    assert_eq!((r.width, r.height), (10, 10));
    assert!(r.matches.is_empty());
    assert!(!r.flagged);
}

#[test]
fn non_image_bytes_fail_with_a_decode_error() {
    let engine = ConstEngine { scores: vec![950_000], classes: vec![6] };
    let svc = InferenceService::new(engine, 800_000, FLAG_CLASS);
    match svc.process(&b"definitely not an image".to_vec()) {
        Err(ProcessError::Decode(_)) => {}
        _ => panic!("non-image bytes must fail with a decode error"),
    }
}

#[test]
fn non_rgb_image_yields_empty_matches_with_its_dimensions() {
    let engine = ConstEngine { scores: vec![950_000], classes: vec![6] };
    let svc = InferenceService::new(engine, 800_000, FLAG_CLASS);
    let r = svc.process(&gray_png(4, 3)).unwrap();
    assert_eq!((r.width, r.height), (4, 3));
    assert!(r.matches.is_empty());
    assert!(!r.flagged);
}

#[test]
fn engine_failure_surfaces_as_an_inference_error() {
    let svc = InferenceService::new(FailEngine, 800_000, FLAG_CLASS);
    match svc.process(&black_png(2, 2)) {
        Err(ProcessError::Inference(InferenceError::Engine(m))) => {
            assert_eq!(m, "graph execution failed");
        }
        _ => panic!("an engine failure must surface as an inference error"),
    }
}

#[test]
fn misaligned_engine_outputs_surface_as_an_inference_error() {
    let engine = ConstEngine { scores: vec![950_000, 100_000], classes: vec![6] };
    let svc = InferenceService::new(engine, 800_000, FLAG_CLASS);
    match svc.process(&black_png(2, 2)) {
        Err(ProcessError::Inference(InferenceError::OutputLengthMismatch)) => {}
        _ => panic!("misaligned outputs must be an error, not a truncation"),
    }
}

#[test]
fn interleaved_infer_calls_share_one_engine_without_crosstalk() {
    // Many callers hold the same engine value read-only; each hands it a
    // tensor carrying a distinguishable pattern, with the calls interleaved,
    // and each answer must be attributable only to that caller's own tensor.
    let engine = PatternEngine;
    let shared = &engine;
    let tensors: Vec<ImageTensor> = (1u8..=8)
        .map(|tag| detection_server::codec::encode(&vec![tag; 2 * 2 * 3], 2, 2))
        .collect();
    let mut first_round: Vec<EngineOutput> = Vec::new();
    for t in &tensors {
        first_round.push(shared.infer(t).unwrap());
    }
    let mut second_round: Vec<EngineOutput> = Vec::new();
    for t in tensors.iter().rev() {
        second_round.push(shared.infer(t).unwrap());
    }
    for (i, out) in first_round.iter().enumerate() {
        let tag = i as u32 + 1;
        assert_eq!(out.classes, vec![tag as i32]);
        assert_eq!(out.scores, vec![tag * 1000]);
    }
    for (i, out) in second_round.iter().enumerate() {
        let tag = 8 - i as u32;
        assert_eq!(out.classes, vec![tag as i32]);
        assert_eq!(out.scores, vec![tag * 1000]);
    }
}

#[test]
fn error_messages_describe_each_failure() {
    assert_eq!(ModelLoadError::NotFound.message(), "model file not found");
    assert_eq!(
        ModelLoadError::GraphImport(String::from("bad proto")).message(),
        "bad proto"
    );
    assert_eq!(
        ModelLoadError::SessionInit(String::from("no session")).message(),
        "no session"
    );
    assert_eq!(
        InferenceError::OutputLengthMismatch.message(),
        "inference outputs disagree in length"
    );
    assert_eq!(InferenceError::Engine(String::from("boom")).message(), "boom");
    assert_eq!(
        ProcessError::Inference(InferenceError::Engine(String::from("boom"))).message(),
        "boom"
    );
}

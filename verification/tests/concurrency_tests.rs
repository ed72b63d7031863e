use std::sync::Arc;

use detection_server::codec::ImageTensor;
use detection_server::detection::FLAG_CLASS;
use detection_server::model::{Engine, EngineOutput, InferenceError};
use detection_server::service::InferenceService;

/// A stub engine that maps a distinguishable input pattern (the first
/// sample of the tensor) to a distinguishable output.
struct PatternEngine;

impl Engine for PatternEngine {
    fn infer(&self, tensor: &ImageTensor) -> Result<EngineOutput, InferenceError> {
        let tag = tensor.data.first().copied().unwrap_or(0);
        Ok(EngineOutput { scores: vec![u32::from(tag) * 1000], classes: vec![i32::from(tag)] })
    }
}

/// A one-colour 8x8 image, so that every decoded sample carries `tag`.
fn tagged_png(tag: u8) -> Vec<u8> {
    let img = image::RgbImage::from_pixel(8, 8, image::Rgb([tag, tag, tag]));
    let mut buf = std::io::Cursor::new(Vec::new());
    image::DynamicImage::ImageRgb8(img)
        .write_to(&mut buf, image::ImageFormat::Png)
        .unwrap();
    buf.into_inner()
}

#[test]
fn concurrent_requests_against_one_service_see_only_their_own_input() {
    let runtime = tokio::runtime::Builder::new_multi_thread()
        .worker_threads(4)
        .build()
        .unwrap();
    let svc = Arc::new(InferenceService::new(PatternEngine, 0, FLAG_CLASS));

    let mut handles = Vec::new();
    for tag in 1u8..=16 {
        let svc = Arc::clone(&svc);
        handles.push(runtime.spawn(async move {
            // Every answer must be attributable only to this caller's bytes.
            for _ in 0..8 {
                let r = svc.process(&tagged_png(tag)).unwrap();
                assert_eq!((r.width, r.height), (8, 8));
                assert_eq!(r.matches.len(), 1);
                assert_eq!(r.matches[0].class_id, i32::from(tag));
                assert_eq!(r.matches[0].score, u32::from(tag) * 1000);
            }
        }));
    }
    for h in handles {
        runtime.block_on(h).unwrap();
    }
}

use vstd::prelude::*;

use crate::codec::{decode_outputs, encode, zip_outputs_spec};
use crate::detection::{score_valid, DetectionResult};
use crate::filter::{apply, apply_spec, flagged_spec, is_flagged};
use crate::model::{Engine, EngineOutput, InferenceError};

verus! {

/// What the image decoder made of a byte sequence, reduced to plain values:
/// nothing for bytes that are no image at all, else the image's dimensions
/// and, exactly when the image was already 8-bit RGB, its raw row-major
/// sample buffer.
pub uninterp spec fn decode_of(bytes: Seq<u8>) -> Option<(u32, u32, Option<Seq<u8>>)>;

/// The bytes were not a recognized image; carries the decoder's message.
#[derive(Debug)]
pub struct DecodeError {
    pub message: String,
}

/// Why serving one image failed. Either kind is per-request: it is turned
/// into a response or a log line and never unwound further.
#[derive(Debug)]
pub enum ProcessError {
    /// The request bytes did not decode as an image.
    Decode(DecodeError),
    /// The engine failed, or its outputs were misaligned.
    Inference(InferenceError),
}

impl ProcessError {
    /// A short description, for logs and error envelopes.
    pub fn message(&self) -> (r: &str)
        ensures
            self is Decode ==> r@ == self->Decode_0.message@,
            (match self {
                ProcessError::Inference(e) => e is Engine ==> r@ == e->Engine_0@,
                _ => true,
            }),
    {
        match self {
            ProcessError::Decode(e) => e.message.as_str(),
            ProcessError::Inference(e) => e.message(),
        }
    }
}

/// A decoded image, reduced to the plain values the pipeline reads.
#[derive(Debug)]
pub struct DecodedImage {
    pub width: u32,
    pub height: u32,
    /// The raw row-major RGB samples; absent when the decoded image was not
    /// already in 8-bit RGB.
    pub rgb: Option<Vec<u8>>,
}

impl DecodedImage {
    /// The plain value this decoded image stands for.
    pub open spec fn abs(self) -> (u32, u32, Option<Seq<u8>>) {
        (
            self.width,
            self.height,
            match self.rgb {
                Some(v) => Some(v@),
                None => None,
            },
        )
    }
}

/// Relies on `image::load_from_memory` and `image::DynamicImage::{width,
/// height, as_rgb8}`: what a byte sequence decodes to is a function of the
/// bytes alone; `as_rgb8` yields the raw sample buffer exactly for images
/// already in 8-bit RGB.
#[verifier::external_body]
fn decode_rgb(bytes: &Vec<u8>) -> (r: Result<DecodedImage, DecodeError>)
    ensures
        (r matches Ok(d) ==> decode_of(bytes@) == Some(d.abs())),
        r is Ok <==> decode_of(bytes@) is Some,
{
    match image::load_from_memory(bytes.as_slice()) {
        Ok(img) => Ok(DecodedImage {
            width: img.width(),
            height: img.height(),
            rgb: img.as_rgb8().map(|b| b.as_raw().clone()),
        }),
        Err(e) => Err(DecodeError { message: e.to_string() }),
    }
}

/// Whether a decoded image's sample buffer can feed the pipeline: it is
/// present and holds exactly one sample per (pixel, channel) pair.
pub open spec fn rgb_usable(width: u32, height: u32, rgb: Option<Seq<u8>>) -> bool {
    rgb matches Some(b) && b.len() == width * height * 3
}

/// Whether `rgb` holds exactly `width * height * 3` samples.
fn buffer_matches(rgb: &Vec<u8>, width: u32, height: u32) -> (r: bool)
    ensures
        r == (rgb@.len() == width * height * 3),
{
    let n = rgb.len();
    match (width as usize).checked_mul(height as usize) {
        None => false,
        Some(p) => match p.checked_mul(3) {
            None => false,
            Some(q) => n == q,
        },
    }
}

/// A served result is sound for a configuration when every match reaches the
/// threshold and the flag is exactly the presence of the flag class among
/// the matches.
pub open spec fn result_wf(r: DetectionResult, threshold: u32, flag_class: i32) -> bool {
    &&& forall|i: int| 0 <= i < r.matches@.len() ==> #[trigger] r.matches@[i].score >= threshold
    &&& r.flagged == flagged_spec(r.matches@, flag_class)
}

/// Turns one engine outcome into the served result for an image of the given
/// dimensions: pairs the two outputs positionally, keeps the matches that
/// reach the threshold in engine order, and flags the result exactly when a
/// surviving match carries the flag class. Misaligned outputs are an error,
/// never silently truncated.
pub fn assemble(
    width: u32,
    height: u32,
    out: &EngineOutput,
    threshold: u32,
    flag_class: i32,
) -> (r: Result<DetectionResult, InferenceError>)
    ensures
        (match r {
            Ok(dr) => {
                &&& out.classes@.len() == out.scores@.len()
                &&& dr.width == width && dr.height == height
                &&& dr.matches@ == apply_spec(
                    zip_outputs_spec(out.classes@, out.scores@),
                    threshold,
                )
                &&& dr.flagged == flagged_spec(dr.matches@, flag_class)
                &&& result_wf(dr, threshold, flag_class)
            },
            Err(e) => {
                &&& out.classes@.len() != out.scores@.len()
                &&& e is OutputLengthMismatch
            },
        }),
{
    match decode_outputs(out) {
        Err(e) => Err(e),
        Ok(ds) => {
            let matches = apply(&ds, threshold);
            let flagged = is_flagged(&matches, flag_class);
            Ok(DetectionResult { width, height, matches, flagged })
        },
    }
}

/// One loaded model together with the process-wide configuration: the
/// inclusive score threshold and the distinguished flag class. Immutable
/// after construction; `process` takes `&self`, so one service value may be
/// shared read-only by any number of concurrent requests, and each request's
/// outcome is a function of its own bytes and its own engine outcome alone.
pub struct InferenceService<E: Engine> {
    pub engine: E,
    pub threshold: u32,
    pub flag_class: i32,
}

impl<E: Engine> InferenceService<E> {
    /// The threshold is a score, so it lies in `[0, 1]`.
    pub open spec fn wf(self) -> bool {
        score_valid(self.threshold)
    }

    pub fn new(engine: E, threshold: u32, flag_class: i32) -> (r: InferenceService<E>)
        requires
            score_valid(threshold),
        ensures
            r.engine == engine,
            r.threshold == threshold,
            r.flag_class == flag_class,
            r.wf(),
    {
        InferenceService { engine, threshold, flag_class }
    }

    /// Serves one image: decodes the bytes, builds the tensor, runs the
    /// engine, and filters the candidates.
    ///
    /// - bytes that do not decode as an image at all fail with `Decode`;
    /// - an image that decodes but is not already 8-bit RGB (or whose sample
    ///   buffer does not match its stated dimensions) yields an empty match
    ///   list under the image's dimensions — by design not an error;
    /// - an engine failure, or misaligned engine outputs, fail with
    ///   `Inference`.
    pub fn process(&self, bytes: &Vec<u8>) -> (r: Result<DetectionResult, ProcessError>)
        requires
            self.wf(),
        ensures
            ((r matches Err(e) && e is Decode) <==> decode_of(bytes@) is None),
            (match (r, decode_of(bytes@)) {
                (Ok(dr), Some((w, h, rgb))) => {
                    &&& dr.width == w && dr.height == h
                    &&& result_wf(dr, self.threshold, self.flag_class)
                    &&& (!rgb_usable(w, h, rgb) ==> dr.matches@ == Seq::<
                        crate::detection::Detection,
                    >::empty() && !dr.flagged)
                },
                (Err(e), Some((w, h, rgb))) => e is Inference && rgb_usable(w, h, rgb),
                (Err(e), None) => e is Decode,
                (Ok(_), None) => false,
            }),
    {
        match decode_rgb(bytes) {
            Err(e) => Err(ProcessError::Decode(e)),
            Ok(d) => {
                let w = d.width;
                let h = d.height;
                match d.rgb {
                    None => Ok(
                        DetectionResult { width: w, height: h, matches: Vec::new(), flagged: false },
                    ),
                    Some(rgb) => {
                        if !buffer_matches(&rgb, w, h) {
                            Ok(
                                DetectionResult {
                                    width: w,
                                    height: h,
                                    matches: Vec::new(),
                                    flagged: false,
                                },
                            )
                        } else {
                            let t = encode(&rgb, w, h);
                            match self.engine.infer(&t) {
                                Err(e) => Err(ProcessError::Inference(e)),
                                Ok(out) => match assemble(
                                    w,
                                    h,
                                    &out,
                                    self.threshold,
                                    self.flag_class,
                                ) {
                                    Err(e) => Err(ProcessError::Inference(e)),
                                    Ok(dr) => Ok(dr),
                                },
                            }
                        }
                    },
                }
            },
        }
    }
}

} // verus!

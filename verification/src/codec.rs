use vstd::prelude::*;

use crate::detection::Detection;
use crate::model::{EngineOutput, InferenceError};

verus! {

broadcast use vstd::std_specs::vec::vec_clone_deep_view_proof;

/// The flat offset of channel `c` of the pixel at column `x`, row `y` in a
/// row-major, channel-interleaved RGB buffer of the given width.
pub open spec fn pixel_offset(width: u32, x: u32, y: u32, c: u32) -> int {
    (y * width + x) * 3 + c
}

/// A dense engine-input tensor of shape `[1, height, width, 3]` (batch,
/// rows, columns, channel): row-major, channel-interleaved 8-bit RGB
/// samples. Built fresh for one inference call and discarded after it.
#[derive(Debug)]
pub struct ImageTensor {
    pub data: Vec<u8>,
    pub width: u32,
    pub height: u32,
}

impl ImageTensor {
    /// The tensor's shape: one batch entry, `height` rows, `width` columns,
    /// three channels.
    pub open spec fn shape(self) -> Seq<int> {
        seq![1, self.height as int, self.width as int, 3]
    }

    /// The buffer holds exactly one sample per (pixel, channel) pair.
    pub open spec fn wf(self) -> bool {
        self.data@.len() == self.width * self.height * 3
    }
}

/// Every valid (pixel, channel) triple lands inside the buffer.
pub proof fn lemma_pixel_offset_in_range(width: u32, height: u32, x: u32, y: u32, c: u32)
    requires
        x < width,
        y < height,
        c < 3,
    ensures
        0 <= pixel_offset(width, x, y, c) < width * height * 3,
{
    assert(0 <= (y * width + x) * 3 + c < width * height * 3) by (nonlinear_arith)
        requires
            x < width,
            y < height,
            c < 3,
    ;
}

/// The offset map sends distinct (pixel, channel) triples to distinct
/// offsets; with `lemma_pixel_offset_in_range` and `lemma_pixel_offset_onto`
/// it is a bijection between the valid triples and the buffer offsets.
pub proof fn lemma_pixel_offset_injective(
    width: u32,
    x1: u32,
    y1: u32,
    c1: u32,
    x2: u32,
    y2: u32,
    c2: u32,
)
    requires
        x1 < width,
        x2 < width,
        c1 < 3,
        c2 < 3,
        pixel_offset(width, x1, y1, c1) == pixel_offset(width, x2, y2, c2),
    ensures
        x1 == x2 && y1 == y2 && c1 == c2,
{
    let p1 = y1 * width + x1;
    let p2 = y2 * width + x2;
    assert(p1 == p2 && c1 == c2) by (nonlinear_arith)
        requires
            c1 < 3,
            c2 < 3,
            p1 * 3 + c1 == p2 * 3 + c2,
    ;
    assert(x1 == x2 && y1 == y2) by (nonlinear_arith)
        requires
            x1 < width,
            x2 < width,
            y1 * width + x1 == y2 * width + x2,
    ;
}

/// Every buffer offset is hit by some valid (pixel, channel) triple: the
/// offset map is onto the buffer.
pub proof fn lemma_pixel_offset_onto(width: u32, height: u32, off: int)
    requires
        0 <= off < width * height * 3,
    ensures
        exists|x: u32, y: u32, c: u32|
            x < width && y < height && c < 3 && pixel_offset(width, x, y, c) == off,
{
    assert(width > 0 && height > 0) by (nonlinear_arith)
        requires
            0 <= off < width * height * 3,
    ;
    let c = off % 3;
    let p = off / 3;
    let x = p % (width as int);
    let y = p / (width as int);
    vstd::arithmetic::div_mod::lemma_fundamental_div_mod(off, 3);
    vstd::arithmetic::div_mod::lemma_mod_bound(off, 3);
    vstd::arithmetic::div_mod::lemma_div_pos_is_pos(off, 3);
    assert(p < width * height) by (nonlinear_arith)
        requires
            off < width * height * 3,
            off == 3 * p + c,
            0 <= c < 3,
    ;
    vstd::arithmetic::div_mod::lemma_fundamental_div_mod(p, width as int);
    vstd::arithmetic::div_mod::lemma_mod_bound(p, width as int);
    vstd::arithmetic::div_mod::lemma_div_pos_is_pos(p, width as int);
    assert(y < height) by (nonlinear_arith)
        requires
            p < width * height,
            p == (width as int) * y + x,
            0 <= x < width,
            width > 0,
    ;
    let xu = x as u32;
    let yu = y as u32;
    let cu = c as u32;
    assert(pixel_offset(width, xu, yu, cu) == off) by {
        assert((yu * width + xu) * 3 + cu == (3 * p + c));
    };
}

/// Converts a decoded row-major RGB buffer into the engine's tensor layout.
/// The transform is offset-preserving: sample `(x, y, c)` of the image lands
/// at `pixel_offset(width, x, y, c)` of the tensor, and the tensor holds
/// exactly `width * height * 3` samples. One bulk copy; no per-pixel
/// allocation.
pub fn encode(rgb: &Vec<u8>, width: u32, height: u32) -> (t: ImageTensor)
    requires
        rgb@.len() == width * height * 3,
    ensures
        t.wf(),
        t.width == width,
        t.height == height,
        t.data@ == rgb@,
        forall|x: u32, y: u32, c: u32|
            x < width && y < height && c < 3 ==> #[trigger] t.data@[pixel_offset(
                width,
                x,
                y,
                c,
            )] == rgb@[pixel_offset(width, x, y, c)],
{
    let data = rgb.clone();
    proof {
        assert(data@ =~= rgb@);
        assert forall|x: u32, y: u32, c: u32| x < width && y < height && c < 3 implies #[trigger] data@[pixel_offset(
            width,
            x,
            y,
            c,
        )] == rgb@[pixel_offset(width, x, y, c)] by {
            lemma_pixel_offset_in_range(width, height, x, y, c);
        };
    }
    ImageTensor { data, width, height }
}

/// The positional pairing of the two engine outputs: detection `i` takes its
/// class id from `classes[i]` and its score from `scores[i]`, in the order
/// the engine produced the classes.
pub open spec fn zip_outputs_spec(classes: Seq<i32>, scores: Seq<u32>) -> Seq<Detection> {
    Seq::new(classes.len(), |i: int| Detection { class_id: classes[i], score: scores[i] })
}

/// Pairs the two engine outputs positionally. The engine owes two sequences
/// of equal length; a mismatch is reported as an error rather than silently
/// truncated to the shorter one.
pub fn decode_outputs(out: &EngineOutput) -> (r: Result<Vec<Detection>, InferenceError>)
    ensures
        (match r {
            Ok(ds) => {
                &&& out.classes@.len() == out.scores@.len()
                &&& ds@ == zip_outputs_spec(out.classes@, out.scores@)
            },
            Err(e) => {
                &&& out.classes@.len() != out.scores@.len()
                &&& e is OutputLengthMismatch
            },
        }),
{
    if out.classes.len() != out.scores.len() {
        return Err(InferenceError::OutputLengthMismatch);
    }
    let n = out.classes.len();
    let mut ds: Vec<Detection> = Vec::new();
    let mut i: usize = 0;
    while i < n
        invariant
            i <= n,
            n == out.classes@.len(),
            n == out.scores@.len(),
            ds@ == zip_outputs_spec(out.classes@, out.scores@).subrange(0, i as int),
        decreases n - i,
    {
        ds.push(Detection { class_id: out.classes[i], score: out.scores[i] });
        proof {
            assert(ds@ =~= zip_outputs_spec(out.classes@, out.scores@).subrange(
                0,
                i as int + 1,
            ));
        }
        i += 1;
    }
    proof {
        assert(ds@ =~= zip_outputs_spec(out.classes@, out.scores@));
    }
    Ok(ds)
}

} // verus!

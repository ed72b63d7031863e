use vstd::prelude::*;

verus! {

/// Scores are engine-native confidences in `[0, 1]`, held as a fixed-point
/// count of millionths: `0` stands for `0.0`, `SCORE_SCALE` for `1.0`.
pub const SCORE_SCALE: u32 = 1_000_000;

/// The distinguished class id that downstream consumers treat specially
/// ("self-portrait" in the trained taxonomy).
pub const FLAG_CLASS: i32 = 6;

/// One candidate produced by one inference execution: a class id and a
/// confidence score in millionths.
#[derive(Clone, Copy, Debug, PartialEq, Eq, Structural)]
pub struct Detection {
    pub class_id: i32,
    pub score: u32,
}

/// A score is valid when it lies in `[0, 1]`, that is, at most `SCORE_SCALE`.
pub open spec fn score_valid(s: u32) -> bool {
    s <= SCORE_SCALE
}

impl Detection {
    pub open spec fn valid(self) -> bool {
        score_valid(self.score)
    }

    pub fn new(class_id: i32, score: u32) -> (r: Detection)
        ensures
            r.class_id == class_id,
            r.score == score,
    {
        Detection { class_id, score }
    }
}

/// The served outcome for one image: its dimensions, the matches that
/// survived the threshold in engine order, and whether any surviving match
/// carries the flag class. Produced once per served image, then printed or
/// serialized and discarded.
#[derive(Debug)]
pub struct DetectionResult {
    pub width: u32,
    pub height: u32,
    pub matches: Vec<Detection>,
    pub flagged: bool,
}

} // verus!

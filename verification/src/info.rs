//! The timing line drawn over each frame.
use vstd::prelude::*;

verus! {

/// Number of timestamps a frame's query pool must hold for a timing line:
/// one after each of the seven stages of the pipeline.
pub const STAGE_TIMESTAMPS: usize = 7;

/// The text shown before any frame has reported its timings.
pub fn initial_info() -> (r: String)
    ensures
        r@ == "info"@,
{
    String::from_str("info")
}

/// Whether a frame that read back `sample_count` timestamps reports new
/// timings: it does exactly when it read back any. A read-back with some but
/// fewer than `STAGE_TIMESTAMPS` timestamps is not a valid input.
pub fn timings_ready(sample_count: usize) -> (r: bool)
    requires
        sample_count == 0 || sample_count >= STAGE_TIMESTAMPS,
    ensures
        r == (sample_count > 0),
{
    sample_count > 0
}

/// The durations of one frame, in milliseconds, each already written out as
/// text: the whole frame, and each stage of the pipeline in order.
pub struct TimingFigures {
    pub total: String,
    pub element: String,
    pub alloc: String,
    pub path_coarse: String,
    pub backdrop: String,
    pub binning: String,
    pub coarse: String,
    pub fine: String,
}

/// The timing line for the given figures:
/// `<total>ms :: e:<element>ms|alloc:<alloc>ms|cp:<path_coarse>ms|bd:<backdrop>ms|bin:<binning>ms|cr:<coarse>ms|r:<fine>ms`.
pub open spec fn info_line_text(f: TimingFigures) -> Seq<char> {
    f.total@ + "ms :: e:"@ + f.element@ + "ms|alloc:"@ + f.alloc@ + "ms|cp:"@ + f.path_coarse@
        + "ms|bd:"@ + f.backdrop@ + "ms|bin:"@ + f.binning@ + "ms|cr:"@ + f.coarse@ + "ms|r:"@
        + f.fine@ + "ms"@
}

impl TimingFigures {
    /// The timing line for these figures (see `info_line_text`).
    pub fn info_line(&self) -> (r: String)
        ensures
            r@ == info_line_text(*self),
            r@ == self.total@ + "ms :: e:"@ + self.element@ + "ms|alloc:"@ + self.alloc@ + "ms|cp:"@
                + self.path_coarse@ + "ms|bd:"@ + self.backdrop@ + "ms|bin:"@ + self.binning@
                + "ms|cr:"@ + self.coarse@ + "ms|r:"@ + self.fine@ + "ms"@,
            r@.subrange(0, self.total@.len() as int) == self.total@,
    {
        let mut s = String::from_str(self.total.as_str());
        s.append("ms :: e:");
        s.append(self.element.as_str());
        s.append("ms|alloc:");
        s.append(self.alloc.as_str());
        s.append("ms|cp:");
        s.append(self.path_coarse.as_str());
        s.append("ms|bd:");
        s.append(self.backdrop.as_str());
        s.append("ms|bin:");
        s.append(self.binning.as_str());
        s.append("ms|cr:");
        s.append(self.coarse.as_str());
        s.append("ms|r:");
        s.append(self.fine.as_str());
        s.append("ms");
        proof {
            assert(s@.subrange(0, self.total@.len() as int) =~= self.total@);
        }
        s
    }
}

/// How the timing line is drawn: its text, its font size, and the origin of
/// the text, in whole pixels.
pub struct InfoLabel {
    pub text: String,
    pub font_size: u32,
    pub x: u32,
    pub y: u32,
}

/// The label that draws `info` over a frame: the text as given, at font size
/// 40, with its origin at (110, 50).
pub fn info_label(info: &str) -> (l: InfoLabel)
    ensures
        l.text@ == info@,
        l.font_size == 40,
        l.x == 110,
        l.y == 50,
{
    InfoLabel { text: String::from_str(info), font_size: 40, x: 110, y: 50 }
}

} // verus!

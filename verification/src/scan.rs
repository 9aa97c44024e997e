//! Adaptive multi-resolution windowed scan.
//!
//! The scan first classifies the whole buffer; only when that fails does it
//! walk the buffer with overlapping windows, merging consecutive windows
//! that predict the same architecture and shrinking the window until either
//! some region is detected or the minimum window size is reached.

use vstd::prelude::*;

verus! {

/// Smallest half-width the windowed scan will try.
pub const MIN_HALF_WIDTH: usize = 0x40;

/// Initial window half-width chosen from the buffer length: a fixed table
/// for buffers up to 0x100000 bytes, and a hundredth of the length, rounded
/// down to a multiple of 0x1000, for larger buffers.
pub open spec fn spec_initial_half_width(len: nat) -> nat {
    if len <= 0x1000 {
        0x100
    } else if len <= 0x8000 {
        0x200
    } else if len <= 0x20000 {
        0x400
    } else if len <= 0x100000 {
        0x800
    } else {
        let q = len / 100;
        (q - (q % 0x1000)) as nat
    }
}

/// Picks the half-width of the first windowed pass over a buffer of `len`
/// bytes. Each analysis window spans twice the half-width and successive
/// windows start one half-width apart.
pub fn initial_half_width(len: usize) -> (w: usize)
    ensures
        w == spec_initial_half_width(len as nat),
        w >= MIN_HALF_WIDTH,
        w <= 0x800 || w <= len / 100,
{
    if len <= 0x1000 {
        0x100
    } else if len <= 0x8000 {
        0x200
    } else if len <= 0x20000 {
        0x400
    } else if len <= 0x100000 {
        0x800
    } else {
        let q: usize = len / 100;
        q - q % 0x1000
    }
}

/// Where a reported detection lies in the scanned buffer.
#[derive(Clone, Copy, Debug, PartialEq, Eq)]
pub enum DetectedRange {
    /// The whole buffer, detected without windowing.
    WholeFile,
    /// The byte range `[start, end)`, detected by the windowed scan.
    Span { start: usize, end: usize },
}

/// One detection reported by a scan.
#[derive(Clone, Debug)]
pub struct DetectionResult {
    pub file: String,
    pub arch: String,
    pub range: DetectedRange,
}

/// The running guess of the windowed scan: the label predicted for the
/// windows seen so far (or none) and the byte range those windows cover.
pub struct Guess {
    pub arch: Option<String>,
    pub start: usize,
    pub end: usize,
}

/// Which part of the scan the `Scanner` is in.
#[derive(Clone, Copy, Debug)]
pub enum ScanPhase {
    /// The whole buffer is analyzed first.
    Whole,
    /// The buffer is walked with overlapping windows of the current width.
    Windowed,
    /// The scan is over; the results are final.
    Done,
}

/// The adaptive windowed scan over one buffer, as a step machine: the
/// caller repeatedly asks `next_window` for the byte range to classify,
/// obtains a prediction for it (whatever way it likes), and hands the
/// prediction to `step`, until the scanner is done and `results` holds the
/// detections.
pub struct Scanner {
    /// Identifier of the scanned buffer, copied into every result.
    pub file: String,
    /// Length of the scanned buffer in bytes.
    pub len: usize,
    /// Current window half-width; each window spans twice this.
    pub half_width: usize,
    /// Start of the window the scanner expects a prediction for next.
    pub pos: usize,
    /// The running guess of the current resolution level.
    pub guess: Guess,
    /// The detections reported so far.
    pub results: Vec<DetectionResult>,
    /// Where in the scan the machine stands.
    pub phase: ScanPhase,
}

/// End of the current window: the buffer is cut off at its end.
pub open spec fn spec_window_end(s: Scanner) -> int {
    if s.pos + 2 * s.half_width <= s.len {
        s.pos + 2 * s.half_width
    } else {
        s.len as int
    }
}

/// The new window's prediction carries the same label as the running guess.
pub open spec fn matches_guess(g: Option<String>, p: Option<String>) -> bool {
    &&& p is Some
    &&& g is Some
    &&& g.unwrap()@ == p.unwrap()@
}

/// The running guess qualifies for a report: it has a label and its range
/// spans more than one full window of the current width.
pub open spec fn guess_reportable(s: Scanner) -> bool {
    &&& s.guess.arch is Some
    &&& s.guess.end - s.guess.start > 2 * s.half_width
}

/// The detection reported when the running guess of `s` is closed out.
pub open spec fn reported(s: Scanner) -> DetectionResult {
    DetectionResult {
        file: s.file,
        arch: s.guess.arch.unwrap(),
        range: DetectedRange::Span { start: s.guess.start, end: s.guess.end },
    }
}

/// The results after the window at `pre.pos` was classified as `p`: the
/// running guess is reported exactly when the new prediction breaks it off
/// and it spans more than one full window.
pub open spec fn mid_results(pre: Scanner, p: Option<String>) -> Seq<DetectionResult> {
    if !matches_guess(pre.guess.arch, p) && guess_reportable(pre) {
        pre.results@.push(reported(pre))
    } else {
        pre.results@
    }
}

/// The running guess after the window at `pre.pos` was classified as `p`:
/// extended when the label matches, restarted at this window otherwise.
pub open spec fn mid_guess(pre: Scanner, p: Option<String>) -> Guess {
    if matches_guess(pre.guess.arch, p) {
        Guess { arch: pre.guess.arch, start: pre.guess.start, end: spec_window_end(pre) as usize }
    } else {
        Guess { arch: p, start: pre.pos, end: spec_window_end(pre) as usize }
    }
}

/// Transition of `step` out of the whole-buffer phase: a successful
/// prediction is the single, final result; a failed one starts the
/// windowed walk (or ends an empty buffer's scan at once).
pub open spec fn step_rel_whole(pre: Scanner, p: Option<String>, post: Scanner) -> bool {
    match p {
        Some(l) => {
            &&& post.phase is Done
            &&& post.results@ == pre.results@.push(
                DetectionResult { file: pre.file, arch: l, range: DetectedRange::WholeFile },
            )
        },
        None => {
            if pre.len == 0 {
                &&& post.phase is Done
                &&& post.results@ == pre.results@
            } else {
                &&& post.phase is Windowed
                &&& post.half_width == spec_initial_half_width(pre.len as nat)
                &&& post.pos == 0
                &&& post.guess == (Guess { arch: Option::None, start: 0, end: 0 })
                &&& post.results@ == pre.results@
            }
        },
    }
}

/// Transition of `step` inside the windowed phase: merge or report the
/// running guess, then move to the next window; at the end of a level,
/// stop if anything was reported, halve the window otherwise, and give up
/// below the minimum width.
pub open spec fn step_rel_windowed(pre: Scanner, p: Option<String>, post: Scanner) -> bool {
    let level_done = pre.len - pre.pos <= pre.half_width;
    &&& post.results@ == mid_results(pre, p)
    &&& if !level_done {
        &&& post.phase is Windowed
        &&& post.half_width == pre.half_width
        &&& post.pos == pre.pos + pre.half_width
        &&& post.guess == mid_guess(pre, p)
    } else if mid_results(pre, p).len() > 0 {
        &&& post.phase is Done
        &&& post.half_width == pre.half_width
        &&& post.pos == pre.pos
        &&& post.guess == mid_guess(pre, p)
    } else {
        let h2 = pre.half_width / 2;
        if h2 < MIN_HALF_WIDTH {
            &&& post.phase is Done
            &&& post.half_width == pre.half_width
            &&& post.pos == pre.pos
            &&& post.guess == mid_guess(pre, p)
        } else {
            &&& post.phase is Windowed
            &&& post.half_width == h2
            &&& post.pos == 0
            &&& post.guess == (Guess { arch: Option::None, start: 0, end: 0 })
        }
    }
}

/// Everything `step` does, as a relation between the scanner before and
/// after handing it the prediction `p` for the current window.
pub open spec fn step_rel(pre: Scanner, p: Option<String>, post: Scanner) -> bool {
    &&& post.file == pre.file
    &&& post.len == pre.len
    &&& match pre.phase {
        ScanPhase::Whole => step_rel_whole(pre, p, post),
        ScanPhase::Windowed => step_rel_windowed(pre, p, post),
        ScanPhase::Done => false,
    }
}

impl Scanner {
    /// Validity of the scanner state between steps.
    pub open spec fn wf(&self) -> bool {
        &&& (self.phase is Whole ==> self.results@.len() == 0)
        &&& (self.phase is Windowed ==> {
            &&& 0 < self.len
            &&& self.pos < self.len
            &&& MIN_HALF_WIDTH <= self.half_width
            &&& (self.half_width <= 0x800 || self.half_width <= self.len / 100)
            &&& self.guess.start <= self.guess.end <= self.len
            &&& self.guess.start <= self.pos
        })
    }

    /// A scan of a buffer of `len` bytes named `file`, starting with the
    /// whole-buffer phase.
    pub fn new(file: String, len: usize) -> (s: Scanner)
        ensures
            s.wf(),
            s.phase is Whole,
            s.file@ == file@,
            s.len == len,
            s.results@ == Seq::<DetectionResult>::empty(),
    {
        Scanner {
            file,
            len,
            half_width: 0,
            pos: 0,
            guess: Guess { arch: None, start: 0, end: 0 },
            results: Vec::new(),
            phase: ScanPhase::Whole,
        }
    }

    /// The byte range the scanner wants classified next, or nothing when
    /// the scan is over.
    pub fn next_window(&self) -> (r: Option<(usize, usize)>)
        requires
            self.wf(),
        ensures
            self.phase is Whole ==> r == Some((0usize, self.len)),
            self.phase is Windowed ==> r == Some((self.pos, spec_window_end(*self) as usize)),
            self.phase is Done ==> r is None,
    {
        match self.phase {
            ScanPhase::Whole => Some((0, self.len)),
            ScanPhase::Windowed => {
                let double = 2 * self.half_width;
                let wend = if double <= self.len - self.pos {
                    self.pos + double
                } else {
                    self.len
                };
                Some((self.pos, wend))
            },
            ScanPhase::Done => None,
        }
    }

    /// Hands the scanner the prediction for the window it asked for; the
    /// effect is exactly `step_rel`.
    pub fn step(&mut self, prediction: Option<String>)
        requires
            old(self).wf(),
            !(old(self).phase is Done),
        ensures
            final(self).wf(),
            step_rel(*old(self), prediction, *final(self)),
    {
        match self.phase {
            ScanPhase::Whole => {
                match prediction {
                    Some(l) => {
                        let res = DetectionResult {
                            file: self.file.clone(),
                            arch: l,
                            range: DetectedRange::WholeFile,
                        };
                        self.results.push(res);
                        self.phase = ScanPhase::Done;
                    },
                    None => {
                        if self.len == 0 {
                            self.phase = ScanPhase::Done;
                        } else {
                            self.half_width = initial_half_width(self.len);
                            self.pos = 0;
                            self.guess = Guess { arch: None, start: 0, end: 0 };
                            self.phase = ScanPhase::Windowed;
                        }
                    },
                }
            },
            ScanPhase::Windowed => {
                let double = 2 * self.half_width;
                let wend = if double <= self.len - self.pos {
                    self.pos + double
                } else {
                    self.len
                };
                let same_label = match (&self.guess.arch, &prediction) {
                    (Some(a), Some(w)) => a.eq(w),
                    _ => false,
                };
                if same_label {
                    self.guess.end = wend;
                } else {
                    match &self.guess.arch {
                        Some(a) => {
                            if self.guess.end - self.guess.start > double {
                                let res = DetectionResult {
                                    file: self.file.clone(),
                                    arch: a.clone(),
                                    range: DetectedRange::Span {
                                        start: self.guess.start,
                                        end: self.guess.end,
                                    },
                                };
                                self.results.push(res);
                            }
                        },
                        None => {},
                    }
                    self.guess = Guess { arch: prediction, start: self.pos, end: wend };
                }
                if self.len - self.pos <= self.half_width {
                    if self.results.len() > 0 {
                        self.phase = ScanPhase::Done;
                    } else {
                        let h2 = self.half_width / 2;
                        if h2 < MIN_HALF_WIDTH {
                            self.phase = ScanPhase::Done;
                        } else {
                            self.half_width = h2;
                            self.pos = 0;
                            self.guess = Guess { arch: None, start: 0, end: 0 };
                        }
                    }
                } else {
                    self.pos = self.pos + self.half_width;
                }
            },
            ScanPhase::Done => {
                proof {
                    assert(false);
                }
            },
        }
    }
}

/// Whole-buffer precedence: when the whole-buffer prediction succeeds, the
/// scan is over at once with exactly one result, covering the whole
/// buffer, and no windowed pass happens.
pub proof fn lemma_whole_buffer_precedence(pre: Scanner, p: Option<String>, post: Scanner)
    requires
        pre.wf(),
        pre.phase is Whole,
        p is Some,
        step_rel(pre, p, post),
    ensures
        post.phase is Done,
        post.results@.len() == 1,
        post.results@[0].range == DetectedRange::WholeFile,
        post.results@[0].arch == p.unwrap(),
{
}

/// Window merge threshold: a step reports a detection only by closing out
/// the running guess, and only when that guess has a label and its range
/// spans more than twice the half-width at which it was found; shorter
/// runs are dropped silently.
pub proof fn lemma_window_merge_threshold(pre: Scanner, p: Option<String>, post: Scanner)
    requires
        pre.wf(),
        pre.phase is Windowed,
        step_rel(pre, p, post),
        post.results@.len() != pre.results@.len(),
    ensures
        post.results@ == pre.results@.push(reported(pre)),
        pre.guess.arch is Some,
        pre.guess.end - pre.guess.start > 2 * pre.half_width,
        post.results@.last().range == (DetectedRange::Span {
            start: pre.guess.start,
            end: pre.guess.end,
        }),
{
}

/// Monotone shrink: when the last window of a level has been classified
/// and nothing has been detected, the next level uses exactly half the
/// half-width; once that half falls below the minimum, the scan is over
/// with no results.
pub proof fn lemma_monotone_shrink(pre: Scanner, p: Option<String>, post: Scanner)
    requires
        pre.wf(),
        pre.phase is Windowed,
        step_rel(pre, p, post),
        pre.len - pre.pos <= pre.half_width,
        post.results@.len() == 0,
    ensures
        post.phase is Windowed || post.phase is Done,
        post.phase is Windowed ==> post.half_width == pre.half_width / 2 && post.half_width
            >= MIN_HALF_WIDTH && post.pos == 0,
        post.phase is Done ==> pre.half_width / 2 < MIN_HALF_WIDTH,
{
}

} // verus!

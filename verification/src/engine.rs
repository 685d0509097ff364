//! The spectrogram computation: configuration checks, frame hand-out,
//! per-row aggregation and bounds tracking, and result assembly.
//!
//! The engine cannot run the Fourier transform itself (that is floating-point
//! work), so one computation is a short dialogue with an unverified driver:
//! the driver asks for the next frame, transforms it to one row of raw
//! log-magnitude encodings, and hands the row back; the engine clamps the
//! row, appends it to the matrix, and folds it into the running bounds.
//! Every decision in that dialogue - which samples each frame holds, when
//! the frame sequence ends, how rows are clamped and aggregated, what the
//! final result contains - is made and verified here.

use vstd::prelude::*;
use crate::chunks::ChunksWithHop;
use crate::chunks::spec_frames;
use crate::config::ConfigError;
use crate::config::spec_step;
use crate::magnitude::INFINITY_BITS;
use crate::magnitude::MagnitudeBounds;
use crate::magnitude::NEG_INFINITY_BITS;
use crate::magnitude::clamp_row;
use crate::magnitude::is_magnitude_encoding;
use crate::magnitude::lemma_fold_max_bounds;
use crate::magnitude::lemma_fold_max_push;
use crate::magnitude::lemma_fold_min_bounds;
use crate::magnitude::lemma_fold_min_push;
use crate::magnitude::spec_clamp;
use crate::magnitude::spec_clamp_row;
use crate::magnitude::spec_fold_max;
use crate::magnitude::spec_fold_min;

verus! {

/// The finished spectrogram: the magnitude matrix (one row per frame, in
/// frame order), the sample-index range covered, the frequency range covered,
/// and the magnitude bounds observed across the whole matrix. Magnitudes are
/// IEEE 754 single-precision encodings carried in `u32`.
pub struct SpectrogramResult {
    /// One row of clamped log-magnitude encodings per frame, in time order;
    /// every row holds `window_size / 2 + 1` values.
    pub v: Vec<Vec<u32>>,
    /// The sample-index range covered: `[0, signal length)`.
    pub x_axis_bounds_samples: [usize; 2],
    /// The frequency range covered: `[0, sample rate)` in Hz.
    pub y_axis_bounds_hz: [usize; 2],
    /// The least and greatest magnitude encoding in the matrix, in that
    /// order; the sentinel pair (positive infinity, negative infinity) when
    /// the matrix is empty.
    pub magnitude_bounds: [u32; 2],
}

impl SpectrogramResult {
    /// The matrix as a sequence of rows of encodings.
    pub open spec fn spec_rows(self) -> Seq<Seq<u32>> {
        Seq::new(self.v@.len(), |i: int| self.v@[i]@)
    }
}

/// One in-flight spectrogram computation. Built by `new` (which checks the
/// configuration), driven by alternating `next_frame` / `push_row` calls,
/// and closed by `finish`.
pub struct StftSession {
    chunks: ChunksWithHop<u32>,
    signal_len: usize,
    sample_rate: usize,
    window_size: usize,
    matrix: Vec<Vec<u32>>,
    bounds: MagnitudeBounds,
    awaiting: bool,
}

impl StftSession {
    /// The rows aggregated so far, in frame order.
    pub closed spec fn rows(self) -> Seq<Seq<u32>> {
        Seq::new(self.matrix@.len(), |i: int| self.matrix@[i]@)
    }

    /// The frames not yet handed to the driver.
    pub closed spec fn frames_left(self) -> Seq<Seq<u32>> {
        self.chunks.frames()
    }

    /// The length of the signal under analysis.
    pub closed spec fn spec_signal_len(self) -> int {
        self.signal_len as int
    }

    /// The sample rate the result will report.
    pub closed spec fn spec_sample_rate(self) -> int {
        self.sample_rate as int
    }

    /// The window size of this computation.
    pub closed spec fn spec_window_size(self) -> int {
        self.window_size as int
    }

    /// How many values each magnitude row holds: the Nyquist-limited half
    /// spectrum, `window_size / 2 + 1` bins (the Nyquist bin is included,
    /// for even and odd window sizes alike).
    pub closed spec fn spec_n_bins(self) -> int {
        self.window_size as int / 2 + 1
    }

    /// The running minimum magnitude encoding.
    pub closed spec fn spec_min(self) -> u32 {
        self.bounds.min
    }

    /// The running maximum magnitude encoding.
    pub closed spec fn spec_max(self) -> u32 {
        self.bounds.max
    }

    /// Whether a frame has been handed out whose row has not come back yet.
    pub closed spec fn spec_awaiting(self) -> bool {
        self.awaiting
    }

    /// Internal consistency of a session: every aggregated row has the half
    /// spectrum's width and holds clamped, non-NaN encodings; the bounds are
    /// the sentinels while no row exists, and otherwise the attained minimum
    /// and maximum over every aggregated value; and an empty signal admits no
    /// frame and no row.
    pub closed spec fn wf(self) -> bool {
        &&& self.window_size >= 2
        &&& self.chunks.spec_window_size() == self.window_size as int
        &&& forall|i: int|
            0 <= i < self.rows().len() ==> (#[trigger] self.rows()[i]).len() == self.spec_n_bins()
        &&& forall|i: int, j: int|
            0 <= i < self.rows().len() && 0 <= j < self.rows()[i].len()
                ==> #[trigger] self.rows()[i][j] <= INFINITY_BITS
        &&& (self.rows().len() == 0 ==> self.bounds.min == INFINITY_BITS && self.bounds.max
            == NEG_INFINITY_BITS)
        &&& (self.rows().len() > 0 ==> {
            &&& forall|i: int, j: int|
                0 <= i < self.rows().len() && 0 <= j < self.rows()[i].len()
                    ==> self.bounds.min <= #[trigger] self.rows()[i][j] <= self.bounds.max
            &&& exists|i: int, j: int|
                0 <= i < self.rows().len() && 0 <= j < self.rows()[i].len()
                    && #[trigger] self.rows()[i][j] == self.bounds.min
            &&& exists|i: int, j: int|
                0 <= i < self.rows().len() && 0 <= j < self.rows()[i].len()
                    && #[trigger] self.rows()[i][j] == self.bounds.max
        })
        &&& (self.signal_len == 0 ==> self.frames_left().len() == 0 && self.rows().len() == 0
            && !self.awaiting)
    }

    /// Opens a computation over `signal` (sample encodings). The window size
    /// and hop are checked first: a window size of 0 or 1 and a non-positive
    /// step `window_size + hop` are configuration errors, reported before any
    /// frame is processed. On success the session starts with an empty matrix,
    /// the sentinel bounds, and the full frame sequence ahead of it.
    pub fn new(signal: Vec<u32>, samples_per_second: usize, window_size: usize, hop: isize) -> (r:
        Result<StftSession, ConfigError>)
        requires
            window_size as int + hop as int <= usize::MAX as int,
        ensures
            window_size <= 1 ==> r == Err::<StftSession, ConfigError>(ConfigError::WindowTooSmall),
            window_size > 1 && spec_step(window_size as int, hop as int) <= 0 ==> r == Err::<
                StftSession,
                ConfigError,
            >(ConfigError::StepNotPositive),
            window_size > 1 && spec_step(window_size as int, hop as int) > 0 ==> (r matches Ok(s)
                && {
                &&& s.wf()
                &&& s.rows() == Seq::<Seq<u32>>::empty()
                &&& s.frames_left() == spec_frames(
                    signal@,
                    window_size as int,
                    spec_step(window_size as int, hop as int),
                )
                &&& s.spec_signal_len() == signal@.len()
                &&& s.spec_sample_rate() == samples_per_second as int
                &&& s.spec_window_size() == window_size as int
                &&& s.spec_n_bins() == window_size as int / 2 + 1
                &&& s.spec_min() == INFINITY_BITS
                &&& s.spec_max() == NEG_INFINITY_BITS
                &&& !s.spec_awaiting()
            }),
    {
        let signal_len: usize = signal.len();
        match ChunksWithHop::new(signal, window_size, hop) {
            Err(e) => Err(e),
            Ok(chunks) => {
                let s = StftSession {
                    chunks,
                    signal_len,
                    sample_rate: samples_per_second,
                    window_size,
                    matrix: Vec::new(),
                    bounds: MagnitudeBounds::new(),
                    awaiting: false,
                };
                proof {
                    assert(s.rows() =~= Seq::<Seq<u32>>::empty());
                }
                Ok(s)
            },
        }
    }

    /// Whether the session is waiting for the row of the frame handed out
    /// last. `push_row` may only be called while this holds, `next_frame`
    /// only while it does not.
    pub fn awaiting_row(&self) -> (b: bool)
        ensures
            b == self.spec_awaiting(),
    {
        self.awaiting
    }

    /// How many values each magnitude row of this computation holds.
    pub fn n_bins(&self) -> (n: usize)
        requires
            self.wf(),
        ensures
            n as int == self.spec_n_bins(),
    {
        self.window_size / 2 + 1
    }

    /// Hands the next frame to the driver: `min(remaining, window_size)`
    /// sample encodings, never empty, never longer than the window (the
    /// driver zero-pads its transform buffer beyond the frame). Returns
    /// `None` when the frame sequence is exhausted; otherwise the session
    /// then awaits the frame's magnitude row.
    pub fn next_frame(&mut self) -> (r: Option<Vec<u32>>)
        requires
            old(self).wf(),
            !old(self).spec_awaiting(),
        ensures
            final(self).wf(),
            final(self).rows() == old(self).rows(),
            final(self).spec_min() == old(self).spec_min(),
            final(self).spec_max() == old(self).spec_max(),
            final(self).spec_signal_len() == old(self).spec_signal_len(),
            final(self).spec_sample_rate() == old(self).spec_sample_rate(),
            final(self).spec_window_size() == old(self).spec_window_size(),
            final(self).spec_n_bins() == old(self).spec_n_bins(),
            old(self).frames_left().len() == 0 ==> r.is_none() && final(self).frames_left() == old(
                self,
            ).frames_left() && !final(self).spec_awaiting(),
            old(self).frames_left().len() > 0 ==> r.is_some() && r.unwrap()@ == old(
                self,
            ).frames_left()[0] && final(self).frames_left() == old(self).frames_left().drop_first()
                && final(self).spec_awaiting(),
            r.is_some() ==> 1 <= r.unwrap()@.len() <= old(self).spec_window_size(),
    {
        let r = self.chunks.next();
        if r.is_some() {
            self.awaiting = true;
        }
        r
    }

    /// Takes the raw log-magnitude row of the frame handed out last: clamps
    /// every entry at zero, appends the clamped row to the matrix, and folds
    /// it into the running bounds. The row must hold exactly one raw encoding
    /// per half-spectrum bin, each a real or infinite value (never a NaN
    /// pattern; the transform of a finite frame yields none).
    pub fn push_row(&mut self, raw: &Vec<u32>)
        requires
            old(self).wf(),
            old(self).spec_awaiting(),
            raw@.len() == old(self).spec_n_bins(),
            forall|j: int| 0 <= j < raw@.len() ==> is_magnitude_encoding(#[trigger] raw@[j]),
        ensures
            final(self).wf(),
            final(self).rows() == old(self).rows().push(spec_clamp_row(raw@)),
            final(self).spec_min() == spec_fold_min(old(self).spec_min(), spec_clamp_row(raw@)),
            final(self).spec_max() == spec_fold_max(old(self).spec_max(), spec_clamp_row(raw@)),
            !final(self).spec_awaiting(),
            final(self).frames_left() == old(self).frames_left(),
            final(self).spec_signal_len() == old(self).spec_signal_len(),
            final(self).spec_sample_rate() == old(self).spec_sample_rate(),
            final(self).spec_window_size() == old(self).spec_window_size(),
            final(self).spec_n_bins() == old(self).spec_n_bins(),
    {
        let clamped = clamp_row(raw);
        proof {
            assert forall|j: int| 0 <= j < clamped@.len() implies #[trigger] clamped@[j]
                <= INFINITY_BITS by {
                assert(clamped@[j] == spec_clamp(raw@[j]));
                assert(is_magnitude_encoding(raw@[j]));
            }
        }
        let ghost min0 = self.bounds.min;
        let ghost max0 = self.bounds.max;
        let mut j: usize = 0;
        while j < clamped.len()
            invariant
                j <= clamped@.len(),
                old(self).wf(),
                old(self).spec_awaiting(),
                raw@.len() == old(self).spec_n_bins(),
                clamped@ == spec_clamp_row(raw@),
                forall|k: int| 0 <= k < clamped@.len() ==> #[trigger] clamped@[k] <= INFINITY_BITS,
                min0 == old(self).bounds.min,
                max0 == old(self).bounds.max,
                self.chunks == old(self).chunks,
                self.matrix == old(self).matrix,
                self.signal_len == old(self).signal_len,
                self.sample_rate == old(self).sample_rate,
                self.window_size == old(self).window_size,
                self.awaiting == old(self).awaiting,
                self.bounds.min == spec_fold_min(min0, clamped@.take(j as int)),
                self.bounds.max == spec_fold_max(max0, clamped@.take(j as int)),
            decreases clamped@.len() - j,
        {
            let ghost before = clamped@.take(j as int);
            self.bounds.update(clamped[j]);
            proof {
                lemma_fold_min_push(min0, before, clamped@[j as int]);
                lemma_fold_max_push(max0, before, clamped@[j as int]);
                assert(clamped@.take(j + 1).drop_last() =~= before);
                assert(clamped@.take(j + 1) =~= before.push(clamped@[j as int]));
            }
            j = j + 1;
        }
        proof {
            assert(clamped@.take(clamped@.len() as int) =~= clamped@);
        }
        self.matrix.push(clamped);
        self.awaiting = false;
        proof {
            let pre = *old(self);
            let row = spec_clamp_row(raw@);
            assert(clamped@ == row);
            assert(self.rows() =~= pre.rows().push(row));
            lemma_fold_min_bounds(min0, row);
            lemma_fold_max_bounds(max0, row);
            let rs = self.rows();
            let n = rs.len() as int;
            let mn = self.bounds.min;
            let mx = self.bounds.max;
            assert(rs[n - 1] == row);
            assert(row.len() == raw@.len());
            assert(row.len() > 0);
            if pre.rows().len() > 0 {
                assert(max0 != NEG_INFINITY_BITS) by {
                    let (wi, wj) = choose|wi: int, wj: int|
                        0 <= wi < pre.rows().len() && 0 <= wj < pre.rows()[wi].len()
                            && #[trigger] pre.rows()[wi][wj] == max0;
                    assert(pre.rows()[wi][wj] <= INFINITY_BITS);
                };
            }
            // Row widths and the clamped range carry over to the new matrix.
            assert forall|i: int| 0 <= i < n implies (#[trigger] rs[i]).len()
                == self.spec_n_bins() by {
                if i < n - 1 {
                    assert(rs[i] == pre.rows()[i]);
                }
            }
            assert forall|i: int, j: int|
                0 <= i < n && 0 <= j < rs[i].len() implies #[trigger] rs[i][j]
                <= INFINITY_BITS by {
                if i < n - 1 {
                    assert(rs[i] == pre.rows()[i]);
                } else {
                    assert(rs[i][j] == clamped@[j]);
                }
            }
            // The new bounds enclose every entry, old and new.
            assert forall|i: int, j: int|
                0 <= i < n && 0 <= j < rs[i].len() implies mn <= #[trigger] rs[i][j] <= mx by {
                if i < n - 1 {
                    assert(rs[i] == pre.rows()[i]);
                    assert(pre.rows().len() > 0);
                    assert(min0 <= rs[i][j] <= max0);
                } else {
                    assert(rs[i][j] == row[j]);
                }
            }
            // The new minimum is attained: either it was attained in the old
            // matrix, or it sits in the new row.
            if mn == min0 && pre.rows().len() > 0 {
                let (wi, wj) = choose|wi: int, wj: int|
                    0 <= wi < pre.rows().len() && 0 <= wj < pre.rows()[wi].len()
                        && #[trigger] pre.rows()[wi][wj] == min0;
                assert(rs[wi][wj] == mn);
            } else if mn == min0 {
                // The sentinel minimum survived a non-empty row: every entry
                // of the row is then at least positive infinity and at most
                // positive infinity, so the row attains it.
                assert(min0 == INFINITY_BITS);
                assert(row[0] <= INFINITY_BITS);
                assert(mn <= row[0]);
                assert(rs[n - 1][0] == mn);
            } else {
                let k = choose|k: int| 0 <= k < row.len() && row[k] == mn;
                assert(rs[n - 1][k] == mn);
            }
            // Likewise for the maximum; the sentinel cannot survive a
            // non-empty row at all.
            if mx == max0 {
                assert(max0 != NEG_INFINITY_BITS);
                assert(pre.rows().len() > 0);
                let (wi, wj) = choose|wi: int, wj: int|
                    0 <= wi < pre.rows().len() && 0 <= wj < pre.rows()[wi].len()
                        && #[trigger] pre.rows()[wi][wj] == max0;
                assert(rs[wi][wj] == mx);
            } else {
                let k = choose|k: int| 0 <= k < row.len() && row[k] == mx;
                assert(rs[n - 1][k] == mx);
            }
            assert(self.wf());
        }
    }

    /// Packages the finished computation: the matrix, the covered sample
    /// range `[0, signal length)`, the covered frequency range
    /// `[0, sample rate)`, and the final magnitude bounds. With an empty
    /// signal the matrix has no rows and the bounds are still the sentinel
    /// pair; every magnitude in a non-empty matrix lies between the bounds,
    /// which are both attained.
    pub fn finish(self) -> (r: SpectrogramResult)
        requires
            self.wf(),
        ensures
            r.spec_rows() == self.rows(),
            r.x_axis_bounds_samples@[0] == 0 && r.x_axis_bounds_samples@[1]
                == self.spec_signal_len(),
            r.y_axis_bounds_hz@[0] == 0 && r.y_axis_bounds_hz@[1] == self.spec_sample_rate(),
            r.magnitude_bounds@[0] == self.spec_min() && r.magnitude_bounds@[1] == self.spec_max(),
            forall|i: int|
                0 <= i < r.spec_rows().len() ==> (#[trigger] r.spec_rows()[i]).len()
                    == self.spec_n_bins(),
            forall|i: int, j: int|
                0 <= i < r.spec_rows().len() && 0 <= j < r.spec_rows()[i].len()
                    ==> #[trigger] r.spec_rows()[i][j] <= INFINITY_BITS,
            r.spec_rows().len() > 0 ==> forall|i: int, j: int|
                0 <= i < r.spec_rows().len() && 0 <= j < r.spec_rows()[i].len()
                    ==> r.magnitude_bounds@[0] <= #[trigger] r.spec_rows()[i][j]
                    <= r.magnitude_bounds@[1],
            r.spec_rows().len() > 0 ==> exists|i: int, j: int|
                0 <= i < r.spec_rows().len() && 0 <= j < r.spec_rows()[i].len()
                    && #[trigger] r.spec_rows()[i][j] == r.magnitude_bounds@[0],
            r.spec_rows().len() > 0 ==> exists|i: int, j: int|
                0 <= i < r.spec_rows().len() && 0 <= j < r.spec_rows()[i].len()
                    && #[trigger] r.spec_rows()[i][j] == r.magnitude_bounds@[1],
            r.spec_rows().len() == 0 ==> r.magnitude_bounds@[0] == INFINITY_BITS
                && r.magnitude_bounds@[1] == NEG_INFINITY_BITS,
            self.spec_signal_len() == 0 ==> r.spec_rows().len() == 0,
    {
        let r = SpectrogramResult {
            v: self.matrix,
            x_axis_bounds_samples: [0, self.signal_len],
            y_axis_bounds_hz: [0, self.sample_rate],
            magnitude_bounds: [self.bounds.min, self.bounds.max],
        };
        proof {
            assert(r.spec_rows() =~= self.rows());
        }
        r
    }
}

} // verus!

//! The frame extractor: a forward-only iterator over fixed-size, possibly
//! overlapping windows of a sample vector.

use vstd::prelude::*;
use crate::config::ConfigError;
use crate::config::spec_step;
use crate::config::validate;

verus! {

/// The frames that sliding a window of `size` samples with cursor step `step`
/// over `s` yields. Every frame holds `min(size, remaining)` samples from the
/// cursor onwards; the cursor advances by `step` between frames; the sequence
/// ends with the first frame that reaches the end of the signal (an empty
/// signal yields no frame at all). A non-positive `size` or `step` yields no
/// frames; `new` below never builds such an extractor.
pub open spec fn spec_frames<T>(s: Seq<T>, size: int, step: int) -> Seq<Seq<T>>
    decreases s.len(),
{
    if size <= 0 || step <= 0 || s.len() == 0 {
        Seq::empty()
    } else if s.len() <= size {
        seq![s]
    } else {
        let advance = if step < s.len() {
            step
        } else {
            s.len() as int
        };
        seq![s.take(size)] + spec_frames(s.skip(advance), size, step)
    }
}

/// How many frames the extractor yields over a non-empty signal of length
/// `len`: one frame, plus one for each step (rounded up) in the first
/// `max(len - size, 0)` samples.
pub open spec fn spec_frame_count_formula(len: int, size: int, step: int) -> int {
    if len <= size {
        1
    } else {
        1 + (len - size + step - 1) / step
    }
}

/// Frame-count law. Over a non-empty signal of length `len`, with a window of
/// at least 2 samples and a positive step, the extractor yields exactly
/// `1 + ceil(max(len - size, 0) / step)` frames, and the last frame holds
/// `len - (n - 1) * step` samples (at most one window), provided the last
/// counted frame starts inside the signal - which always holds when
/// `step <= size` (a hop at or below zero), and fails only for gap
/// configurations whose final gap would swallow the signal's tail.
pub proof fn lemma_frame_count<T>(s: Seq<T>, size: int, step: int)
    requires
        size >= 2,
        step >= 1,
        s.len() >= 1,
        (spec_frame_count_formula(s.len() as int, size, step) - 1) * step < s.len(),
    ensures
        spec_frames(s, size, step).len() == spec_frame_count_formula(s.len() as int, size, step),
        spec_frames(s, size, step).last().len() == s.len() - (spec_frame_count_formula(
            s.len() as int,
            size,
            step,
        ) - 1) * step,
    decreases s.len(),
{
    let len = s.len() as int;
    let n = spec_frame_count_formula(len, size, step);
    if len <= size {
        assert(spec_frames(s, size, step) =~= seq![s]);
        assert((n - 1) * step == 0) by (nonlinear_arith)
            requires
                n == 1,
        ;
    } else {
        let a = len - size;
        // One step below the window's end there is at least one more frame.
        assert(a + step - 1 == step + (a - 1));
        vstd::arithmetic::div_mod::lemma_div_plus_one(a - 1, step);
        vstd::arithmetic::div_mod::lemma_div_pos_is_pos(a - 1, step);
        assert((a + step - 1) / step == 1 + (a - 1) / step);
        assert(n >= 2);
        assert(step <= (n - 1) * step) by (nonlinear_arith)
            requires
                n >= 2,
                step >= 1,
        ;
        assert(step < len);
        let rest = s.skip(step);
        assert(rest.len() == len - step);
        let frames = spec_frames(s, size, step);
        assert(frames == seq![s.take(size)] + spec_frames(rest, size, step));
        if len - step <= size {
            // The next frame is the last: the formula must say two frames.
            vstd::arithmetic::div_mod::lemma_basic_div(a - 1, step);
            assert((a - 1) / step == 0);
            assert(n == 2);
            assert(spec_frames(rest, size, step) =~= seq![rest]);
            assert(frames.len() == 2);
            assert(frames.last() == rest);
            assert((n - 1) * step == step) by (nonlinear_arith)
                requires
                    n == 2,
            ;
        } else {
            // The tail behaves like a signal one step shorter.
            assert(spec_frame_count_formula(len - step, size, step) == n - 1) by {
                assert(len - step - size + step - 1 == a - 1);
                assert(spec_frame_count_formula(len - step, size, step) == 1 + (a - 1) / step);
            };
            assert((n - 2) * step < len - step) by (nonlinear_arith)
                requires
                    (n - 1) * step < len,
            ;
            lemma_frame_count(rest, size, step);
            assert(frames.len() == 1 + (n - 1));
            assert(frames.last() == spec_frames(rest, size, step).last());
            assert((len - step) - (n - 2) * step == len - (n - 1) * step) by (nonlinear_arith);
        }
    }
}

/// Frame-count law without a side condition, for every configuration whose
/// step does not exceed the window (a hop at or below zero): the last counted
/// frame then always starts inside the signal.
pub proof fn lemma_frame_count_no_gap<T>(s: Seq<T>, size: int, step: int)
    requires
        size >= 2,
        1 <= step <= size,
        s.len() >= 1,
    ensures
        spec_frames(s, size, step).len() == spec_frame_count_formula(s.len() as int, size, step),
        spec_frames(s, size, step).last().len() == s.len() - (spec_frame_count_formula(
            s.len() as int,
            size,
            step,
        ) - 1) * step,
{
    let len = s.len() as int;
    let n = spec_frame_count_formula(len, size, step);
    if len <= size {
        assert((n - 1) * step == 0) by (nonlinear_arith)
            requires
                n == 1,
        ;
    } else {
        // The quotient times the divisor stays at or below the dividend, so
        // the last counted frame starts before the signal ends.
        let a = len - size;
        vstd::arithmetic::div_mod::lemma_fundamental_div_mod(a + step - 1, step);
        vstd::arithmetic::div_mod::lemma_mod_division_less_than_divisor(a + step - 1, step);
        assert((n - 1) * step == ((a + step - 1) / step) * step) by (nonlinear_arith)
            requires
                n - 1 == (a + step - 1) / step,
        ;
        assert(((a + step - 1) / step) * step <= a + step - 1);
        assert((n - 1) * step < len);
    }
    lemma_frame_count(s, size, step);
}

/// Frame-offset law: frame `i` starts at sample offset `i * step` and holds
/// `min(size, len - i * step)` samples.
pub proof fn lemma_frame_at<T>(s: Seq<T>, size: int, step: int, i: int)
    requires
        size >= 2,
        step >= 1,
        0 <= i < spec_frames(s, size, step).len(),
    ensures
        0 <= i * step < s.len(),
        spec_frames(s, size, step)[i] == s.subrange(
            i * step,
            i * step + (if size <= s.len() - i * step {
                size
            } else {
                s.len() - i * step
            }),
        ),
    decreases s.len(),
{
    let len = s.len() as int;
    let frames = spec_frames(s, size, step);
    if len <= size {
        assert(frames =~= seq![s]);
        assert(i == 0);
        assert(i * step == 0) by (nonlinear_arith)
            requires
                i == 0,
        ;
        assert(s.subrange(0, len) =~= s);
    } else {
        let advance = if step < len {
            step
        } else {
            len
        };
        let rest = s.skip(advance);
        assert(frames == seq![s.take(size)] + spec_frames(rest, size, step));
        if i == 0 {
            assert(frames[0] == s.take(size));
            assert(i * step == 0) by (nonlinear_arith)
                requires
                    i == 0,
            ;
            assert(s.take(size) =~= s.subrange(0, size));
        } else {
            // A second frame exists, so the tail was non-empty and the cursor
            // advanced by a whole step.
            assert(spec_frames(rest, size, step).len() > 0);
            assert(rest.len() > 0);
            assert(advance == step);
            lemma_frame_at(rest, size, step, i - 1);
            assert(frames[i] == spec_frames(rest, size, step)[i - 1]);
            assert(step + (i - 1) * step == i * step) by (nonlinear_arith);
            assert(0 <= (i - 1) * step < rest.len());
            let lo = (i - 1) * step;
            let hi = lo + (if size <= rest.len() - lo {
                size
            } else {
                rest.len() - lo
            });
            assert(rest.subrange(lo, hi) =~= s.subrange(step + lo, step + hi));
        }
    }
}

/// A lazy, forward-only, non-restartable sequence of frames over an owned
/// sample vector, parameterized by a window size and a hop: the cursor
/// advances by `window_size + hop` between frames, so a negative hop makes
/// successive frames overlap and a positive hop leaves gaps.
pub struct ChunksWithHop<T> {
    v: Vec<T>,
    size: usize,
    step: usize,
    pos: usize,
    done: bool,
}

impl<T> ChunksWithHop<T> {
    #[verifier::type_invariant]
    spec fn wf(self) -> bool {
        &&& self.size >= 2
        &&& self.step >= 1
        &&& self.pos <= self.v.len()
    }

    /// The samples the cursor has not yet passed (empty once finished).
    pub closed spec fn remaining(self) -> Seq<T> {
        if self.done {
            Seq::empty()
        } else {
            self.v@.skip(self.pos as int)
        }
    }

    /// The frames this extractor will still yield.
    pub closed spec fn frames(self) -> Seq<Seq<T>> {
        spec_frames(self.remaining(), self.size as int, self.step as int)
    }

    /// The window size this extractor was built with.
    pub closed spec fn spec_window_size(self) -> int {
        self.size as int
    }
}

impl<T: Copy> ChunksWithHop<T> {
    /// Builds the extractor over `v`, rejecting a window size of 0 or 1 and a
    /// non-positive cursor step `window_size + hop`, so that iteration always
    /// terminates.
    pub fn new(v: Vec<T>, window_size: usize, hop: isize) -> (r: Result<
        ChunksWithHop<T>,
        ConfigError,
    >)
        requires
            window_size as int + hop as int <= usize::MAX as int,
        ensures
            window_size <= 1 ==> r == Err::<ChunksWithHop<T>, ConfigError>(
                ConfigError::WindowTooSmall,
            ),
            window_size > 1 && spec_step(window_size as int, hop as int) <= 0 ==> r == Err::<
                ChunksWithHop<T>,
                ConfigError,
            >(ConfigError::StepNotPositive),
            window_size > 1 && spec_step(window_size as int, hop as int) > 0 ==> (r matches Ok(c)
                && c.frames() == spec_frames(
                v@,
                window_size as int,
                spec_step(window_size as int, hop as int),
            ) && c.remaining() == v@ && c.spec_window_size() == window_size as int),
    {
        match validate(window_size, hop) {
            Err(e) => Err(e),
            Ok(step) => {
                let c = ChunksWithHop { v, size: window_size, step, pos: 0, done: false };
                proof {
                    assert(c.remaining() =~= c.v@);
                }
                Ok(c)
            },
        }
    }

    /// Yields the next frame: `min(remaining, window_size)` samples from the
    /// cursor, the cursor then advancing by the step; `None` once the previous
    /// frame reached the end of the signal or no samples remain.
    pub fn next(&mut self) -> (r: Option<Vec<T>>)
        ensures
            final(self).spec_window_size() == old(self).spec_window_size(),
            old(self).frames().len() == 0 ==> r.is_none() && final(self).frames() == old(
                self,
            ).frames(),
            old(self).frames().len() > 0 ==> r.is_some() && r.unwrap()@ == old(self).frames()[0]
                && final(self).frames() == old(self).frames().drop_first(),
            r.is_some() ==> 1 <= r.unwrap()@.len() <= old(self).spec_window_size(),
    {
        proof {
            use_type_invariant(&*self);
        }
        if self.done || self.pos == self.v.len() {
            return None;
        }
        let rem: usize = self.v.len() - self.pos;
        let this_len: usize = if rem < self.size {
            rem
        } else {
            self.size
        };
        let frame_slice = vstd::slice::slice_subrange(
            self.v.as_slice(),
            self.pos,
            self.pos + this_len,
        );
        let frame = vstd::slice::slice_to_vec(frame_slice);
        let ghost pre = *self;
        if rem <= self.size {
            self.done = true;
            proof {
                assert(pre.remaining().len() == rem);
                assert(pre.remaining() =~= frame@);
                assert(pre.frames() =~= seq![pre.remaining()]);
                assert(self.frames() =~= pre.frames().drop_first());
            }
        } else {
            if self.step < rem {
                self.pos = self.pos + self.step;
            } else {
                self.pos = self.v.len();
            }
            proof {
                let advance = if pre.step < rem {
                    pre.step as int
                } else {
                    rem as int
                };
                assert(frame@ =~= pre.remaining().take(pre.size as int));
                assert(self.remaining() =~= pre.remaining().skip(advance));
                assert(pre.frames() == seq![pre.remaining().take(pre.size as int)] + spec_frames(
                    pre.remaining().skip(advance),
                    pre.size as int,
                    pre.step as int,
                ));
                assert(pre.frames()[0] == frame@);
                assert(self.frames() =~= pre.frames().drop_first());
            }
        }
        Some(frame)
    }
}

} // verus!

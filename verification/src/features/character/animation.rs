//! Frame-sequence animation timing.
//!
//! An [`AnimationFrames`] advances through its frames by an accumulated
//! duration: the overshoot past a frame's duration carries into the next
//! frame, a looping animation rewinds to `loop_start_index`, and a
//! non-looping one stops on its last frame with the elapsed time clamped to
//! that frame's duration. Durations are counted in nanoseconds.
use vstd::prelude::*;

verus! {

/// One 60 Hz vsync tick, 16 667 µs, in nanoseconds.
pub const VSYNC_TICK_NANOS: u128 = 16_667_000;

/// Largest duration that `std::time::Duration` can hold, in nanoseconds.
pub const MAX_DURATION_NANOS: u128 = 18_446_744_073_709_551_615_999_999_999;

/// Whole vsync ticks in a duration: microseconds divided by 16 667, floored,
/// saturated at `u32::MAX`.
pub open spec fn spec_duration_to_ticks(nanos: u128) -> u32 {
    let t = (nanos / 1000) / 16_667;
    if t > u32::MAX as int { u32::MAX } else { t as u32 }
}

/// Converts a duration to whole 60 Hz ticks (floor), saturating at `u32::MAX`.
pub fn duration_to_ticks(nanos: u128) -> (r: u32)
    ensures
        r == spec_duration_to_ticks(nanos),
{
    let t = (nanos / 1000) / 16_667;
    if t > u32::MAX as u128 {
        u32::MAX
    } else {
        t as u32
    }
}

/// Duration of a frame that lasts `ticks` vsync ticks; zero ticks count as one.
pub open spec fn spec_frame_duration_nanos(ticks: u32) -> u128 {
    (VSYNC_TICK_NANOS * (if ticks == 0 { 1 } else { ticks as int })) as u128
}

/// Duration of a frame of `ticks` vsync ticks, at least one tick long.
pub fn frame_duration_nanos(ticks: u32) -> (r: u128)
    ensures
        r == spec_frame_duration_nanos(ticks),
        r > 0,
{
    let t: u128 = if ticks == 0 { 1 } else { ticks as u128 };
    assert(VSYNC_TICK_NANOS * t <= 16_667_000 * 4_294_967_295) by (nonlinear_arith)
        requires t <= 4_294_967_295;
    VSYNC_TICK_NANOS * t
}

/// A frame's display duration together with its render payload.
pub struct TimedFrame<F> {
    pub duration_nanos: u128,
    pub render: F,
}

/// A playing animation: its frames, loop setting, and playback position.
pub struct AnimationFrames<F> {
    pub frames: Vec<TimedFrame<F>>,
    pub is_loop: bool,
    pub loop_start_index: usize,
    /// Index of the frame on screen.
    pub current: usize,
    /// Time spent on the current frame.
    pub elapsed_in_frame: u128,
    /// Time since the animation was created.
    pub total_elapsed: u128,
}

/// Frame durations of a frame list.
pub open spec fn durations<F>(frames: Seq<TimedFrame<F>>) -> Seq<u128> {
    frames.map_values(|f: TimedFrame<F>| f.duration_nanos)
}

/// The frame that follows `cur`: the next one, or the loop start (clamped to
/// the last frame) at the end of a looping animation, or `cur` itself at the
/// end of a non-looping one.
pub open spec fn spec_next_index(len: nat, is_loop: bool, loop_start: nat, cur: nat) -> nat {
    if cur + 1 < len {
        cur + 1
    } else if is_loop {
        if loop_start < len - 1 { loop_start } else { (len - 1) as nat }
    } else {
        cur
    }
}

/// Playback position while advancing: frame index, time in frame, and whether
/// a frame change has happened.
pub struct Cursor {
    pub cur: nat,
    pub elapsed: nat,
    pub moved: bool,
}

/// A cursor that a further loop iteration leaves unchanged.
pub open spec fn at_rest(durs: Seq<u128>, is_loop: bool, loop_start: nat, c: Cursor) -> bool {
    advance_step(durs, is_loop, loop_start, c) == c
}

/// One iteration of the advance loop.
pub open spec fn advance_step(durs: Seq<u128>, is_loop: bool, loop_start: nat, c: Cursor) -> Cursor {
    if c.elapsed < durs[c.cur as int] {
        c
    } else {
        let next = spec_next_index(durs.len(), is_loop, loop_start, c.cur);
        if next == c.cur {
            Cursor { cur: c.cur, elapsed: durs[c.cur as int] as nat, moved: c.moved }
        } else {
            Cursor { cur: next, elapsed: (c.elapsed - durs[c.cur as int]) as nat, moved: true }
        }
    }
}

/// The cursor after `n` iterations of the advance loop.
pub open spec fn advance_n(durs: Seq<u128>, is_loop: bool, loop_start: nat, c: Cursor, n: nat) -> Cursor
    decreases n,
{
    if n == 0 {
        c
    } else {
        advance_n(durs, is_loop, loop_start, advance_step(durs, is_loop, loop_start, c), (n - 1) as nat)
    }
}


/// Taking one more iteration is the same as stepping the `n`-th cursor.
pub proof fn lemma_advance_n_succ(durs: Seq<u128>, is_loop: bool, loop_start: nat, c: Cursor, n: nat)
    ensures
        advance_n(durs, is_loop, loop_start, c, n + 1) == advance_step(
            durs,
            is_loop,
            loop_start,
            advance_n(durs, is_loop, loop_start, c, n),
        ),
    decreases n,
{
    let s = advance_step(durs, is_loop, loop_start, c);
    if n > 0 {
        lemma_advance_n_succ(durs, is_loop, loop_start, s, (n - 1) as nat);
    } else {
        assert(advance_n(durs, is_loop, loop_start, s, 0) == s);
    }
}

/// Once at rest, further iterations change nothing.
pub proof fn lemma_rest_persists(durs: Seq<u128>, is_loop: bool, loop_start: nat, c: Cursor, k: nat, i: nat)
    requires
        at_rest(durs, is_loop, loop_start, advance_n(durs, is_loop, loop_start, c, k)),
        k <= i,
    ensures
        advance_n(durs, is_loop, loop_start, c, i) == advance_n(durs, is_loop, loop_start, c, k),
    decreases i - k,
{
    if i > k {
        lemma_rest_persists(durs, is_loop, loop_start, c, k, (i - 1) as nat);
        lemma_advance_n_succ(durs, is_loop, loop_start, c, (i - 1) as nat);
    }
}

/// The frame a looping animation rewinds to: `loop_start` clamped to the
/// last frame.
pub open spec fn loop_head(len: nat, loop_start: nat) -> nat {
    if loop_start < len - 1 { loop_start } else { (len - 1) as nat }
}

/// Total duration of frames `a..b`.
pub open spec fn span_total(durs: Seq<u128>, a: nat, b: nat) -> nat
    decreases b - a,
{
    if a >= b {
        0
    } else {
        durs[a as int] as nat + span_total(durs, a + 1, b)
    }
}

/// The loop of an animation takes time: it does not loop, or the frames from
/// its loop head to its end have a positive total duration.
pub open spec fn loop_takes_time(durs: Seq<u128>, is_loop: bool, loop_start: nat) -> bool {
    is_loop ==> span_total(durs, loop_head(durs.len(), loop_start), durs.len()) > 0
}

/// `m + n` iterations are `n` iterations after the first `m`.
pub proof fn lemma_advance_n_add(durs: Seq<u128>, is_loop: bool, loop_start: nat, c: Cursor, m: nat, n: nat)
    ensures
        advance_n(durs, is_loop, loop_start, c, m + n) == advance_n(
            durs,
            is_loop,
            loop_start,
            advance_n(durs, is_loop, loop_start, c, m),
            n,
        ),
    decreases m,
{
    if m > 0 {
        let s = advance_step(durs, is_loop, loop_start, c);
        lemma_advance_n_add(durs, is_loop, loop_start, s, (m - 1) as nat, n);
        assert((m + n - 1) as nat == (m - 1) as nat + n);
    }
}

/// A cursor that has not moved after some iterations is still on the frame
/// it started on, and one that has moved stays marked as moved.
proof fn lemma_unmoved_keeps_frame(durs: Seq<u128>, is_loop: bool, loop_start: nat, c: Cursor, n: nat)
    ensures
        !advance_n(durs, is_loop, loop_start, c, n).moved ==> !c.moved && advance_n(durs, is_loop, loop_start, c, n).cur
            == c.cur,
    decreases n,
{
    if n > 0 {
        let s = advance_step(durs, is_loop, loop_start, c);
        lemma_unmoved_keeps_frame(durs, is_loop, loop_start, s, (n - 1) as nat);
    }
}

/// From a frame, the advance loop either comes to rest before the end of the
/// frames, or (looping) rewinds to the loop head having spent the durations
/// of all frames from its start frame to the end.
proof fn lemma_walk_to_end(durs: Seq<u128>, is_loop: bool, loop_start: nat, c: Cursor) -> (n: nat)
    requires
        c.cur < durs.len(),
    ensures
        ({
            let d = advance_n(durs, is_loop, loop_start, c, n);
            ||| at_rest(durs, is_loop, loop_start, d)
            ||| is_loop && d.cur == loop_head(durs.len(), loop_start) && d.elapsed + span_total(durs, c.cur, durs.len()) == c.elapsed
        }),
    decreases durs.len() - c.cur,
{
    let len = durs.len();
    if c.elapsed < durs[c.cur as int] {
        assert(advance_n(durs, is_loop, loop_start, c, 0) == c);
        0
    } else {
        let s = advance_step(durs, is_loop, loop_start, c);
        let next = spec_next_index(len, is_loop, loop_start, c.cur);
        assert(advance_n(durs, is_loop, loop_start, c, 1) == advance_n(durs, is_loop, loop_start, s, 0));
        if next == c.cur {
            assert(advance_step(durs, is_loop, loop_start, s) == s);
            1
        } else if c.cur + 1 < len {
            let n1 = lemma_walk_to_end(durs, is_loop, loop_start, s);
            lemma_advance_n_add(durs, is_loop, loop_start, c, 1, n1);
            assert(advance_n(durs, is_loop, loop_start, c, 1) == s);
            assert(span_total(durs, c.cur, len) == durs[c.cur as int] as nat + span_total(durs, c.cur + 1, len));
            n1 + 1
        } else {
            assert(span_total(durs, (c.cur + 1) as nat, len) == 0);
            assert(span_total(durs, c.cur, len) == durs[c.cur as int] as nat);
            1
        }
    }
}

/// From the loop head of a loop that takes time, the advance loop comes to
/// rest: each full pass over the loop uses up its positive total duration.
proof fn lemma_rest_from_head(durs: Seq<u128>, is_loop: bool, loop_start: nat, c: Cursor) -> (n: nat)
    requires
        durs.len() > 0,
        c.cur == loop_head(durs.len(), loop_start),
        loop_takes_time(durs, is_loop, loop_start),
    ensures
        at_rest(durs, is_loop, loop_start, advance_n(durs, is_loop, loop_start, c, n)),
    decreases c.elapsed,
{
    let n1 = lemma_walk_to_end(durs, is_loop, loop_start, c);
    let d = advance_n(durs, is_loop, loop_start, c, n1);
    if at_rest(durs, is_loop, loop_start, d) {
        n1
    } else {
        let n2 = lemma_rest_from_head(durs, is_loop, loop_start, d);
        lemma_advance_n_add(durs, is_loop, loop_start, c, n1, n2);
        n1 + n2
    }
}

/// Every cursor on a frame comes to rest when the animation's loop takes
/// time: outside the loop each frame is passed at most once, and each full
/// pass over the loop uses up its positive total duration.
pub proof fn lemma_loop_taking_time_comes_to_rest(durs: Seq<u128>, is_loop: bool, loop_start: nat, c: Cursor)
    requires
        c.cur < durs.len(),
        loop_takes_time(durs, is_loop, loop_start),
    ensures
        exists|n: nat| #[trigger] at_rest(durs, is_loop, loop_start, advance_n(durs, is_loop, loop_start, c, n)),
{
    let n1 = lemma_walk_to_end(durs, is_loop, loop_start, c);
    let d = advance_n(durs, is_loop, loop_start, c, n1);
    if at_rest(durs, is_loop, loop_start, d) {
        assert(at_rest(durs, is_loop, loop_start, advance_n(durs, is_loop, loop_start, c, n1)));
    } else {
        let n2 = lemma_rest_from_head(durs, is_loop, loop_start, d);
        lemma_advance_n_add(durs, is_loop, loop_start, c, n1, n2);
        assert(at_rest(durs, is_loop, loop_start, advance_n(durs, is_loop, loop_start, c, n1 + n2)));
    }
}

/// An animation whose frames all last a positive time has a loop that takes
/// time.
pub proof fn lemma_positive_durations_take_time(durs: Seq<u128>, is_loop: bool, loop_start: nat)
    requires
        durs.len() > 0,
        forall|i: int| 0 <= i < durs.len() ==> #[trigger] durs[i] > 0,
    ensures
        loop_takes_time(durs, is_loop, loop_start),
{
    let h = loop_head(durs.len(), loop_start);
    assert(durs[h as int] > 0);
    assert(span_total(durs, h, durs.len()) == durs[h as int] as nat + span_total(durs, h + 1, durs.len()));
}

impl<F> AnimationFrames<F> {
    /// The frame index is in range whenever there is a frame.
    pub open spec fn wf(&self) -> bool {
        self.frames.len() == 0 || self.current < self.frames.len()
    }

    pub open spec fn durs(&self) -> Seq<u128> {
        durations(self.frames@)
    }

    /// Cursor of the position after `delta` is added to the time in frame.
    pub open spec fn start_cursor(&self, delta: u128) -> Cursor {
        Cursor { cur: self.current as nat, elapsed: (self.elapsed_in_frame + delta) as nat, moved: false }
    }

    /// Cursor of the current playback position.
    pub open spec fn cursor(&self, moved: bool) -> Cursor {
        Cursor { cur: self.current as nat, elapsed: self.elapsed_in_frame as nat, moved }
    }

    /// Advancing by `delta` comes to rest: some number of loop iterations
    /// reaches a cursor that a further iteration leaves unchanged. (It does
    /// not when a looping animation reaches a run of zero-length frames that
    /// spans its whole loop.)
    pub open spec fn comes_to_rest(&self, delta: u128) -> bool {
        exists|n: nat|
            at_rest(
                self.durs(),
                self.is_loop,
                self.loop_start_index as nat,
                #[trigger] advance_n(self.durs(), self.is_loop, self.loop_start_index as nat, self.start_cursor(delta), n),
            )
    }

    /// An animation that does not loop, or whose loop (from the loop head to
    /// the last frame) lasts a positive time, comes to rest whatever time is
    /// added. This holds in particular when every frame lasts a positive
    /// time (see [`lemma_positive_durations_take_time`]).
    pub proof fn lemma_comes_to_rest(&self, delta: u128)
        requires
            self.wf(),
            self.frames.len() > 0,
            loop_takes_time(self.durs(), self.is_loop, self.loop_start_index as nat),
        ensures
            self.comes_to_rest(delta),
    {
        lemma_loop_taking_time_comes_to_rest(self.durs(), self.is_loop, self.loop_start_index as nat, self.start_cursor(delta));
    }

    /// A new animation positioned on its first frame with no time elapsed.
    pub fn new(frames: Vec<TimedFrame<F>>, is_loop: bool, loop_start_index: usize) -> (r: Self)
        ensures
            r.frames@ == frames@,
            r.is_loop == is_loop,
            r.loop_start_index == loop_start_index,
            r.current == 0,
            r.elapsed_in_frame == 0,
            r.total_elapsed == 0,
            r.wf(),
    {
        AnimationFrames { frames, is_loop, loop_start_index, current: 0, elapsed_in_frame: 0, total_elapsed: 0 }
    }

    /// Index of the frame on screen.
    pub fn current_index(&self) -> (r: usize)
        ensures
            r == self.current,
    {
        self.current
    }

    /// Number of frames.
    pub fn frame_count(&self) -> (r: usize)
        ensures
            r == self.frames.len(),
    {
        self.frames.len()
    }

    /// The frame on screen, `None` for an empty animation.
    pub fn current_frame(&self) -> (r: Option<&TimedFrame<F>>)
        requires
            self.wf(),
        ensures
            self.frames.len() == 0 ==> r is None,
            self.frames.len() > 0 ==> r == Some(&self.frames@[self.current as int]),
    {
        if self.frames.len() == 0 {
            None
        } else {
            Some(&self.frames[self.current])
        }
    }

    /// Whole ticks spent on the current frame.
    pub fn current_frame_elapsed_ticks(&self) -> (r: u32)
        ensures
            r == spec_duration_to_ticks(self.elapsed_in_frame),
    {
        duration_to_ticks(self.elapsed_in_frame)
    }

    /// Whole ticks of the current frame's duration; 0 when there is no frame.
    pub fn current_frame_total_ticks(&self) -> (r: u32)
        ensures
            self.current < self.frames.len() ==> r == spec_duration_to_ticks(
                self.frames@[self.current as int].duration_nanos,
            ),
            self.current >= self.frames.len() ==> r == 0,
    {
        if self.current < self.frames.len() {
            duration_to_ticks(self.frames[self.current].duration_nanos)
        } else {
            0
        }
    }

    /// Whole ticks since the animation was created.
    pub fn total_elapsed_ticks(&self) -> (r: u32)
        ensures
            r == spec_duration_to_ticks(self.total_elapsed),
    {
        duration_to_ticks(self.total_elapsed)
    }

    /// Duration of the first frame in whole milliseconds (saturated at
    /// `u32::MAX`); `None` for an empty animation.
    pub fn first_frame_duration_ms(&self) -> (r: Option<u32>)
        ensures
            self.frames.len() == 0 ==> r is None,
            self.frames.len() > 0 ==> r == Some(
                {
                    let ms = self.frames@[0].duration_nanos / 1_000_000;
                    if ms > u32::MAX as int { u32::MAX } else { ms as u32 }
                },
            ),
    {
        if self.frames.len() == 0 {
            None
        } else {
            let ms = self.frames[0].duration_nanos / 1_000_000;
            if ms > u32::MAX as u128 {
                Some(u32::MAX)
            } else {
                Some(ms as u32)
            }
        }
    }

    /// Whether a non-looping animation has used up its last frame. Always
    /// false for a looping or empty animation.
    pub fn is_finished(&self) -> (r: bool)
        requires
            self.wf(),
        ensures
            r == (!self.is_loop && self.frames.len() > 0 && self.current == self.frames.len() - 1
                && self.elapsed_in_frame >= self.frames@[self.frames.len() - 1].duration_nanos),
    {
        if self.is_loop || self.frames.len() == 0 {
            return false;
        }
        let last = self.frames.len() - 1;
        self.current == last && self.elapsed_in_frame >= self.frames[last].duration_nanos
    }

    /// Index of the frame that follows the current one.
    pub fn next_index(&self) -> (r: usize)
        requires
            self.frames.len() > 0,
        ensures
            r == spec_next_index(self.frames.len() as nat, self.is_loop, self.loop_start_index as nat, self.current as nat),
            // Before the last frame the next one follows; after the last, a
            // loop rewinds to its start (the last frame when the start is out
            // of range) and a one-shot animation stays.
            self.current + 1 < self.frames.len() ==> r == self.current + 1,
            self.current + 1 >= self.frames.len() && self.is_loop ==> r == (if self.loop_start_index
                < self.frames.len() - 1 {
                self.loop_start_index as int
            } else {
                self.frames.len() - 1
            }),
            self.current + 1 >= self.frames.len() && !self.is_loop ==> r == self.current,
    {
        if self.current < self.frames.len() - 1 {
            self.current + 1
        } else if self.is_loop {
            if self.loop_start_index < self.frames.len() - 1 {
                self.loop_start_index
            } else {
                self.frames.len() - 1
            }
        } else {
            self.current
        }
    }
    /// Adds `delta` to the time in frame and to the total time, then moves
    /// through as many frames as the accumulated time covers, carrying the
    /// overshoot over. Returns whether the frame changed at least once. An
    /// empty animation is left untouched.
    pub fn advance(&mut self, delta: u128) -> (advanced: bool)
        requires
            old(self).wf(),
            old(self).elapsed_in_frame + delta <= MAX_DURATION_NANOS,
            old(self).total_elapsed + delta <= MAX_DURATION_NANOS,
            old(self).frames.len() > 0 ==> old(self).comes_to_rest(delta),
        ensures
            final(self).wf(),
            final(self).frames@ == old(self).frames@,
            final(self).is_loop == old(self).is_loop,
            final(self).loop_start_index == old(self).loop_start_index,
            old(self).frames.len() == 0 ==> final(self).current == old(self).current
                && final(self).elapsed_in_frame == old(self).elapsed_in_frame
                && final(self).total_elapsed == old(self).total_elapsed && !advanced,
            old(self).frames.len() > 0 ==> final(self).total_elapsed == old(self).total_elapsed + delta,
            old(self).frames.len() > 0 ==> exists|n: nat|
                {
                    let c = #[trigger] advance_n(
                        old(self).durs(),
                        old(self).is_loop,
                        old(self).loop_start_index as nat,
                        old(self).start_cursor(delta),
                        n,
                    );
                    &&& at_rest(old(self).durs(), old(self).is_loop, old(self).loop_start_index as nat, c)
                    &&& final(self).cursor(advanced) == c
                },
            // Playback stops inside a frame: before the end of its duration, or
            // exactly at the end of the last frame of an animation that does not
            // go on from there.
            old(self).frames.len() > 0 ==> ({
                let f = *final(self);
                f.elapsed_in_frame < f.frames@[f.current as int].duration_nanos || (f.elapsed_in_frame
                    == f.frames@[f.current as int].duration_nanos && f.current == f.frames.len() - 1 && (f.is_loop == false
                    || f.loop_start_index >= f.frames.len() - 1))
            }),
            // Time that stays within the current frame moves no frame.
            old(self).frames.len() > 0 && old(self).elapsed_in_frame + delta < old(self).frames@[old(
                self,
            ).current as int].duration_nanos ==> !advanced && final(self).current == old(self).current
                && final(self).elapsed_in_frame == old(self).elapsed_in_frame + delta,
            // No frame change leaves the frame where it was.
            !advanced ==> final(self).current == old(self).current,
    {
        if self.frames.len() == 0 {
            return false;
        }
        let ghost durs = self.durs();
        let ghost start = self.start_cursor(delta);
        let ghost ls = self.loop_start_index as nat;
        let ghost il = self.is_loop;
        let ghost fr = self.frames@;
        let ghost total = (self.total_elapsed + delta) as u128;
        let ghost k = choose|n: nat| at_rest(durs, il, ls, #[trigger] advance_n(durs, il, ls, start, n));
        self.elapsed_in_frame = self.elapsed_in_frame + delta;
        self.total_elapsed = self.total_elapsed + delta;
        let mut advanced = false;
        let ghost mut i: nat = 0;
        loop
            invariant_except_break
                self.cursor(advanced) == advance_n(durs, il, ls, start, i),
            invariant
                self.frames.len() > 0,
                self.current < self.frames.len(),
                self.frames@ == fr,
                self.durs() == durs,
                self.total_elapsed == total,
                self.is_loop == il,
                self.loop_start_index as nat == ls,
                self.elapsed_in_frame <= MAX_DURATION_NANOS,
                at_rest(durs, il, ls, advance_n(durs, il, ls, start, k)),
                i <= k,
            ensures
                self.frames.len() > 0,
                self.current < self.frames.len(),
                self.frames@ == fr,
                self.total_elapsed == total,
                self.durs() == durs,
                self.is_loop == il,
                self.loop_start_index as nat == ls,
                exists|n: nat|
                    {
                        let c = #[trigger] advance_n(durs, il, ls, start, n);
                        &&& at_rest(durs, il, ls, c)
                        &&& self.cursor(advanced) == c
                    },
            decreases k - i,
        {
            let cur_dur = self.frames[self.current].duration_nanos;
            if self.elapsed_in_frame < cur_dur {
                assert(at_rest(durs, il, ls, advance_n(durs, il, ls, start, i)));
                break;
            }
            let next = self.next_index();
            proof {
                lemma_advance_n_succ(durs, il, ls, start, i);
                if i >= k {
                    lemma_rest_persists(durs, il, ls, start, k, i);
                }
            }
            if next == self.current {
                self.elapsed_in_frame = cur_dur;
                assert(self.cursor(advanced) == advance_n(durs, il, ls, start, i + 1));
                assert(at_rest(durs, il, ls, advance_n(durs, il, ls, start, i + 1)));
                break;
            }
            self.elapsed_in_frame = self.elapsed_in_frame - cur_dur;
            self.current = next;
            advanced = true;
            proof {
                i = i + 1;
            }
        }
        proof {
            let n = choose|n: nat|
                {
                    let c = #[trigger] advance_n(durs, il, ls, start, n);
                    &&& at_rest(durs, il, ls, c)
                    &&& self.cursor(advanced) == c
                };
            lemma_unmoved_keeps_frame(durs, il, ls, start, n);
            if start.elapsed < durs[start.cur as int] {
                assert(at_rest(durs, il, ls, advance_n(durs, il, ls, start, 0)));
                lemma_rest_persists(durs, il, ls, start, 0, n);
            }
            assert(durs[self.current as int] == self.frames@[self.current as int].duration_nanos);
        }
        advanced
    }
}

} // verus!

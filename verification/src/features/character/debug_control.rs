//! Debug pause and single-frame advance.
//!
//! F3 toggles the pause; F4, while paused, lets exactly one simulation tick
//! run. Keys first pressed during the pause are remembered, and those still
//! held when F4 advances are pressed again, so that a press-triggered action
//! (an attack) made during the pause happens on the advanced tick. F3 and F4
//! themselves are never remembered.
use vstd::prelude::*;

use crate::shared::input::KeyCode;

verus! {

/// Whether a key is one of the two debug keys.
pub open spec fn is_debug_key(k: KeyCode) -> bool {
    k == KeyCode::F3 || k == KeyCode::F4
}

/// The remembered keys after the presses `js` are taken in turn: each press
/// of a key other than F3 or F4 that is not remembered yet is appended.
pub open spec fn latch_presses(acc: Seq<KeyCode>, js: Seq<KeyCode>) -> Seq<KeyCode>
    decreases js.len(),
{
    if js.len() == 0 {
        acc
    } else {
        let before = latch_presses(acc, js.drop_last());
        let k = js.last();
        if is_debug_key(k) || before.contains(k) {
            before
        } else {
            before.push(k)
        }
    }
}

/// Pause state of the simulation.
#[derive(Debug)]
pub struct DebugPause {
    /// The simulation is halted.
    pub paused: bool,
    /// Run one tick despite the pause.
    pub single_step: bool,
    /// Keys first pressed during the pause, each once, never F3 or F4.
    pub latched_keys: Vec<KeyCode>,
}

impl DebugPause {
    /// The remembered keys, in the order they were first pressed.
    pub open spec fn latched(&self) -> Seq<KeyCode> {
        self.latched_keys@
    }

    /// Each key remembered once, and no debug key among them.
    pub open spec fn wf(&self) -> bool {
        &&& self.latched().no_duplicates()
        &&& forall|i: int| 0 <= i < self.latched().len() ==> !is_debug_key(#[trigger] self.latched()[i])
    }

    /// Running, no step pending, nothing remembered.
    pub fn new() -> (r: Self)
        ensures
            !r.paused,
            !r.single_step,
            r.latched() == Seq::<KeyCode>::empty(),
            r.wf(),
    {
        DebugPause { paused: false, single_step: false, latched_keys: Vec::new() }
    }

    /// The remembered keys.
    pub fn latched_keys(&self) -> (r: &[KeyCode])
        ensures
            r@ == self.latched(),
    {
        self.latched_keys.as_slice()
    }

    /// Whether the simulation runs on this tick: not paused, or a single
    /// step is pending.
    pub fn simulation_active(&self) -> (r: bool)
        ensures
            r == (!self.paused || self.single_step),
    {
        !self.paused || self.single_step
    }

    /// Clears the single-step flag after the tick has run.
    pub fn reset_single_step(&mut self)
        ensures
            !final(self).single_step,
            final(self).paused == old(self).paused,
            final(self).latched() == old(self).latched(),
    {
        self.single_step = false;
    }

    /// Remembers the keys newly pressed on this tick while paused (debug
    /// keys excepted, each key once). When running the memory is emptied;
    /// on a single-step tick nothing is added.
    pub fn latch_paused_input(&mut self, just_pressed: &[KeyCode])
        requires
            old(self).wf(),
        ensures
            final(self).wf(),
            final(self).paused == old(self).paused,
            final(self).single_step == old(self).single_step,
            !old(self).paused ==> final(self).latched().len() == 0,
            old(self).paused && old(self).single_step ==> final(self).latched() == old(self).latched(),
            old(self).paused && !old(self).single_step ==> final(self).latched() == latch_presses(old(self).latched(), just_pressed@),
            old(self).paused && !old(self).single_step ==> forall|k: KeyCode|
                #[trigger] final(self).latched().contains(k) <==> (old(self).latched().contains(k) || (just_pressed@.contains(k)
                    && !is_debug_key(k))),
    {
        if !self.paused {
            self.latched_keys.clear();
            return;
        }
        if self.single_step {
            return;
        }
        let ghost old_latched = self.latched_keys@;
        let mut i: usize = 0;
        while i < just_pressed.len()
            invariant
                0 <= i <= just_pressed.len(),
                self.paused,
                !self.single_step,
                self.wf(),
                self.latched_keys@ == latch_presses(old_latched, just_pressed@.subrange(0, i as int)),
                forall|k: KeyCode|
                    #[trigger] self.latched_keys@.contains(k) <==> (old_latched.contains(k) || (just_pressed@.subrange(0, i as int).contains(k)
                        && !is_debug_key(k))),
            decreases just_pressed.len() - i,
        {
            let k = just_pressed[i];
            let debug = match k {
                KeyCode::F3 | KeyCode::F4 => true,
                _ => false,
            };
            proof {
                assert(just_pressed@.subrange(0, i + 1).drop_last() =~= just_pressed@.subrange(0, i as int));
                assert(just_pressed@.subrange(0, i + 1).last() == k);
                assert forall|x: KeyCode| #[trigger] just_pressed@.subrange(0, i + 1).contains(x) <==> (just_pressed@.subrange(
                    0,
                    i as int,
                ).contains(x) || x == k) by {
                    if just_pressed@.subrange(0, i + 1).contains(x) {
                        let j = choose|j: int| 0 <= j < i + 1 && #[trigger] just_pressed@.subrange(0, i + 1)[j] == x;
                        if j < i {
                            assert(just_pressed@.subrange(0, i as int)[j] == x);
                        }
                    }
                    if just_pressed@.subrange(0, i as int).contains(x) {
                        let j = choose|j: int| 0 <= j < i && #[trigger] just_pressed@.subrange(0, i as int)[j] == x;
                        assert(just_pressed@.subrange(0, i + 1)[j] == x);
                    }
                    if x == k {
                        assert(just_pressed@.subrange(0, i + 1)[i as int] == x);
                    }
                }
            }
            if !debug {
                let mut found = false;
                let mut j: usize = 0;
                while j < self.latched_keys.len()
                    invariant
                        0 <= j <= self.latched_keys.len(),
                        found <==> self.latched_keys@.subrange(0, j as int).contains(k),
                    decreases self.latched_keys.len() - j,
                {
                    proof {
                        assert(self.latched_keys@.subrange(0, j + 1) =~= self.latched_keys@.subrange(0, j as int).push(
                            self.latched_keys@[j as int],
                        ));
                        vstd::seq_lib::lemma_seq_contains_after_push(
                            self.latched_keys@.subrange(0, j as int),
                            self.latched_keys@[j as int],
                            k,
                        );
                    }
                    if self.latched_keys[j] == k {
                        found = true;
                    }
                    j = j + 1;
                }
                assert(self.latched_keys@.subrange(0, self.latched_keys@.len() as int) =~= self.latched_keys@);
                if !found {
                    let ghost before = self.latched_keys@;
                    self.latched_keys.push(k);
                    proof {
                        assert(self.latched_keys@ =~= before.push(k));
                        assert forall|x: KeyCode| #[trigger] self.latched_keys@.contains(x) <==> (before.contains(x) || x == k) by {
                            if self.latched_keys@.contains(x) {
                                let j2 = choose|j2: int| 0 <= j2 < self.latched_keys@.len() && #[trigger] self.latched_keys@[j2] == x;
                                if j2 < before.len() {
                                    assert(before[j2] == x);
                                }
                            }
                            if before.contains(x) {
                                let j2 = choose|j2: int| 0 <= j2 < before.len() && #[trigger] before[j2] == x;
                                assert(self.latched_keys@[j2] == x);
                            }
                            if x == k {
                                assert(self.latched_keys@[before.len() as int] == x);
                            }
                        }
                        assert forall|a: int, b: int| 0 <= a < b < self.latched_keys@.len() implies self.latched_keys@[a]
                            != self.latched_keys@[b] by {
                            if b == before.len() {
                                assert(before[a] == self.latched_keys@[a]);
                            }
                        }
                    }
                }
            }
            i = i + 1;
        }
        assert(just_pressed@.subrange(0, just_pressed@.len() as int) =~= just_pressed@);
    }

    /// Handles the debug keys of this tick. F3 flips the pause, clears any
    /// pending step and forgets the remembered keys. F4 while paused sets a
    /// single step, forgets the remembered keys and returns those of them
    /// still held (`held`), in the order they were first pressed, to be
    /// pressed again; otherwise nothing is returned.
    pub fn toggle_pause(&mut self, f3_just_pressed: bool, f4_just_pressed: bool, held: &[KeyCode]) -> (r: Vec<KeyCode>)
        requires
            old(self).wf(),
        ensures
            final(self).wf(),
            final(self).paused == (old(self).paused != f3_just_pressed),
            final(self).paused && f4_just_pressed ==> final(self).single_step && final(self).latched().len() == 0
                && r@ == (if f3_just_pressed { Seq::<KeyCode>::empty() } else { old(self).latched() }).filter(
                |k: KeyCode| held@.contains(k),
            ),
            !(final(self).paused && f4_just_pressed) ==> r@.len() == 0 && final(self).single_step == (old(self).single_step
                && !f3_just_pressed) && final(self).latched() == (if f3_just_pressed {
                Seq::<KeyCode>::empty()
            } else {
                old(self).latched()
            }),
    {
        if f3_just_pressed {
            self.paused = !self.paused;
            self.single_step = false;
            self.latched_keys.clear();
        }
        let mut out: Vec<KeyCode> = Vec::new();
        if self.paused && f4_just_pressed {
            self.single_step = true;
            let ghost l = self.latched_keys@;
            let mut i: usize = 0;
            while i < self.latched_keys.len()
                invariant
                    0 <= i <= self.latched_keys.len(),
                    self.latched_keys@ == l,
                    out@ == l.subrange(0, i as int).filter(|k: KeyCode| held@.contains(k)),
                decreases self.latched_keys.len() - i,
            {
                let k = self.latched_keys[i];
                let mut is_held = false;
                let mut j: usize = 0;
                while j < held.len()
                    invariant
                        0 <= j <= held.len(),
                        is_held <==> held@.subrange(0, j as int).contains(k),
                    decreases held.len() - j,
                {
                    proof {
                        assert(held@.subrange(0, j + 1) =~= held@.subrange(0, j as int).push(held@[j as int]));
                        vstd::seq_lib::lemma_seq_contains_after_push(held@.subrange(0, j as int), held@[j as int], k);
                    }
                    if held[j] == k {
                        is_held = true;
                    }
                    j = j + 1;
                }
                assert(held@.subrange(0, held@.len() as int) =~= held@);
                proof {
                    let pred = |x: KeyCode| held@.contains(x);
                    assert(l.subrange(0, i + 1).drop_last() =~= l.subrange(0, i as int));
                    assert(l.subrange(0, i + 1).last() == k);
                    reveal(Seq::filter);
                    assert(l.subrange(0, i + 1).filter(pred) == (if pred(k) {
                        l.subrange(0, i as int).filter(pred).push(k)
                    } else {
                        l.subrange(0, i as int).filter(pred)
                    }));
                }
                if is_held {
                    out.push(k);
                }
                i = i + 1;
            }
            assert(l.subrange(0, l.len() as int) =~= l);
            self.latched_keys.clear();
        }
        out
    }
}

impl Default for DebugPause {
    fn default() -> (r: Self)
        ensures
            !r.paused,
            !r.single_step,
            r.latched() == Seq::<KeyCode>::empty(),
            r.wf(),
    {
        DebugPause::new()
    }
}

} // verus!

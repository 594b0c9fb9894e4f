//! Progress signal: a shared count of active spinner-style indicators plus
//! a frame timer for the spinner animation.
//!
//! The count is reference-counted, not boolean: several independent
//! indicators may be active at once, and the render path only asks whether
//! anything at all is busy. The animation frame advances over a fixed
//! eight-glyph cycle, gated to at most one step per eighty milliseconds.

use vstd::prelude::*;

use std::collections::HashMap;

verus! {

broadcast use vstd::std_specs::hash::group_hash_axioms;

/// Identifies the language server an indicator belongs to. The identifier
/// is an opaque 64-bit token handed out by the editor's server registry.
pub type LanguageServerId = u64;

/// Milliseconds that must pass before the animation advances a frame.
pub const FRAME_INTERVAL_MS: u64 = 80;

/// Number of glyphs in the animation cycle.
pub const FRAME_COUNT: usize = 8;

/// Relies on `std::time::SystemTime::now` and
/// `SystemTime::duration_since`: milliseconds since the Unix epoch, or zero
/// when the clock reads earlier than the epoch. Nothing is promised of the
/// value: wall clocks can jump.
#[verifier::external_body]
fn now_millis() -> u64 {
    match std::time::SystemTime::now().duration_since(std::time::UNIX_EPOCH) {
        Ok(d) => d.as_millis() as u64,
        Err(_) => 0,
    }
}

/// The process-wide count of active indicators. Created once as part of the
/// UI state, starting at zero; only increment, decrement and read are
/// exposed.
pub struct ActiveSpinnerCount {
    count: usize,
}

/// The count after an indicator transitions idle to active: it grows by one
/// only when the indicator was really idle.
pub open spec fn spec_count_after_start(count: nat, was_stopped: bool) -> nat {
    if was_stopped {
        count + 1
    } else {
        count
    }
}

/// The count after an indicator transitions active to idle: it shrinks by
/// one only when the indicator was really active, and never below zero.
pub open spec fn spec_count_after_stop(count: nat, was_stopped: bool) -> nat {
    if was_stopped {
        count
    } else if count > 0 {
        (count - 1) as nat
    } else {
        0
    }
}

impl ActiveSpinnerCount {
    /// The number of indicators currently active.
    pub closed spec fn spec_count(&self) -> nat {
        self.count as nat
    }

    /// A fresh counter; nothing is active yet.
    pub fn new() -> (c: ActiveSpinnerCount)
        ensures
            c.spec_count() == 0,
    {
        ActiveSpinnerCount { count: 0 }
    }

    /// One more indicator became active.
    pub fn increment(&mut self)
        requires
            old(self).spec_count() < usize::MAX,
        ensures
            final(self).spec_count() == old(self).spec_count() + 1,
    {
        self.count = self.count + 1;
    }

    /// One indicator went idle; an unmatched call leaves the count at zero.
    pub fn decrement(&mut self)
        ensures
            final(self).spec_count() == spec_count_after_stop(old(self).spec_count(), false),
    {
        if self.count > 0 {
            self.count = self.count - 1;
        }
    }

    /// The current count.
    pub fn read(&self) -> (n: usize)
        ensures
            n == self.spec_count(),
    {
        self.count
    }
}

/// Whether anything at all is busy: the render path reads this to decide
/// whether a global busy indicator should show.
pub fn any_spinner_active(count: &ActiveSpinnerCount) -> (r: bool)
    ensures
        r == (count.spec_count() > 0),
{
    count.read() > 0
}

/// Starting two idle indicators and stopping one leaves the shared count
/// positive, so the global busy flag stays on; stopping the second as well
/// returns an initially-idle signal to "nothing busy".
pub proof fn lemma_progress_signal_counting(initial: nat)
    requires
        initial + 2 <= usize::MAX,
    ensures
        ({
            let after_two = spec_count_after_start(spec_count_after_start(initial, true), true);
            let after_one_stop = spec_count_after_stop(after_two, false);
            &&& after_one_stop > 0
            &&& initial == 0 ==> spec_count_after_stop(after_one_stop, false) == 0
        }),
{
}

/// One spinner-style indicator. It is active while it holds the timestamp
/// of its most recent start.
#[derive(Clone, Copy, Debug)]
pub struct Spinner {
    /// When the indicator last became active, in milliseconds; `None` while
    /// it is idle.
    pub start: Option<u64>,
}

impl Spinner {
    pub fn new() -> (s: Spinner)
        ensures
            s.start is None,
    {
        Spinner { start: None }
    }

    /// Marks the indicator active and counts the idle-to-active transition.
    pub fn start(&mut self, count: &mut ActiveSpinnerCount)
        requires
            old(self).start is None ==> old(count).spec_count() < usize::MAX,
        ensures
            final(self).start is Some,
            final(count).spec_count() == spec_count_after_start(
                old(count).spec_count(),
                old(self).start is None,
            ),
    {
        if self.start.is_none() {
            count.increment();
        }
        self.start = Some(now_millis());
    }

    /// Marks the indicator idle and counts the active-to-idle transition.
    pub fn stop(&mut self, count: &mut ActiveSpinnerCount)
        ensures
            final(self).start is None,
            final(count).spec_count() == spec_count_after_stop(
                old(count).spec_count(),
                old(self).start is None,
            ),
    {
        if self.start.is_some() {
            count.decrement();
        }
        self.start = None;
    }

    pub fn is_stopped(&self) -> (r: bool)
        ensures
            r == (self.start is None),
    {
        self.start.is_none()
    }
}

impl Default for Spinner {
    fn default() -> (s: Spinner)
        ensures
            s.start is None,
    {
        Spinner { start: None }
    }
}

/// The animation glyph for a frame index.
pub open spec fn spec_frame_glyph(i: int) -> &'static str {
    if i == 0 {
        "⣾"
    } else if i == 1 {
        "⣽"
    } else if i == 2 {
        "⣻"
    } else if i == 3 {
        "⢿"
    } else if i == 4 {
        "⡿"
    } else if i == 5 {
        "⣟"
    } else if i == 6 {
        "⣯"
    } else {
        "⣷"
    }
}

/// Looks up the animation glyph for a frame index.
pub fn frame_glyph(i: usize) -> (r: &'static str)
    requires
        i < FRAME_COUNT,
    ensures
        r == spec_frame_glyph(i as int),
{
    if i == 0 {
        "⣾"
    } else if i == 1 {
        "⣽"
    } else if i == 2 {
        "⣻"
    } else if i == 3 {
        "⢿"
    } else if i == 4 {
        "⡿"
    } else if i == 5 {
        "⣟"
    } else if i == 6 {
        "⣯"
    } else {
        "⣷"
    }
}

/// The frame index and last-advance timestamp after one animation tick at
/// time `now`: the frame steps (wrapping over the glyph cycle) only when at
/// least the frame interval passed since the last advance; the very first
/// tick only arms the timer.
pub open spec fn spec_frame_after_tick(frame: int, last: Option<u64>, now: u64) -> (
    int,
    Option<u64>,
) {
    match last {
        Some(l) => if now >= l + FRAME_INTERVAL_MS {
            ((frame + 1) % (FRAME_COUNT as int), Some(now))
        } else {
            (frame, Some(l))
        },
        None => (frame, Some(now)),
    }
}

/// The per-server indicators of one editor session, with the shared
/// animation frame for the busy glyph.
pub struct ProgressSpinners {
    /// One indicator per language server.
    pub inner: HashMap<LanguageServerId, Spinner>,
    /// Index into the glyph cycle.
    pub current_frame: usize,
    /// When the frame last advanced, in milliseconds.
    pub last_update: Option<u64>,
}

impl ProgressSpinners {
    /// The frame index stays inside the glyph cycle.
    pub open spec fn wf(&self) -> bool {
        self.current_frame < FRAME_COUNT
    }

    /// The spinner registered for `id`, if any.
    pub fn get(&self, id: LanguageServerId) -> (r: Option<&Spinner>)
        ensures
            match r {
                Some(s) => self.inner@.contains_key(id) && *s == self.inner@[id],
                None => !self.inner@.contains_key(id),
            },
    {
        self.inner.get(&id)
    }

    /// The spinner registered for `id`, creating an idle one first when
    /// there is none.
    pub fn get_or_create(&mut self, id: LanguageServerId) -> (r: &mut Spinner)
        ensures
            *r == (if old(self).inner@.contains_key(id) {
                old(self).inner@[id]
            } else {
                Spinner { start: None }
            }),
            final(self).inner@ == old(self).inner@.insert(id, *final(r)),
            final(self).current_frame == old(self).current_frame,
            final(self).last_update == old(self).last_update,
    {
        self.inner.entry(id).or_insert(Spinner { start: None })
    }

    /// Whether any registered indicator is active.
    pub fn has_active_spinners(&self) -> (r: bool)
        ensures
            r == exists|id: LanguageServerId|
                #[trigger] self.inner@.contains_key(id) && self.inner@[id].start is Some,
    {
        let vals = self.inner.values();
        let ghost gseq = vstd::std_specs::iter::IteratorSpec::remaining(&vals);
        proof {
            assert(gseq.unref().to_set() == self.inner@.values());
        }
        let mut found = false;
        for s in it: vals
            invariant
                it.seq() == gseq,
                found <==> exists|j: int|
                    0 <= j < it.index() && (#[trigger] gseq[j]).start is Some,
        {
            if !s.is_stopped() {
                found = true;
            }
        }
        proof {
            if found {
                let j = choose|j: int|
                    0 <= j < gseq.len() && (#[trigger] gseq[j]).start is Some;
                let v = gseq[j];
                assert(gseq.unref()[j] == *v);
                assert(gseq.unref().contains(*v));
                assert(self.inner@.values().contains(*v));
                let id = choose|id: LanguageServerId|
                    #[trigger] self.inner@.contains_key(id) && self.inner@[id] == *v;
                assert(self.inner@.contains_key(id) && self.inner@[id].start is Some);
            } else {
                assert forall|id: LanguageServerId|
                    #[trigger] self.inner@.contains_key(id) implies self.inner@[id].start
                    is None by {
                    let v = self.inner@[id];
                    assert(self.inner@.contains_value(v));
                    assert(self.inner@.values().contains(v));
                    assert(gseq.unref().contains(v));
                    let j = choose|j: int|
                        0 <= j < gseq.unref().len() && gseq.unref()[j] == v;
                    assert(gseq.unref()[j] == *gseq[j]);
                    if gseq[j].start is Some {
                        assert(exists|k: int| 0 <= k < gseq.len() && (#[trigger] gseq[k]).start
                            is Some);
                    }
                }
            }
        }
        found
    }

    /// The glyph of the current animation frame, advancing the frame first
    /// when the interval has passed. The clock is read once per call; the
    /// promise holds for whatever time it returned.
    pub fn current_frame(&mut self) -> (r: &'static str)
        requires
            old(self).wf(),
        ensures
            final(self).wf(),
            final(self).inner@ == old(self).inner@,
            exists|now: u64|
                (final(self).current_frame as int, final(self).last_update)
                    == #[trigger] spec_frame_after_tick(
                    old(self).current_frame as int,
                    old(self).last_update,
                    now,
                ),
            r == spec_frame_glyph(final(self).current_frame as int),
    {
        let now = now_millis();
        self.tick(now);
        frame_glyph(self.current_frame)
    }

    /// One animation tick at the given time.
    pub fn tick(&mut self, now: u64)
        requires
            old(self).wf(),
        ensures
            final(self).wf(),
            final(self).inner@ == old(self).inner@,
            (final(self).current_frame as int, final(self).last_update) == spec_frame_after_tick(
                old(self).current_frame as int,
                old(self).last_update,
                now,
            ),
    {
        match self.last_update {
            Some(last) => {
                if now >= last && now - last >= FRAME_INTERVAL_MS {
                    self.current_frame = (self.current_frame + 1) % FRAME_COUNT;
                    self.last_update = Some(now);
                }
            },
            None => {
                self.last_update = Some(now);
            },
        }
    }
}

impl Default for ProgressSpinners {
    fn default() -> (p: ProgressSpinners)
        ensures
            p.wf(),
            p.inner@ == Map::<LanguageServerId, Spinner>::empty(),
            p.current_frame == 0,
            p.last_update is None,
    {
        ProgressSpinners { inner: HashMap::new(), current_frame: 0, last_update: None }
    }
}

} // verus!

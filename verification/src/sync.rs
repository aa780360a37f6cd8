//! Pipeline access serializer.
//!
//! The native engine's state-change path (seek, play/pause transition)
//! contends on a single platform-level lock shared with an audio callback
//! thread, so serializing per handle is not enough: at most one
//! state-changing call may be executing at any instant across the whole
//! process. The [`Serializer`] is the explicit guard object that makes this
//! constraint visible in the API: it is owned by the one consumer thread
//! allowed to change engine state, every state-changing call is recorded
//! inside one of its critical sections, and an instrumented reentrancy
//! counter witnesses that no two sections are ever open at once.
//!
//! Cheap per-item settings (looping, muting, volume) are deliberately not
//! serialized; they never take the contended path.

use vstd::prelude::*;

verus! {

/// A discrete engine call the consumer has decided on. The application
/// performs these against the native pipelines, in the order they were
/// produced.
#[derive(Clone, Copy, Debug, PartialEq, Eq, Structural)]
pub enum EngineAction {
    /// Seek the item's pipeline to `target_ms`. Accurate seeks flush the
    /// pipeline and are a known deadlock vector, so the serializer only
    /// ever issues inaccurate ones.
    Seek { id: u64, target_ms: u64, accurate: bool },
    /// Start or stop playback of the item's pipeline.
    SetPlaying { id: u64, playing: bool },
    /// Set the pipeline's internal loop flag.
    SetLooping { id: u64, looping: bool },
    /// Mute or unmute the item's audio.
    SetMuted { id: u64, muted: bool },
    /// Set the item's volume, in percent.
    SetVolume { id: u64, percent: u8 },
}

impl EngineAction {
    /// Whether this call takes the engine's contended state-change path and
    /// must therefore run inside the serializer's critical section.
    pub open spec fn is_state_change(&self) -> bool {
        self is Seek || self is SetPlaying
    }
}

/// The process-wide exclusive guard around state-changing engine calls,
/// with instrumentation.
pub struct Serializer {
    /// Number of critical sections open right now.
    pub open_sections: u64,
    /// High-water mark of `open_sections` over the serializer's life.
    pub max_open: u64,
    /// Total number of critical sections ever entered (saturating).
    pub sections_entered: u64,
    /// Every state-changing call issued, in order.
    pub log: Vec<EngineAction>,
}

/// Saturating increment, used for the instrumentation counters.
pub open spec fn sat_inc(x: int) -> int {
    if x < u64::MAX {
        x + 1
    } else {
        x
    }
}

impl Serializer {
    /// Quiescent and never over-committed: no section is open and the
    /// counter has never exceeded one; the log holds state-changing calls
    /// only.
    pub open spec fn wf(&self) -> bool {
        &&& self.open_sections == 0
        &&& self.max_open <= 1
        &&& forall|i: int| 0 <= i < self.log@.len() ==> self.log@[i].is_state_change()
    }

    pub fn new() -> (s: Serializer)
        ensures
            s.wf(),
            s.log@ =~= Seq::<EngineAction>::empty(),
            s.max_open == 0,
            s.sections_entered == 0,
    {
        Serializer { open_sections: 0, max_open: 0, sections_entered: 0, log: Vec::new() }
    }

    /// True when no critical section is open. The application must see this
    /// hold before bracketing an engine call itself.
    pub fn is_idle(&self) -> (idle: bool)
        ensures
            idle == (self.open_sections == 0),
    {
        self.open_sections == 0
    }

    /// Enter the process-wide critical section. Only possible when no
    /// section is open, which is what keeps the instrumented counter at one.
    pub fn begin_section(&mut self)
        requires
            old(self).open_sections == 0,
        ensures
            final(self).open_sections == 1,
            final(self).max_open == if old(self).max_open >= 1 { old(self).max_open as int } else { 1int },
            final(self).sections_entered == sat_inc(old(self).sections_entered as int),
            final(self).log == old(self).log,
    {
        self.open_sections = 1;
        if self.max_open < 1 {
            self.max_open = 1;
        }
        if self.sections_entered < u64::MAX {
            self.sections_entered = self.sections_entered + 1;
        }
    }

    /// Leave the critical section.
    pub fn end_section(&mut self)
        requires
            old(self).open_sections == 1,
        ensures
            final(self).open_sections == 0,
            final(self).max_open == old(self).max_open,
            final(self).sections_entered == old(self).sections_entered,
            final(self).log == old(self).log,
    {
        self.open_sections = 0;
    }

    /// Record one state-changing call inside its own critical section.
    pub fn issue(&mut self, action: EngineAction)
        requires
            old(self).wf(),
            action.is_state_change(),
        ensures
            final(self).wf(),
            final(self).log@ =~= old(self).log@.push(action),
            final(self).max_open == 1,
            final(self).sections_entered == sat_inc(old(self).sections_entered as int),
    {
        self.begin_section();
        self.log.push(action);
        self.end_section();
    }
}

/// Issue a seek through the serializer. The engine is always asked for an
/// inaccurate seek, whatever the caller requested: accurate seeks flush the
/// pipeline and deadlock under concurrent cross-handle calls.
pub fn synchronized_seek(serializer: &mut Serializer, id: u64, target_ms: u64, accurate: bool) -> (action: EngineAction)
    requires
        old(serializer).wf(),
    ensures
        final(serializer).wf(),
        action == (EngineAction::Seek { id, target_ms, accurate: false }),
        final(serializer).log@ =~= old(serializer).log@.push(action),
        final(serializer).max_open == 1,
        final(serializer).sections_entered == sat_inc(old(serializer).sections_entered as int),
{
    let action = EngineAction::Seek { id, target_ms, accurate: false };
    serializer.issue(action);
    action
}

/// Issue a play/pause transition through the serializer.
pub fn synchronized_set_paused(serializer: &mut Serializer, id: u64, paused: bool) -> (action: EngineAction)
    requires
        old(serializer).wf(),
    ensures
        final(serializer).wf(),
        action == (EngineAction::SetPlaying { id, playing: !paused }),
        final(serializer).log@ =~= old(serializer).log@.push(action),
        final(serializer).max_open == 1,
        final(serializer).sections_entered == sat_inc(old(serializer).sections_entered as int),
{
    let action = EngineAction::SetPlaying { id, playing: !paused };
    serializer.issue(action);
    action
}

/// The section count after the first `k` steps of a run, where a step is
/// `true` for entering a section and `false` for leaving one.
pub open spec fn count_after(steps: Seq<bool>, k: int) -> int
    decreases k,
{
    if k <= 0 {
        0
    } else {
        count_after(steps, k - 1) + if steps[k - 1] { 1int } else { -1int }
    }
}

/// A run respects the serializer's protocol when a section is only entered
/// while none is open and only left while one is open — exactly what
/// `begin_section` and `end_section` demand.
pub open spec fn respects_protocol(steps: Seq<bool>) -> bool {
    forall|k: int|
        0 <= k < steps.len() ==> count_after(steps, k) == if steps[k] { 0int } else { 1int }
}

/// Mutual exclusion: in any interleaving of section entries and exits that
/// respects the serializer's protocol, the number of simultaneously open
/// critical sections never exceeds one.
pub proof fn lemma_mutual_exclusion(steps: Seq<bool>, k: int)
    requires
        respects_protocol(steps),
        0 <= k <= steps.len(),
    ensures
        0 <= count_after(steps, k) <= 1,
    decreases k,
{
    if k > 0 {
        lemma_mutual_exclusion(steps, k - 1);
    }
}

} // verus!

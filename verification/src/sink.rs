//! A model of the audio sink: a playback queue that holds at most one
//! active source at a time and is either playing or paused.

use vstd::prelude::*;

verus! {

/// Whether the sink is advancing through its source or holding it.
#[derive(Clone, Copy, Debug, PartialEq, Eq, Structural)]
pub enum SinkStatus {
    Playing,
    Paused,
}

/// The state of the audio sink that the player observes and drives: its
/// status and the identity of the active source, if any. `source` is `None`
/// exactly when the sink is empty (natural end or after a stop).
#[derive(Clone, Copy, Debug, PartialEq, Eq)]
pub struct SinkModel {
    pub status: SinkStatus,
    pub source: Option<u64>,
}

/// The sink after a source is enqueued.
pub open spec fn sink_appended(s: SinkModel, source: u64) -> SinkModel {
    SinkModel { status: s.status, source: Some(source) }
}

/// The sink after `play`: playing, same source.
pub open spec fn sink_played(s: SinkModel) -> SinkModel {
    SinkModel { status: SinkStatus::Playing, source: s.source }
}

/// The sink after `pause`: paused, same source.
pub open spec fn sink_paused(s: SinkModel) -> SinkModel {
    SinkModel { status: SinkStatus::Paused, source: s.source }
}

/// The sink after `stop`: the current source is discarded; a later append
/// still works.
pub open spec fn sink_stopped(s: SinkModel) -> SinkModel {
    SinkModel { status: s.status, source: None }
}

impl SinkModel {
    /// True when there is no active source.
    pub open spec fn spec_empty(self) -> bool {
        self.source is None
    }

    /// A freshly created sink: empty and not paused.
    pub fn new() -> (s: Self)
        ensures
            s == (SinkModel { status: SinkStatus::Playing, source: None }),
    {
        SinkModel { status: SinkStatus::Playing, source: None }
    }

    /// Enqueue a decoded source. The sink holds at most one active source,
    /// so the sink must be empty. Pausedness is unchanged: the source plays
    /// at once unless the sink is paused.
    pub fn append(&mut self, source: u64)
        requires
            old(self).spec_empty(),
        ensures
            *final(self) == sink_appended(*old(self), source),
    {
        self.source = Some(source);
    }

    /// Resume playback; a no-op if already playing, never an error.
    pub fn play(&mut self)
        ensures
            *final(self) == sink_played(*old(self)),
    {
        self.status = SinkStatus::Playing;
    }

    /// Pause playback; a no-op if already paused, never an error.
    pub fn pause(&mut self)
        ensures
            *final(self) == sink_paused(*old(self)),
    {
        self.status = SinkStatus::Paused;
    }

    /// Discard the current source; the sink is empty afterwards and a later
    /// append still works.
    pub fn stop(&mut self)
        ensures
            *final(self) == sink_stopped(*old(self)),
    {
        self.source = None;
    }

    /// True iff there is no active source (natural end or after a stop).
    pub fn empty(&self) -> (b: bool)
        ensures
            b == self.spec_empty(),
    {
        self.source.is_none()
    }
}

/// Law: pause followed by resume, with no intervening stop, leaves the sink
/// playing the same source it held before the pause.
pub proof fn lemma_pause_resume_keeps_source(s: SinkModel)
    ensures
        sink_played(sink_paused(s)).source == s.source,
        sink_played(sink_paused(s)).status is Playing,
{
}

} // verus!

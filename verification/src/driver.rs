//! The player driver: the top-level state machine that sequences tracks,
//! spawns and joins the per-track control listener, feeds the sink, and
//! keeps the terminal's raw mode scoped to playback.

use vstd::prelude::*;

use crate::control::Shared;
use crate::control::listener_next;
use crate::control::listener_verdict;
use crate::render::now_playing_line;
use crate::render::now_playing_prefix;
use crate::sink::sink_appended;
use crate::sink::sink_played;

verus! {

/// Where the driver stands.
#[derive(Clone, Copy, Debug, PartialEq, Eq, Structural)]
pub enum Phase {
    /// The playlist is known; playback has not begun and the terminal is
    /// untouched.
    Ready,
    /// About to render the "Now playing" line for the current track; no
    /// listener is running.
    Announce,
    /// The listener for the current track is running; the track's source is
    /// being decoded and has not been enqueued yet.
    Starting,
    /// The source is enqueued (or the track was abandoned); the driver
    /// polls until the sink is empty or a skip is requested.
    Waiting,
    /// The track is over; the cancel signal is set and the driver waits to
    /// join the listener.
    Joining,
    /// All tracks were played; raw mode has been left.
    Finished,
    /// The playlist was empty; playback never began and raw mode was never
    /// entered.
    Aborted,
}

/// What the driver asks of its caller when playback begins, or does not.
#[derive(Clone, Copy, Debug, PartialEq, Eq, Structural)]
pub enum StartAction {
    /// Enter raw mode, clear the screen, print the controls banner.
    BeginPlayback,
    /// Report on standard error that no MP3 files were found and exit with
    /// a nonzero status; the terminal was never touched.
    ReportNoTracks,
}

/// The driver's own state: the immutable playlist, the index of the
/// current track, the phase, and whether a listener exists for the current
/// track.
pub struct Player {
    pub tracks: Vec<Vec<u8>>,
    pub idx: usize,
    pub phase: Phase,
    pub listener_running: bool,
}

/// The driver's phases in which a track is current.
pub open spec fn on_a_track(phase: Phase) -> bool {
    phase is Announce || phase is Starting || phase is Waiting || phase is Joining
}

/// The invariant that couples the driver's state with the shared state.
///
/// - the current track index stays within the playlist;
/// - exactly one listener exists per track, from Starting to Joining, and
///   none is running when a "Now playing" line is about to be rendered;
/// - the terminal is in raw mode iff the driver is inside the track loop;
/// - the sink is empty outside Waiting, and a requested skip implies the
///   sink was stopped.
pub open spec fn inv(p: Player, sh: Shared) -> bool {
    &&& p.idx <= p.tracks@.len()
    &&& p.phase is Ready ==> p.idx == 0
    &&& on_a_track(p.phase) ==> p.idx < p.tracks@.len()
    &&& p.listener_running <==> (p.phase is Starting || p.phase is Waiting
        || p.phase is Joining)
    &&& on_a_track(p.phase) ==> sh.raw
    &&& (p.phase is Ready || p.phase is Finished || p.phase is Aborted) ==> !sh.raw
    &&& (p.phase is Ready || p.phase is Announce || p.phase is Starting
        || p.phase is Joining) ==> sh.sink.spec_empty()
    &&& sh.skip ==> sh.sink.spec_empty()
}

impl Player {
    /// A driver over the given playlist, before playback begins.
    pub fn new(tracks: Vec<Vec<u8>>) -> (p: Player)
        ensures
            p.tracks == tracks,
            p.idx == 0,
            p.phase is Ready,
            !p.listener_running,
    {
        Player { tracks, idx: 0, phase: Phase::Ready, listener_running: false }
    }

    /// Begin playback. With an empty playlist the driver aborts before raw
    /// mode is ever entered; otherwise the terminal enters raw mode and the
    /// first track is announced.
    pub fn start(&mut self, sh: &mut Shared) -> (a: StartAction)
        requires
            inv(*old(self), *old(sh)),
            old(self).phase is Ready,
        ensures
            inv(*final(self), *final(sh)),
            a is ReportNoTracks <==> old(self).tracks@.len() == 0,
            a is ReportNoTracks ==> final(self).phase is Aborted && !final(sh).raw
                && final(sh).raw == old(sh).raw,
            a is BeginPlayback ==> final(self).phase is Announce && final(sh).raw,
            final(self).tracks == old(self).tracks,
            final(self).idx == 0,
            !final(self).listener_running,
            final(sh).sink == old(sh).sink,
            final(sh).skip == old(sh).skip,
            final(sh).cancel == old(sh).cancel,
    {
        if self.tracks.len() == 0 {
            self.phase = Phase::Aborted;
            StartAction::ReportNoTracks
        } else {
            sh.raw = true;
            self.phase = Phase::Announce;
            StartAction::BeginPlayback
        }
    }

    /// Announce the current track: returns the "Now playing" line to
    /// render, resets the skip flag and the cancel signal, and spawns the
    /// track's listener. The caller renders the line in place (clear the
    /// current line, move to column 0, write, flush) and starts the
    /// listener loop.
    pub fn announce(&mut self, sh: &mut Shared) -> (line: Vec<u8>)
        requires
            inv(*old(self), *old(sh)),
            old(self).phase is Announce,
        ensures
            inv(*final(self), *final(sh)),
            line@ == now_playing_prefix() + old(self).tracks@[old(self).idx as int]@,
            final(self).phase is Starting,
            final(self).listener_running,
            !final(sh).skip,
            !final(sh).cancel,
            final(sh).sink == old(sh).sink,
            final(sh).raw == old(sh).raw,
            final(self).tracks == old(self).tracks,
            final(self).idx == old(self).idx,
    {
        let line = now_playing_line(&self.tracks[self.idx]);
        sh.skip = false;
        sh.cancel = false;
        self.phase = Phase::Starting;
        self.listener_running = true;
        line
    }

    /// The current track's source was decoded. If no skip was requested in
    /// the meantime the source is enqueued and the sink set playing — the
    /// skip flag is false at the moment the decoder's output is appended —
    /// and the driver starts waiting; with a skip already requested nothing
    /// is enqueued and the driver moves on to joining the listener.
    pub fn source_ready(&mut self, sh: &mut Shared, source: u64) -> (appended: bool)
        requires
            inv(*old(self), *old(sh)),
            old(self).phase is Starting,
        ensures
            inv(*final(self), *final(sh)),
            appended <==> !old(sh).skip,
            appended ==> !final(sh).skip
                && final(sh).sink == sink_played(sink_appended(old(sh).sink, source))
                && final(self).phase is Waiting
                && final(sh).cancel == old(sh).cancel,
            !appended ==> final(sh).sink == old(sh).sink
                && final(self).phase is Joining
                && final(sh).cancel,
            final(sh).skip == old(sh).skip,
            final(sh).raw == old(sh).raw,
            final(self).tracks == old(self).tracks,
            final(self).idx == old(self).idx,
            final(self).listener_running,
    {
        if sh.skip {
            sh.cancel = true;
            self.phase = Phase::Joining;
            false
        } else {
            sh.sink.append(source);
            sh.sink.play();
            self.phase = Phase::Waiting;
            true
        }
    }

    /// The current track's file could not be opened or decoded. The track
    /// is abandoned: nothing is enqueued, the listener is cancelled, and
    /// the driver moves on to joining it. The caller reports the failure on
    /// standard error and continues with the next track.
    pub fn source_failed(&mut self, sh: &mut Shared)
        requires
            inv(*old(self), *old(sh)),
            old(self).phase is Starting,
        ensures
            inv(*final(self), *final(sh)),
            final(self).phase is Joining,
            final(sh).cancel,
            final(sh).sink == old(sh).sink,
            final(sh).skip == old(sh).skip,
            final(sh).raw == old(sh).raw,
            final(self).tracks == old(self).tracks,
            final(self).idx == old(self).idx,
            final(self).listener_running,
    {
        sh.cancel = true;
        self.phase = Phase::Joining;
    }

    /// One pass of the driver's wait loop. The caller reports whether the
    /// real sink is empty (the model cannot observe the device); the track
    /// is over when the sink has drained or a skip was requested. If it is
    /// over, the listener is cancelled and the driver waits to join it;
    /// otherwise the caller sleeps one quantum and polls again.
    pub fn poll(&mut self, sh: &mut Shared, sink_empty: bool) -> (over: bool)
        requires
            inv(*old(self), *old(sh)),
            old(self).phase is Waiting,
        ensures
            inv(*final(self), *final(sh)),
            over <==> (old(sh).skip || sink_empty),
            over ==> final(self).phase is Joining && final(sh).cancel
                && final(sh).sink.spec_empty(),
            !over ==> *final(self) == *old(self) && *final(sh) == *old(sh),
            final(sh).skip == old(sh).skip,
            final(sh).raw == old(sh).raw,
            final(self).tracks == old(self).tracks,
            final(self).idx == old(self).idx,
            final(self).listener_running,
    {
        if sh.skip || sink_empty {
            sh.sink.stop();
            sh.cancel = true;
            self.phase = Phase::Joining;
            true
        } else {
            false
        }
    }

    /// The current track's listener has been joined. The driver advances:
    /// with another track left it returns to Announce; otherwise raw mode
    /// is left and the driver is finished. The caller exits with status 0
    /// when `more` is false.
    pub fn joined(&mut self, sh: &mut Shared) -> (more: bool)
        requires
            inv(*old(self), *old(sh)),
            old(self).phase is Joining,
        ensures
            inv(*final(self), *final(sh)),
            final(self).idx == old(self).idx + 1,
            !final(self).listener_running,
            more <==> old(self).idx + 1 < old(self).tracks@.len(),
            more ==> final(self).phase is Announce && final(sh).raw == old(sh).raw,
            !more ==> final(self).phase is Finished && !final(sh).raw,
            final(sh).sink == old(sh).sink,
            final(sh).skip == old(sh).skip,
            final(sh).cancel == old(sh).cancel,
            final(self).tracks == old(self).tracks,
    {
        let n = self.tracks.len();
        self.listener_running = false;
        self.idx = self.idx + 1;
        if self.idx < n {
            self.phase = Phase::Announce;
            true
        } else {
            sh.raw = false;
            self.phase = Phase::Finished;
            false
        }
    }
}

/// Law: on every exit path of the driver — normal completion of the whole
/// playlist and the empty-playlist abort — raw mode is off; together with
/// `lemma_quit_leaves_raw_mode` on the listener's quit path: raw mode
/// entered implies raw mode exited.
pub proof fn lemma_raw_mode_restored(p: Player, sh: Shared)
    requires
        inv(p, sh),
        p.phase is Finished || p.phase is Aborted,
    ensures
        !sh.raw,
{
}

/// Law: whenever the driver is about to render a "Now playing" line, no
/// listener is running — the previous track's listener was joined before
/// the next announce.
pub proof fn lemma_joined_before_announce(p: Player, sh: Shared)
    requires
        inv(p, sh),
        p.phase is Announce,
    ensures
        !p.listener_running,
{
}

/// Law: a listener iteration that does not quit the program preserves the
/// driver's invariant, whatever the driver's state — the listener never
/// enqueues a source, never touches the cancel signal, and leaves raw mode
/// alone except on the quit path, where the process exits.
pub proof fn lemma_listener_preserves_inv(p: Player, sh: Shared, key: Option<char>)
    requires
        inv(p, sh),
        !(listener_verdict(sh, key).action is QuitProgram),
    ensures
        inv(p, listener_next(sh, key)),
{
}

} // verus!

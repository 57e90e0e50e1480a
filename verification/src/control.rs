//! Translation of keypresses into player commands, and the per-track
//! control listener that applies them to the shared player state.

use vstd::prelude::*;

use crate::sink::SinkModel;
use crate::sink::SinkStatus;
use crate::sink::sink_paused;
use crate::sink::sink_played;
use crate::sink::sink_stopped;

verus! {

/// A command against the player, produced by the control listener from a
/// single keypress.
#[derive(Clone, Copy, Debug, PartialEq, Eq, Structural)]
pub enum Command {
    /// Pause playback (`p`).
    Pause,
    /// Resume playback (`r`).
    Resume,
    /// Skip to the next track (`n`).
    Skip,
    /// Quit the program (`q`).
    Quit,
    /// Any other key: do nothing.
    Ignore,
}

/// The command that a keypress stands for.
pub open spec fn spec_key_command(key: char) -> Command {
    if key == 'p' {
        Command::Pause
    } else if key == 'r' {
        Command::Resume
    } else if key == 'n' {
        Command::Skip
    } else if key == 'q' {
        Command::Quit
    } else {
        Command::Ignore
    }
}

/// Translates one keypress into a player command: `p` pauses, `r` resumes,
/// `n` skips to the next track, `q` quits, and every other key is ignored.
pub fn key_command(key: char) -> (c: Command)
    ensures
        c == spec_key_command(key),
{
    if key == 'p' {
        Command::Pause
    } else if key == 'r' {
        Command::Resume
    } else if key == 'n' {
        Command::Skip
    } else if key == 'q' {
        Command::Quit
    } else {
        Command::Ignore
    }
}

/// The state shared between the driver and the per-track control listener:
/// the sink model (guarded by one mutual-exclusion primitive in a running
/// program), the skip flag, the driver-to-listener cancel signal, and
/// whether the terminal is in raw mode.
#[derive(Clone, Copy, Debug, PartialEq, Eq)]
pub struct Shared {
    pub sink: SinkModel,
    /// Set by the listener when the user requests the next track; observed
    /// by the driver's wait loop; reset by the driver at each track start.
    pub skip: bool,
    /// Set by the driver when the current track is over, so that the
    /// listener terminates instead of polling forever.
    pub cancel: bool,
    /// True while the terminal is in raw mode.
    pub raw: bool,
}

impl Shared {
    /// The shared state at program start: empty sink, no skip request, no
    /// cancel signal, terminal not yet in raw mode.
    pub fn new() -> (sh: Self)
        ensures
            sh == (Shared {
                sink: SinkModel { status: SinkStatus::Playing, source: None },
                skip: false,
                cancel: false,
                raw: false,
            }),
    {
        Shared { sink: SinkModel::new(), skip: false, cancel: false, raw: false }
    }
}

/// The effect on the outside world that one listener iteration asks of its
/// caller.
#[derive(Clone, Copy, Debug, PartialEq, Eq, Structural)]
pub enum ControlAction {
    /// Nothing to do.
    DoNothing,
    /// Pause the real sink.
    PauseSink,
    /// Resume the real sink.
    ResumeSink,
    /// Stop the real sink (the user skipped the track).
    StopSink,
    /// Print the farewell, leave raw mode, and exit the process with
    /// status 0.
    QuitProgram,
}

/// What one listener iteration decided: the action against the outside
/// world, and whether the listener loop is over.
#[derive(Clone, Copy, Debug, PartialEq, Eq, Structural)]
pub struct ListenerStep {
    pub action: ControlAction,
    pub done: bool,
}

/// The shared state after one listener iteration that saw `key` (`None`
/// when the poll timed out with no keypress).
pub open spec fn listener_next(sh: Shared, key: Option<char>) -> Shared {
    if sh.cancel {
        sh
    } else {
        match key {
            None => sh,
            Some(k) => match spec_key_command(k) {
                Command::Pause => Shared { sink: sink_paused(sh.sink), ..sh },
                Command::Resume => Shared { sink: sink_played(sh.sink), ..sh },
                Command::Skip => Shared { sink: sink_stopped(sh.sink), skip: true, ..sh },
                Command::Quit => Shared { raw: false, ..sh },
                Command::Ignore => sh,
            },
        }
    }
}

/// What one listener iteration that saw `key` decides.
pub open spec fn listener_verdict(sh: Shared, key: Option<char>) -> ListenerStep {
    if sh.cancel {
        ListenerStep { action: ControlAction::DoNothing, done: true }
    } else {
        match key {
            None => ListenerStep { action: ControlAction::DoNothing, done: false },
            Some(k) => match spec_key_command(k) {
                Command::Pause => ListenerStep { action: ControlAction::PauseSink, done: false },
                Command::Resume => ListenerStep { action: ControlAction::ResumeSink, done: false },
                Command::Skip => ListenerStep { action: ControlAction::StopSink, done: true },
                Command::Quit => ListenerStep { action: ControlAction::QuitProgram, done: true },
                Command::Ignore => ListenerStep { action: ControlAction::DoNothing, done: false },
            },
        }
    }
}

/// One iteration of the per-track control listener. The caller polls the
/// terminal with a bounded timeout and hands in the keypress, if any; the
/// listener first honours the driver's cancel signal, then translates the
/// key into a command against the sink model and the skip flag. The caller
/// performs the returned action on the real sink or the process, and stops
/// looping when `done` holds.
pub fn listener_step(sh: &mut Shared, key: Option<char>) -> (r: ListenerStep)
    ensures
        *final(sh) == listener_next(*old(sh), key),
        r == listener_verdict(*old(sh), key),
        // the skip flag is monotonic within a track: once set, it stays set
        old(sh).skip ==> final(sh).skip,
        // the listener never touches the cancel signal
        final(sh).cancel == old(sh).cancel,
        // quitting leaves raw mode; nothing else changes the terminal
        (r.action is QuitProgram ==> !final(sh).raw),
        (!(r.action is QuitProgram) ==> final(sh).raw == old(sh).raw),
        // the listener never enqueues anything
        old(sh).sink.spec_empty() ==> final(sh).sink.spec_empty(),
{
    if sh.cancel {
        return ListenerStep { action: ControlAction::DoNothing, done: true };
    }
    match key {
        None => ListenerStep { action: ControlAction::DoNothing, done: false },
        Some(k) => match key_command(k) {
            Command::Pause => {
                sh.sink.pause();
                ListenerStep { action: ControlAction::PauseSink, done: false }
            },
            Command::Resume => {
                sh.sink.play();
                ListenerStep { action: ControlAction::ResumeSink, done: false }
            },
            Command::Skip => {
                sh.skip = true;
                sh.sink.stop();
                ListenerStep { action: ControlAction::StopSink, done: true }
            },
            Command::Quit => {
                sh.raw = false;
                ListenerStep { action: ControlAction::QuitProgram, done: true }
            },
            Command::Ignore => ListenerStep { action: ControlAction::DoNothing, done: false },
        },
    }
}

/// Law: the skip flag is monotonic under listener iterations — once the
/// user has requested a skip, no later keypress clears it.
pub proof fn lemma_skip_monotonic(sh: Shared, key: Option<char>)
    ensures
        sh.skip ==> listener_next(sh, key).skip,
{
}

/// Law: when a listener iteration decides to quit the program, the shared
/// state it leaves behind has raw mode off — the terminal is restored on
/// the quit path before the process exits.
pub proof fn lemma_quit_leaves_raw_mode(sh: Shared, key: Option<char>)
    ensures
        listener_verdict(sh, key).action is QuitProgram ==> !listener_next(sh, key).raw,
{
}

} // verus!

use mp3_player::Command;
use mp3_player::ControlAction;
use mp3_player::Shared;
use mp3_player::SinkModel;
use mp3_player::SinkStatus;
use mp3_player::key_command;
use mp3_player::listener_step;

fn fresh_shared() -> Shared {
    Shared::new()
}

#[test]
fn keys_map_to_commands() {
    assert_eq!(key_command('p'), Command::Pause);
    assert_eq!(key_command('r'), Command::Resume);
    assert_eq!(key_command('n'), Command::Skip);
    assert_eq!(key_command('q'), Command::Quit);
    assert_eq!(key_command('x'), Command::Ignore);
    assert_eq!(key_command(' '), Command::Ignore);
    assert_eq!(key_command('P'), Command::Ignore);
}

#[test]
fn sink_starts_empty_and_playing() {
    let s = SinkModel::new();
    assert!(s.empty());
    assert_eq!(s.status, SinkStatus::Playing);
}

#[test]
fn sink_append_then_stop() {
    let mut s = SinkModel::new();
    s.append(5);
    assert!(!s.empty());
    assert_eq!(s.source, Some(5));
    s.stop();
    assert!(s.empty());
    // a later append still works after a stop
    s.append(6);
    assert_eq!(s.source, Some(6));
}

#[test]
fn sink_pause_then_resume_keeps_source() {
    let mut s = SinkModel::new();
    s.append(9);
    s.pause();
    assert_eq!(s.status, SinkStatus::Paused);
    assert_eq!(s.source, Some(9));
    s.play();
    assert_eq!(s.status, SinkStatus::Playing);
    assert_eq!(s.source, Some(9));
}

#[test]
fn sink_pause_and_play_are_idempotent() {
    let mut s = SinkModel::new();
    s.append(1);
    s.pause();
    s.pause();
    assert_eq!(s.status, SinkStatus::Paused);
    assert_eq!(s.source, Some(1));
    s.play();
    s.play();
    assert_eq!(s.status, SinkStatus::Playing);
    assert_eq!(s.source, Some(1));
}

#[test]
fn listener_pauses_and_resumes() {
    let mut sh = fresh_shared();
    sh.sink.append(3);
    let step = listener_step(&mut sh, Some('p'));
    assert_eq!(step.action, ControlAction::PauseSink);
    assert!(!step.done);
    assert_eq!(sh.sink.status, SinkStatus::Paused);
    assert_eq!(sh.sink.source, Some(3));
    let step = listener_step(&mut sh, Some('r'));
    assert_eq!(step.action, ControlAction::ResumeSink);
    assert!(!step.done);
    assert_eq!(sh.sink.status, SinkStatus::Playing);
    assert_eq!(sh.sink.source, Some(3));
}

#[test]
fn listener_skip_sets_flag_stops_sink_and_terminates() {
    let mut sh = fresh_shared();
    sh.sink.append(3);
    let step = listener_step(&mut sh, Some('n'));
    assert_eq!(step.action, ControlAction::StopSink);
    assert!(step.done);
    assert!(sh.skip);
    assert!(sh.sink.empty());
}

#[test]
fn listener_quit_leaves_raw_mode() {
    let mut sh = fresh_shared();
    sh.raw = true;
    let step = listener_step(&mut sh, Some('q'));
    assert_eq!(step.action, ControlAction::QuitProgram);
    assert!(step.done);
    assert!(!sh.raw);
}

#[test]
fn listener_ignores_other_keys_and_timeouts() {
    let mut sh = fresh_shared();
    sh.sink.append(4);
    let step = listener_step(&mut sh, Some('z'));
    assert_eq!(step.action, ControlAction::DoNothing);
    assert!(!step.done);
    let step = listener_step(&mut sh, None);
    assert_eq!(step.action, ControlAction::DoNothing);
    assert!(!step.done);
    assert_eq!(sh.sink.source, Some(4));
    assert_eq!(sh.sink.status, SinkStatus::Playing);
}

#[test]
fn listener_terminates_on_cancel_without_acting() {
    let mut sh = fresh_shared();
    sh.cancel = true;
    let before = sh;
    let step = listener_step(&mut sh, Some('p'));
    assert_eq!(step.action, ControlAction::DoNothing);
    assert!(step.done);
    assert_eq!(sh, before);
}

#[test]
fn skip_flag_is_monotonic_under_later_keys() {
    let mut sh = fresh_shared();
    sh.sink.append(2);
    listener_step(&mut sh, Some('n'));
    assert!(sh.skip);
    listener_step(&mut sh, Some('p'));
    assert!(sh.skip);
    listener_step(&mut sh, Some('r'));
    assert!(sh.skip);
    listener_step(&mut sh, None);
    assert!(sh.skip);
}

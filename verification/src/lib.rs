//! An interactive command-line MP3 player library: directory enumeration of
//! MP3 tracks, a model of the audio sink's queue and pause state, translation
//! of keypresses into player commands, and the driver state machine that
//! sequences tracks, coordinates the per-track control listener, and keeps
//! the terminal's raw mode scoped to playback.

pub mod control;
pub mod driver;
pub mod playlist;
pub mod render;
pub mod sink;

pub use control::Command;
pub use control::ControlAction;
pub use control::ListenerStep;
pub use control::Shared;
pub use control::key_command;
pub use control::listener_step;
pub use control::lemma_quit_leaves_raw_mode;
pub use control::lemma_skip_monotonic;
pub use playlist::enumerate_mp3s;
pub use playlist::filter_mp3;
pub use playlist::has_mp3_extension;
pub use driver::Phase;
pub use driver::Player;
pub use driver::StartAction;
pub use driver::lemma_joined_before_announce;
pub use driver::lemma_listener_preserves_inv;
pub use driver::lemma_raw_mode_restored;
pub use render::now_playing_line;
pub use sink::SinkModel;
pub use sink::SinkStatus;
pub use sink::lemma_pause_resume_keeps_source;

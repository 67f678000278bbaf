//! Per-guild playback-session coordination.
//!
//! This library is the authoritative in-memory record of whether a guild
//! currently has an active media session, which voice channel it occupies,
//! what is playing, and what is queued.  It owns every decision that mutates
//! that record: user commands (play, pause, resume, seek, skip, stop, clear,
//! shuffle), end-of-track advancement, occupancy-driven teardown, and
//! connection-lifecycle repair.  The gateway connection, the voice transport
//! and the video-platform metadata client are external collaborators: the
//! surrounding binary performs those calls and feeds their results back in as
//! plain values.

mod advance;
mod client_state;
mod client_state_error;
mod client_state_map;
mod lifecycle;
mod playback;
mod queue_ops;
mod resolver;
mod seek;
mod track_control;

pub use advance::AdvanceOutcome;
pub use advance::AdvanceStep;
pub use advance::QueueHandler;
pub use advance::advance_applies;
pub use advance::advance_committed;
pub use advance::lemma_advance_keeps_queue_clean;
pub use advance::lemma_no_double_advance;
pub use client_state::ClientState;
pub use client_state::CurrentTrack;
pub use client_state::QueueElement;
pub use client_state::idle_record;
pub use client_state::is_idle_record;
pub use client_state::lemma_no_track_means_stopped;
pub use client_state::map_wf;
pub use client_state_error::ClientStateError;
pub use client_state_map::ClientStateMap;
pub use lifecycle::OccupancyOutcome;
pub use lifecycle::count_matching;
pub use lifecycle::establish_session;
pub use lifecycle::handle_disconnect;
pub use lifecycle::handle_occupancy;
pub use lifecycle::handle_reconnect;
pub use playback::PlayOutcome;
pub use playback::PlayPlan;
pub use playback::PlayStatus;
pub use playback::SourceType;
pub use playback::lemma_append_keeps_clean;
pub use playback::play_commit;
pub use playback::play_request;
pub use queue_ops::QueueEditOutcome;
pub use queue_ops::clear;
pub use queue_ops::queue_preview;
pub use queue_ops::shuffle;
pub use resolver::SourceQuery;
pub use resolver::classify_parts;
pub use resolver::classify_source;
pub use resolver::contains_str;
pub use resolver::find_param;
pub use resolver::str_eq;
pub use seek::SeekType;
pub use seek::parse_timestamp;
pub use seek::parse_u64;
pub use seek::seek_target;
pub use seek::to_seconds;
pub use seek::trim_spaces;
pub use track_control::PauseOutcome;
pub use track_control::ResumeOutcome;
pub use track_control::SkipOutcome;
pub use track_control::StopOutcome;
pub use track_control::pause;
pub use track_control::resume;
pub use track_control::skip;
pub use track_control::split_minutes;
pub use track_control::stop;

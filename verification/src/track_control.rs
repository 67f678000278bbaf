//! Commands that act on the current track: pause, resume, skip, stop.
//!
//! Each command re-reads the guild's record, validates its precondition
//! against `is_playing` and track presence, commits the resulting record,
//! and reports which control call (if any) the caller owes the external
//! player.  A violated precondition is not an error: it is reported as its
//! own verdict and the record is left untouched.
//!
//! Skipping issues no store mutation of its own: stopping the current track
//! makes the player fire the track-end event, and the registered
//! `QueueHandler` advances the queue exactly as if the track had finished
//! naturally.

use vstd::prelude::*;

use crate::client_state::QueueElement;
use crate::client_state_map::ClientStateMap;

verus! {

/// Verdict of the pause command.
#[derive(Debug)]
pub enum PauseOutcome {
    /// No session record exists for the guild; nothing was changed.
    SessionMissing,
    /// The track is already paused; nothing was changed.
    AlreadyPaused,
    /// The player holds no track; nothing was changed.
    NoTrack,
    /// The record is committed paused; the caller owes the player a pause
    /// call on this handle.
    Paused { handle: u64 },
}

/// Pauses the guild's current track.
pub fn pause(map: &mut ClientStateMap, guild_id: u64) -> (r: PauseOutcome)
    requires
        old(map).wf(),
    ensures
        final(map).wf(),
        !old(map)@.contains_key(guild_id) ==> r is SessionMissing && final(map)@ == old(map)@,
        old(map)@.contains_key(guild_id) ==> ({
            let s0 = old(map)@[guild_id];
            &&& (s0.is_playing && s0.current_track is Some) ==> ({
                let s1 = final(map)@[guild_id];
                &&& (r matches PauseOutcome::Paused { handle } && handle
                    == s0.current_track->Some_0.handle)
                &&& final(map)@ == old(map)@.insert(guild_id, s1)
                &&& s1.is_playing == false
                &&& s1.current_channel == s0.current_channel
                &&& s1.current_track == s0.current_track
                &&& s1.song_queue@ == s0.song_queue@
                &&& (s0.queue_clean() ==> s1.queue_clean())
            })
            &&& (!s0.is_playing && s0.current_track is Some) ==> r is AlreadyPaused
                && final(map)@ == old(map)@
            &&& s0.current_track is None ==> r is NoTrack && final(map)@ == old(map)@
        }),
{
    let state = match map.get(&guild_id) {
        Some(s) => s,
        None => {
            return PauseOutcome::SessionMissing;
        },
    };
    match (state.is_playing, &state.current_track) {
        (true, Some(track)) => {
            let handle = track.handle;
            let mut updated = state.duplicate();
            updated.is_playing = false;
            let res = map.update(&guild_id, updated);
            proof {
                assert(res is Ok);
            }
            PauseOutcome::Paused { handle }
        },
        (false, Some(_)) => PauseOutcome::AlreadyPaused,
        (_, None) => PauseOutcome::NoTrack,
    }
}

/// Verdict of the resume command.
#[derive(Debug)]
pub enum ResumeOutcome {
    /// No session record exists for the guild; nothing was changed.
    SessionMissing,
    /// The track is not paused; nothing was changed.
    NotPaused,
    /// The player holds no track; nothing was changed.
    NoTrack,
    /// The record is committed playing; the caller owes the player a resume
    /// call on this handle.
    Resumed { handle: u64 },
}

/// Resumes the guild's paused track.
pub fn resume(map: &mut ClientStateMap, guild_id: u64) -> (r: ResumeOutcome)
    requires
        old(map).wf(),
    ensures
        final(map).wf(),
        !old(map)@.contains_key(guild_id) ==> r is SessionMissing && final(map)@ == old(map)@,
        old(map)@.contains_key(guild_id) ==> ({
            let s0 = old(map)@[guild_id];
            &&& (!s0.is_playing && s0.current_track is Some) ==> ({
                let s1 = final(map)@[guild_id];
                &&& (r matches ResumeOutcome::Resumed { handle } && handle
                    == s0.current_track->Some_0.handle)
                &&& final(map)@ == old(map)@.insert(guild_id, s1)
                &&& s1.is_playing == true
                &&& s1.current_channel == s0.current_channel
                &&& s1.current_track == s0.current_track
                &&& s1.song_queue@ == s0.song_queue@
                &&& (s0.queue_clean() ==> s1.queue_clean())
            })
            &&& (s0.is_playing && s0.current_track is Some) ==> r is NotPaused && final(map)@
                == old(map)@
            &&& s0.current_track is None ==> r is NoTrack && final(map)@ == old(map)@
        }),
{
    let state = match map.get(&guild_id) {
        Some(s) => s,
        None => {
            return ResumeOutcome::SessionMissing;
        },
    };
    match (state.is_playing, &state.current_track) {
        (true, Some(_)) => ResumeOutcome::NotPaused,
        (false, Some(track)) => {
            let handle = track.handle;
            let mut updated = state.duplicate();
            updated.is_playing = true;
            let res = map.update(&guild_id, updated);
            proof {
                assert(res is Ok);
            }
            ResumeOutcome::Resumed { handle }
        },
        (_, None) => ResumeOutcome::NoTrack,
    }
}

/// Verdict of the skip command.
#[derive(Debug)]
pub enum SkipOutcome {
    /// No session record exists for the guild.
    SessionMissing,
    /// The player holds no track: there is nothing to skip.
    NoTrack,
    /// The caller owes the player a stop call on this handle; the resulting
    /// track-end event advances the queue.  `upcoming` is the item that will
    /// play next, if any is queued.
    Skipped { handle: u64, upcoming: Option<QueueElement> },
}

/// Skips the guild's current track.  The store is never mutated here: the
/// queue advances through the track-end event the stop call provokes.
pub fn skip(map: &ClientStateMap, guild_id: u64) -> (r: SkipOutcome)
    ensures
        !map@.contains_key(guild_id) ==> r is SessionMissing,
        map@.contains_key(guild_id) ==> ({
            let s0 = map@[guild_id];
            &&& s0.current_track is None ==> r is NoTrack
            &&& s0.current_track is Some ==> (r matches SkipOutcome::Skipped { handle, upcoming }
                && handle == s0.current_track->Some_0.handle && (s0.song_queue@.len() == 0
                ==> upcoming is None) && (s0.song_queue@.len() > 0 ==> upcoming == Some(
                s0.song_queue@[0],
            )))
        }),
{
    let state = match map.get(&guild_id) {
        Some(s) => s,
        None => {
            return SkipOutcome::SessionMissing;
        },
    };
    match &state.current_track {
        Some(track) => {
            let upcoming: Option<QueueElement> = if state.song_queue.len() > 0 {
                Some(state.song_queue[0].duplicate())
            } else {
                None
            };
            SkipOutcome::Skipped { handle: track.handle, upcoming }
        },
        None => SkipOutcome::NoTrack,
    }
}

/// Verdict of the stop command.
#[derive(Debug)]
pub enum StopOutcome {
    /// No session record exists for the guild; nothing was changed.
    SessionMissing,
    /// The record is committed idle with an empty queue; the caller owes the
    /// player a stop call for the guild's audio.
    Stopped,
}

/// Stops the guild's audio and empties the queue, keeping the record (and
/// the voice-channel connection) alive.
pub fn stop(map: &mut ClientStateMap, guild_id: u64) -> (r: StopOutcome)
    requires
        old(map).wf(),
    ensures
        final(map).wf(),
        !old(map)@.contains_key(guild_id) ==> r is SessionMissing && final(map)@ == old(map)@,
        old(map)@.contains_key(guild_id) ==> ({
            let s0 = old(map)@[guild_id];
            let s1 = final(map)@[guild_id];
            &&& r is Stopped
            &&& final(map)@ == old(map)@.insert(guild_id, s1)
            &&& s1.is_playing == false
            &&& s1.current_channel == s0.current_channel
            &&& s1.current_track is None
            &&& s1.song_queue@ == Seq::<QueueElement>::empty()
            &&& s1.queue_clean()
        }),
{
    let state = match map.get(&guild_id) {
        Some(s) => s,
        None => {
            return StopOutcome::SessionMissing;
        },
    };
    let mut updated = state.duplicate();
    updated.is_playing = false;
    updated.current_track = None;
    updated.song_queue = Vec::new();
    let res = map.update(&guild_id, updated);
    proof {
        assert(res is Ok);
    }
    StopOutcome::Stopped
}

/// Splits a second count into whole minutes and leftover seconds, as track
/// positions are displayed.
pub fn split_minutes(secs: u64) -> (r: (u64, u64))
    ensures
        r.0 == secs / 60,
        r.1 == secs % 60,
        r.1 < 60,
        r.0 * 60 + r.1 == secs,
{
    proof {
        assert(secs / 60 * 60 + secs % 60 == secs) by (nonlinear_arith);
        assert(secs / 60 * 60 <= secs) by (nonlinear_arith);
    }
    (secs / 60, secs % 60)
}

} // verus!

//! Automatic queue advancement when the current track ends.
//!
//! A `QueueHandler` is registered with the external player against one
//! specific track handle, for one guild.  When that track ends, the handler
//! re-reads the record: with an empty queue it commits the idle state and the
//! chain terminates; otherwise it names the next item, the caller starts it
//! with the player, and `commit_next` commits the advanced record and hands
//! back the successor handler to register against the new handle.  Each
//! handler acts only while its own handle is still the current track, so a
//! duplicate or late track-end event finds a different handle in the record
//! and becomes a no-op — see `lemma_no_double_advance`.

use vstd::prelude::*;

use crate::client_state::ClientState;
use crate::client_state::CurrentTrack;
use crate::client_state_map::ClientStateMap;

verus! {

/// The advancement handler bound, at registration time, to one guild and to
/// the handle of the track it was registered against.
#[derive(Debug, Clone, Copy, PartialEq, Eq, Structural)]
pub struct QueueHandler {
    pub guild_id: u64,
    pub track_handle: u64,
}

/// The handler's binding still addresses the live track: the guild has a
/// record whose current track carries the bound handle.
pub open spec fn advance_applies(m: Map<u64, ClientState>, h: QueueHandler) -> bool {
    &&& m.contains_key(h.guild_id)
    &&& (m[h.guild_id].current_track matches Some(t) && t.handle == h.track_handle)
}

/// `m1` is `m0` with guild `h.guild_id` advanced onto its queue's head,
/// which the player now holds under `new_handle`.  This is exactly what
/// `commit_next` commits.
pub open spec fn advance_committed(
    m0: Map<u64, ClientState>,
    m1: Map<u64, ClientState>,
    h: QueueHandler,
    new_handle: u64,
) -> bool {
    &&& m1 == m0.insert(h.guild_id, m1[h.guild_id])
    &&& m1[h.guild_id].is_playing == true
    &&& m1[h.guild_id].current_channel == m0[h.guild_id].current_channel
    &&& m1[h.guild_id].current_track == Some(
        CurrentTrack { handle: new_handle, source: m0[h.guild_id].song_queue@[0] },
    )
    &&& m1[h.guild_id].song_queue@ == m0[h.guild_id].song_queue@.skip(1)
}

/// The first step's verdict on a track-end event.
#[derive(Debug)]
pub enum AdvanceStep {
    /// The session was torn down already; nothing to do.
    SessionGone,
    /// The record's current track is not the one this handler was registered
    /// against (a duplicate or late event); nothing to do.
    Stale,
    /// The queue was empty: the record is committed idle and the
    /// advancement chain terminates.  No successor registration is owed.
    Finished,
    /// The queue's head must be started with the player; nothing is
    /// committed until `commit_next`.
    Start { url: String },
}

/// The second step's verdict.
#[derive(Debug)]
pub enum AdvanceOutcome {
    /// The record changed between the two steps; nothing was committed.  The
    /// caller should stop the track it just started.
    Conflict,
    /// The advanced record is committed; the payload is the successor
    /// handler to register against the started track.
    Committed(QueueHandler),
}

impl QueueHandler {
    /// First step on a track-end event for the bound track.
    pub fn on_track_end(&self, map: &mut ClientStateMap) -> (r: AdvanceStep)
        requires
            old(map).wf(),
        ensures
            final(map).wf(),
            !old(map)@.contains_key(self.guild_id) ==> r is SessionGone && final(map)@ == old(
                map,
            )@,
            old(map)@.contains_key(self.guild_id) && !advance_applies(old(map)@, *self) ==> r
                is Stale && final(map)@ == old(map)@,
            advance_applies(old(map)@, *self) && old(map)@[self.guild_id].song_queue@.len() == 0
                ==> ({
                let s0 = old(map)@[self.guild_id];
                let s1 = final(map)@[self.guild_id];
                &&& r is Finished
                &&& final(map)@ == old(map)@.insert(self.guild_id, s1)
                &&& s1.is_playing == false
                &&& s1.current_track is None
                &&& s1.current_channel == s0.current_channel
                &&& s1.song_queue@ == s0.song_queue@
                &&& s1.queue_clean()
            }),
            advance_applies(old(map)@, *self) && old(map)@[self.guild_id].song_queue@.len() > 0
                ==> final(map)@ == old(map)@ && (r matches AdvanceStep::Start { url } && url@
                == old(map)@[self.guild_id].song_queue@[0].url@),
    {
        let state = match map.get(&self.guild_id) {
            Some(s) => s,
            None => {
                return AdvanceStep::SessionGone;
            },
        };
        let bound_is_current = match &state.current_track {
            Some(t) => t.handle == self.track_handle,
            None => false,
        };
        if !bound_is_current {
            return AdvanceStep::Stale;
        }
        if state.song_queue.len() == 0 {
            let mut updated = state.duplicate();
            updated.is_playing = false;
            updated.current_track = None;
            let res = map.update(&self.guild_id, updated);
            proof {
                assert(res is Ok);
            }
            AdvanceStep::Finished
        } else {
            let url = state.song_queue[0].url.clone();
            AdvanceStep::Start { url }
        }
    }

    /// Second step, run after the player produced `new_handle` for the
    /// queue's head.
    pub fn commit_next(&self, map: &mut ClientStateMap, new_handle: u64) -> (r: AdvanceOutcome)
        requires
            old(map).wf(),
        ensures
            final(map).wf(),
            !(advance_applies(old(map)@, *self) && old(map)@[self.guild_id].song_queue@.len() > 0)
                ==> r is Conflict && final(map)@ == old(map)@,
            advance_applies(old(map)@, *self) && old(map)@[self.guild_id].song_queue@.len() > 0
                ==> ({
                let s0 = old(map)@[self.guild_id];
                let s1 = final(map)@[self.guild_id];
                &&& advance_committed(old(map)@, final(map)@, *self, new_handle)
                &&& (r matches AdvanceOutcome::Committed(next) && next == (QueueHandler {
                    guild_id: self.guild_id,
                    track_handle: new_handle,
                }))
                &&& ((forall|i: int|
                    1 <= i < s0.song_queue@.len() ==> (#[trigger] s0.song_queue@[i]).id@
                        != s0.song_queue@[0].id@) ==> s1.queue_clean())
            }),
    {
        let state = match map.get(&self.guild_id) {
            Some(s) => s,
            None => {
                return AdvanceOutcome::Conflict;
            },
        };
        let bound_is_current = match &state.current_track {
            Some(t) => t.handle == self.track_handle,
            None => false,
        };
        if !bound_is_current || state.song_queue.len() == 0 {
            return AdvanceOutcome::Conflict;
        }
        let ghost s0: ClientState = *state;
        let mut updated = state.duplicate();
        let next_item = updated.song_queue.remove(0);
        updated.is_playing = true;
        updated.current_track = Some(CurrentTrack { handle: new_handle, source: next_item });
        proof {
            assert(updated.song_queue@ =~= s0.song_queue@.skip(1));
        }
        let res = map.update(&self.guild_id, updated);
        proof {
            assert(res is Ok);
            let s1 = map@[self.guild_id];
            if forall|i: int|
                1 <= i < s0.song_queue@.len() ==> (#[trigger] s0.song_queue@[i]).id@
                    != s0.song_queue@[0].id@ {
                assert forall|j: int| 0 <= j < s1.song_queue@.len() implies (
                #[trigger] s1.song_queue@[j]).id@ != s0.song_queue@[0].id@ by {
                    assert(s1.song_queue@[j] == s0.song_queue@[j + 1]);
                }
                assert(s1.queue_clean());
            }
        }
        AdvanceOutcome::Committed(QueueHandler { guild_id: self.guild_id, track_handle: new_handle })
    }
}

/// Law: advancement keeps the queue free of the current track's source.
/// When the head the player is advancing onto does not recur in the rest of
/// the queue, the committed record's queue holds no item denoting the same
/// source as its new current track.  (A queue that repeats its own head —
/// the same video queued twice in a row — is the one family of inputs this
/// cannot hold for, since the repeat survives into the new queue.)
pub proof fn lemma_advance_keeps_queue_clean(
    m0: Map<u64, ClientState>,
    m1: Map<u64, ClientState>,
    h: QueueHandler,
    new_handle: u64,
)
    requires
        m0.contains_key(h.guild_id),
        m0[h.guild_id].song_queue@.len() > 0,
        advance_committed(m0, m1, h, new_handle),
        forall|i: int|
            1 <= i < m0[h.guild_id].song_queue@.len() ==> (
            #[trigger] m0[h.guild_id].song_queue@[i]).id@ != m0[h.guild_id].song_queue@[0].id@,
    ensures
        m1[h.guild_id].queue_clean(),
{
    let s0 = m0[h.guild_id];
    let s1 = m1[h.guild_id];
    assert forall|j: int| 0 <= j < s1.song_queue@.len() implies (#[trigger] s1.song_queue@[j]).id@
        != s0.song_queue@[0].id@ by {
        assert(s1.song_queue@[j] == s0.song_queue@[j + 1]);
    }
}

/// Law: a track-end notification delivered twice for the same handle
/// advances the queue at most once.  Once an advancement is committed, the
/// record's current track carries the fresh player handle, so the binding of
/// the handler that already acted no longer applies: by the contracts of
/// `on_track_end` and `commit_next`, its second invocation reports `Stale`
/// (or `Conflict`) and leaves the store untouched.
pub proof fn lemma_no_double_advance(
    m0: Map<u64, ClientState>,
    m1: Map<u64, ClientState>,
    h: QueueHandler,
    new_handle: u64,
)
    requires
        advance_applies(m0, h),
        m0[h.guild_id].song_queue@.len() > 0,
        new_handle != h.track_handle,
        advance_committed(m0, m1, h, new_handle),
    ensures
        m1.contains_key(h.guild_id),
        !advance_applies(m1, h),
{
}

} // verus!

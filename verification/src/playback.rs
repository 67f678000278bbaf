//! The play command: start playback or enqueue, depending on current state.
//!
//! Starting a track is an external-player call that must happen outside the
//! store's critical section, so the command runs in two steps.
//! `play_request` inspects the record: while audio is running it appends the
//! resolved items to the queue and commits at once (no player call); while
//! idle it commits nothing and instead names the source the caller must hand
//! to the player.  Once the player has produced a handle, `play_commit`
//! re-reads the record and commits the started track.  Because the second
//! step re-validates, a teardown or a competing start that won the lock in
//! between surfaces as `Conflict` instead of clobbering state.

use vstd::prelude::*;

use crate::client_state::ClientState;
use crate::client_state::CurrentTrack;
use crate::client_state::QueueElement;
use crate::client_state_map::ClientStateMap;

verus! {

/// A resolved play request: a single item, or a playlist given as its header
/// item (title and uploader of the list itself) together with its entries.
#[derive(Debug)]
pub enum SourceType {
    Single(QueueElement),
    Playlist((QueueElement, Vec<QueueElement>)),
}

impl SourceType {
    /// A resolver never hands back an empty playlist.
    pub open spec fn wf(self) -> bool {
        match self {
            SourceType::Single(_) => true,
            SourceType::Playlist((_, p)) => p@.len() > 0,
        }
    }

    /// Every playable item carried by the request, in play order.
    pub open spec fn items(self) -> Seq<QueueElement> {
        match self {
            SourceType::Single(v) => seq![v],
            SourceType::Playlist((_, p)) => p@,
        }
    }

    /// The item to start first.
    pub open spec fn first_item(self) -> QueueElement
        recommends
            self.wf(),
    {
        match self {
            SourceType::Single(v) => v,
            SourceType::Playlist((_, p)) => p@[0],
        }
    }

    /// The items left over once the first one is playing.
    pub open spec fn rest_items(self) -> Seq<QueueElement> {
        match self {
            SourceType::Single(_) => Seq::<QueueElement>::empty(),
            SourceType::Playlist((_, p)) => p@.skip(1),
        }
    }

    /// The playlist's header item, when the request is a playlist.
    pub open spec fn header(self) -> Option<QueueElement> {
        match self {
            SourceType::Single(_) => None,
            SourceType::Playlist((h, _)) => Some(h),
        }
    }

    /// An owned copy carrying equal items and header.
    pub fn duplicate(&self) -> (r: Self)
        ensures
            r.items() == self.items(),
            r.header() == self.header(),
            r is Single <==> self is Single,
    {
        match self {
            SourceType::Single(v) => SourceType::Single(v.duplicate()),
            SourceType::Playlist((h, p)) => {
                let r = SourceType::Playlist((h.duplicate(), duplicate_items(p)));
                proof {
                    assert(r.items() =~= self.items());
                }
                r
            },
        }
    }
}

/// An owned copy of a run of items, equal element for element.
fn duplicate_items(v: &Vec<QueueElement>) -> (r: Vec<QueueElement>)
    ensures
        r@ == v@,
{
    let mut out: Vec<QueueElement> = Vec::new();
    let mut i: usize = 0;
    while i < v.len()
        invariant
            0 <= i <= v.len(),
            out@ =~= v@.subrange(0, i as int),
        decreases v.len() - i,
    {
        out.push(v[i].duplicate());
        i = i + 1;
    }
    proof {
        assert(out@ =~= v@);
    }
    out
}

/// What a completed play command did, reported back to the user.
#[derive(Debug)]
pub enum PlayStatus {
    Playing(QueueElement),
    Queued(SourceType),
    PlayAndQueued(Vec<QueueElement>),
}

/// The first step's verdict.
#[derive(Debug)]
pub enum PlayPlan {
    /// No session record exists; a connection must be established first.
    SessionMissing,
    /// Audio was running: the items were appended to the queue and the
    /// change is committed.  No player call is owed.
    Queued(PlayStatus),
    /// The session was idle: nothing is committed yet; the caller must start
    /// this source with the player and then call `play_commit`.
    Start { url: String },
}

/// The second step's verdict.
#[derive(Debug)]
pub enum PlayOutcome {
    /// The record was gone, or another track was started meanwhile; nothing
    /// was committed.  The caller should stop the track it just started.
    Conflict,
    /// The started track is now the current track.
    Committed(PlayStatus),
}

/// First step of the play command.
pub fn play_request(map: &mut ClientStateMap, guild_id: u64, input: &SourceType) -> (r: PlayPlan)
    requires
        input.wf(),
        old(map).wf(),
    ensures
        final(map).wf(),
        !old(map)@.contains_key(guild_id) ==> r is SessionMissing && final(map)@ == old(map)@,
        old(map)@.contains_key(guild_id) && old(map)@[guild_id].is_playing ==> ({
            let s0 = old(map)@[guild_id];
            let s1 = final(map)@[guild_id];
            &&& final(map)@.contains_key(guild_id)
            &&& final(map)@ == old(map)@.insert(guild_id, s1)
            &&& s1.is_playing == true
            &&& s1.current_channel == s0.current_channel
            &&& s1.current_track == s0.current_track
            &&& s1.song_queue@ == s0.song_queue@ + input.items()
            &&& (r matches PlayPlan::Queued(st) && st matches PlayStatus::Queued(src)
                && src.items() == input.items() && src.header() == input.header())
            &&& (s0.queue_clean() && (forall|i: int|
                0 <= i < input.items().len() ==> appended_id_free(
                    s0,
                    #[trigger] input.items()[i],
                )) ==> s1.queue_clean())
        }),
        old(map)@.contains_key(guild_id) && !old(map)@[guild_id].is_playing ==> final(map)@ == old(
            map,
        )@ && (r matches PlayPlan::Start { url } && url@ == input.first_item().url@),
{
    let state = match map.get(&guild_id) {
        Some(s) => s,
        None => {
            return PlayPlan::SessionMissing;
        },
    };
    if state.is_playing {
        let ghost s0: ClientState = *state;
        let mut updated = state.duplicate();
        append_input_items(&mut updated.song_queue, input);
        let status = PlayStatus::Queued(input.duplicate());
        let res = map.update(&guild_id, updated);
        proof {
            assert(res is Ok);
            if s0.queue_clean() && (forall|i: int|
                0 <= i < input.items().len() ==> appended_id_free(s0, #[trigger] input.items()[i])) {
                lemma_append_keeps_clean(s0, map@[guild_id], input.items());
            }
        }
        PlayPlan::Queued(status)
    } else {
        let url = match input {
            SourceType::Single(v) => v.url.clone(),
            SourceType::Playlist((_, p)) => p[0].url.clone(),
        };
        PlayPlan::Start { url }
    }
}

/// The given item's source is not the one the record is currently playing.
pub open spec fn appended_id_free(s0: ClientState, item: QueueElement) -> bool {
    match s0.current_track {
        Some(t) => item.id@ != t.source.id@,
        None => true,
    }
}

/// Appends every item of the request to the queue, in play order.
fn append_input_items(queue: &mut Vec<QueueElement>, input: &SourceType)
    ensures
        final(queue)@ == old(queue)@ + input.items(),
{
    match input {
        SourceType::Single(v) => {
            queue.push(v.duplicate());
            proof {
                assert(queue@ =~= old(queue)@ + input.items());
            }
        },
        SourceType::Playlist((_, p)) => {
            let mut i: usize = 0;
            while i < p.len()
                invariant
                    0 <= i <= p.len(),
                    queue@ =~= old(queue)@ + p@.subrange(0, i as int),
                decreases p.len() - i,
            {
                queue.push(p[i].duplicate());
                i = i + 1;
            }
            proof {
                assert(queue@ =~= old(queue)@ + input.items());
            }
        },
    }
}

/// Law: enqueueing keeps the queue free of the current track's source.
/// Appending only items whose source differs from the one the player holds
/// keeps the queue clean.  (Queueing the very item that is playing is the
/// one family of inputs this cannot hold for.)
pub proof fn lemma_append_keeps_clean(s0: ClientState, s1: ClientState, items: Seq<QueueElement>)
    requires
        s1.current_track == s0.current_track,
        s1.song_queue@ == s0.song_queue@ + items,
        s0.queue_clean(),
        forall|i: int| 0 <= i < items.len() ==> appended_id_free(s0, #[trigger] items[i]),
    ensures
        s1.queue_clean(),
{
    match s1.current_track {
        Some(t) => {
            assert forall|i: int| 0 <= i < s1.song_queue@.len() implies (
            #[trigger] s1.song_queue@[i]).id@ != t.source.id@ by {
                if i < s0.song_queue@.len() {
                    assert(s1.song_queue@[i] == s0.song_queue@[i]);
                } else {
                    assert(s1.song_queue@[i] == items[i - s0.song_queue@.len()]);
                    assert(appended_id_free(s0, items[i - s0.song_queue@.len()]));
                }
            }
        },
        None => {},
    }
}

/// Second step of the play command, run after the player produced `handle`
/// for the request's first item.
pub fn play_commit(map: &mut ClientStateMap, guild_id: u64, input: &SourceType, handle: u64) -> (r:
    PlayOutcome)
    requires
        input.wf(),
        old(map).wf(),
    ensures
        final(map).wf(),
        (!old(map)@.contains_key(guild_id) || old(map)@[guild_id].is_playing) ==> r is Conflict
            && final(map)@ == old(map)@,
        old(map)@.contains_key(guild_id) && !old(map)@[guild_id].is_playing ==> ({
            let s0 = old(map)@[guild_id];
            let s1 = final(map)@[guild_id];
            &&& final(map)@.contains_key(guild_id)
            &&& final(map)@ == old(map)@.insert(guild_id, s1)
            &&& s1.is_playing == true
            &&& s1.current_channel == s0.current_channel
            &&& s1.current_track == Some(
                CurrentTrack { handle, source: input.first_item() },
            )
            &&& s1.song_queue@ == s0.song_queue@ + input.rest_items()
            &&& (r matches PlayOutcome::Committed(st) && (input is Single ==> (st
                matches PlayStatus::Playing(v) && v == input.first_item())) && (!(input is Single)
                ==> (st matches PlayStatus::PlayAndQueued(p) && p@ == input.items())))
            &&& ((forall|i: int|
                0 <= i < s0.song_queue@.len() ==> (#[trigger] s0.song_queue@[i]).id@
                    != input.first_item().id@) && (forall|i: int|
                0 <= i < input.rest_items().len() ==> (#[trigger] input.rest_items()[i]).id@
                    != input.first_item().id@) ==> s1.queue_clean())
        }),
{
    let state = match map.get(&guild_id) {
        Some(s) => s,
        None => {
            return PlayOutcome::Conflict;
        },
    };
    if state.is_playing {
        return PlayOutcome::Conflict;
    }
    let ghost s0: ClientState = *state;
    let mut updated = state.duplicate();
    let (first, status) = match input {
        SourceType::Single(v) => (v.duplicate(), PlayStatus::Playing(v.duplicate())),
        SourceType::Playlist((_, p)) => {
            let mut i: usize = 1;
            while i < p.len()
                invariant
                    1 <= i <= p.len(),
                    p@.len() > 0,
                    updated.song_queue@ =~= s0.song_queue@ + p@.subrange(1, i as int),
                    updated.is_playing == s0.is_playing,
                    updated.current_channel == s0.current_channel,
                    updated.current_track == s0.current_track,
                decreases p.len() - i,
            {
                updated.song_queue.push(p[i].duplicate());
                i = i + 1;
            }
            proof {
                assert(updated.song_queue@ =~= s0.song_queue@ + input.rest_items());
            }
            (p[0].duplicate(), PlayStatus::PlayAndQueued(duplicate_items(p)))
        },
    };
    updated.is_playing = true;
    updated.current_track = Some(CurrentTrack { handle, source: first });
    proof {
        assert(updated.song_queue@ =~= s0.song_queue@ + input.rest_items());
    }
    let res = map.update(&guild_id, updated);
    proof {
        assert(res is Ok);
        let s1 = map@[guild_id];
        if (forall|i: int|
            0 <= i < s0.song_queue@.len() ==> (#[trigger] s0.song_queue@[i]).id@
                != input.first_item().id@) && (forall|i: int|
            0 <= i < input.rest_items().len() ==> (#[trigger] input.rest_items()[i]).id@
                != input.first_item().id@) {
            assert forall|i: int| 0 <= i < s1.song_queue@.len() implies (
            #[trigger] s1.song_queue@[i]).id@ != input.first_item().id@ by {
                if i < s0.song_queue@.len() {
                    assert(s1.song_queue@[i] == s0.song_queue@[i]);
                } else {
                    assert(s1.song_queue@[i] == input.rest_items()[i - s0.song_queue@.len()]);
                }
            }
            assert(s1.queue_clean());
        }
    }
    PlayOutcome::Committed(status)
}

} // verus!

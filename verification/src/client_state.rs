//! The per-guild session record and its well-formedness conditions.

use vstd::prelude::*;

verus! {

/// One resolved media item: the metadata the session needs to start, queue
/// and describe it.  `id` is the platform-assigned identifier of the source;
/// two items denote the same source exactly when their `id`s agree.
#[derive(Debug, Clone)]
pub struct QueueElement {
    pub title: String,
    pub channel_name: String,
    pub url: String,
    pub id: String,
}

impl QueueElement {
    /// An owned copy, equal to the original.
    pub fn duplicate(&self) -> (r: Self)
        ensures
            r == *self,
    {
        QueueElement {
            title: self.title.clone(),
            channel_name: self.channel_name.clone(),
            url: self.url.clone(),
            id: self.id.clone(),
        }
    }

    /// An item for a single video: its watch URL is the platform's watch
    /// prefix followed by the video's identifier.
    pub fn new_video(title: String, channel_name: String, video_id: String) -> (r: Self)
        ensures
            r.title == title,
            r.channel_name == channel_name,
            r.id == video_id,
            r.url@ == "https://youtube.com/watch?v="@ + video_id@,
    {
        let mut url = String::from_str("https://youtube.com/watch?v=");
        url.append(video_id.as_str());
        QueueElement { title, channel_name, url, id: video_id }
    }

    /// A playlist's header item: its URL is the platform's playlist prefix
    /// followed by the playlist's identifier.
    pub fn new_playlist(title: String, channel_name: String, playlist_id: String) -> (r: Self)
        ensures
            r.title == title,
            r.channel_name == channel_name,
            r.id == playlist_id,
            r.url@ == "https://youtube.com/playlist?list="@ + playlist_id@,
    {
        let mut url = String::from_str("https://youtube.com/playlist?list=");
        url.append(playlist_id.as_str());
        QueueElement { title, channel_name, url, id: playlist_id }
    }
}

/// The record's view of the track the external player is currently holding:
/// the player-issued handle (used to address control calls and to tell a
/// stale track-end event from a live one) and the item it was started from.
#[derive(Debug, Clone)]
pub struct CurrentTrack {
    pub handle: u64,
    pub source: QueueElement,
}

impl CurrentTrack {
    /// An owned copy, equal to the original.
    pub fn duplicate(&self) -> (r: Self)
        ensures
            r == *self,
    {
        CurrentTrack { handle: self.handle, source: self.source.duplicate() }
    }
}

/// One guild's session record: which voice channel the bot occupies, whether
/// audio is running, which track the player holds, and what is queued behind
/// it.  The queue is FIFO; insertion order is play order.
#[derive(Debug, Clone)]
pub struct ClientState {
    pub is_playing: bool,
    pub current_channel: Option<u64>,
    pub current_track: Option<CurrentTrack>,
    pub song_queue: Vec<QueueElement>,
}

impl ClientState {
    /// Well-formedness: audio can only be running while the player holds a
    /// track.  (The converse direction is deliberately absent: a present
    /// track with `is_playing == false` is the paused state.)
    pub open spec fn wf(self) -> bool {
        self.is_playing ==> self.current_track is Some
    }

    /// The queue holds no item denoting the same source as the track that is
    /// currently held by the player.
    pub open spec fn queue_clean(self) -> bool {
        match self.current_track {
            Some(t) => forall|i: int|
                0 <= i < self.song_queue@.len() ==> (#[trigger] self.song_queue@[i]).id@
                    != t.source.id@,
            None => true,
        }
    }

    /// Whether the record places the bot in the given voice channel: the
    /// test the shared-room command gate rests on.
    pub fn occupies_channel(&self, channel: u64) -> (r: bool)
        ensures
            r == (self.current_channel == Some(channel)),
    {
        match self.current_channel {
            Some(c) => c == channel,
            None => false,
        }
    }

    /// An owned copy: every field agrees with the original (the queue up to
    /// its view, since a rebuilt vector is a distinct value).
    pub fn duplicate(&self) -> (r: Self)
        ensures
            r.is_playing == self.is_playing,
            r.current_channel == self.current_channel,
            r.current_track == self.current_track,
            r.song_queue@ == self.song_queue@,
    {
        let track: Option<CurrentTrack> = match &self.current_track {
            Some(t) => Some(t.duplicate()),
            None => None,
        };
        let mut queue: Vec<QueueElement> = Vec::new();
        let mut i: usize = 0;
        while i < self.song_queue.len()
            invariant
                0 <= i <= self.song_queue.len(),
                queue@ =~= self.song_queue@.subrange(0, i as int),
            decreases self.song_queue.len() - i,
        {
            queue.push(self.song_queue[i].duplicate());
            i = i + 1;
        }
        proof {
            assert(queue@ =~= self.song_queue@);
        }
        ClientState {
            is_playing: self.is_playing,
            current_channel: self.current_channel,
            current_track: track,
            song_queue: queue,
        }
    }
}

/// A fresh record for a guild that has just connected (or reconnected) to a
/// voice channel: nothing playing, nothing held, nothing queued.
pub open spec fn is_idle_record(s: ClientState, channel: Option<u64>) -> bool {
    &&& s.is_playing == false
    &&& s.current_channel == channel
    &&& s.current_track is None
    &&& s.song_queue@ == Seq::<QueueElement>::empty()
}

/// Builds the fresh record `is_idle_record` describes.
pub fn idle_record(channel: Option<u64>) -> (r: ClientState)
    ensures
        r.is_playing == false,
        r.current_channel == channel,
        r.current_track is None,
        r.song_queue@ == Seq::<QueueElement>::empty(),
        is_idle_record(r, channel),
        r.wf(),
        r.queue_clean(),
{
    ClientState { is_playing: false, current_channel: channel, current_track: None, song_queue: Vec::new() }
}

/// Every record of the map is well-formed.
pub open spec fn map_wf(m: Map<u64, ClientState>) -> bool {
    forall|g: u64| m.contains_key(g) ==> (#[trigger] m[g]).wf()
}

/// Law: whenever the player holds no track for a guild, that guild's audio
/// is marked stopped — and, contrapositively, a guild marked playing always
/// holds a track.  Every operation of this library keeps the store
/// well-formed, so this holds at every observable point.
pub proof fn lemma_no_track_means_stopped(m: Map<u64, ClientState>, g: u64)
    requires
        map_wf(m),
        m.contains_key(g),
        m[g].current_track is None,
    ensures
        !m[g].is_playing,
{
}

/// Record equality is deliberately narrow: two records are equal exactly when
/// they reference the same voice channel, regardless of playback state.  It
/// serves change detection and diagnostics only.
impl PartialEq for ClientState {
    fn eq(&self, other: &Self) -> (r: bool) {
        match (self.current_channel, other.current_channel) {
            (Some(a), Some(b)) => a == b,
            (None, None) => true,
            _ => false,
        }
    }
}

impl vstd::std_specs::cmp::PartialEqSpecImpl for ClientState {
    open spec fn obeys_eq_spec() -> bool {
        true
    }

    open spec fn eq_spec(&self, other: &Self) -> bool {
        self.current_channel == other.current_channel
    }
}

impl Eq for ClientState {

}

} // verus!

//! Commands that act on the queue: clear, shuffle, and the preview listing.

use vstd::prelude::*;

use crate::client_state::ClientState;
use crate::client_state::QueueElement;
use crate::client_state_map::ClientStateMap;

use rand::seq::SliceRandom;

verus! {

/// Verdict of the clear and shuffle commands.
#[derive(Debug)]
pub enum QueueEditOutcome {
    /// No session record exists for the guild; nothing was changed.
    SessionMissing,
    /// The queue edit is committed.
    Edited,
}

/// Clears the queue.  Without a count the whole queue is emptied; with a
/// count the first `count` items — the ones that would play next — are
/// dropped and the rest keep their order.
pub fn clear(map: &mut ClientStateMap, guild_id: u64, count: Option<u8>) -> (r: QueueEditOutcome)
    requires
        old(map).wf(),
    ensures
        final(map).wf(),
        !old(map)@.contains_key(guild_id) ==> r is SessionMissing && final(map)@ == old(map)@,
        old(map)@.contains_key(guild_id) ==> ({
            let s0 = old(map)@[guild_id];
            let s1 = final(map)@[guild_id];
            &&& r is Edited
            &&& final(map)@ == old(map)@.insert(guild_id, s1)
            &&& s1.is_playing == s0.is_playing
            &&& s1.current_channel == s0.current_channel
            &&& s1.current_track == s0.current_track
            &&& (count is None ==> s1.song_queue@ == Seq::<QueueElement>::empty())
            &&& (count matches Some(n) ==> s1.song_queue@ == s0.song_queue@.skip(
                vstd::math::min(n as int, s0.song_queue@.len() as int),
            ))
            &&& (s0.queue_clean() ==> s1.queue_clean())
        }),
{
    let state = match map.get(&guild_id) {
        Some(s) => s,
        None => {
            return QueueEditOutcome::SessionMissing;
        },
    };
    let ghost s0: ClientState = *state;
    let mut updated = state.duplicate();
    match count {
        None => {
            updated.song_queue = Vec::new();
        },
        Some(n) => {
            let at: usize = if (n as usize) < updated.song_queue.len() {
                n as usize
            } else {
                updated.song_queue.len()
            };
            let tail = updated.song_queue.split_off(at);
            updated.song_queue = tail;
            proof {
                assert(updated.song_queue@ =~= s0.song_queue@.skip(
                    vstd::math::min(n as int, s0.song_queue@.len() as int),
                ));
            }
        },
    }
    let res = map.update(&guild_id, updated);
    proof {
        assert(res is Ok);
        let s1 = map@[guild_id];
        if s0.queue_clean() {
            match s1.current_track {
                Some(t) => {
                    assert forall|j: int| 0 <= j < s1.song_queue@.len() implies (
                    #[trigger] s1.song_queue@[j]).id@ != t.source.id@ by {
                        match count {
                            Some(n) => {
                                let k = vstd::math::min(n as int, s0.song_queue@.len() as int);
                                assert(s1.song_queue@[j] == s0.song_queue@[j + k]);
                            },
                            None => {},
                        }
                    }
                },
                None => {},
            }
        }
    }
    QueueEditOutcome::Edited
}

/// Relies on rand's `SliceRandom::shuffle`: permutes the slice in place, so
/// the vector afterwards holds the same elements — as a multiset — and the
/// same number of them.
#[verifier::external_body]
fn shuffle_in_place(v: &mut Vec<QueueElement>)
    ensures
        final(v)@.to_multiset() == old(v)@.to_multiset(),
        final(v)@.len() == old(v)@.len(),
{
    v.shuffle(&mut rand::thread_rng());
}

/// Shuffles the queue in place: the committed queue is a permutation of the
/// old one.  Which permutation comes out is the player's luck; nothing else
/// about the order is promised.
pub fn shuffle(map: &mut ClientStateMap, guild_id: u64) -> (r: QueueEditOutcome)
    requires
        old(map).wf(),
    ensures
        final(map).wf(),
        !old(map)@.contains_key(guild_id) ==> r is SessionMissing && final(map)@ == old(map)@,
        old(map)@.contains_key(guild_id) ==> ({
            let s0 = old(map)@[guild_id];
            let s1 = final(map)@[guild_id];
            &&& r is Edited
            &&& final(map)@ == old(map)@.insert(guild_id, s1)
            &&& s1.is_playing == s0.is_playing
            &&& s1.current_channel == s0.current_channel
            &&& s1.current_track == s0.current_track
            &&& s1.song_queue@.to_multiset() == s0.song_queue@.to_multiset()
            &&& s1.song_queue@.len() == s0.song_queue@.len()
            &&& (s0.queue_clean() ==> s1.queue_clean())
        }),
{
    let state = match map.get(&guild_id) {
        Some(s) => s,
        None => {
            return QueueEditOutcome::SessionMissing;
        },
    };
    let ghost s0: ClientState = *state;
    let mut updated = state.duplicate();
    shuffle_in_place(&mut updated.song_queue);
    let res = map.update(&guild_id, updated);
    proof {
        assert(res is Ok);
        let s1 = map@[guild_id];
        if s0.queue_clean() {
            lemma_permutation_keeps_clean(s0, s1);
        }
    }
    QueueEditOutcome::Edited
}

/// A queue that is a permutation of a clean queue is clean: every element of
/// the permuted queue already occurred in the old one, whose elements all
/// differ from the current track's source.
proof fn lemma_permutation_keeps_clean(s0: ClientState, s1: ClientState)
    requires
        s1.current_track == s0.current_track,
        s1.song_queue@.to_multiset() == s0.song_queue@.to_multiset(),
        s0.queue_clean(),
    ensures
        s1.queue_clean(),
{
    broadcast use vstd::seq_lib::group_to_multiset_ensures;

    match s1.current_track {
        Some(t) => {
            assert forall|j: int| 0 <= j < s1.song_queue@.len() implies (
            #[trigger] s1.song_queue@[j]).id@ != t.source.id@ by {
                let x = s1.song_queue@[j];
                assert(s1.song_queue@.contains(x));
                assert(s1.song_queue@.to_multiset().count(x) > 0);
                assert(s0.song_queue@.contains(x));
                let i = choose|i: int|
                    0 <= i < s0.song_queue@.len() && s0.song_queue@[i] == x;
                assert(s0.song_queue@[i].id@ != t.source.id@);
            }
        },
        None => {},
    }
}

/// The first items of the queue, in order, up to five of them: the preview
/// the queue listing shows.
pub fn queue_preview(state: &ClientState) -> (r: Vec<QueueElement>)
    ensures
        r@ == state.song_queue@.take(
            vstd::math::min(5, state.song_queue@.len() as int),
        ),
{
    let n: usize = if state.song_queue.len() < 5 {
        state.song_queue.len()
    } else {
        5
    };
    let mut out: Vec<QueueElement> = Vec::new();
    let mut i: usize = 0;
    while i < n
        invariant
            0 <= i <= n,
            n == vstd::math::min(5, state.song_queue@.len() as int),
            out@ =~= state.song_queue@.subrange(0, i as int),
        decreases n - i,
    {
        out.push(state.song_queue[i].duplicate());
        i = i + 1;
    }
    proof {
        assert(out@ =~= state.song_queue@.take(
            vstd::math::min(5, state.song_queue@.len() as int),
        ));
    }
    out
}

} // verus!

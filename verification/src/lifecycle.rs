//! Session lifecycle: creation on connect, teardown on disconnect or empty
//! room, repair after an automatic reconnect.
//!
//! A record exists for a guild exactly while the bot holds (or is
//! establishing) a voice connection there.  Creation happens when the first
//! playback command connects the bot; removal happens when the bot leaves
//! voluntarily, when the last listener leaves, or when the transport
//! disconnects unexpectedly.  Every handler re-reads current state and is a
//! no-op when another handler already did its work, so these operations are
//! idempotent.

use vstd::prelude::*;

use crate::client_state::is_idle_record;
use crate::client_state::idle_record;
use crate::client_state_map::ClientStateMap;

verus! {

/// Creates the guild's record after the voice connection is established:
/// an idle record bound to the joined channel.  A guild that already has a
/// record keeps it untouched.
pub fn establish_session(map: &mut ClientStateMap, guild_id: u64, channel_id: u64) -> (created:
    bool)
    requires
        old(map).wf(),
    ensures
        final(map).wf(),
        old(map)@.contains_key(guild_id) ==> !created && final(map)@ == old(map)@,
        !old(map)@.contains_key(guild_id) ==> created && final(map)@ == old(map)@.insert(
            guild_id,
            final(map)@[guild_id],
        ) && is_idle_record(final(map)@[guild_id], Some(channel_id)),
{
    if map.contains_key(&guild_id) {
        return false;
    }
    let fresh = idle_record(Some(channel_id));
    let res = map.insert(&guild_id, fresh);
    proof {
        assert(res is Ok);
    }
    true
}

/// Tears the guild's session down after an unexpected transport disconnect
/// (or a voluntary leave): removes the record if one exists.  Idempotent —
/// a second invocation finds nothing and changes nothing.
pub fn handle_disconnect(map: &mut ClientStateMap, guild_id: u64) -> (removed: bool)
    requires
        old(map).wf(),
    ensures
        final(map).wf(),
        old(map)@.contains_key(guild_id) ==> removed && final(map)@ == old(map)@.remove(guild_id),
        !old(map)@.contains_key(guild_id) ==> !removed && final(map)@ == old(map)@,
{
    if map.contains_key(&guild_id) {
        let res = map.remove(&guild_id);
        proof {
            assert(res is Ok);
        }
        true
    } else {
        false
    }
}

/// Repairs bookkeeping after a transport-level reconnect the session layer
/// did not initiate: if the guild has no record, a minimal idle record is
/// created with the channel carried by the reconnect event.  A guild whose
/// record survived keeps it untouched.
pub fn handle_reconnect(map: &mut ClientStateMap, guild_id: u64, channel_id: Option<u64>) -> (
    created: bool)
    requires
        old(map).wf(),
    ensures
        final(map).wf(),
        old(map)@.contains_key(guild_id) ==> !created && final(map)@ == old(map)@,
        !old(map)@.contains_key(guild_id) ==> created && final(map)@ == old(map)@.insert(
            guild_id,
            final(map)@[guild_id],
        ) && is_idle_record(final(map)@[guild_id], channel_id),
{
    if map.contains_key(&guild_id) {
        return false;
    }
    let fresh = idle_record(channel_id);
    let res = map.insert(&guild_id, fresh);
    proof {
        assert(res is Ok);
    }
    true
}

/// How many of the given channel occupancies name channel `c`.
pub open spec fn spec_count_matching(s: Seq<u64>, c: u64) -> nat
    decreases s.len(),
{
    if s.len() == 0 {
        0
    } else {
        spec_count_matching(s.drop_last(), c) + (if s.last() == c {
            1nat
        } else {
            0nat
        })
    }
}

/// A count of zero means no listed occupancy names the channel.
pub proof fn lemma_count_zero_iff_absent(s: Seq<u64>, c: u64)
    ensures
        spec_count_matching(s, c) == 0 <==> (forall|i: int| 0 <= i < s.len() ==> s[i] != c),
    decreases s.len(),
{
    if s.len() > 0 {
        lemma_count_zero_iff_absent(s.drop_last(), c);
        assert(forall|i: int| 0 <= i < s.len() - 1 ==> s[i] == s.drop_last()[i]);
    }
}

/// Counts the occupancies naming channel `c`.
pub fn count_matching(occupant_channels: &Vec<u64>, c: u64) -> (r: usize)
    ensures
        r == spec_count_matching(occupant_channels@, c),
{
    let mut count: usize = 0;
    let mut i: usize = 0;
    while i < occupant_channels.len()
        invariant
            0 <= i <= occupant_channels.len(),
            count <= i,
            count == spec_count_matching(occupant_channels@.take(i as int), c),
        decreases occupant_channels.len() - i,
    {
        proof {
            let pre = occupant_channels@.take(i as int);
            let cur = occupant_channels@.take(i + 1);
            assert(cur.drop_last() =~= pre);
            assert(cur.last() == occupant_channels@[i as int]);
        }
        if occupant_channels[i] == c {
            count = count + 1;
        }
        i = i + 1;
    }
    proof {
        assert(occupant_channels@.take(occupant_channels@.len() as int) =~= occupant_channels@);
    }
    count
}

/// Verdict of an occupancy check.
#[derive(Debug, Clone, Copy, PartialEq, Eq, Structural)]
pub enum OccupancyOutcome {
    /// No session record exists for the guild; nothing to do.
    NoSession,
    /// The room still has listeners (or the record names no channel); the
    /// session stays.
    Stay,
    /// No non-bot listener remains in the record's channel: the record is
    /// removed, and the caller owes the transport a leave call.
    Removed,
}

/// Reacts to a room-membership change.  `occupant_channels` lists, for every
/// non-bot member currently in a voice channel of the guild, the channel
/// they occupy.  When none of them occupies the record's channel, the
/// session is torn down.
pub fn handle_occupancy(map: &mut ClientStateMap, guild_id: u64, occupant_channels: &Vec<u64>) -> (
    r: OccupancyOutcome)
    requires
        old(map).wf(),
    ensures
        final(map).wf(),
        !old(map)@.contains_key(guild_id) ==> r == OccupancyOutcome::NoSession && final(map)@
            == old(map)@,
        old(map)@.contains_key(guild_id) ==> ({
            let s0 = old(map)@[guild_id];
            &&& s0.current_channel is None ==> r == OccupancyOutcome::Stay && final(map)@ == old(
                map,
            )@
            &&& s0.current_channel matches Some(c) ==> ({
                &&& spec_count_matching(occupant_channels@, c) > 0 ==> r
                    == OccupancyOutcome::Stay && final(map)@ == old(map)@
                &&& spec_count_matching(occupant_channels@, c) == 0 ==> r
                    == OccupancyOutcome::Removed && final(map)@ == old(map)@.remove(guild_id) && (
                forall|i: int| 0 <= i < occupant_channels@.len() ==> occupant_channels@[i] != c)
            })
        }),
{
    let state = match map.get(&guild_id) {
        Some(s) => s,
        None => {
            return OccupancyOutcome::NoSession;
        },
    };
    let channel = match state.current_channel {
        Some(c) => c,
        None => {
            return OccupancyOutcome::Stay;
        },
    };
    if count_matching(occupant_channels, channel) == 0 {
        let res = map.remove(&guild_id);
        proof {
            assert(res is Ok);
            lemma_count_zero_iff_absent(occupant_channels@, channel);
        }
        OccupancyOutcome::Removed
    } else {
        OccupancyOutcome::Stay
    }
}

} // verus!

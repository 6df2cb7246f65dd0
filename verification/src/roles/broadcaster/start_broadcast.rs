//! Opening a room.
use vstd::prelude::*;
use crate::models::{new_room, BroadcasterMetaData, Room, RoomView, TrackId};
use crate::rooms::RoomMap;

verus! {

/// How many relayed tracks a broadcaster's room waits for: one video, one audio.
pub const TRACKS_PER_BROADCAST: usize = 2;

/// Whether a broadcaster that relays `tracks` still waits for another track.
pub fn wants_track(tracks: &Vec<TrackId>) -> (b: bool)
    ensures
        b == (tracks@.len() < TRACKS_PER_BROADCAST),
{
    tracks.len() < TRACKS_PER_BROADCAST
}

/// One step of gathering a broadcaster's tracks: `received` is the next track
/// that its peer connection announced, or `None` once no more will come.
/// Returns whether to wait for another track.
pub fn collect_track(tracks: &mut Vec<TrackId>, received: Option<TrackId>) -> (more: bool)
    ensures
        match received {
            Some(t) => final(tracks)@ == old(tracks)@.push(t),
            None => final(tracks)@ == old(tracks)@,
        },
        more == (received is Some && final(tracks)@.len() < TRACKS_PER_BROADCAST),
{
    match received {
        Some(t) => {
            tracks.push(t);
            tracks.len() < TRACKS_PER_BROADCAST
        },
        None => false,
    }
}

/// The table after `broadcaster` opens the room `room_name`: the room is new and
/// empty, and replaces any room of that name.
pub open spec fn started(
    channels: Map<Seq<char>, crate::models::RoomView>,
    room_name: Seq<char>,
    broadcaster: crate::models::BroadcasterView,
) -> Map<Seq<char>, crate::models::RoomView> {
    channels.insert(room_name, new_room(broadcaster))
}

/// Every open room relays at most `TRACKS_PER_BROADCAST` tracks.
pub open spec fn tracks_bounded(channels: Map<Seq<char>, RoomView>) -> bool {
    forall|k: Seq<char>|
        #[trigger] channels.contains_key(k) ==> channels[k].broadcaster.track_channel_rx.len()
            <= TRACKS_PER_BROADCAST
}

/// Opens the room `room_name` for `broadcaster`, once its peer connection is
/// set up and its tracks gathered (so it relays at most `TRACKS_PER_BROADCAST`).
pub fn start(room_name: String, broadcaster: BroadcasterMetaData, channels: &mut RoomMap)
    requires
        old(channels).wf(),
        broadcaster@.track_channel_rx.len() <= TRACKS_PER_BROADCAST,
    ensures
        final(channels).wf(),
        final(channels)@ == started(old(channels)@, room_name@, broadcaster@),
        tracks_bounded(old(channels)@) ==> tracks_bounded(final(channels)@),
{
    let room = Room::new(broadcaster);
    let _ = channels.insert(room_name, room);
    assert forall|k: Seq<char>| #[trigger] channels@.contains_key(k) && tracks_bounded(old(channels)@)
        implies channels@[k].broadcaster.track_channel_rx.len() <= TRACKS_PER_BROADCAST by {
        if k != room_name@ {
            assert(old(channels)@.contains_key(k));
        }
    }
}

} // verus!

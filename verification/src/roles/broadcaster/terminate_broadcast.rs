//! Closing a room.
use vstd::prelude::*;
use crate::models::{RoomView, TxId, ViewerMetaData};
use crate::rooms::RoomMap;
use super::start_broadcast::{tracks_bounded, TRACKS_PER_BROADCAST};

verus! {

/// The message channels of a room's viewers, in the order they joined.
pub open spec fn viewer_channels(room: RoomView) -> Seq<TxId> {
    room.room_users.map_values(|u: ViewerMetaData| u.transmiter)
}

/// Closes the room `room_name`; returns the message channels of its viewers,
/// which the caller closes.
pub fn stop(room_name: &String, channels: &mut RoomMap) -> (to_close: Vec<TxId>)
    requires
        old(channels).wf(),
        old(channels)@.contains_key(room_name@),
    ensures
        final(channels).wf(),
        final(channels)@ == old(channels)@.remove(room_name@),
        to_close@ == viewer_channels(old(channels)@[room_name@]),
        tracks_bounded(old(channels)@) ==> tracks_bounded(final(channels)@),
{
    let room = channels.remove(room_name).unwrap();
    let mut to_close: Vec<TxId> = Vec::new();
    let mut i: usize = 0;
    while i < room.room_users.len()
        invariant
            i <= room.room_users.len(),
            to_close@ == room.room_users@.take(i as int).map_values(|u: ViewerMetaData| u.transmiter),
        decreases room.room_users.len() - i,
    {
        to_close.push(room.room_users[i].transmiter);
        assert(room.room_users@.take(i + 1) == room.room_users@.take(i as int).push(room.room_users@[i as int]));
        i = i + 1;
    }
    assert(room.room_users@.take(i as int) == room.room_users@);
    assert forall|k: Seq<char>| #[trigger] channels@.contains_key(k) && tracks_bounded(old(channels)@)
        implies channels@[k].broadcaster.track_channel_rx.len() <= TRACKS_PER_BROADCAST by {
        assert(old(channels)@.contains_key(k));
    }
    to_close
}

} // verus!

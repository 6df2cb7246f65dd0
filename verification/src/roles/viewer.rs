//! The viewer's side: joining a room.
use vstd::prelude::*;
use crate::models::{Room, RoomView, TrackId, ViewerMetaData, ViewerPayload};
use crate::rooms::RoomMap;
use super::broadcaster::start_broadcast::{tracks_bounded, TRACKS_PER_BROADCAST};
use super::{viewer_command, is_event, command_view, RoleCommand};

verus! {

/// The command that a viewer payload asks for: `ENTER_ROOM` with an offer joins
/// the room; anything else is ignored.
pub fn process_viewer(parsed_payload: ViewerPayload) -> (command: Option<RoleCommand>)
    ensures
        command_view(command) == viewer_command(parsed_payload@),
{
    let room_name = parsed_payload.roomName;
    let event_type = parsed_payload.eventType;
    proof {
        reveal_strlit("ENTER_ROOM");
    }
    if is_event(&event_type, "ENTER_ROOM") {
        if let Some(desc) = parsed_payload.localDesc {
            return Some(RoleCommand::EnterRoom { room_name, local_desc: desc });
        }
    }
    None
}

/// The viewers that remain once those whose channel is closed are dropped:
/// `users[i]` stays exactly when `open[i]` holds, in the same order.
pub open spec fn keep_open(users: Seq<ViewerMetaData>, open: Seq<bool>) -> Seq<ViewerMetaData>
    decreases users.len(),
{
    if users.len() == 0 {
        Seq::empty()
    } else {
        let n = users.len() - 1;
        let rest = keep_open(users.take(n), open.take(n));
        if open[n] {
            rest.push(users[n])
        } else {
            rest
        }
    }
}

/// The viewers that are dropped because their channel is closed: `users[i]`
/// exactly when `open[i]` does not hold, in the same order.
pub open spec fn keep_closed(users: Seq<ViewerMetaData>, open: Seq<bool>) -> Seq<ViewerMetaData>
    decreases users.len(),
{
    if users.len() == 0 {
        Seq::empty()
    } else {
        let n = users.len() - 1;
        let rest = keep_closed(users.take(n), open.take(n));
        if open[n] {
            rest
        } else {
            rest.push(users[n])
        }
    }
}

/// Splits `users` into those whose channel is open (`open[i]` holds) and those
/// whose channel is closed, each in the same order.
pub fn retain_open(users: &Vec<ViewerMetaData>, open: &Vec<bool>) -> (r: (Vec<ViewerMetaData>, Vec<ViewerMetaData>))
    requires
        open@.len() == users@.len(),
    ensures
        r.0@ == keep_open(users@, open@),
        r.1@ == keep_closed(users@, open@),
{
    let mut kept: Vec<ViewerMetaData> = Vec::new();
    let mut dropped: Vec<ViewerMetaData> = Vec::new();
    let mut i: usize = 0;
    while i < users.len()
        invariant
            i <= users.len(),
            open@.len() == users@.len(),
            kept@ == keep_open(users@.take(i as int), open@.take(i as int)),
            dropped@ == keep_closed(users@.take(i as int), open@.take(i as int)),
        decreases users.len() - i,
    {
        proof {
            let u = users@.take(i + 1);
            let o = open@.take(i + 1);
            assert(u.take(i as int) =~= users@.take(i as int));
            assert(o.take(i as int) =~= open@.take(i as int));
            assert(u[i as int] == users@[i as int]);
            assert(o[i as int] == open@[i as int]);
        }
        if open[i] {
            kept.push(users[i]);
        } else {
            dropped.push(users[i]);
        }
        i = i + 1;
    }
    assert(users@.take(i as int) =~= users@);
    assert(open@.take(i as int) =~= open@);
    (kept, dropped)
}

/// What the server does with a viewer that asks to join a room.
pub enum EntryDecision {
    /// No room has that name: the viewer is turned away.
    NoSuchRoom,
    /// The room's broadcaster has gone: the room is closed.
    BroadcastOffline,
    /// The viewer is to receive the room's two relayed tracks.
    Admit { first_track: TrackId, second_track: TrackId },
}

/// Decides on a viewer's request to join `room_name`; `broadcaster_open` tells
/// whether the message channel of that room's broadcaster is still open.
/// Closes the room when its broadcaster has gone.
pub fn enter_room(room_name: &String, broadcaster_open: bool, channels: &mut RoomMap) -> (d: EntryDecision)
    requires
        old(channels).wf(),
        old(channels)@.contains_key(room_name@) && broadcaster_open ==> old(channels)@[room_name@].broadcaster.track_channel_rx.len() >= 2,
    ensures
        final(channels).wf(),
        !old(channels)@.contains_key(room_name@) ==> d is NoSuchRoom && final(channels)@ == old(channels)@,
        old(channels)@.contains_key(room_name@) && !broadcaster_open ==> d is BroadcastOffline
            && final(channels)@ == old(channels)@.remove(room_name@),
        old(channels)@.contains_key(room_name@) && broadcaster_open ==> final(channels)@ == old(channels)@
            && d == (EntryDecision::Admit {
                first_track: old(channels)@[room_name@].broadcaster.track_channel_rx[0],
                second_track: old(channels)@[room_name@].broadcaster.track_channel_rx[1],
            }),
        tracks_bounded(old(channels)@) ==> tracks_bounded(final(channels)@),
{
    let ghost m0 = channels@;
    match channels.get(room_name) {
        Some(room) => {
            if broadcaster_open {
                let tracks = &room.broadcaster.track_channel_rx;
                EntryDecision::Admit { first_track: tracks[0], second_track: tracks[1] }
            } else {
                let _ = channels.remove(room_name);
                assert forall|k: Seq<char>| #[trigger] channels@.contains_key(k) && tracks_bounded(m0)
                    implies channels@[k].broadcaster.track_channel_rx.len() <= TRACKS_PER_BROADCAST by {
                    assert(m0.contains_key(k));
                }
                EntryDecision::BroadcastOffline
            }
        },
        None => EntryDecision::NoSuchRoom,
    }
}

/// The room after `viewer` joins it and the viewers whose channel is closed are
/// dropped; `open[i]` tells whether the i-th of the room's viewers, the new one
/// last, still has an open channel.
pub open spec fn joined(room: RoomView, viewer: ViewerMetaData, open: Seq<bool>) -> RoomView {
    RoomView { room_users: keep_open(room.room_users.push(viewer), open), broadcaster: room.broadcaster }
}

/// Adds `viewer` to the room `room_name` and drops the viewers whose channel is
/// closed; `open[i]` tells whether the i-th viewer, the new one last, is open.
/// Returns the dropped viewers, in the same order, for the caller to let go of.
pub fn admit_viewer(
    room_name: &String,
    viewer: ViewerMetaData,
    open: &Vec<bool>,
    channels: &mut RoomMap,
) -> (dropped: Vec<ViewerMetaData>)
    requires
        old(channels).wf(),
        old(channels)@.contains_key(room_name@),
        open@.len() == old(channels)@[room_name@].room_users.len() + 1,
    ensures
        final(channels).wf(),
        final(channels)@ == old(channels)@.insert(
            room_name@,
            joined(old(channels)@[room_name@], viewer, open@),
        ),
        dropped@ == keep_closed(old(channels)@[room_name@].room_users.push(viewer), open@),
        tracks_bounded(old(channels)@) ==> tracks_bounded(final(channels)@),
{
    let ghost m0 = channels@;
    let mut room = channels.remove(room_name).unwrap();
    room.room_users.push(viewer);
    let (kept, dropped) = retain_open(&room.room_users, open);
    let room = Room { room_users: kept, broadcaster: room.broadcaster };
    let _ = channels.insert(room_name.clone(), room);
    assert(channels@ =~= m0.insert(room_name@, joined(m0[room_name@], viewer, open@)));
    assert forall|k: Seq<char>| #[trigger] channels@.contains_key(k) && tracks_bounded(m0)
        implies channels@[k].broadcaster.track_channel_rx.len() <= TRACKS_PER_BROADCAST by {
        assert(m0.contains_key(k));
    }
    dropped
}

} // verus!

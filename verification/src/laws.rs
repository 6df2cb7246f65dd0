//! Properties that span the operations on rooms.
use vstd::prelude::*;
use crate::models::{BroadcasterView, RoomView, TrackId, ViewerMetaData};
use crate::roles::broadcaster::start_broadcast::{started, tracks_bounded, TRACKS_PER_BROADCAST};
use crate::roles::broadcaster::terminate_broadcast::viewer_channels;
use crate::roles::viewer::{joined, keep_closed, keep_open};
use crate::roles::{
    broadcaster_command, payload_commands, viewer_command, PayloadView, RoleCommandView,
};

verus! {

/// Closing a room that was just opened closes no viewer's channel and leaves
/// the table as if the room had never been opened, save that a room of the
/// same name that was there before is gone too.
pub proof fn lemma_stop_undoes_start(
    channels: Map<Seq<char>, RoomView>,
    room_name: Seq<char>,
    broadcaster: BroadcasterView,
)
    ensures
        started(channels, room_name, broadcaster).contains_key(room_name),
        viewer_channels(started(channels, room_name, broadcaster)[room_name]) == Seq::<u64>::empty(),
        started(channels, room_name, broadcaster).remove(room_name) == channels.remove(room_name),
{
    assert(viewer_channels(started(channels, room_name, broadcaster)[room_name]) =~= Seq::<u64>::empty());
    assert(started(channels, room_name, broadcaster).remove(room_name) =~= channels.remove(room_name));
}

/// Opening a room under a name already in use replaces that room: the new one
/// has the new broadcaster and no viewer at all.
pub proof fn lemma_restart_drops_viewers(
    channels: Map<Seq<char>, RoomView>,
    room_name: Seq<char>,
    broadcaster: BroadcasterView,
)
    ensures
        started(channels, room_name, broadcaster)[room_name].room_users.len() == 0,
        started(channels, room_name, broadcaster)[room_name].broadcaster == broadcaster,
{
}

/// What happens to one room leaves every other room as it was: opening,
/// closing and joining a room, and closing it for want of a broadcaster.
pub proof fn lemma_other_rooms_untouched(
    channels: Map<Seq<char>, RoomView>,
    room_name: Seq<char>,
    other: Seq<char>,
    broadcaster: BroadcasterView,
    viewer: ViewerMetaData,
    open: Seq<bool>,
)
    requires
        other != room_name,
        channels.contains_key(room_name),
    ensures
        started(channels, room_name, broadcaster).contains_key(other) == channels.contains_key(other),
        started(channels, room_name, broadcaster)[other] == channels[other],
        channels.remove(room_name).contains_key(other) == channels.contains_key(other),
        channels.remove(room_name)[other] == channels[other],
        channels.insert(room_name, joined(channels[room_name], viewer, open)).contains_key(other)
            == channels.contains_key(other),
        channels.insert(room_name, joined(channels[room_name], viewer, open))[other] == channels[other],
{
}

/// A room closed because its broadcaster has gone is gone for good: the next
/// viewer that asks for it finds no room of that name.
pub proof fn lemma_offline_room_stays_closed(channels: Map<Seq<char>, RoomView>, room_name: Seq<char>)
    ensures
        !channels.remove(room_name).contains_key(room_name),
{
}

/// Dropping closed viewers keeps at most the viewers there were.
pub proof fn lemma_keep_open_len(users: Seq<ViewerMetaData>, open: Seq<bool>)
    requires
        open.len() == users.len(),
    ensures
        keep_open(users, open).len() <= users.len(),
    decreases users.len(),
{
    if users.len() > 0 {
        let n = users.len() - 1;
        lemma_keep_open_len(users.take(n), open.take(n));
    }
}

/// When every viewer's channel is open, nobody is dropped.
pub proof fn lemma_keep_open_all_open(users: Seq<ViewerMetaData>, open: Seq<bool>)
    requires
        open.len() == users.len(),
        forall|i: int| 0 <= i < open.len() ==> #[trigger] open[i],
    ensures
        keep_open(users, open) == users,
    decreases users.len(),
{
    if users.len() > 0 {
        let n = users.len() - 1;
        lemma_keep_open_all_open(users.take(n), open.take(n));
        assert(users.take(n).push(users[n]) =~= users);
    }
}

/// `x` is one of `users` whose channel is open.
pub open spec fn is_open_viewer(users: Seq<ViewerMetaData>, open: Seq<bool>, x: ViewerMetaData) -> bool {
    exists|i: int| 0 <= i < users.len() && open[i] && #[trigger] users[i] == x
}

/// Every viewer that stays was a viewer with an open channel.
pub proof fn lemma_keep_open_only_open(users: Seq<ViewerMetaData>, open: Seq<bool>)
    requires
        open.len() == users.len(),
    ensures
        forall|j: int|
            0 <= j < keep_open(users, open).len() ==> is_open_viewer(
                users,
                open,
                #[trigger] keep_open(users, open)[j],
            ),
    decreases users.len(),
{
    if users.len() > 0 {
        let n = users.len() - 1;
        let u = users.take(n);
        let o = open.take(n);
        let rest = keep_open(u, o);
        lemma_keep_open_only_open(u, o);
        assert forall|j: int| 0 <= j < keep_open(users, open).len() implies is_open_viewer(
            users,
            open,
            #[trigger] keep_open(users, open)[j],
        ) by {
            if j < rest.len() {
                assert(is_open_viewer(u, o, rest[j]));
                let i = choose|i: int| 0 <= i < u.len() && o[i] && #[trigger] u[i] == rest[j];
                assert(open[i] && users[i] == keep_open(users, open)[j]);
            } else {
                assert(open[n] && users[n] == keep_open(users, open)[j]);
            }
        }
    }
}

/// A viewer that joins with an open channel is the last viewer of the room
/// afterwards, and the room keeps its broadcaster.
pub proof fn lemma_joined_viewer_is_last(room: RoomView, viewer: ViewerMetaData, open: Seq<bool>)
    requires
        open.len() == room.room_users.len() + 1,
        open[open.len() - 1],
    ensures
        joined(room, viewer, open).room_users.len() > 0,
        joined(room, viewer, open).room_users.last() == viewer,
        joined(room, viewer, open).broadcaster == room.broadcaster,
{
    let users = room.room_users.push(viewer);
    let n = users.len() - 1;
    assert(users[n] == viewer);
}

/// A message asks for at most two things, and what its broadcaster payload
/// asks for is done before what its viewer payload asks for.
pub proof fn lemma_broadcaster_command_first(broadcaster: PayloadView, viewer: PayloadView)
    ensures
        payload_commands(Some(broadcaster), Some(viewer)).len() <= 2,
        broadcaster_command(broadcaster) is Some ==> payload_commands(Some(broadcaster), Some(viewer))[0]
            == broadcaster_command(broadcaster)->0,
        viewer_command(viewer) is Some ==> payload_commands(Some(broadcaster), Some(viewer)).last()
            == viewer_command(viewer)->0,
{
}

/// The tracks that gathering ends with, starting from `tracks`, when the peer
/// connection announces `incoming` in turn (`None` once no more will come):
/// each announced track is taken while fewer than `TRACKS_PER_BROADCAST` are held.
pub open spec fn gather(tracks: Seq<TrackId>, incoming: Seq<Option<TrackId>>) -> Seq<TrackId>
    decreases incoming.len(),
{
    if tracks.len() >= TRACKS_PER_BROADCAST || incoming.len() == 0 {
        tracks
    } else {
        match incoming[0] {
            Some(t) => gather(tracks.push(t), incoming.drop_first()),
            None => tracks,
        }
    }
}

/// One call of `collect_track` made while a track is still wanted is one step
/// of `gather`: what it leaves is what gathering goes on from when it asks for
/// more, and what gathering ends with when it does not.
pub proof fn lemma_collect_is_gather_step(
    tracks: Seq<TrackId>,
    received: Option<TrackId>,
    rest: Seq<Option<TrackId>>,
)
    requires
        tracks.len() < TRACKS_PER_BROADCAST,
    ensures
        ({
            let after = match received {
                Some(t) => tracks.push(t),
                None => tracks,
            };
            let more = received is Some && after.len() < TRACKS_PER_BROADCAST;
            &&& more ==> gather(tracks, seq![received] + rest) == gather(after, rest)
            &&& !more ==> gather(tracks, seq![received] + rest) == after
        }),
{
    let incoming = seq![received] + rest;
    assert(incoming[0] == received);
    assert(incoming.drop_first() =~= rest);
    match received {
        Some(t) => {
            if tracks.push(t).len() >= TRACKS_PER_BROADCAST {
                reveal_with_fuel(gather, 2);
            }
        },
        None => {},
    }
}

/// Gathering never ends with more than `TRACKS_PER_BROADCAST` tracks when it
/// starts with no more than that; in particular a broadcaster's room, whose
/// tracks are gathered from none, holds at most two.
pub proof fn lemma_gather_bounded(tracks: Seq<TrackId>, incoming: Seq<Option<TrackId>>)
    requires
        tracks.len() <= TRACKS_PER_BROADCAST,
    ensures
        gather(tracks, incoming).len() <= TRACKS_PER_BROADCAST,
    decreases incoming.len(),
{
    if tracks.len() < TRACKS_PER_BROADCAST && incoming.len() > 0 {
        match incoming[0] {
            Some(t) => lemma_gather_bounded(tracks.push(t), incoming.drop_first()),
            None => {},
        }
    }
}

/// Opening a room with gathered tracks, closing a room, and a viewer joining a
/// room all keep every room within `TRACKS_PER_BROADCAST` tracks: only opening
/// sets a broadcaster, and joining keeps the room's broadcaster.
pub proof fn lemma_track_bound_kept(
    channels: Map<Seq<char>, RoomView>,
    room_name: Seq<char>,
    broadcaster: BroadcasterView,
    viewer: ViewerMetaData,
    open: Seq<bool>,
)
    requires
        tracks_bounded(channels),
        broadcaster.track_channel_rx.len() <= TRACKS_PER_BROADCAST,
    ensures
        tracks_bounded(started(channels, room_name, broadcaster)),
        tracks_bounded(channels.remove(room_name)),
        channels.contains_key(room_name) ==> tracks_bounded(
            channels.insert(room_name, joined(channels[room_name], viewer, open)),
        ),
{
    assert forall|k: Seq<char>| #[trigger] started(channels, room_name, broadcaster).contains_key(
        k,
    ) implies started(channels, room_name, broadcaster)[k].broadcaster.track_channel_rx.len()
        <= TRACKS_PER_BROADCAST by {
        if k != room_name {
            assert(channels.contains_key(k));
        }
    }
    assert forall|k: Seq<char>| #[trigger] channels.remove(room_name).contains_key(k) implies channels.remove(
        room_name,
    )[k].broadcaster.track_channel_rx.len() <= TRACKS_PER_BROADCAST by {
        assert(channels.contains_key(k));
    }
    if channels.contains_key(room_name) {
        let m = channels.insert(room_name, joined(channels[room_name], viewer, open));
        assert forall|k: Seq<char>| #[trigger] m.contains_key(k) implies m[k].broadcaster.track_channel_rx.len()
            <= TRACKS_PER_BROADCAST by {
            assert(channels.contains_key(k));
        }
    }
}

/// How many of the flags hold.
pub open spec fn count_open(open: Seq<bool>) -> nat
    decreases open.len(),
{
    if open.len() == 0 {
        0
    } else {
        count_open(open.take(open.len() - 1)) + if open[open.len() - 1] { 1nat } else { 0nat }
    }
}

/// Dropping closed viewers keeps every viewer whose channel is open, drops
/// every viewer whose channel is closed, keeps one viewer per open flag and
/// drops one per closed flag: nobody is lost and nobody is both kept and dropped.
pub proof fn lemma_open_kept_closed_dropped(users: Seq<ViewerMetaData>, open: Seq<bool>)
    requires
        open.len() == users.len(),
    ensures
        forall|i: int| 0 <= i < users.len() && open[i] ==> keep_open(users, open).contains(#[trigger] users[i]),
        forall|i: int| 0 <= i < users.len() && !open[i] ==> keep_closed(users, open).contains(#[trigger] users[i]),
        keep_open(users, open).len() == count_open(open),
        keep_closed(users, open).len() + count_open(open) == users.len(),
    decreases users.len(),
{
    if users.len() > 0 {
        let n = users.len() - 1;
        let u = users.take(n);
        let o = open.take(n);
        lemma_open_kept_closed_dropped(u, o);
        let k = keep_open(users, open);
        let d = keep_closed(users, open);
        assert forall|i: int| 0 <= i < users.len() && open[i] implies k.contains(#[trigger] users[i]) by {
            if i < n {
                assert(u[i] == users[i] && o[i]);
                let j = choose|j: int| 0 <= j < keep_open(u, o).len() && keep_open(u, o)[j] == u[i];
                assert(k[j] == users[i]);
            } else {
                assert(k[k.len() - 1] == users[i]);
            }
        }
        assert forall|i: int| 0 <= i < users.len() && !open[i] implies d.contains(#[trigger] users[i]) by {
            if i < n {
                assert(u[i] == users[i] && !o[i]);
                let j = choose|j: int| 0 <= j < keep_closed(u, o).len() && keep_closed(u, o)[j] == u[i];
                assert(d[j] == users[i]);
            } else {
                assert(d[d.len() - 1] == users[i]);
            }
        }
    }
}

/// Every viewer that is dropped was a viewer whose channel is closed.
pub proof fn lemma_keep_closed_only_closed(users: Seq<ViewerMetaData>, open: Seq<bool>)
    requires
        open.len() == users.len(),
    ensures
        forall|j: int|
            #![trigger keep_closed(users, open)[j]]
            0 <= j < keep_closed(users, open).len() ==> exists|i: int|
                0 <= i < users.len() && !open[i] && #[trigger] users[i] == keep_closed(users, open)[j],
    decreases users.len(),
{
    if users.len() > 0 {
        let n = users.len() - 1;
        let u = users.take(n);
        let o = open.take(n);
        lemma_keep_closed_only_closed(u, o);
        let d = keep_closed(users, open);
        assert forall|j: int| #![trigger d[j]] 0 <= j < d.len() implies exists|i: int|
            0 <= i < users.len() && !open[i] && #[trigger] users[i] == d[j] by {
            if j < keep_closed(u, o).len() {
                let i = choose|i: int| 0 <= i < u.len() && !o[i] && #[trigger] u[i] == keep_closed(u, o)[j];
                assert(users[i] == u[i]);
            } else {
                assert(users[n] == d[j]);
            }
        }
    }
}

/// Dropping closed viewers keeps the order in which viewers joined: what is
/// kept of the first `k` viewers comes first, in the same order.
pub proof fn lemma_keep_open_prefix(users: Seq<ViewerMetaData>, open: Seq<bool>, k: int)
    requires
        open.len() == users.len(),
        0 <= k <= users.len(),
    ensures
        keep_open(users.take(k), open.take(k)).len() <= keep_open(users, open).len(),
        keep_open(users, open).take(keep_open(users.take(k), open.take(k)).len() as int)
            == keep_open(users.take(k), open.take(k)),
    decreases users.len() - k,
{
    if k == users.len() {
        assert(users.take(k) =~= users);
        assert(open.take(k) =~= open);
        assert(keep_open(users, open).take(keep_open(users, open).len() as int) =~= keep_open(users, open));
    } else {
        let n = users.len() - 1;
        let u = users.take(n);
        let o = open.take(n);
        lemma_keep_open_prefix(u, o, k);
        assert(u.take(k) =~= users.take(k));
        assert(o.take(k) =~= open.take(k));
        let small = keep_open(users.take(k), open.take(k));
        let mid = keep_open(u, o);
        let full = keep_open(users, open);
        assert(full.take(small.len() as int) =~= mid.take(small.len() as int));
    }
}

/// After a viewer joins a room, the room keeps its broadcaster; every earlier
/// viewer whose channel is open is still there, and so is the new viewer when
/// its channel is open; everyone there is one of these; there is one viewer
/// per open channel; and the earlier viewers that stay come first, in order.
pub proof fn lemma_joined_room(room: RoomView, viewer: ViewerMetaData, open: Seq<bool>)
    requires
        open.len() == room.room_users.len() + 1,
    ensures
        joined(room, viewer, open).broadcaster == room.broadcaster,
        forall|i: int|
            0 <= i < room.room_users.len() && open[i] ==> joined(room, viewer, open).room_users.contains(
                #[trigger] room.room_users[i],
            ),
        open[open.len() - 1] ==> joined(room, viewer, open).room_users.contains(viewer),
        forall|j: int|
            0 <= j < joined(room, viewer, open).room_users.len() ==> is_open_viewer(
                room.room_users.push(viewer),
                open,
                #[trigger] joined(room, viewer, open).room_users[j],
            ),
        joined(room, viewer, open).room_users.len() == count_open(open),
        joined(room, viewer, open).room_users.take(
            keep_open(room.room_users, open.take(room.room_users.len() as int)).len() as int,
        ) == keep_open(room.room_users, open.take(room.room_users.len() as int)),
{
    let users = room.room_users.push(viewer);
    let n = room.room_users.len() as int;
    lemma_open_kept_closed_dropped(users, open);
    lemma_keep_open_only_open(users, open);
    lemma_keep_open_prefix(users, open, n);
    assert(users.take(n) =~= room.room_users);
    let k = keep_open(users, open);
    assert forall|i: int| 0 <= i < n && open[i] implies k.contains(#[trigger] room.room_users[i]) by {
        assert(users[i] == room.room_users[i]);
    }
    assert(users[n] == viewer);
}

/// The viewers dropped when a viewer joins are exactly those whose channel is
/// closed: every one of them is dropped, nobody else, one per closed channel.
pub proof fn lemma_joined_dropped(room: RoomView, viewer: ViewerMetaData, open: Seq<bool>)
    requires
        open.len() == room.room_users.len() + 1,
    ensures
        forall|i: int|
            0 <= i < room.room_users.len() && !open[i] ==> keep_closed(room.room_users.push(viewer), open).contains(
                #[trigger] room.room_users[i],
            ),
        !open[open.len() - 1] ==> keep_closed(room.room_users.push(viewer), open).contains(viewer),
        keep_closed(room.room_users.push(viewer), open).len() + count_open(open) == room.room_users.len() + 1,
        forall|j: int|
            #![trigger keep_closed(room.room_users.push(viewer), open)[j]]
            0 <= j < keep_closed(room.room_users.push(viewer), open).len() ==> exists|i: int|
                0 <= i < room.room_users.len() + 1 && !open[i] && #[trigger] room.room_users.push(viewer)[i]
                    == keep_closed(room.room_users.push(viewer), open)[j],
{
    let users = room.room_users.push(viewer);
    let n = room.room_users.len() as int;
    lemma_open_kept_closed_dropped(users, open);
    lemma_keep_closed_only_closed(users, open);
    assert forall|i: int| 0 <= i < n && !open[i] implies keep_closed(users, open).contains(
        #[trigger] room.room_users[i],
    ) by {
        assert(users[i] == room.room_users[i]);
    }
    assert(users[n] == viewer);
}

/// Closing a room hands back one channel per viewer of the room: the i-th
/// viewer's channel at place i.
pub proof fn lemma_stop_closes_every_viewer(room: RoomView)
    ensures
        viewer_channels(room).len() == room.room_users.len(),
        forall|i: int|
            0 <= i < room.room_users.len() ==> #[trigger] viewer_channels(room)[i]
                == room.room_users[i].transmiter,
{
}

/// The broadcaster's payload and the viewer's payload of a message are read
/// independently of each other: the commands of a message are those of its
/// broadcaster payload alone, followed by those of its viewer payload alone,
/// and a payload that asks for something yields exactly that one command.
pub proof fn lemma_payloads_independent(broadcaster: Option<PayloadView>, viewer: Option<PayloadView>)
    ensures
        payload_commands(broadcaster, viewer) == payload_commands(broadcaster, None) + payload_commands(
            None,
            viewer,
        ),
        payload_commands(None, None).len() == 0,
        forall|b: PayloadView|
            #[trigger] broadcaster_command(b) is Some ==> payload_commands(Some(b), None) == seq![
                broadcaster_command(b)->0,
            ],
        forall|b: PayloadView|
            #[trigger] broadcaster_command(b) is None ==> payload_commands(Some(b), None).len() == 0,
        forall|v: PayloadView|
            #[trigger] viewer_command(v) is Some ==> payload_commands(None, Some(v)) == seq![
                viewer_command(v)->0,
            ],
        forall|v: PayloadView|
            #[trigger] viewer_command(v) is None ==> payload_commands(None, Some(v)).len() == 0,
{
    assert(payload_commands(broadcaster, viewer) =~= payload_commands(broadcaster, None) + payload_commands(None, viewer));
    assert forall|b: PayloadView| #[trigger] broadcaster_command(b) is Some implies payload_commands(Some(b), None)
        == seq![broadcaster_command(b)->0] by {
        assert(payload_commands(Some(b), None) =~= seq![broadcaster_command(b)->0]);
    }
    assert forall|v: PayloadView| #[trigger] viewer_command(v) is Some implies payload_commands(None, Some(v))
        == seq![viewer_command(v)->0] by {
        assert(payload_commands(None, Some(v)) =~= seq![viewer_command(v)->0]);
    }
}

/// A broadcaster payload asks to open the room it names, answering its own
/// offer, exactly when its event is `START_BROADCAST` and it carries an offer;
/// it asks to close the room it names exactly when its event is
/// `TERMINATE_BROADCAST`; otherwise it asks for nothing. The room name and the
/// offer are handed on unchanged.
pub proof fn lemma_broadcaster_command_faithful(p: PayloadView)
    ensures
        p.event_type == "START_BROADCAST"@ && p.local_desc is Some ==> broadcaster_command(p) == Some(
            RoleCommandView::StartBroadcast { room_name: p.room_name, local_desc: p.local_desc->0 },
        ),
        p.event_type == "TERMINATE_BROADCAST"@ ==> broadcaster_command(p) == Some(
            RoleCommandView::TerminateBroadcast { room_name: p.room_name },
        ),
        p.event_type != "START_BROADCAST"@ && p.event_type != "TERMINATE_BROADCAST"@
            ==> broadcaster_command(p) is None,
        p.event_type == "START_BROADCAST"@ && p.local_desc is None ==> broadcaster_command(p) is None,
        broadcaster_command(p) matches Some(RoleCommandView::StartBroadcast { room_name, local_desc })
            ==> room_name == p.room_name && p.local_desc == Some(local_desc),
        broadcaster_command(p) matches Some(RoleCommandView::TerminateBroadcast { room_name })
            ==> room_name == p.room_name,
        !(broadcaster_command(p) matches Some(RoleCommandView::EnterRoom { .. })),
{
    reveal_strlit("START_BROADCAST");
    reveal_strlit("TERMINATE_BROADCAST");
    assert("START_BROADCAST"@[0] != "TERMINATE_BROADCAST"@[0]);
}

/// A viewer payload asks to join the room it names, answering its own offer,
/// exactly when its event is `ENTER_ROOM` and it carries an offer; otherwise it
/// asks for nothing. The room name and the offer are handed on unchanged.
pub proof fn lemma_viewer_command_faithful(p: PayloadView)
    ensures
        p.event_type == "ENTER_ROOM"@ && p.local_desc is Some ==> viewer_command(p) == Some(
            RoleCommandView::EnterRoom { room_name: p.room_name, local_desc: p.local_desc->0 },
        ),
        !(p.event_type == "ENTER_ROOM"@ && p.local_desc is Some) ==> viewer_command(p) is None,
        viewer_command(p) matches Some(RoleCommandView::EnterRoom { room_name, local_desc })
            ==> room_name == p.room_name && p.local_desc == Some(local_desc),
        !(viewer_command(p) matches Some(RoleCommandView::StartBroadcast { .. })),
        !(viewer_command(p) matches Some(RoleCommandView::TerminateBroadcast { .. })),
{
}

} // verus!

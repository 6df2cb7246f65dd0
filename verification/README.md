# broadcast_rooms

The signalling core of a one-to-many WebRTC broadcast server: a broadcaster
opens a named room over a WebSocket, viewers join it, and the server relays the
broadcaster's media tracks to each viewer.

- `src/` is the verified library (Verus):
  - `models` – payloads, session descriptions, rooms, broadcasters and viewers;
    live objects are known by integer handles.
  - `rooms` – the table of open rooms, a finite map from room names to rooms.
  - `roles` – turning payloads into commands, and the room decisions of the
    broadcaster (`start`, `stop`) and the viewer (`enter_room`, `admit_viewer`).
  - `event_handlers` – decisions taken while relaying media.
  - `helpers`, `utils` – the WebRTC API object and the ICE configuration.
  - `laws` – properties that span several operations.
- `app/` is the server itself: sockets, JSON, peer connections and channels.
- `tests/` runs the library on concrete values.

# junowen

The decision logic of the Ju.N.Owen netplay client for Touhou 19 and of its
signaling server, verified with Verus.

## Layout

- `src/`: the verified library.
  - In-game lobby: `menu_controller`, `menu`, `text_input`, `components`,
    `common_menu` (menus, cursors, text entry), `room`, `p2p`, `lobby`,
    `title_menu`, `waiting_for_spectator`, `waiting_for_match` (the screens
    as state machines that take a frame's input and say what to do).
  - Signaling: `offer` (the client side of a room: offers, keep-alive polls,
    the Retry-After header), `signaling_server` and `reserved_room` (the
    server side: routing and the exchanges with the room tables, written as
    request/reply state machines), `room_utils`, `routes`.
  - Settings and helpers: `settings` (the TOML settings file), `lang`,
    `cui`, `helper`, `text`.
  - Log statistics: `args`, `cloudwatch`, `room_activity`, `timestamps`,
    `output`.
- `tests/`: tests run against the compiled library.
- `app/`: the parts that do I/O: the statistics tool's AWS queries and
  rendering, a request handler over in-memory tables, the settings file.

Calls into outside crates (chrono, uuid, base_custom, toml_edit,
serde_json) stand behind small trusted wrappers whose contracts say what
the crates document; everything above them is proved.

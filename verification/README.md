# beam

The core of a remote desktop client, verified with Verus.

- `src/setup.rs` takes a session from a profile to a connection: where the password comes from,
  when it is saved and when it is removed.
- `src/active.rs` runs a connected session: frames, input, repaints, reactivation, the clipboard,
  and how it ends.
- `src/controller.rs` says which channel a command of the frontend takes.
- `src/stage.rs` talks to the protocol stage of `ironrdp-session` and the clipboard channel in it.
- `src/clipboard.rs` and `src/text.rs` hold the clipboard's text format and its decisions.
- `src/profiles.rs` holds the list of profiles, its search, and which stored passwords are in use.
- `app/` owns the channels, the network and the window, and does what the library decides.

Public proof functions named `law_..` state what holds of the library as a whole.

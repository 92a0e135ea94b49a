# musicbox

The logic of a terminal music player, verified with Verus: playlists with a
cursor and a saved state, a play queue, the commands that the user's messages
trigger, and the key bindings that turn key presses into messages.

## Layout

- `src/track.rs`: tracks, their identities and their metadata. Playlists and
  the queue share a track by holding copies with the same identity; metadata
  loaded for a track reaches every copy.
- `src/audio.rs`: which paths name audio files, by their extension.
- `src/message.rs`: the messages that the parts of the player send one another.
- `src/playlist.rs`: a playlist, its cursor, arrange-mode moves, save and reload.
- `src/controller.rs`: the playlist view: the playlists, the selection, the focus.
- `src/queue.rs`: the play queue; shuffling calls the `rand` crate.
- `src/state.rs`: the whole state of the player.
- `src/playlist_cmd.rs`, `src/queue_cmd.rs`: the commands, each with a contract
  that says exactly what it changes and what it answers.
- `src/keybinds.rs`: the key bindings, as a table.
- `src/laws.rs`: properties that span several commands, proved.
- `app/`: key events from `crossterm`, file-system questions, and the effects.

Requests to outside workers (the metadata loader, the worker that turns paths
into tracks) are kept in the state as lists that the surrounding program hands
on. Work that needs a dialog or the audio device is asked for as an effect
(`state::Effect`); `app/commands.rs` does it and hands the answer to the
verified command that waits for it.

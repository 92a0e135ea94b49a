//! The logic of a terminal music player: playlists with a selected track,
//! a play queue, the commands that act on them, and the key bindings that
//! turn key presses into commands.

pub mod audio;
pub mod track;
pub mod message;
pub mod playlist;
pub mod controller;
pub mod queue;
pub mod state;
pub mod playlist_cmd;
pub mod queue_cmd;
pub mod keybinds;
pub mod laws;

//! The logic of a keyboard-driven sequencer shell: note names and their pitch
//! numbers, the playback of a phrase as a machine of writes and waits, and the
//! navigation state that key presses drive.
//!
//! Nothing here touches a terminal or a MIDI device. The playback machine asks
//! for one action at a time and is told how it went; the navigation state takes
//! events as plain values. Whoever owns the terminal and the device performs
//! the actions.

pub mod navigation;
pub mod pitch;
pub mod playback;

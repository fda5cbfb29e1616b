//! A piano played from the computer keyboard in a terminal.
//!
//! `notes` binds physical keys to notes of a drawn keyboard, `session` holds
//! the octave offset and durations that control keys adjust, `highlight`
//! says what to paint for the keyboard and for the mark of a played key, and
//! `samples` keeps the loaded sound samples and says what playing a note asks
//! of the audio output.
pub mod notes;
pub mod highlight;
pub mod session;
pub mod samples;

//! Note catalog, naming-system conversion and the session state machine of a
//! fretboard note trainer.
pub mod catalog;
pub mod session;

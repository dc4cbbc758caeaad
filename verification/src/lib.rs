//! A turn-order tracker for tabletop combat encounters: a roster kept in
//! initiative order, withering and decisive hit resolution, an append-only
//! event log, and the two-step attack protocol driven by single key presses.
//!
//! Everything here carries contracts; terminal I/O, prompting, and the JSON
//! files live outside the library.
pub mod character;
pub mod encounter;
pub mod monster;
pub mod session;
pub mod util;

//! A tray utility that flips the desktop's light/dark appearance.
//!
//! The library holds the decisions: how the stored appearance flags are
//! read and written, which glyph the tray shows, what one click does, and
//! when the message pump stops. Talking to the configuration store, the
//! tray and the message queue is left to the program around it.
pub mod message_loop;
pub mod theme_store;
pub mod tray;
pub mod worker;

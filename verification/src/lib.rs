//! Logic of a screen locker that covers every monitor with a lock screen and
//! unlocks on the right password: the lock-screen state machine, password
//! handling, the key filters and the platform lockdown bookkeeping.
pub mod config;
pub mod laws;
pub mod lock_screen;
pub mod monitors;
pub mod pixels;
pub mod platform;
pub mod text;

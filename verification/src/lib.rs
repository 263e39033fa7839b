//! Core of a gamepad state-synchronization protocol: wire packet model and
//! codec, button/axis tables, state reduction with deadzone filtering,
//! dispatch decisions, and the device state machine that replays button and
//! axis transitions on the receiving side.
pub mod codec;
pub mod device;
pub mod dispatch;
pub mod error;
pub mod ipc;
pub mod packets;
pub mod reducer;
pub mod relay;
pub mod systemd;
pub mod tables;
pub mod timefmt;
pub mod util;

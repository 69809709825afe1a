//! Verified core of a single-window platform layer: the normalized event
//! model, the FIFO event queue shared between a native backend and the
//! application, and the translation tables that turn native window-system
//! notifications (keyboard, mouse, resize, close) into normalized events.
//!
//! The native backends themselves (message-loop style and connection/poll
//! style) live outside this crate; they feed plain values into the verified
//! translation functions here and perform the actions those functions decide.

pub mod conn_poll;
pub mod event;
pub mod keys;
pub mod msg_loop;

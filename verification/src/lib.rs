//! A minimal windowing runtime: an off-screen pixel buffer, a channel-order
//! conversion between the buffer-native and surface-native pixel formats,
//! a painting capability, and the event-driven controller that keeps an
//! on-screen window synchronized with the buffer.
//!
//! Everything that decides or computes lives here and is verified; the
//! display-server connection and its blocking event loop live outside the
//! library and only carry plain values in and out.

pub mod controller;
pub mod convert;
pub mod drawable;
pub mod pixel;

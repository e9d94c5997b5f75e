//! Driver core for a small SSD1351 bitmap panel: pixel encoding, an
//! off-screen frame buffer, the panel's configuration command protocol,
//! a display driver over a byte transport with a data/command select line,
//! frame sources over raw concatenated-frame video data, a cyclic playlist,
//! and the playback decisions that couple them.

pub mod color;
pub mod commands;
pub mod display;
pub mod framebuffer;
pub mod pacing;
pub mod player;
pub mod playlist;
pub mod video;

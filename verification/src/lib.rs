//! Sample-accurate storage and routing for a stereo delay effect.
//!
//! The crate holds the discrete half of the effect:
//!
//! - [`delay_line`]: the forward delay line, a circular sample store read at
//!   a whole-sample delay;
//! - [`reverse_delay`]: the reverse delay line, a circular store read
//!   backwards by two grains, and [`reverse_playback`], what such a line
//!   does over a run of frames;
//! - [`engine`]: the per-sample routing of both channels between the stores,
//!   normal or ping-pong;
//! - [`tempo`]: the delay mode and the note divisions of a tempo-synced
//!   delay time.
//!
//! Samples are carried as an opaque `Copy` type: the stores move them and
//! never compute on them, so every contract holds for whatever amplitude
//! type the caller uses. What is arithmetic on amplitudes (blending a pair of
//! taps, windowing grains, filtering, saturating, mixing) is the caller's.
//!
//! Nothing on the per-sample path allocates or unwinds; only `initialize`
//! sizes the stores.

pub mod delay_line;
pub mod engine;
pub mod reverse_delay;
pub mod reverse_playback;
pub mod tempo;

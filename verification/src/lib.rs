//! The real-time data path of a live waveform display: a bounded relay that
//! carries captured samples onward, a rolling window of the most recent
//! samples for drawing, and the play/pause lifecycle of the capture stream.

pub mod sample;
pub mod ring;
pub mod relay;
pub mod window;
pub mod lock;
pub mod shared;
pub mod capture;
pub mod lifecycle;

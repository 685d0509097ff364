//! A short-time Fourier transform (STFT) spectrogram engine.
//!
//! The engine turns a mono signal into a time-frequency magnitude matrix:
//! it slides a fixed-size window over the signal with a configurable hop,
//! has each frame transformed to a log-magnitude half-spectrum, clamps the
//! magnitudes to the non-negative range, and tracks the global magnitude
//! bounds for later normalization.
//!
//! Floating-point work (the window taper, the Fourier transform, the
//! logarithm) is performed by an unverified driver outside this crate; the
//! driver exchanges samples and magnitudes with the engine as IEEE 754
//! single-precision bit patterns carried in `u32`, which the engine treats
//! as plain ordered values. Everything else - framing, clamping, bounds
//! tracking, result assembly, and the audio-toolbox bookkeeping around the
//! engine - is verified here.

pub mod audio_file;
pub mod audio_format;
pub mod audio_hardware;
pub mod audio_queue;
pub mod chunks;
pub mod config;
pub mod engine;
pub mod extended_audio_file;
pub mod magnitude;

pub use chunks::ChunksWithHop;
pub use config::ConfigError;
pub use engine::SpectrogramResult;
pub use engine::StftSession;

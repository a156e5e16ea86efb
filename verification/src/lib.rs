//! Capture-side audio pipeline for a speech client.
//!
//! A recording runs through these stages, each in a module of its own:
//!
//! - `format`: the host's answer about its capture device becomes a stream
//!   format, and the stream format the header of the container to write;
//! - `sample`: device samples, unsigned, signed or float, are normalised to
//!   signed 16-bit values;
//! - `container`: a writer collects the normalised samples and, when it is
//!   finished, fixes the header's lengths to what was written;
//! - `session`: one recording from start to finalize, with its recording
//!   flag and its exclusively owned writer;
//! - `downmix`: a finished stereo container becomes a mono container;
//! - `payload`: the stored container travels to the recognition service as
//!   base64 text, and synthesized audio comes back the same way;
//! - `transcript`: what the recognition service understood, as one line.
//!
//! The library does no input or output. Whoever uses it talks to the audio
//! device, the file system and the network, and hands plain values in.

pub mod error;
pub mod format;
pub mod sample;
pub mod container;
pub mod session;
pub mod downmix;
pub mod payload;
pub mod transcript;

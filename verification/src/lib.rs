//! Verified core of a live-stream audio playback pipeline.
//!
//! The pipeline turns a live, non-seekable compressed byte stream into a
//! steady sequence of PCM samples at a fixed output rate and exposes coarse
//! start / stop / volume control to a host. This crate verifies the logic of
//! that pipeline: the packet-selection rules of the decode loop, the planar
//! to interleaved sample layout, the windowed-sinc resampler's output length
//! and tap geometry, the one-sample-at-a-time bridge, and the session state
//! machine. Sample values travel as the bit patterns of IEEE-754
//! single-precision numbers; the floating-point kernel of the resampler and
//! all device, network and thread plumbing live in the surrounding
//! application, which drives these verified functions.

pub mod bridge;
pub mod decode;
pub mod resample;
pub mod session;

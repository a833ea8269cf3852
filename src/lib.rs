//! Verified core of a looping frame-and-audio presentation engine: the frame
//! store and presenter cadence, the cyclic sample source, the double-buffered
//! audio streamer and the startup rendezvous.

pub mod frames;
pub mod presenter;
pub mod samples;
pub mod streamer;
pub mod sync;

//! Core of a bridge between a host application and a voice-chat session:
//! framing of captured audio, the per-tick speaker mix, the session loop's
//! decisions and the session handle's checks, each with its contract.
use vstd::prelude::*;

pub mod b64;
pub mod client;
pub mod events;
pub mod identity;
pub mod mixer;
pub mod pcm;
pub mod session;

verus! {

/// Samples in one 20 ms window at 48 kHz.
pub const FRAME_SAMPLES: usize = 960;

/// Sample rate of every frame handled by the library.
pub const SAMPLE_RATE: usize = 48000;

} // verus!

use vstd::prelude::*;

pub mod audio;
pub mod completion;
pub mod config;
pub mod engine;
pub mod job_queue;
pub mod pcm;
pub mod pipeline;
pub mod processor;
pub mod protocol;
pub mod segmenter;
pub mod stt;
pub mod text;
pub mod tracelog;
pub mod translation;
pub mod tts;

verus! {

} // verus!

//! Speech capture and transcription pipeline: sample handling, the capture
//! session, the transcription engine state, and the recording orchestrator.

pub mod text;
pub mod paths;
pub mod config;
pub mod models;
pub mod audio;
pub mod resample;
pub mod capture;
pub mod stt;
pub mod recording;
pub mod paste;
pub mod download;

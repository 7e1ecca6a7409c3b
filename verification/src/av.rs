//! Models of the audio-visual foundation surface.

pub mod audio;
pub mod media_format;

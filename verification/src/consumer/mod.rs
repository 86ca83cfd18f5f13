//! Audio consumers.

pub mod discord;
pub mod wav;
pub mod wav_laws;

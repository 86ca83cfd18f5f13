//! The logic of bardcast, an application that reads audio playing on the system
//! and streams it to a Discord voice chat or a file.

pub mod cfg;
pub mod cfg_laws;
pub mod consumer;
pub mod lifecycle;
pub mod lifecycle_laws;
pub mod snd;
pub mod util;

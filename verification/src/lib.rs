//! The rules behind a swear-jar chat bot: per-user swear patterns, swear
//! counters, and a daily points reward, with their contracts.

pub mod clock;
pub mod jar;
pub mod laws;
pub mod pattern;
pub mod saved;
pub mod text;

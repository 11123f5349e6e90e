//! Program events: their records, their bytes, and the decoder; and the
//! choices of a swap.

pub mod codec;
pub mod laws;
pub mod logs;
pub mod outside;
pub mod stream;
pub mod types;

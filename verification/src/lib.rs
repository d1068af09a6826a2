//! Streaming technical-analysis building blocks: the bookkeeping of
//! constant-memory rolling indicators and the band-crossing signal machine.
//!
//! Everything here is exact, discrete logic: which samples a window holds,
//! when an indicator has warmed up, which trade events a run of bars emits.
//! Prices themselves are carried as an opaque element type; the numeric
//! formulas that consume them live with the caller.

pub mod dmi;
pub mod ema;
pub mod ring;
pub mod signal;
pub mod window;

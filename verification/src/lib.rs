//! Live-patching core for ARM64 plugin modules.
//!
//! The crate models the engine that rewrites and intercepts machine code of a
//! running executable: resolving logical memory regions to runtime addresses,
//! building byte patches, synthesizing `B`/`BL` branch instructions within the
//! architectural ±128 MiB displacement limit, decoding raw instruction words
//! for text-region scanning, and validating and planning hook installation.
//!
//! All decisions are made here and verified; the native primitives that carry
//! them out (the cross-process memory copy and the hook-engine entry points)
//! are driven by the surrounding unverified plumbing, which hands back plain
//! status values for this crate to interpret.

pub mod error;
pub mod hooks;
pub mod patching;
pub mod registers;
pub mod text_iter;

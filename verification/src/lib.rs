//! Action buffering and optimization for a document-layout pipeline.
//!
//! A layout algorithm emits low-level drawing and configuration
//! instructions (move the cursor, set the font, write text, draw a debug
//! outline). This crate collects them into a minimized, order-preserving
//! instruction stream: redundant state changes are coalesced, sub-layouts
//! are re-anchored into the parent coordinate frame, and the committed
//! stream is rendered into a compact textual encoding.

pub mod size;
pub mod render;
pub mod action;
pub mod buffer;
pub mod laws;

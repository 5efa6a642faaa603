//! Synchronisation core of a playback visualiser: a producer that decodes and
//! outputs audio publishes its position on a shared clock, and a renderer that
//! polls the clock at a fixed cadence decides each frame what to draw and when
//! to stop. Around the core sit the pieces of the audio tools that only compute:
//! tag names, tag lookup in decoded metadata and the tag aggregation tree.

pub mod aggregator;
pub mod beats;
pub mod clock;
pub mod formats;
pub mod metadata;
pub mod orchestrator;
pub mod overlay;
pub mod producer;
pub mod progress;
pub mod renderer;
pub mod report;
pub mod scan;
pub mod tags;
pub mod text;

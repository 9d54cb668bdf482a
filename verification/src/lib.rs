//! A deterministic, stateless scoring engine for human-vs-bot gameplay
//! telemetry.
//!
//! The engine exposes two pure classifiers. One decides whether a player's
//! guess accuracy and mean response latency are consistent with human
//! behaviour; the other rates, as an integer percentage, how often an
//! automated agent fooled a human. All arithmetic is truncating integer
//! arithmetic over explicitly sized unsigned types, chosen wide enough that
//! no intermediate product can overflow, and every result is proved equal to
//! its mathematical definition.

pub mod scoring;

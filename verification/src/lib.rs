//! Streaming-source resolution and playback orchestration for a chat bot:
//! catalog lookups, season and episode selection, mirror probing, direct
//! media extraction and a single-slot playback session.

pub mod browser;
pub mod catalog;
pub mod collage;
pub mod commands;
pub mod decimal;
pub mod encoding;
pub mod errors;
pub mod extractor;
pub mod lookups;
pub mod markup;
pub mod mirror;
pub mod pattern;
pub mod play;
pub mod playback;
pub mod resolver;
pub mod searchers;
pub mod selection;
pub mod text;
pub mod timeline;
pub mod votes;

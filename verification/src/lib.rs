//! Rustle: the verified core of a music streaming desktop player.
//!
//! The library holds the parts of the player that decide and compute:
//! navigation history and route transitions, window visibility
//! transitions, tray commands, queue and playback bookkeeping, page state,
//! the request encryption of the streaming service's web API, the parsing
//! of its JSON responses into model types, glyph atlas packing and the
//! lyrics timeline. Everything that talks to the network, the disk,
//! the GPU or the audio device lives in `app/`.

mod strings;
pub mod model;
pub mod codec;
pub mod crypto;
pub mod json;
pub mod text;
pub mod navigation;
pub mod window;
pub mod queue;
pub mod session;
pub mod lyrics;
pub mod atlas;
pub mod pages;
pub mod api;
pub mod i18n;
pub mod settings;
pub mod notice;
pub mod tray;
pub mod router;
pub mod message;

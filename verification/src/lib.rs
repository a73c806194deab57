//! Recording, storing and replaying visualization sessions.
//!
//! A recording is an ordered list of named visualizations. The library holds
//! the data model, its JSON layout, the collection of loaded recordings and
//! the replay protocol that streams them to a viewer one message at a time.

pub mod scalar;
pub mod widgets;
pub mod viz;
pub mod recording;
pub mod finite;
pub mod state;
pub mod duplicate;
pub mod ws_handler;
pub mod replay_laws;
pub mod json;
pub mod codec;
pub mod layout;
pub mod layout_laws;
pub mod bridge;
pub mod logger;
pub mod plotter;
pub mod threed;

//! The decisions of a crawler that walks a paginated listing, extracts the
//! paste of each item, decodes it to a torrent file and remembers what it has
//! saved. The library does no input or output of its own: the program around
//! it owns the queues, the network, the store and the output directory, and
//! asks the library what to do next.

pub mod artifact;
pub mod config;
pub mod decrypt_torrents;
pub mod extract_links;
pub mod fetch;
pub mod filter;
pub mod game;
pub mod listing;
pub mod markup;
pub mod paste;
pub mod persisted;
pub mod producer;
pub mod store;
pub mod termination;
pub mod text;

pub use config::{Config, DECRYPT_WORKERS, FETCH_WORKERS};
pub use filter::FilterType;
pub use game::Game;
pub use store::Record;

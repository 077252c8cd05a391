//! Decoder for a versioned binary tile-grid world save format.
//!
//! The crate is built from two layers. [`data_stream::DataStream`] is a
//! bounds-checked sequential little-endian reader over an immutable byte
//! buffer; it knows nothing about the world format. [`world_loader::WorldLoader`]
//! drives that cursor through the file grammar in a fixed stage order —
//! file-format header, world header, dimension validation, dense tile grid —
//! and assembles a [`world_loader::World`] or reports a classified
//! [`error::WorldLoadError`].
//!
//! The byte grammar itself is written down once, as the specification
//! functions of [`grammar`]; every decoding function is verified against
//! those functions, and [`encoder`] provides a canonical encoder together
//! with a proof that decoding inverts it.

pub mod data_stream;
pub mod encoder;
pub mod error;
pub mod grammar;
pub mod world_loader;

pub use data_stream::DataStream;
pub use error::WorldLoadError;
pub use world_loader::{Chest, ChestItem, NPC, Sign, Tile, TileEntity, World, WorldLoader};

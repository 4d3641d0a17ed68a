//! Pomarin resolves the assets of a scene: from the descriptors that a
//! configuration gives, it works out which textures, materials, meshes and
//! models have to be made, in which order, and keeps each of them once.
//!
//! - [`names`] holds the typed names, [`assets`] the catalog of descriptors
//!   and [`store`] the caches of what was made.
//! - [`loader`] resolves a name to its resource. It decides only: what has
//!   to be made on the device it asks for, and takes back with `install`.
//! - [`laws`] states what holds of resolution for every catalog and store.
//!
//! The library is generic in what the device makes: it carries textures,
//! buffers, bind groups and pipelines, and never looks inside them.

pub mod assets;
pub mod controls;
pub mod error;
pub mod event;
pub mod geometry;
pub mod instance;
pub mod laws;
pub mod loader;
pub mod material;
pub mod mesh;
pub mod model;
pub mod names;
pub mod pipeline;
pub mod store;
pub mod text;
pub mod texture;

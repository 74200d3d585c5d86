//! Layout bookkeeping, widgets and renderer logic of the yakui GUI toolkit,
//! with their behaviour stated and proved.

pub mod absolute;
pub mod arena;
pub mod draw;
pub mod geometry;
pub mod id;
pub mod layout;
pub mod layout_store;
pub mod mesh;
pub mod pipeline_cache;
pub mod texture_sync;
pub mod textures;
pub mod positions;

//! A small stereoscopic scene: a typed asset cache, materials, shapes and
//! models, and the per-frame plan of commands that drives a GPU backend.

pub mod asset_server;
pub mod gpu;
pub mod model;
pub mod frame;

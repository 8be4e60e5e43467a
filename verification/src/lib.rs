//! A frame-scoped rendering context: world-space draw requests become backend draw calls.

pub mod backend;
pub mod camera_handler;
pub mod geometry;
pub mod graphics;
pub mod mesh;
pub mod render_context;
pub mod shape_render;
pub mod title;

//! Caching, population counting and camera control for a forward renderer.
//!
//! The library holds the decisions of a rendering layer that sits on top of a
//! raw GPU interface: which resources are built and which are reused, when a
//! family of shader programs is torn down, how a camera handler reacts to
//! input in each of its states, and which draw call a surface issues. The GPU
//! work itself is done by the caller, through the closures and the commands
//! that the functions here take and return.

pub mod camerahandler;
pub mod cache;
pub mod context;
pub mod population;
pub mod mesh;
pub mod surface;
pub mod forward_mesh;
pub mod uv_material;

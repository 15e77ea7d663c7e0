//! Verified core of a small orbit-camera scene renderer: sphere mesh
//! topology, the uniform block layout, cubemap container loading, surface
//! sizing and per-frame orchestration decisions.

pub mod mesh;
pub mod texture;
pub mod uniforms;
pub mod query;
pub mod surface;
pub mod frame;
pub mod host;

pub use query::parse_url_query_string;

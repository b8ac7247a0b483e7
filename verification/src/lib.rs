//! Glyph meshes for a rendering engine on the far side of a function-call
//! boundary.
//!
//! A request names a font (as bytes), a code point and a quality level. The
//! font engine that parses the bytes, looks the glyph up and runs the
//! triangulation lives outside this crate; what is decided about its answers
//! lives here: which code points are accepted, which outlines go to the
//! triangulator, which of its answers count as a mesh, what the caller gets to
//! read, and which failure each stage reports.

pub mod buffer;
pub mod codepoint;
pub mod conversion;
pub mod error;
pub mod mesh;
pub mod outline;
pub mod vector;

pub use crate::buffer::{export, BufferVec2};
pub use crate::conversion::{char_mesh_2d, Action, Conversion, EngineFailure, Event};
pub use crate::error::MeshError;
pub use crate::mesh::{Face, Mesh2D};
pub use crate::outline::Outline;
pub use crate::vector::Vector2;

//! Logic of a windowed renderer that shows one image on a full-screen quad:
//! the quad's geometry, the state of the frame loop and the shape of the
//! texture that is uploaded.

pub mod frame;
pub mod geometry;
pub mod texture;

pub use frame::{Event, EventAction, FrameState, Key};
pub use geometry::{create_vertices_indices, Vertex};
pub use texture::{texture_extent, Texture, TextureError};

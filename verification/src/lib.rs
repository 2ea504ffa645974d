//! Loader for the MDL binary 3D model format.
//!
//! The crate has two layers. `decode` turns a raw byte buffer into a
//! structured [`model::MDLFile`] according to the fixed little-endian layout
//! of the format; `build` turns a decoded model into a [`mesh::Mesh`], a
//! bundle of GPU-upload-ready byte buffers with layout metadata. Both are
//! pure transforms with full functional contracts; reading the bytes from
//! disk and handing the mesh to a renderer is left to callers.

pub mod decode;
pub mod mesh;
pub mod model;

pub use mesh::build;
pub use mesh::color_vertex_layout;
pub use mesh::frame_vertex_layout;
pub use mesh::ColorVertex;
pub use mesh::FrameVertex;
pub use mesh::Mesh;
pub use mesh::MeshView;
pub use mesh::Vertex;
pub use mesh::VertexAttribute;
pub use mesh::VertexBufferLayout;
pub use mesh::VertexFormat;
pub use decode::decode;
pub use model::BuildError;
pub use model::Flags;
pub use model::FormatError;
pub use model::Frame;
pub use model::MDLFile;
pub use model::ModelView;
pub use model::Vec2;
pub use model::Vec3;
pub use model::VertexInternal;
pub use model::RGBA;

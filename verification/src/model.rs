//! The decoded in-memory representation of an MDL file, its mathematical
//! view, and the error taxonomy of the two pipeline stages.
//!
//! The wire format stores positions, normals and texture coordinates as
//! 32-bit IEEE 754 floats. Neither the decoder nor the mesh builder ever
//! interprets these numerically: they are moved byte-for-byte from the file
//! into the packed buffers. The component types therefore hold each float as
//! its raw 32-bit little-endian bit pattern (`u32`), which keeps every
//! transform exact and fully specifiable.

use vstd::prelude::*;

verus! {

/// A texture coordinate: two 32-bit float bit patterns.
#[derive(Clone, Copy, Debug, PartialEq, Eq, Structural)]
pub struct Vec2 {
    pub x: u32,
    pub y: u32,
}

/// A position or normal: three 32-bit float bit patterns.
#[derive(Clone, Copy, Debug, PartialEq, Eq, Structural)]
pub struct Vec3 {
    pub x: u32,
    pub y: u32,
    pub z: u32,
}

/// A per-vertex color, one byte per channel.
#[derive(Clone, Copy, Debug, PartialEq, Eq, Structural)]
pub struct RGBA {
    pub r: u8,
    pub g: u8,
    pub b: u8,
    pub a: u8,
}

/// The header bitfield, unpacked once at decode time.
///
/// Bit 0 is `norm`, bit 1 is `txtr`, bit 2 is `clrs`; bits 3 to 7 are
/// reserved. The reserved bits have no effect on decoding but are preserved
/// so that the byte can be reconstructed exactly.
#[derive(Clone, Copy, Debug, PartialEq, Eq, Structural)]
pub struct Flags {
    pub norm: bool,
    pub txtr: bool,
    pub clrs: bool,
    pub unk0: bool,
    pub unk1: bool,
    pub unk2: bool,
    pub unk3: bool,
    pub unk4: bool,
}

/// One vertex of one animation frame: a position and, when the file's
/// `norm` flag is set, a normal. The flag is read once per file, so within
/// a model the normal is present either on every vertex or on none.
#[derive(Clone, Copy, Debug, PartialEq, Eq)]
pub struct VertexInternal {
    pub position: Vec3,
    pub normals: Option<Vec3>,
}

/// One animation keyframe: the per-vertex data for every vertex of the
/// model, in vertex order.
#[derive(Clone, Debug, PartialEq, Eq)]
pub struct Frame {
    pub vertex_buff: Vec<VertexInternal>,
}

/// A fully decoded MDL file.
///
/// `texture_cords` is present exactly when `flags.txtr` is set, and
/// `colors` exactly when `flags.clrs` is set; both then hold `vertex_count`
/// entries. `indexs` holds `index_count` entries and `frames` holds
/// `frame_count` entries of `vertex_count` vertices each. These invariants
/// hold of every model the decoder returns (see `model_wf`); the mesh
/// builder re-checks the lengths rather than trust its caller.
#[derive(Clone, Debug, PartialEq, Eq)]
pub struct MDLFile {
    pub flags: Flags,
    pub idx_per_face: u8,
    pub vertex_count: u16,
    pub frame_count: u16,
    pub texture_cords: Option<Vec<Vec2>>,
    pub colors: Option<Vec<RGBA>>,
    pub index_count: u16,
    pub indexs: Vec<u16>,
    pub frames: Vec<Frame>,
}

/// The mathematical view of an [`MDLFile`]: the same fields with every
/// vector abstracted to a sequence, and each frame to its vertex sequence.
#[verifier::ext_equal]
pub ghost struct ModelView {
    pub flags: Flags,
    pub idx_per_face: u8,
    pub vertex_count: u16,
    pub frame_count: u16,
    pub texture_cords: Option<Seq<Vec2>>,
    pub colors: Option<Seq<RGBA>>,
    pub index_count: u16,
    pub indexs: Seq<u16>,
    pub frames: Seq<Seq<VertexInternal>>,
}

impl View for MDLFile {
    type V = ModelView;

    open spec fn view(&self) -> ModelView {
        ModelView {
            flags: self.flags,
            idx_per_face: self.idx_per_face,
            vertex_count: self.vertex_count,
            frame_count: self.frame_count,
            texture_cords: match self.texture_cords {
                Option::Some(v) => Option::Some(v@),
                Option::None => Option::None,
            },
            colors: match self.colors {
                Option::Some(v) => Option::Some(v@),
                Option::None => Option::None,
            },
            index_count: self.index_count,
            indexs: self.indexs@,
            frames: Seq::new(self.frames@.len(), |i: int| self.frames@[i].vertex_buff@),
        }
    }
}

/// The structural invariants of a decoded model: optional sections are
/// present exactly as the flags demand, every array length agrees with its
/// governing count, and normals are present uniformly across all frames.
pub open spec fn model_wf(m: ModelView) -> bool {
    &&& (m.texture_cords is Some <==> m.flags.txtr)
    &&& (m.colors is Some <==> m.flags.clrs)
    &&& lengths_consistent(m)
    &&& forall|f: int, v: int|
        0 <= f < m.frames.len() && 0 <= v < m.frames[f].len()
            ==> (#[trigger] m.frames[f][v].normals is Some <==> m.flags.norm)
}

/// Every array length agrees with its governing header count. This is the
/// part of well-formedness the mesh builder re-checks defensively: a model
/// assembled by hand rather than by the decoder may violate it.
pub open spec fn lengths_consistent(m: ModelView) -> bool {
    &&& match m.texture_cords {
        Option::Some(s) => s.len() == m.vertex_count,
        Option::None => true,
    }
    &&& match m.colors {
        Option::Some(s) => s.len() == m.vertex_count,
        Option::None => true,
    }
    &&& m.indexs.len() == m.index_count
    &&& m.frames.len() == m.frame_count
    &&& forall|f: int| 0 <= f < m.frames.len() ==> #[trigger] m.frames[f].len() == m.vertex_count
}

/// A structural fault found while decoding a byte buffer.
#[derive(Clone, Copy, Debug, PartialEq, Eq, Structural)]
pub enum FormatError {
    /// The first four bytes are not the `MDL\0` marker.
    BadMagic,
    /// Fewer bytes remain than a field or array requires.
    Truncated,
    /// The underlying read of the source failed. The byte decoder never
    /// produces this; callers that read the bytes from a file report a
    /// failed read with it.
    Io,
}

/// A fault found while building mesh buffers from a model.
#[derive(Clone, Copy, Debug, PartialEq, Eq, Structural)]
pub enum BuildError {
    /// The model has zero vertices or zero frames.
    EmptyModel,
    /// An array's length disagrees with its governing count.
    InconsistentLengths,
}

} // verus!

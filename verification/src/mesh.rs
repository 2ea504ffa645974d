//! The mesh builder: packs a decoded model into GPU-upload-ready byte
//! buffers.
//!
//! A mesh bundles three buffers. The fixed buffer holds the attributes
//! that do not vary across frames: the texture coordinates, when present,
//! followed by the colors, when present, byte-exact as they stood in the
//! file. The frame buffer holds every frame's positions and normals at a
//! uniform stride of 24 bytes per vertex — a missing normal is zero-filled
//! so that every frame occupies the same `vertex_count * 24` bytes. The
//! index buffer holds the raw 16-bit little-endian indices. The two
//! vertex-layout descriptions a renderer needs to read those buffers are
//! exposed as plain data, not tied to any graphics API type.

use vstd::prelude::*;

use crate::model::BuildError;
use crate::model::Frame;
use crate::model::MDLFile;
use crate::model::ModelView;
use crate::model::Vec2;
use crate::model::Vec3;
use crate::model::VertexInternal;
use crate::model::RGBA;

verus! {

/// GPU-upload-ready buffers and layout metadata derived from one model.
#[derive(Clone, Debug, PartialEq, Eq)]
pub struct Mesh {
    pub fixed_buffer: Vec<u8>,
    pub frame_buffer: Vec<u8>,
    pub index_buffer: Vec<u8>,
    pub num_elements: u32,
    pub num_frames: u32,
    pub frame_stride: u32,
}

/// The mathematical view of a [`Mesh`]: each buffer as a byte sequence.
#[verifier::ext_equal]
pub ghost struct MeshView {
    pub fixed_buffer: Seq<u8>,
    pub frame_buffer: Seq<u8>,
    pub index_buffer: Seq<u8>,
    pub num_elements: u32,
    pub num_frames: u32,
    pub frame_stride: u32,
}

impl View for Mesh {
    type V = MeshView;

    open spec fn view(&self) -> MeshView {
        MeshView {
            fixed_buffer: self.fixed_buffer@,
            frame_buffer: self.frame_buffer@,
            index_buffer: self.index_buffer@,
            num_elements: self.num_elements,
            num_frames: self.num_frames,
            frame_stride: self.frame_stride,
        }
    }
}

/// The attribute format of one vertex attribute, named after the formats
/// the buffers actually use: three 32-bit floats, or four normalized bytes.
#[derive(Clone, Copy, Debug, PartialEq, Eq, Structural)]
pub enum VertexFormat {
    Float32x3,
    Unorm8x4,
}

/// One attribute of a vertex record: where it starts within the record,
/// which shader slot it feeds, and its format.
#[derive(Clone, Copy, Debug, PartialEq, Eq, Structural)]
pub struct VertexAttribute {
    pub offset: u64,
    pub shader_location: u32,
    pub format: VertexFormat,
}

/// The layout of one packed vertex buffer: the byte distance between
/// consecutive records and the attributes of each record. Pure metadata
/// for a renderer to translate into its own pipeline description.
#[derive(Clone, Debug, PartialEq, Eq)]
pub struct VertexBufferLayout {
    pub array_stride: u64,
    pub attributes: Vec<VertexAttribute>,
}

/// A vertex kind that can describe the layout of the buffer holding it.
pub trait Vertex {
    fn desc() -> VertexBufferLayout;
}

/// One record of the frame buffer: a position and a normal, as float bit
/// patterns, 24 bytes in all.
#[derive(Clone, Copy, Debug, PartialEq, Eq, Structural)]
pub struct FrameVertex {
    pub position: Vec3,
    pub normal: Vec3,
}

/// One record of the fixed buffer's color section: four color bytes.
#[derive(Clone, Copy, Debug, PartialEq, Eq, Structural)]
pub struct ColorVertex {
    pub color: RGBA,
}

/// The layout of the frame buffer: two consecutive 3-float attributes,
/// position then normal, at a 24-byte stride.
pub fn frame_vertex_layout() -> (r: VertexBufferLayout)
    ensures
        r.array_stride == 24,
        r.attributes@.len() == 2,
        r.attributes@[0] == (VertexAttribute {
            offset: 0,
            shader_location: 0,
            format: VertexFormat::Float32x3,
        }),
        r.attributes@[1] == (VertexAttribute {
            offset: 12,
            shader_location: 1,
            format: VertexFormat::Float32x3,
        }),
{
    let mut attributes: Vec<VertexAttribute> = Vec::new();
    attributes.push(VertexAttribute { offset: 0, shader_location: 0, format: VertexFormat::Float32x3 });
    attributes.push(
        VertexAttribute { offset: 12, shader_location: 1, format: VertexFormat::Float32x3 },
    );
    VertexBufferLayout { array_stride: 24, attributes }
}

/// The layout of the fixed buffer's color section: one 4-byte
/// unsigned-normalized color attribute at a 4-byte stride.
pub fn color_vertex_layout() -> (r: VertexBufferLayout)
    ensures
        r.array_stride == 4,
        r.attributes@.len() == 1,
        r.attributes@[0] == (VertexAttribute {
            offset: 0,
            shader_location: 0,
            format: VertexFormat::Unorm8x4,
        }),
{
    let mut attributes: Vec<VertexAttribute> = Vec::new();
    attributes.push(VertexAttribute { offset: 0, shader_location: 0, format: VertexFormat::Unorm8x4 });
    VertexBufferLayout { array_stride: 4, attributes }
}

impl Vertex for FrameVertex {
    fn desc() -> VertexBufferLayout {
        frame_vertex_layout()
    }
}

impl Vertex for ColorVertex {
    fn desc() -> VertexBufferLayout {
        color_vertex_layout()
    }
}

/// The four little-endian bytes of a 32-bit value.
pub open spec fn u32_le_bytes(x: u32) -> Seq<u8> {
    seq![
        (x % 256) as u8,
        ((x / 256) % 256) as u8,
        ((x / 65536) % 256) as u8,
        ((x / 16777216) % 256) as u8,
    ]
}

/// The two little-endian bytes of a 16-bit value.
pub open spec fn u16_le_bytes(x: u16) -> Seq<u8> {
    seq![(x % 256) as u8, (x / 256) as u8]
}

/// The 8 packed bytes of a texture coordinate.
pub open spec fn vec2_bytes(p: Vec2) -> Seq<u8> {
    u32_le_bytes(p.x) + u32_le_bytes(p.y)
}

/// The 12 packed bytes of a position or normal.
pub open spec fn vec3_bytes(p: Vec3) -> Seq<u8> {
    u32_le_bytes(p.x) + u32_le_bytes(p.y) + u32_le_bytes(p.z)
}

/// The 4 packed bytes of a color.
pub open spec fn rgba_bytes(c: RGBA) -> Seq<u8> {
    seq![c.r, c.g, c.b, c.a]
}

/// The 24 packed bytes of one frame vertex: its position followed by its
/// normal, zero-filled when the model carries none, so that every vertex
/// occupies the same space.
pub open spec fn vert_bytes(v: VertexInternal) -> Seq<u8> {
    vec3_bytes(v.position) + match v.normals {
        Option::Some(nm) => vec3_bytes(nm),
        Option::None => vec3_bytes(Vec3 { x: 0, y: 0, z: 0 }),
    }
}

/// The packed bytes of a texture-coordinate sequence, in order.
pub open spec fn vec2_seq_bytes(s: Seq<Vec2>) -> Seq<u8>
    decreases s.len(),
{
    if s.len() == 0 {
        Seq::empty()
    } else {
        vec2_seq_bytes(s.drop_last()) + vec2_bytes(s.last())
    }
}

/// The packed bytes of a color sequence, in order.
pub open spec fn rgba_seq_bytes(s: Seq<RGBA>) -> Seq<u8>
    decreases s.len(),
{
    if s.len() == 0 {
        Seq::empty()
    } else {
        rgba_seq_bytes(s.drop_last()) + rgba_bytes(s.last())
    }
}

/// The packed little-endian bytes of an index sequence, in order.
pub open spec fn u16_seq_bytes(s: Seq<u16>) -> Seq<u8>
    decreases s.len(),
{
    if s.len() == 0 {
        Seq::empty()
    } else {
        u16_seq_bytes(s.drop_last()) + u16_le_bytes(s.last())
    }
}

/// The packed bytes of one frame's vertices, in order.
pub open spec fn vert_seq_bytes(s: Seq<VertexInternal>) -> Seq<u8>
    decreases s.len(),
{
    if s.len() == 0 {
        Seq::empty()
    } else {
        vert_seq_bytes(s.drop_last()) + vert_bytes(s.last())
    }
}

/// The packed bytes of all frames, frame by frame in original order.
pub open spec fn frames_bytes(s: Seq<Seq<VertexInternal>>) -> Seq<u8>
    decreases s.len(),
{
    if s.len() == 0 {
        Seq::empty()
    } else {
        frames_bytes(s.drop_last()) + vert_seq_bytes(s.last())
    }
}

/// The fixed (non-animated) attribute bytes of a model: its texture
/// coordinates, when present, followed by its colors, when present.
pub open spec fn spec_fixed_bytes(m: ModelView) -> Seq<u8> {
    (match m.texture_cords {
        Option::Some(s) => vec2_seq_bytes(s),
        Option::None => Seq::empty(),
    }) + (match m.colors {
        Option::Some(s) => rgba_seq_bytes(s),
        Option::None => Seq::empty(),
    })
}

/// Building a mesh from `m` succeeds: the model is nonempty and its array
/// lengths agree with its header counts.
pub open spec fn build_ok(m: ModelView) -> bool {
    &&& m.vertex_count > 0
    &&& m.frame_count > 0
    &&& crate::model::lengths_consistent(m)
}

/// The error building from `m` reports when it fails: emptiness is
/// detected before any length is compared.
pub open spec fn spec_build_err(m: ModelView) -> BuildError {
    if m.vertex_count == 0 || m.frame_count == 0 {
        BuildError::EmptyModel
    } else {
        BuildError::InconsistentLengths
    }
}

/// The mesh a successful build of `m` yields, field by field.
pub open spec fn spec_mesh(m: ModelView) -> MeshView {
    MeshView {
        fixed_buffer: spec_fixed_bytes(m),
        frame_buffer: frames_bytes(m.frames),
        index_buffer: u16_seq_bytes(m.indexs),
        num_elements: m.index_count as u32,
        num_frames: m.frame_count as u32,
        frame_stride: (m.vertex_count * 24) as u32,
    }
}

/// The decoder already guarantees every length the builder re-checks: a
/// decoded model with at least one vertex and one frame always builds.
pub proof fn lemma_decoded_model_builds(b: Seq<u8>, m: ModelView)
    requires
        crate::decode::decodes_to(b, m),
        m.vertex_count > 0,
        m.frame_count > 0,
    ensures
        build_ok(m),
{
    crate::decode::lemma_decoded_model_wf(b, m);
}

fn push_u32_le(buf: &mut Vec<u8>, x: u32)
    ensures
        final(buf)@ == old(buf)@ + u32_le_bytes(x),
{
    buf.push((x % 256) as u8);
    buf.push(((x / 256) % 256) as u8);
    buf.push(((x / 65536) % 256) as u8);
    buf.push(((x / 16777216) % 256) as u8);
    assert(buf@ =~= old(buf)@ + u32_le_bytes(x));
}

fn push_u16_le(buf: &mut Vec<u8>, x: u16)
    ensures
        final(buf)@ == old(buf)@ + u16_le_bytes(x),
{
    buf.push((x % 256) as u8);
    buf.push((x / 256) as u8);
    assert(buf@ =~= old(buf)@ + u16_le_bytes(x));
}

fn push_vec3(buf: &mut Vec<u8>, p: Vec3)
    ensures
        final(buf)@ == old(buf)@ + vec3_bytes(p),
{
    push_u32_le(buf, p.x);
    push_u32_le(buf, p.y);
    push_u32_le(buf, p.z);
    assert(buf@ =~= old(buf)@ + vec3_bytes(p));
}

fn push_vert(buf: &mut Vec<u8>, v: VertexInternal)
    ensures
        final(buf)@ == old(buf)@ + vert_bytes(v),
{
    push_vec3(buf, v.position);
    match v.normals {
        Option::Some(nm) => push_vec3(buf, nm),
        Option::None => push_vec3(buf, Vec3 { x: 0, y: 0, z: 0 }),
    }
    assert(buf@ =~= old(buf)@ + vert_bytes(v));
}

proof fn lemma_vec2_seq_bytes_push(s: Seq<Vec2>, p: Vec2)
    ensures
        vec2_seq_bytes(s.push(p)) == vec2_seq_bytes(s) + vec2_bytes(p),
{
    assert(s.push(p).drop_last() =~= s);
    assert(s.push(p).last() == p);
}

proof fn lemma_rgba_seq_bytes_push(s: Seq<RGBA>, c: RGBA)
    ensures
        rgba_seq_bytes(s.push(c)) == rgba_seq_bytes(s) + rgba_bytes(c),
{
    assert(s.push(c).drop_last() =~= s);
    assert(s.push(c).last() == c);
}

proof fn lemma_u16_seq_bytes_push(s: Seq<u16>, x: u16)
    ensures
        u16_seq_bytes(s.push(x)) == u16_seq_bytes(s) + u16_le_bytes(x),
{
    assert(s.push(x).drop_last() =~= s);
    assert(s.push(x).last() == x);
}

proof fn lemma_vert_seq_bytes_push(s: Seq<VertexInternal>, v: VertexInternal)
    ensures
        vert_seq_bytes(s.push(v)) == vert_seq_bytes(s) + vert_bytes(v),
{
    assert(s.push(v).drop_last() =~= s);
    assert(s.push(v).last() == v);
}

proof fn lemma_frames_bytes_push(s: Seq<Seq<VertexInternal>>, fr: Seq<VertexInternal>)
    ensures
        frames_bytes(s.push(fr)) == frames_bytes(s) + vert_seq_bytes(fr),
{
    assert(s.push(fr).drop_last() =~= s);
    assert(s.push(fr).last() == fr);
}

/// One frame vertex always packs to 24 bytes, so one frame of `n` vertices
/// packs to `24 * n` bytes.
proof fn lemma_vert_seq_bytes_len(s: Seq<VertexInternal>)
    ensures
        vert_seq_bytes(s).len() == 24 * s.len(),
    decreases s.len(),
{
    if s.len() > 0 {
        lemma_vert_seq_bytes_len(s.drop_last());
    }
}

/// When every frame holds `vc` vertices, the packed frame data is
/// `s.len()` uniform blocks of `24 * vc` bytes.
proof fn lemma_frames_bytes_len(s: Seq<Seq<VertexInternal>>, vc: int)
    requires
        0 <= vc,
        forall|f: int| 0 <= f < s.len() ==> #[trigger] s[f].len() == vc,
    ensures
        frames_bytes(s).len() == s.len() * (24 * vc),
    decreases s.len(),
{
    if s.len() > 0 {
        assert(forall|f: int|
            0 <= f < s.drop_last().len() ==> #[trigger] s.drop_last()[f].len() == vc);
        lemma_frames_bytes_len(s.drop_last(), vc);
        lemma_vert_seq_bytes_len(s.last());
        assert(s.last().len() == vc);
        assert((s.len() - 1) * (24 * vc) + 24 * vc == s.len() * (24 * vc)) by (nonlinear_arith);
    }
}

/// Builds the GPU-upload-ready mesh buffers of a model.
///
/// Succeeds exactly when the model is nonempty and every array length
/// agrees with its governing count — the lengths are re-checked here
/// rather than trusted, since a model need not come from the decoder —
/// and then returns exactly the mesh [`spec_mesh`] determines. Fails with
/// `EmptyModel` exactly when the model has zero vertices or zero frames,
/// and with `InconsistentLengths` exactly when it is nonempty but some
/// length disagrees. The input model is never mutated.
#[verifier::loop_isolation(false)]
#[verifier::rlimit(100)]
pub fn build(model: &MDLFile) -> (r: Result<Mesh, BuildError>)
    ensures
        match r {
            Result::Ok(mesh) => {
                &&& build_ok(model@)
                &&& mesh@ == spec_mesh(model@)
                &&& mesh.frame_stride == model@.vertex_count * 24
                &&& mesh@.frame_buffer.len() == model@.frame_count * (model@.vertex_count
                    * 24)
            },
            Result::Err(e) => !build_ok(model@) && e == spec_build_err(model@),
        },
{
    if model.vertex_count == 0 || model.frame_count == 0 {
        return Result::Err(BuildError::EmptyModel);
    }
    let vc: usize = model.vertex_count as usize;

    // Defensive re-check of every array length against its header count.
    match &model.texture_cords {
        Option::Some(tc) => {
            if tc.len() != vc {
                return Result::Err(BuildError::InconsistentLengths);
            }
        },
        Option::None => {},
    }
    match &model.colors {
        Option::Some(cl) => {
            if cl.len() != vc {
                return Result::Err(BuildError::InconsistentLengths);
            }
        },
        Option::None => {},
    }
    if model.indexs.len() != model.index_count as usize {
        return Result::Err(BuildError::InconsistentLengths);
    }
    if model.frames.len() != model.frame_count as usize {
        return Result::Err(BuildError::InconsistentLengths);
    }
    let mut f: usize = 0;
    while f < model.frames.len()
        invariant
            f <= model.frames@.len(),
            forall|j: int| 0 <= j < f ==> #[trigger] model@.frames[j].len() == model@.vertex_count,
        decreases model.frames@.len() - f,
    {
        let fr: &Frame = &model.frames[f];
        if fr.vertex_buff.len() != vc {
            assert(model@.frames[f as int].len() != model@.vertex_count);
            return Result::Err(BuildError::InconsistentLengths);
        }
        f = f + 1;
    }
    assert(crate::model::lengths_consistent(model@));

    // Fixed buffer: texture coordinates, then colors, byte-exact.
    let ghost tex_part: Seq<u8> = match model@.texture_cords {
        Option::Some(s) => vec2_seq_bytes(s),
        Option::None => Seq::empty(),
    };
    let mut fixed_buffer: Vec<u8> = Vec::new();
    match &model.texture_cords {
        Option::Some(tc) => {
            let mut i: usize = 0;
            while i < tc.len()
                invariant
                    i <= tc@.len(),
                    fixed_buffer@ == vec2_seq_bytes(tc@.take(i as int)),
                decreases tc@.len() - i,
            {
                let p: Vec2 = tc[i];
                push_u32_le(&mut fixed_buffer, p.x);
                push_u32_le(&mut fixed_buffer, p.y);
                proof {
                    lemma_vec2_seq_bytes_push(tc@.take(i as int), tc@[i as int]);
                    assert(tc@.take(i as int).push(tc@[i as int]) =~= tc@.take(i as int + 1));
                    assert(fixed_buffer@ =~= vec2_seq_bytes(tc@.take(i as int + 1)));
                }
                i = i + 1;
            }
            assert(tc@.take(tc@.len() as int) =~= tc@);
        },
        Option::None => {},
    }
    assert(fixed_buffer@ == tex_part);
    match &model.colors {
        Option::Some(cl) => {
            let mut i: usize = 0;
            while i < cl.len()
                invariant
                    i <= cl@.len(),
                    fixed_buffer@ == tex_part + rgba_seq_bytes(cl@.take(i as int)),
                decreases cl@.len() - i,
            {
                let c: RGBA = cl[i];
                fixed_buffer.push(c.r);
                fixed_buffer.push(c.g);
                fixed_buffer.push(c.b);
                fixed_buffer.push(c.a);
                proof {
                    lemma_rgba_seq_bytes_push(cl@.take(i as int), cl@[i as int]);
                    assert(cl@.take(i as int).push(cl@[i as int]) =~= cl@.take(i as int + 1));
                    assert(fixed_buffer@ =~= tex_part + rgba_seq_bytes(cl@.take(i as int + 1)));
                }
                i = i + 1;
            }
            assert(cl@.take(cl@.len() as int) =~= cl@);
        },
        Option::None => {
            assert(fixed_buffer@ =~= tex_part + Seq::<u8>::empty());
        },
    }
    assert(fixed_buffer@ == spec_fixed_bytes(model@));

    // Frame buffer: every frame's vertices at a uniform 24-byte stride.
    let mut frame_buffer: Vec<u8> = Vec::new();
    let mut f: usize = 0;
    while f < model.frames.len()
        invariant
            f <= model.frames@.len(),
            frame_buffer@ == frames_bytes(model@.frames.take(f as int)),
        decreases model.frames@.len() - f,
    {
        let fr: &Frame = &model.frames[f];
        let mut v: usize = 0;
        while v < fr.vertex_buff.len()
            invariant
                v <= fr.vertex_buff@.len(),
                f < model.frames@.len(),
                frame_buffer@ == frames_bytes(model@.frames.take(f as int)) + vert_seq_bytes(
                    fr.vertex_buff@.take(v as int),
                ),
            decreases fr.vertex_buff@.len() - v,
        {
            let vert: VertexInternal = fr.vertex_buff[v];
            push_vert(&mut frame_buffer, vert);
            proof {
                lemma_vert_seq_bytes_push(fr.vertex_buff@.take(v as int), fr.vertex_buff@[v as int]);
                assert(fr.vertex_buff@.take(v as int).push(fr.vertex_buff@[v as int]) =~= fr
                    .vertex_buff@.take(v as int + 1));
                assert(frame_buffer@ =~= frames_bytes(model@.frames.take(f as int))
                    + vert_seq_bytes(fr.vertex_buff@.take(v as int + 1)));
            }
            v = v + 1;
        }
        proof {
            assert(fr.vertex_buff@.take(fr.vertex_buff@.len() as int) =~= fr.vertex_buff@);
            lemma_frames_bytes_push(model@.frames.take(f as int), model@.frames[f as int]);
            assert(model@.frames.take(f as int).push(model@.frames[f as int]) =~= model@
                .frames.take(f as int + 1));
            assert(model@.frames[f as int] == fr.vertex_buff@);
            assert(frame_buffer@ =~= frames_bytes(model@.frames.take(f as int + 1)));
        }
        f = f + 1;
    }
    assert(model@.frames.take(model@.frames.len() as int) =~= model@.frames);
    assert(frame_buffer@ == frames_bytes(model@.frames));

    // Index buffer: the raw 16-bit little-endian index sequence.
    let mut index_buffer: Vec<u8> = Vec::new();
    let mut i: usize = 0;
    while i < model.indexs.len()
        invariant
            i <= model.indexs@.len(),
            index_buffer@ == u16_seq_bytes(model@.indexs.take(i as int)),
        decreases model.indexs@.len() - i,
    {
        let x: u16 = model.indexs[i];
        push_u16_le(&mut index_buffer, x);
        proof {
            lemma_u16_seq_bytes_push(model@.indexs.take(i as int), model@.indexs[i as int]);
            assert(model@.indexs.take(i as int).push(model@.indexs[i as int]) =~= model@
                .indexs.take(i as int + 1));
            assert(index_buffer@ =~= u16_seq_bytes(model@.indexs.take(i as int + 1)));
        }
        i = i + 1;
    }
    assert(model@.indexs.take(model@.indexs.len() as int) =~= model@.indexs);
    assert(index_buffer@ == u16_seq_bytes(model@.indexs));

    proof {
        lemma_frames_bytes_len(model@.frames, model@.vertex_count as int);
    }
    let frame_stride: u32 = model.vertex_count as u32 * 24;
    let mesh = Mesh {
        fixed_buffer,
        frame_buffer,
        index_buffer,
        num_elements: model.index_count as u32,
        num_frames: model.frame_count as u32,
        frame_stride,
    };
    assert(mesh@ =~~= spec_mesh(model@));
    Result::Ok(mesh)
}

} // verus!

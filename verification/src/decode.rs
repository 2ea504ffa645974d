//! The binary decoder: a pure function from a byte buffer to a structured
//! model.
//!
//! The layout is strictly sequential and little-endian: a 4-byte magic
//! marker, a flags byte, the face index arity, two 16-bit counts, then —
//! gated on the flags — texture coordinates and colors, the index list, and
//! finally `frame_count` frames of `vertex_count` vertices each, a vertex
//! being 12 bytes of position plus 12 bytes of normal when the `norm` flag
//! is set. The spec functions below mirror that layout field by field;
//! `decode` is proved to return exactly the model they describe, or the
//! exact error `spec_decode_err` names, and nothing else.

use vstd::prelude::*;

use vstd::arithmetic::mul::lemma_mul_is_distributive_add_other_way;
use vstd::arithmetic::mul::lemma_mul_nonnegative;

use crate::model::model_wf;
use crate::model::Flags;
use crate::model::FormatError;
use crate::model::Frame;
use crate::model::MDLFile;
use crate::model::ModelView;
use crate::model::Vec2;
use crate::model::Vec3;
use crate::model::VertexInternal;
use crate::model::RGBA;

verus! {

/// The 16-bit little-endian value stored at byte offset `i`.
pub open spec fn le16_at(b: Seq<u8>, i: int) -> u16 {
    (b[i] + b[i + 1] * 256) as u16
}

/// The 32-bit little-endian value stored at byte offset `i`.
pub open spec fn le32_at(b: Seq<u8>, i: int) -> u32 {
    (b[i] + b[i + 1] * 256 + b[i + 2] * 65536 + b[i + 3] * 16777216) as u32
}

/// The flags encoded by the header byte, bit 0 upward.
pub open spec fn spec_flags(x: u8) -> Flags {
    Flags {
        norm: x & 0x01 != 0,
        txtr: x & 0x02 != 0,
        clrs: x & 0x04 != 0,
        unk0: x & 0x08 != 0,
        unk1: x & 0x10 != 0,
        unk2: x & 0x20 != 0,
        unk3: x & 0x40 != 0,
        unk4: x & 0x80 != 0,
    }
}

/// The buffer starts with the marker bytes `MDL\0`.
pub open spec fn magic_ok(b: Seq<u8>) -> bool {
    &&& b[0] == 0x4d
    &&& b[1] == 0x44
    &&& b[2] == 0x4c
    &&& b[3] == 0x00
}

pub open spec fn spec_flags_of(b: Seq<u8>) -> Flags {
    spec_flags(b[4])
}

pub open spec fn spec_vertex_count(b: Seq<u8>) -> u16 {
    le16_at(b, 6)
}

pub open spec fn spec_frame_count(b: Seq<u8>) -> u16 {
    le16_at(b, 8)
}

/// Byte length of the texture-coordinate section: 8 bytes per vertex when
/// present, nothing otherwise. The section starts right after the 10-byte
/// header.
pub open spec fn tex_len(b: Seq<u8>) -> int {
    if spec_flags_of(b).txtr {
        spec_vertex_count(b) * 8
    } else {
        0
    }
}

/// Byte offset of the color section.
pub open spec fn col_off(b: Seq<u8>) -> int {
    10 + tex_len(b)
}

/// Byte length of the color section: 4 bytes per vertex when present.
pub open spec fn col_len(b: Seq<u8>) -> int {
    if spec_flags_of(b).clrs {
        spec_vertex_count(b) * 4
    } else {
        0
    }
}

/// Byte offset of the 16-bit index count.
pub open spec fn index_count_off(b: Seq<u8>) -> int {
    col_off(b) + col_len(b)
}

pub open spec fn spec_index_count(b: Seq<u8>) -> u16 {
    le16_at(b, index_count_off(b))
}

/// Byte offset of the index list.
pub open spec fn indices_off(b: Seq<u8>) -> int {
    index_count_off(b) + 2
}

/// Byte offset of the frame data.
pub open spec fn frames_off(b: Seq<u8>) -> int {
    indices_off(b) + spec_index_count(b) * 2
}

/// Byte size of one frame vertex: position plus, with the `norm` flag, a
/// normal.
pub open spec fn vertex_size(b: Seq<u8>) -> int {
    if spec_flags_of(b).norm {
        24
    } else {
        12
    }
}

/// Byte size of all frame data.
pub open spec fn frames_len(b: Seq<u8>) -> int {
    spec_frame_count(b) * (spec_vertex_count(b) * vertex_size(b))
}

/// The number of bytes the file declares: the offset one past its last
/// frame vertex.
pub open spec fn total_len(b: Seq<u8>) -> int {
    frames_off(b) + frames_len(b)
}

/// Decoding `b` succeeds: the marker matches and the buffer reaches the
/// declared end. Trailing bytes beyond `total_len` are ignored.
pub open spec fn decode_ok(b: Seq<u8>) -> bool {
    &&& b.len() >= 10
    &&& magic_ok(b)
    &&& b.len() >= index_count_off(b) + 2
    &&& b.len() >= total_len(b)
}

/// The error decoding `b` reports when it fails: `BadMagic` exactly when
/// all four marker bytes are readable but wrong, `Truncated` for every
/// short read.
pub open spec fn spec_decode_err(b: Seq<u8>) -> FormatError {
    if b.len() >= 4 && !magic_ok(b) {
        FormatError::BadMagic
    } else {
        FormatError::Truncated
    }
}

/// The texture coordinate stored at byte offset `i`.
pub open spec fn spec_vec2_at(b: Seq<u8>, i: int) -> Vec2 {
    Vec2 { x: le32_at(b, i), y: le32_at(b, i + 4) }
}

/// The position or normal stored at byte offset `i`.
pub open spec fn spec_vec3_at(b: Seq<u8>, i: int) -> Vec3 {
    Vec3 { x: le32_at(b, i), y: le32_at(b, i + 4), z: le32_at(b, i + 8) }
}

/// The color stored at byte offset `i`.
pub open spec fn spec_rgba_at(b: Seq<u8>, i: int) -> RGBA {
    RGBA { r: b[i], g: b[i + 1], b: b[i + 2], a: b[i + 3] }
}

/// The frame vertex stored at byte offset `i`.
pub open spec fn spec_vertex_at(b: Seq<u8>, i: int, norm: bool) -> VertexInternal {
    VertexInternal {
        position: spec_vec3_at(b, i),
        normals: if norm {
            Option::Some(spec_vec3_at(b, i + 12))
        } else {
            Option::None
        },
    }
}

/// Byte offset of vertex `v` of frame `f`.
pub open spec fn vert_off(b: Seq<u8>, f: int, v: int) -> int {
    frames_off(b) + f * (spec_vertex_count(b) * vertex_size(b)) + v * vertex_size(b)
}

/// The vertex sequence of frame `f`.
pub open spec fn spec_frame_at(b: Seq<u8>, f: int) -> Seq<VertexInternal> {
    Seq::new(
        spec_vertex_count(b) as nat,
        |v: int| spec_vertex_at(b, vert_off(b, f, v), spec_flags_of(b).norm),
    )
}

/// The model a successful decode of `b` yields, field by field.
pub open spec fn spec_model(b: Seq<u8>) -> ModelView {
    ModelView {
        flags: spec_flags_of(b),
        idx_per_face: b[5],
        vertex_count: spec_vertex_count(b),
        frame_count: spec_frame_count(b),
        texture_cords: if spec_flags_of(b).txtr {
            Option::Some(
                Seq::new(spec_vertex_count(b) as nat, |i: int| spec_vec2_at(b, 10 + 8 * i)),
            )
        } else {
            Option::None
        },
        colors: if spec_flags_of(b).clrs {
            Option::Some(
                Seq::new(
                    spec_vertex_count(b) as nat,
                    |i: int| spec_rgba_at(b, col_off(b) + 4 * i),
                ),
            )
        } else {
            Option::None
        },
        index_count: spec_index_count(b),
        indexs: Seq::new(
            spec_index_count(b) as nat,
            |i: int| le16_at(b, indices_off(b) + 2 * i),
        ),
        frames: Seq::new(spec_frame_count(b) as nat, |f: int| spec_frame_at(b, f)),
    }
}

/// Decoding `b` yields exactly the model `m`: it succeeds, and `m` is the
/// model the byte layout determines.
pub open spec fn decodes_to(b: Seq<u8>, m: ModelView) -> bool {
    &&& decode_ok(b)
    &&& m == spec_model(b)
}

fn read_u16_at(b: &Vec<u8>, i: usize) -> (r: u16)
    requires
        i + 2 <= b@.len(),
    ensures
        r == le16_at(b@, i as int),
{
    let _n: usize = b.len();
    b[i] as u16 + b[i + 1] as u16 * 256
}

fn read_u32_at(b: &Vec<u8>, i: usize) -> (r: u32)
    requires
        i + 4 <= b@.len(),
    ensures
        r == le32_at(b@, i as int),
{
    let _n: usize = b.len();
    b[i] as u32 + b[i + 1] as u32 * 256 + b[i + 2] as u32 * 65536 + b[i + 3] as u32 * 16777216
}

fn read_vec2_at(b: &Vec<u8>, i: usize) -> (r: Vec2)
    requires
        i + 8 <= b@.len(),
    ensures
        r == spec_vec2_at(b@, i as int),
{
    let _n: usize = b.len();
    Vec2 { x: read_u32_at(b, i), y: read_u32_at(b, i + 4) }
}

fn read_vec3_at(b: &Vec<u8>, i: usize) -> (r: Vec3)
    requires
        i + 12 <= b@.len(),
    ensures
        r == spec_vec3_at(b@, i as int),
{
    let _n: usize = b.len();
    Vec3 { x: read_u32_at(b, i), y: read_u32_at(b, i + 4), z: read_u32_at(b, i + 8) }
}

fn read_rgba_at(b: &Vec<u8>, i: usize) -> (r: RGBA)
    requires
        i + 4 <= b@.len(),
    ensures
        r == spec_rgba_at(b@, i as int),
{
    let _n: usize = b.len();
    RGBA { r: b[i], g: b[i + 1], b: b[i + 2], a: b[i + 3] }
}

/// Decodes a raw MDL byte buffer into a structured model.
///
/// Succeeds exactly when [`decode_ok`] holds of the bytes, and then returns
/// exactly the model [`spec_model`] determines; fails otherwise with the
/// exact error [`spec_decode_err`] names. The byte cursor advances
/// monotonically — no field is re-read or skipped — and bytes beyond the
/// declared end are ignored.
#[verifier::loop_isolation(false)]
#[verifier::rlimit(100)]
pub fn decode(bytes: &Vec<u8>) -> (r: Result<MDLFile, FormatError>)
    ensures
        match r {
            Result::Ok(m) => decodes_to(bytes@, m@),
            Result::Err(e) => !decode_ok(bytes@) && e == spec_decode_err(bytes@),
        },
{
    let n: usize = bytes.len();
    if n < 4 {
        return Result::Err(FormatError::Truncated);
    }
    if !(bytes[0] == 0x4d && bytes[1] == 0x44 && bytes[2] == 0x4c && bytes[3] == 0x00) {
        return Result::Err(FormatError::BadMagic);
    }
    if n < 10 {
        return Result::Err(FormatError::Truncated);
    }
    let flags_byte: u8 = bytes[4];
    let flags = Flags {
        norm: flags_byte & 0x01 != 0,
        txtr: flags_byte & 0x02 != 0,
        clrs: flags_byte & 0x04 != 0,
        unk0: flags_byte & 0x08 != 0,
        unk1: flags_byte & 0x10 != 0,
        unk2: flags_byte & 0x20 != 0,
        unk3: flags_byte & 0x40 != 0,
        unk4: flags_byte & 0x80 != 0,
    };
    assert(flags == spec_flags_of(bytes@));
    let idx_per_face: u8 = bytes[5];
    let vertex_count: u16 = read_u16_at(bytes, 6);
    let frame_count: u16 = read_u16_at(bytes, 8);
    let n64: u64 = n as u64;
    let vc: usize = vertex_count as usize;

    // Texture-coordinate section: vertex_count entries of 8 bytes, present
    // only with the txtr flag.
    let tex_need: u64 = if flags.txtr {
        vertex_count as u64 * 8
    } else {
        0
    };
    if n64 - 10 < tex_need {
        assert(bytes@.len() < index_count_off(bytes@) + 2);
        return Result::Err(FormatError::Truncated);
    }
    let tex_end: usize = if flags.txtr {
        10 + vc * 8
    } else {
        10
    };
    assert(tex_end == col_off(bytes@));
    let texture_cords: Option<Vec<Vec2>> = if flags.txtr {
        let mut tc: Vec<Vec2> = Vec::new();
        let mut i: usize = 0;
        while i < vc
            invariant
                i <= vc,
                tc@.len() == i,
                forall|j: int| 0 <= j < i ==> tc@[j] == spec_vec2_at(bytes@, 10 + 8 * j),
            decreases vc - i,
        {
            let p = read_vec2_at(bytes, 10 + i * 8);
            tc.push(p);
            i = i + 1;
        }
        assert(tc@ =~= Seq::new(
            spec_vertex_count(bytes@) as nat,
            |j: int| spec_vec2_at(bytes@, 10 + 8 * j),
        ));
        Option::Some(tc)
    } else {
        Option::None
    };
    assert(texture_cords is Some <==> spec_flags_of(bytes@).txtr);

    // Color section: vertex_count entries of 4 bytes, present only with the
    // clrs flag.
    let col_need: u64 = if flags.clrs {
        vertex_count as u64 * 4
    } else {
        0
    };
    if n64 - (tex_end as u64) < col_need {
        assert(bytes@.len() < index_count_off(bytes@) + 2);
        return Result::Err(FormatError::Truncated);
    }
    let col_end: usize = if flags.clrs {
        tex_end + vc * 4
    } else {
        tex_end
    };
    assert(col_end == index_count_off(bytes@));
    let colors: Option<Vec<RGBA>> = if flags.clrs {
        let mut cl: Vec<RGBA> = Vec::new();
        let mut i: usize = 0;
        while i < vc
            invariant
                i <= vc,
                cl@.len() == i,
                forall|j: int| 0 <= j < i ==> cl@[j] == spec_rgba_at(bytes@, col_off(bytes@) + 4 * j),
            decreases vc - i,
        {
            let c = read_rgba_at(bytes, tex_end + i * 4);
            cl.push(c);
            i = i + 1;
        }
        assert(cl@ =~= Seq::new(
            spec_vertex_count(bytes@) as nat,
            |j: int| spec_rgba_at(bytes@, col_off(bytes@) + 4 * j),
        ));
        Option::Some(cl)
    } else {
        Option::None
    };
    assert(colors is Some <==> spec_flags_of(bytes@).clrs);

    // Index list: a 16-bit count, then that many 16-bit indices.
    if n - col_end < 2 {
        return Result::Err(FormatError::Truncated);
    }
    let index_count: u16 = read_u16_at(bytes, col_end);
    assert(index_count == spec_index_count(bytes@));
    let idx_off: usize = col_end + 2;
    let ic: usize = index_count as usize;
    if n64 - (idx_off as u64) < (index_count as u64) * 2 {
        proof {
            lemma_mul_nonnegative(
                spec_frame_count(bytes@) as int,
                spec_vertex_count(bytes@) * vertex_size(bytes@),
            );
            lemma_mul_nonnegative(spec_vertex_count(bytes@) as int, vertex_size(bytes@));
        }
        return Result::Err(FormatError::Truncated);
    }
    let mut indexs: Vec<u16> = Vec::new();
    let mut i: usize = 0;
    while i < ic
        invariant
            i <= ic,
            indexs@.len() == i,
            forall|j: int| 0 <= j < i ==> indexs@[j] == le16_at(bytes@, indices_off(bytes@) + 2 * j),
        decreases ic - i,
    {
        let x = read_u16_at(bytes, idx_off + i * 2);
        indexs.push(x);
        i = i + 1;
    }
    assert(indexs@ =~= Seq::new(
        spec_index_count(bytes@) as nat,
        |j: int| le16_at(bytes@, indices_off(bytes@) + 2 * j),
    ));

    // Frame data: frame_count frames of vertex_count vertices, 12 bytes of
    // position each plus 12 bytes of normal when the norm flag is set.
    let vsize: usize = if flags.norm {
        24
    } else {
        12
    };
    assert(vsize == vertex_size(bytes@));
    assert(vertex_count as int * vsize as int <= 1572840) by (nonlinear_arith)
        requires
            0 <= vertex_count as int <= 65535,
            0 <= vsize as int <= 24,
    ;
    let per_frame: u64 = vertex_count as u64 * vsize as u64;
    assert(frame_count as int * per_frame as int <= 65535 * 1572840) by (nonlinear_arith)
        requires
            0 <= frame_count as int <= 65535,
            0 <= per_frame as int <= 1572840,
    ;
    let frames_need: u64 = frame_count as u64 * per_frame;
    let frames_start: usize = idx_off + ic * 2;
    assert(frames_start == frames_off(bytes@));
    assert(frames_need == frames_len(bytes@));
    if n64 - (frames_start as u64) < frames_need {
        return Result::Err(FormatError::Truncated);
    }
    assert(bytes@.len() >= total_len(bytes@));
    let ghost pf: int = spec_vertex_count(bytes@) * vertex_size(bytes@);
    let mut frames: Vec<Frame> = Vec::new();
    let mut f: usize = 0;
    let mut pos: usize = frames_start;
    while f < frame_count as usize
        invariant
            f <= frame_count,
            frames@.len() == f,
            forall|j: int| 0 <= j < f ==> #[trigger] frames@[j].vertex_buff@ == spec_frame_at(bytes@, j),
            pos == frames_off(bytes@) + f * pf,
        decreases frame_count as int - f,
    {
        let mut vb: Vec<VertexInternal> = Vec::new();
        let mut v: usize = 0;
        while v < vc
            invariant
                v <= vc,
                f < frame_count,
                vb@.len() == v,
                forall|k: int| 0 <= k < v ==> vb@[k] == spec_vertex_at(
                    bytes@,
                    vert_off(bytes@, f as int, k),
                    spec_flags_of(bytes@).norm,
                ),
                pos == vert_off(bytes@, f as int, v as int),
            decreases vc - v,
        {
            assert(f * pf + (v + 1) * (vsize as int) <= frame_count as int * pf)
                by (nonlinear_arith)
                requires
                    0 <= f < frame_count as int,
                    0 <= v < vc,
                    0 <= vsize,
                    pf == vc * (vsize as int),
            ;
            proof {
                lemma_mul_is_distributive_add_other_way(vsize as int, v as int, 1);
            }
            assert(pos + vsize <= bytes@.len());
            let position = read_vec3_at(bytes, pos);
            let normals = if flags.norm {
                Option::Some(read_vec3_at(bytes, pos + 12))
            } else {
                Option::None
            };
            vb.push(VertexInternal { position, normals });
            assert(vb@.last() == spec_vertex_at(
                bytes@,
                vert_off(bytes@, f as int, v as int),
                spec_flags_of(bytes@).norm,
            ));
            pos = pos + vsize;
            v = v + 1;
            proof {
                lemma_mul_is_distributive_add_other_way(vsize as int, v as int - 1, 1);
            }
        }
        assert(vb@ =~= spec_frame_at(bytes@, f as int));
        frames.push(Frame { vertex_buff: vb });
        proof {
            lemma_mul_is_distributive_add_other_way(pf, f as int, 1);
        }
        assert(vc * (vsize as int) == pf);
        assert(pos == frames_off(bytes@) + (f + 1) * pf);
        f = f + 1;
    }

    let m = MDLFile {
        flags,
        idx_per_face,
        vertex_count,
        frame_count,
        texture_cords,
        colors,
        index_count,
        indexs,
        frames,
    };
    assert(m@ =~~= spec_model(bytes@));
    Result::Ok(m)
}

/// Decoding is deterministic: one byte buffer decodes to at most one model,
/// so decoding the same buffer twice yields value-equal models.
pub proof fn lemma_decode_deterministic(b: Seq<u8>, m1: ModelView, m2: ModelView)
    requires
        decodes_to(b, m1),
        decodes_to(b, m2),
    ensures
        m1 == m2,
{
}

/// Every model the decoder returns is well formed: the optional sections
/// are present exactly as the flags demand and then hold exactly
/// `vertex_count` entries, every array length agrees with its governing
/// count, and normals are present on every vertex of every frame exactly
/// when the `norm` flag is set.
pub proof fn lemma_decoded_model_wf(b: Seq<u8>, m: ModelView)
    requires
        decodes_to(b, m),
    ensures
        model_wf(m),
{
    assert forall|f: int, v: int|
        0 <= f < m.frames.len() && 0 <= v < m.frames[f].len() implies (#[trigger] m.frames[f][v].normals
        is Some <==> m.flags.norm) by {
        assert(m.frames[f] == spec_frame_at(b, f));
        assert(m.frames[f][v] == spec_vertex_at(b, vert_off(b, f, v), spec_flags_of(b).norm));
    }
    assert forall|f: int| 0 <= f < m.frames.len() implies #[trigger] m.frames[f].len()
        == m.vertex_count by {
        assert(m.frames[f] == spec_frame_at(b, f));
    }
}

/// A buffer long enough to hold the marker but holding the wrong one fails
/// to decode, with `BadMagic`.
pub proof fn lemma_bad_magic_detected(c: Seq<u8>)
    requires
        c.len() >= 4,
        !magic_ok(c),
    ensures
        !decode_ok(c),
        spec_decode_err(c) == FormatError::BadMagic,
{
}

/// Truncating a decodable buffer at any offset strictly before its declared
/// end makes decoding fail with `Truncated`: short data never decodes.
pub proof fn lemma_truncation_detected(b: Seq<u8>, k: int)
    requires
        decode_ok(b),
        0 <= k < total_len(b),
    ensures
        !decode_ok(b.take(k)),
        spec_decode_err(b.take(k)) == FormatError::Truncated,
{
    let t = b.take(k);
    assert(t.len() == k);
    if k >= 4 {
        assert(t[0] == b[0] && t[1] == b[1] && t[2] == b[2] && t[3] == b[3]);
        assert(magic_ok(t));
        if k >= 10 {
            assert(t[4] == b[4] && t[6] == b[6] && t[7] == b[7] && t[8] == b[8]);
            assert(spec_flags_of(t) == spec_flags_of(b));
            assert(spec_vertex_count(t) == spec_vertex_count(b));
            assert(spec_frame_count(t) == spec_frame_count(b));
            assert(index_count_off(t) == index_count_off(b));
            if k >= index_count_off(b) + 2 {
                assert(t[index_count_off(b)] == b[index_count_off(b)]);
                assert(t[index_count_off(b) + 1] == b[index_count_off(b) + 1]);
                assert(spec_index_count(t) == spec_index_count(b));
                assert(total_len(t) == total_len(b));
                assert(!decode_ok(t));
            } else {
                assert(!decode_ok(t));
            }
        }
    }
}

} // verus!

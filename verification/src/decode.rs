//! The decoder proper.
//!
//! Each record has a specification function that states, as a mathematical
//! value, what decoding yields from the byte source — including exactly
//! which error is produced for a source on which decoding fails — and each
//! executable decode function is proved to return precisely that value.
//!
//! Records that may be referenced from more than one place (interned
//! strings and materials) are resolved through a session-scoped cache
//! keyed by source offset, so a record is decoded at most once per decode
//! session and every owner receives the same arena index. The cache lives
//! only for the duration of one top-level decode.

use vstd::prelude::*;
use crate::bytes::{be16, be32, copy_range, find_nul, get_u8, get_u16, get_u32, nul_from,
    string_from_utf8, utf8_decoded};
use crate::chain::{chain_fuel, spec_chain, walk_chain};
use crate::error::DecodeError;
use crate::model::{Color, FacelistSetView, FacelistView, FacesView, NxfArray, NxfArrayView,
    NxfColLitEnvTri, NxfColLitTri, NxfColUnlitTri, NxfFacelist, NxfFacelistSet, NxfFaces,
    NxfMaterial, NxfObjGeom, NxfTexLitEnvTri, NxfTexLitTri, NxfTexUnlitTri, ObjGeomView, Uv,
    Vec3};

verus! {

/// The first index of `x` in `offs` at or after `i`, or -1 if `x` does
/// not occur there.
pub open spec fn find_from(offs: Seq<u32>, x: u32, i: int) -> int
    decreases offs.len() - i,
{
    if i < 0 || i >= offs.len() {
        -1
    } else if offs[i] == x {
        i
    } else {
        find_from(offs, x, i + 1)
    }
}

/// Scans `offs` for the first occurrence of `x`.
fn find_offset(offs: &Vec<u32>, x: u32) -> (r: Option<usize>)
    ensures
        match r {
            Some(i) => i < offs@.len() && find_from(offs@, x, 0) == i,
            None => find_from(offs@, x, 0) == -1,
        },
{
    let n: usize = offs.len();
    let mut j: usize = 0;
    while j < n
        invariant
            j <= n,
            n == offs@.len(),
            find_from(offs@, x, 0) == find_from(offs@, x, j as int),
        decreases n - j,
    {
        if offs[j] == x {
            return Some(j);
        }
        j = j + 1;
    }
    None
}

/// Session-scoped cache of shared records, keyed by source offset.
///
/// The two offset vectors and the two arenas grow in lockstep: the record
/// decoded from `string_offsets[i]` is `strings[i]`, and likewise for
/// materials. An offset occurs at most once, so each shared record is
/// decoded at most once per session.
pub struct DecodeCache {
    pub string_offsets: Vec<u32>,
    pub strings: Vec<String>,
    pub material_offsets: Vec<u32>,
    pub materials: Vec<NxfMaterial>,
}

/// The mathematical value of a `DecodeCache`.
#[verifier::ext_equal]
pub struct CacheView {
    pub string_offsets: Seq<u32>,
    pub strings: Seq<Seq<char>>,
    pub material_offsets: Seq<u32>,
    pub materials: Seq<NxfMaterial>,
}

impl View for DecodeCache {
    type V = CacheView;

    open spec fn view(&self) -> CacheView {
        CacheView {
            string_offsets: self.string_offsets@,
            strings: Seq::new(self.strings@.len(), |k: int| self.strings@[k]@),
            material_offsets: self.material_offsets@,
            materials: self.materials@,
        }
    }
}

/// The cache at the start of a decode session: empty.
pub open spec fn empty_cache() -> CacheView {
    CacheView {
        string_offsets: Seq::empty(),
        strings: Seq::empty(),
        material_offsets: Seq::empty(),
        materials: Seq::empty(),
    }
}

impl DecodeCache {
    /// A fresh cache for one decode session.
    pub fn new() -> (r: DecodeCache)
        ensures
            r@ == empty_cache(),
    {
        let r = DecodeCache {
            string_offsets: Vec::new(),
            strings: Vec::new(),
            material_offsets: Vec::new(),
            materials: Vec::new(),
        };
        proof {
            assert(r@.strings =~= empty_cache().strings);
            assert(r@ =~~= empty_cache());
        }
        r
    }
}

/// The characters of the null-terminated string at `off`: the bytes up to
/// (excluding) the first 0 byte, decoded as UTF-8. The input must hold
/// the terminator, and the bytes must be valid UTF-8.
pub open spec fn spec_string_at(s: Seq<u8>, off: u32) -> Result<Seq<char>, DecodeError> {
    let e = nul_from(s, off as int);
    if e < 0 {
        Err(DecodeError::UnexpectedEnd { offset: off as u64 })
    } else {
        match utf8_decoded(s.subrange(off as int, e)) {
            Some(cs) => Ok(cs),
            None => Err(DecodeError::InvalidString { offset: off as u64 }),
        }
    }
}

/// Decodes the null-terminated string at `off`.
fn read_string_at(s: &Vec<u8>, off: u32) -> (r: Result<String, DecodeError>)
    ensures
        match r {
            Ok(v) => spec_string_at(s@, off) == Ok::<Seq<char>, DecodeError>(v@),
            Err(e) => spec_string_at(s@, off) == Err::<Seq<char>, DecodeError>(e),
        },
{
    let n: usize = s.len();
    if (off as u64) >= n as u64 {
        return Err(DecodeError::UnexpectedEnd { offset: off as u64 });
    }
    match find_nul(s, off as u64) {
        Some(e) => {
            let region = copy_range(s, off as u64, e);
            match string_from_utf8(region) {
                Some(v) => Ok(v),
                None => Err(DecodeError::InvalidString { offset: off as u64 }),
            }
        },
        None => Err(DecodeError::UnexpectedEnd { offset: off as u64 }),
    }
}

/// The result of resolving the string pointer whose field sits at `at`
/// and holds `off`, against the cache `st`: the arena index of the
/// interned string, and the cache afterwards. A pointer of 0 is rejected,
/// an offset already interned is shared without re-reading, and a new
/// offset is decoded and appended to the arena.
pub open spec fn spec_intern_string(s: Seq<u8>, off: u32, at: u64, st: CacheView) -> Result<
    (usize, CacheView),
    DecodeError,
> {
    if off == 0 {
        Err(DecodeError::NullOffset { at })
    } else {
        let i = find_from(st.string_offsets, off, 0);
        if i >= 0 {
            Ok((i as usize, st))
        } else {
            match spec_string_at(s, off) {
                Ok(cs) => Ok(
                    (
                        st.strings.len() as usize,
                        CacheView {
                            string_offsets: st.string_offsets.push(off),
                            strings: st.strings.push(cs),
                            ..st
                        },
                    ),
                ),
                Err(e) => Err(e),
            }
        }
    }
}

/// Resolves a string pointer through the cache.
fn intern_string(s: &Vec<u8>, cache: &mut DecodeCache, off: u32, at: u64) -> (r: Result<
    usize,
    DecodeError,
>)
    ensures
        match r {
            Ok(i) => spec_intern_string(s@, off, at, old(cache)@) == Ok::<
                (usize, CacheView),
                DecodeError,
            >((i, final(cache)@)),
            Err(e) => spec_intern_string(s@, off, at, old(cache)@) == Err::<
                (usize, CacheView),
                DecodeError,
            >(e) && final(cache)@ == old(cache)@,
        },
{
    if off == 0 {
        return Err(DecodeError::NullOffset { at });
    }
    match find_offset(&cache.string_offsets, off) {
        Some(i) => Ok(i),
        None => {
            match read_string_at(s, off) {
                Ok(v) => {
                    let i = cache.strings.len();
                    cache.string_offsets.push(off);
                    cache.strings.push(v);
                    proof {
                        let stv = spec_intern_string(s@, off, at, old(cache)@);
                        assert(final(cache)@.strings =~= stv->Ok_0.1.strings);
                        assert(final(cache)@ =~~= stv->Ok_0.1);
                    }
                    Ok(i)
                },
                Err(e) => Err(e),
            }
        },
    }
}

/// The material record at `m` decoded against the cache `st`: 40 bytes of
/// fixed fields, of which the four at `m + 8` point at the material's
/// interned name.
pub open spec fn spec_material(s: Seq<u8>, m: u32, st: CacheView) -> Result<
    (NxfMaterial, CacheView),
    DecodeError,
> {
    if m + 40 > s.len() {
        Err(DecodeError::UnexpectedEnd { offset: m as u64 })
    } else {
        match spec_intern_string(s, be32(s, m + 8), (m + 8) as u64, st) {
            Ok((name, st1)) => Ok(
                (
                    NxfMaterial {
                        tex_pmi: be32(s, m as int),
                        ref_pmi: be32(s, m + 4),
                        tex_name: name,
                        ref_map: be32(s, m + 12),
                        ref_r: s[m + 16],
                        ref_g: s[m + 17],
                        ref_b: s[m + 18],
                        ref_a: s[m + 19],
                        flags: be32(s, m + 20),
                        alpha_mode: be32(s, m + 24),
                        env_map_alpha_mode: be32(s, m + 28),
                    },
                    st1,
                ),
            ),
            Err(e) => Err(e),
        }
    }
}

/// Decodes the material record at `m`, interning its name.
fn read_material(s: &Vec<u8>, cache: &mut DecodeCache, m: u32) -> (r: Result<
    NxfMaterial,
    DecodeError,
>)
    ensures
        match r {
            Ok(mat) => spec_material(s@, m, old(cache)@) == Ok::<
                (NxfMaterial, CacheView),
                DecodeError,
            >((mat, final(cache)@)),
            Err(e) => spec_material(s@, m, old(cache)@) == Err::<
                (NxfMaterial, CacheView),
                DecodeError,
            >(e) && final(cache)@ == old(cache)@,
        },
{
    let n: usize = s.len();
    if (m as u64) + 40 > n as u64 {
        return Err(DecodeError::UnexpectedEnd { offset: m as u64 });
    }
    let name_off = get_u32(s, (m as u64) + 8);
    let name = match intern_string(s, cache, name_off, (m as u64) + 8) {
        Ok(i) => i,
        Err(e) => {
            return Err(e);
        },
    };
    Ok(
        NxfMaterial {
            tex_pmi: get_u32(s, m as u64),
            ref_pmi: get_u32(s, (m as u64) + 4),
            tex_name: name,
            ref_map: get_u32(s, (m as u64) + 12),
            ref_r: get_u8(s, (m as u64) + 16),
            ref_g: get_u8(s, (m as u64) + 17),
            ref_b: get_u8(s, (m as u64) + 18),
            ref_a: get_u8(s, (m as u64) + 19),
            flags: get_u32(s, (m as u64) + 20),
            alpha_mode: get_u32(s, (m as u64) + 24),
            env_map_alpha_mode: get_u32(s, (m as u64) + 28),
        },
    )
}

/// The result of resolving the material pointer whose field sits at `at`
/// and holds `off`, against the cache `st`: the arena index of the shared
/// material, and the cache afterwards. A pointer of 0 is rejected, an
/// offset already decoded is shared without re-reading, and a new offset
/// is decoded and appended to the arena.
pub open spec fn spec_resolve_material(s: Seq<u8>, off: u32, at: u64, st: CacheView) -> Result<
    (usize, CacheView),
    DecodeError,
> {
    if off == 0 {
        Err(DecodeError::NullOffset { at })
    } else {
        let i = find_from(st.material_offsets, off, 0);
        if i >= 0 {
            Ok((i as usize, st))
        } else {
            match spec_material(s, off, st) {
                Ok((mat, st1)) => Ok(
                    (
                        st1.materials.len() as usize,
                        CacheView {
                            material_offsets: st1.material_offsets.push(off),
                            materials: st1.materials.push(mat),
                            ..st1
                        },
                    ),
                ),
                Err(e) => Err(e),
            }
        }
    }
}

/// Resolves a material pointer through the cache.
fn resolve_material(s: &Vec<u8>, cache: &mut DecodeCache, off: u32, at: u64) -> (r: Result<
    usize,
    DecodeError,
>)
    ensures
        match r {
            Ok(i) => spec_resolve_material(s@, off, at, old(cache)@) == Ok::<
                (usize, CacheView),
                DecodeError,
            >((i, final(cache)@)),
            Err(e) => spec_resolve_material(s@, off, at, old(cache)@) == Err::<
                (usize, CacheView),
                DecodeError,
            >(e) && final(cache)@ == old(cache)@,
        },
{
    if off == 0 {
        return Err(DecodeError::NullOffset { at });
    }
    match find_offset(&cache.material_offsets, off) {
        Some(i) => Ok(i),
        None => {
            match read_material(s, cache, off) {
                Ok(mat) => {
                    let i = cache.materials.len();
                    cache.material_offsets.push(off);
                    cache.materials.push(mat);
                    proof {
                        let stv = spec_resolve_material(s@, off, at, old(cache)@);
                        assert(final(cache)@.strings =~= stv->Ok_0.1.strings);
                        assert(final(cache)@ =~~= stv->Ok_0.1);
                    }
                    Ok(i)
                },
                Err(e) => Err(e),
            }
        },
    }
}

/// Whether `tag` selects one of the six known triangle layouts.
pub open spec fn known_face_type(tag: u8) -> bool {
    tag == 6 || tag == 8 || tag == 10 || tag == 11 || tag == 20 || tag == 21
}

/// The record width, in bytes, of the triangle layout selected by `tag`;
/// 0 where the tag is unknown and no layout exists.
pub open spec fn face_width(tag: u8) -> int {
    if tag == 6 {
        18
    } else if tag == 8 {
        24
    } else if tag == 10 {
        18
    } else if tag == 11 {
        12
    } else if tag == 20 {
        30
    } else if tag == 21 {
        24
    } else {
        0
    }
}

/// The colored, lit triangle record at `i`.
pub open spec fn spec_col_lit_tri(s: Seq<u8>, i: int) -> NxfColLitTri {
    NxfColLitTri {
        v0: be16(s, i),
        n0: be16(s, i + 2),
        c0: be16(s, i + 4),
        v1: be16(s, i + 6),
        n1: be16(s, i + 8),
        c1: be16(s, i + 10),
        v2: be16(s, i + 12),
        n2: be16(s, i + 14),
        c2: be16(s, i + 16),
    }
}

/// The textured, lit triangle record at `i`.
pub open spec fn spec_tex_lit_tri(s: Seq<u8>, i: int) -> NxfTexLitTri {
    NxfTexLitTri {
        v0: be16(s, i),
        n0: be16(s, i + 2),
        c0: be16(s, i + 4),
        uv0: be16(s, i + 6),
        v1: be16(s, i + 8),
        n1: be16(s, i + 10),
        c1: be16(s, i + 12),
        uv1: be16(s, i + 14),
        v2: be16(s, i + 16),
        n2: be16(s, i + 18),
        c2: be16(s, i + 20),
        uv2: be16(s, i + 22),
    }
}

/// The textured, unlit triangle record at `i`.
pub open spec fn spec_tex_unlit_tri(s: Seq<u8>, i: int) -> NxfTexUnlitTri {
    NxfTexUnlitTri {
        v0: be16(s, i),
        c0: be16(s, i + 2),
        uv0: be16(s, i + 4),
        v1: be16(s, i + 6),
        c1: be16(s, i + 8),
        uv1: be16(s, i + 10),
        v2: be16(s, i + 12),
        c2: be16(s, i + 14),
        uv2: be16(s, i + 16),
    }
}

/// The colored, unlit triangle record at `i`.
pub open spec fn spec_col_unlit_tri(s: Seq<u8>, i: int) -> NxfColUnlitTri {
    NxfColUnlitTri {
        v0: be16(s, i),
        c0: be16(s, i + 2),
        v1: be16(s, i + 4),
        c1: be16(s, i + 6),
        v2: be16(s, i + 8),
        c2: be16(s, i + 10),
    }
}

/// The textured, lit, environment-mapped triangle record at `i`.
pub open spec fn spec_tex_lit_env_tri(s: Seq<u8>, i: int) -> NxfTexLitEnvTri {
    NxfTexLitEnvTri {
        v0: be16(s, i),
        n0: be16(s, i + 2),
        c0: be16(s, i + 4),
        uv0: be16(s, i + 6),
        m0: be16(s, i + 8),
        v1: be16(s, i + 10),
        n1: be16(s, i + 12),
        c1: be16(s, i + 14),
        uv1: be16(s, i + 16),
        m1: be16(s, i + 18),
        v2: be16(s, i + 20),
        n2: be16(s, i + 22),
        c2: be16(s, i + 24),
        uv2: be16(s, i + 26),
        m2: be16(s, i + 28),
    }
}

/// The colored, lit, environment-mapped triangle record at `i`.
pub open spec fn spec_col_lit_env_tri(s: Seq<u8>, i: int) -> NxfColLitEnvTri {
    NxfColLitEnvTri {
        v0: be16(s, i),
        n0: be16(s, i + 2),
        c0: be16(s, i + 4),
        m0: be16(s, i + 6),
        v1: be16(s, i + 8),
        n1: be16(s, i + 10),
        c1: be16(s, i + 12),
        m1: be16(s, i + 14),
        v2: be16(s, i + 16),
        n2: be16(s, i + 18),
        c2: be16(s, i + 20),
        m2: be16(s, i + 22),
    }
}

/// The run of `count` consecutive triangle records of the layout selected
/// by `tag`, starting at `off`.
pub open spec fn spec_faces_content(s: Seq<u8>, tag: u8, count: int, off: int) -> FacesView {
    if tag == 6 {
        FacesView::ColLitTri(Seq::new(count as nat, |k: int| spec_col_lit_tri(s, off + 18 * k)))
    } else if tag == 8 {
        FacesView::TexLitTri(Seq::new(count as nat, |k: int| spec_tex_lit_tri(s, off + 24 * k)))
    } else if tag == 10 {
        FacesView::TexUnlitTri(
            Seq::new(count as nat, |k: int| spec_tex_unlit_tri(s, off + 18 * k)),
        )
    } else if tag == 11 {
        FacesView::ColUnlitTri(
            Seq::new(count as nat, |k: int| spec_col_unlit_tri(s, off + 12 * k)),
        )
    } else if tag == 20 {
        FacesView::TexLitEnvTri(
            Seq::new(count as nat, |k: int| spec_tex_lit_env_tri(s, off + 30 * k)),
        )
    } else {
        FacesView::ColLitEnvTri(
            Seq::new(count as nat, |k: int| spec_col_lit_env_tri(s, off + 24 * k)),
        )
    }
}

/// The face block of the facelist at `fl`: `count` records of the layout
/// selected by `tag`, read from `off`, with no inter-record padding. A
/// tag outside the closed set is a hard failure before anything is read,
/// and a block pointer of 0 is the empty run of the selected shape.
pub open spec fn spec_faces(s: Seq<u8>, fl: u32, tag: u8, count: u32, off: u32) -> Result<
    FacesView,
    DecodeError,
> {
    if !known_face_type(tag) {
        Err(DecodeError::UnknownFaceType { offset: fl as u64, tag })
    } else if off == 0 {
        Ok(spec_faces_content(s, tag, 0, 0))
    } else if off + count * face_width(tag) > s.len() {
        Err(DecodeError::UnexpectedEnd { offset: off as u64 })
    } else {
        Ok(spec_faces_content(s, tag, count as int, off as int))
    }
}

/// Reads `count` colored, lit triangles from `off`.
fn read_col_lit_tris(s: &Vec<u8>, off: u64, count: u32) -> (r: Vec<NxfColLitTri>)
    requires
        off + 18 * count <= s@.len(),
    ensures
        r@ == Seq::new(count as nat, |k: int| spec_col_lit_tri(s@, off + 18 * k)),
{
    let n: usize = s.len();
    let mut out: Vec<NxfColLitTri> = Vec::new();
    let mut j: u32 = 0;
    while j < count
        invariant
            j <= count,
            n == s@.len(),
            off + 18 * count <= s@.len(),
            out@ == Seq::new(j as nat, |k: int| spec_col_lit_tri(s@, off + 18 * k)),
        decreases count - j,
    {
        let p: u64 = off + 18 * (j as u64);
        out.push(
            NxfColLitTri {
                v0: get_u16(s, p),
                n0: get_u16(s, p + 2),
                c0: get_u16(s, p + 4),
                v1: get_u16(s, p + 6),
                n1: get_u16(s, p + 8),
                c1: get_u16(s, p + 10),
                v2: get_u16(s, p + 12),
                n2: get_u16(s, p + 14),
                c2: get_u16(s, p + 16),
            },
        );
        j = j + 1;
        proof {
            assert(out@ =~= Seq::new(j as nat, |k: int| spec_col_lit_tri(s@, off + 18 * k)));
        }
    }
    out
}

/// Reads `count` textured, lit triangles from `off`.
fn read_tex_lit_tris(s: &Vec<u8>, off: u64, count: u32) -> (r: Vec<NxfTexLitTri>)
    requires
        off + 24 * count <= s@.len(),
    ensures
        r@ == Seq::new(count as nat, |k: int| spec_tex_lit_tri(s@, off + 24 * k)),
{
    let n: usize = s.len();
    let mut out: Vec<NxfTexLitTri> = Vec::new();
    let mut j: u32 = 0;
    while j < count
        invariant
            j <= count,
            n == s@.len(),
            off + 24 * count <= s@.len(),
            out@ == Seq::new(j as nat, |k: int| spec_tex_lit_tri(s@, off + 24 * k)),
        decreases count - j,
    {
        let p: u64 = off + 24 * (j as u64);
        out.push(
            NxfTexLitTri {
                v0: get_u16(s, p),
                n0: get_u16(s, p + 2),
                c0: get_u16(s, p + 4),
                uv0: get_u16(s, p + 6),
                v1: get_u16(s, p + 8),
                n1: get_u16(s, p + 10),
                c1: get_u16(s, p + 12),
                uv1: get_u16(s, p + 14),
                v2: get_u16(s, p + 16),
                n2: get_u16(s, p + 18),
                c2: get_u16(s, p + 20),
                uv2: get_u16(s, p + 22),
            },
        );
        j = j + 1;
        proof {
            assert(out@ =~= Seq::new(j as nat, |k: int| spec_tex_lit_tri(s@, off + 24 * k)));
        }
    }
    out
}

/// Reads `count` textured, unlit triangles from `off`.
fn read_tex_unlit_tris(s: &Vec<u8>, off: u64, count: u32) -> (r: Vec<NxfTexUnlitTri>)
    requires
        off + 18 * count <= s@.len(),
    ensures
        r@ == Seq::new(count as nat, |k: int| spec_tex_unlit_tri(s@, off + 18 * k)),
{
    let n: usize = s.len();
    let mut out: Vec<NxfTexUnlitTri> = Vec::new();
    let mut j: u32 = 0;
    while j < count
        invariant
            j <= count,
            n == s@.len(),
            off + 18 * count <= s@.len(),
            out@ == Seq::new(j as nat, |k: int| spec_tex_unlit_tri(s@, off + 18 * k)),
        decreases count - j,
    {
        let p: u64 = off + 18 * (j as u64);
        out.push(
            NxfTexUnlitTri {
                v0: get_u16(s, p),
                c0: get_u16(s, p + 2),
                uv0: get_u16(s, p + 4),
                v1: get_u16(s, p + 6),
                c1: get_u16(s, p + 8),
                uv1: get_u16(s, p + 10),
                v2: get_u16(s, p + 12),
                c2: get_u16(s, p + 14),
                uv2: get_u16(s, p + 16),
            },
        );
        j = j + 1;
        proof {
            assert(out@ =~= Seq::new(j as nat, |k: int| spec_tex_unlit_tri(s@, off + 18 * k)));
        }
    }
    out
}

/// Reads `count` colored, unlit triangles from `off`.
fn read_col_unlit_tris(s: &Vec<u8>, off: u64, count: u32) -> (r: Vec<NxfColUnlitTri>)
    requires
        off + 12 * count <= s@.len(),
    ensures
        r@ == Seq::new(count as nat, |k: int| spec_col_unlit_tri(s@, off + 12 * k)),
{
    let n: usize = s.len();
    let mut out: Vec<NxfColUnlitTri> = Vec::new();
    let mut j: u32 = 0;
    while j < count
        invariant
            j <= count,
            n == s@.len(),
            off + 12 * count <= s@.len(),
            out@ == Seq::new(j as nat, |k: int| spec_col_unlit_tri(s@, off + 12 * k)),
        decreases count - j,
    {
        let p: u64 = off + 12 * (j as u64);
        out.push(
            NxfColUnlitTri {
                v0: get_u16(s, p),
                c0: get_u16(s, p + 2),
                v1: get_u16(s, p + 4),
                c1: get_u16(s, p + 6),
                v2: get_u16(s, p + 8),
                c2: get_u16(s, p + 10),
            },
        );
        j = j + 1;
        proof {
            assert(out@ =~= Seq::new(j as nat, |k: int| spec_col_unlit_tri(s@, off + 12 * k)));
        }
    }
    out
}

/// Reads `count` textured, lit, environment-mapped triangles from `off`.
fn read_tex_lit_env_tris(s: &Vec<u8>, off: u64, count: u32) -> (r: Vec<NxfTexLitEnvTri>)
    requires
        off + 30 * count <= s@.len(),
    ensures
        r@ == Seq::new(count as nat, |k: int| spec_tex_lit_env_tri(s@, off + 30 * k)),
{
    let n: usize = s.len();
    let mut out: Vec<NxfTexLitEnvTri> = Vec::new();
    let mut j: u32 = 0;
    while j < count
        invariant
            j <= count,
            n == s@.len(),
            off + 30 * count <= s@.len(),
            out@ == Seq::new(j as nat, |k: int| spec_tex_lit_env_tri(s@, off + 30 * k)),
        decreases count - j,
    {
        let p: u64 = off + 30 * (j as u64);
        out.push(
            NxfTexLitEnvTri {
                v0: get_u16(s, p),
                n0: get_u16(s, p + 2),
                c0: get_u16(s, p + 4),
                uv0: get_u16(s, p + 6),
                m0: get_u16(s, p + 8),
                v1: get_u16(s, p + 10),
                n1: get_u16(s, p + 12),
                c1: get_u16(s, p + 14),
                uv1: get_u16(s, p + 16),
                m1: get_u16(s, p + 18),
                v2: get_u16(s, p + 20),
                n2: get_u16(s, p + 22),
                c2: get_u16(s, p + 24),
                uv2: get_u16(s, p + 26),
                m2: get_u16(s, p + 28),
            },
        );
        j = j + 1;
        proof {
            assert(out@ =~= Seq::new(
                j as nat,
                |k: int| spec_tex_lit_env_tri(s@, off + 30 * k),
            ));
        }
    }
    out
}

/// Reads `count` colored, lit, environment-mapped triangles from `off`.
fn read_col_lit_env_tris(s: &Vec<u8>, off: u64, count: u32) -> (r: Vec<NxfColLitEnvTri>)
    requires
        off + 24 * count <= s@.len(),
    ensures
        r@ == Seq::new(count as nat, |k: int| spec_col_lit_env_tri(s@, off + 24 * k)),
{
    let n: usize = s.len();
    let mut out: Vec<NxfColLitEnvTri> = Vec::new();
    let mut j: u32 = 0;
    while j < count
        invariant
            j <= count,
            n == s@.len(),
            off + 24 * count <= s@.len(),
            out@ == Seq::new(j as nat, |k: int| spec_col_lit_env_tri(s@, off + 24 * k)),
        decreases count - j,
    {
        let p: u64 = off + 24 * (j as u64);
        out.push(
            NxfColLitEnvTri {
                v0: get_u16(s, p),
                n0: get_u16(s, p + 2),
                c0: get_u16(s, p + 4),
                m0: get_u16(s, p + 6),
                v1: get_u16(s, p + 8),
                n1: get_u16(s, p + 10),
                c1: get_u16(s, p + 12),
                m1: get_u16(s, p + 14),
                v2: get_u16(s, p + 16),
                n2: get_u16(s, p + 18),
                c2: get_u16(s, p + 20),
                m2: get_u16(s, p + 22),
            },
        );
        j = j + 1;
        proof {
            assert(out@ =~= Seq::new(
                j as nat,
                |k: int| spec_col_lit_env_tri(s@, off + 24 * k),
            ));
        }
    }
    out
}

/// Decodes the face block of the facelist at `fl`: dispatches on the
/// type tag and reads `count` records of the selected layout from `off`.
fn read_faces(s: &Vec<u8>, fl: u32, tag: u8, count: u32, off: u32) -> (r: Result<
    NxfFaces,
    DecodeError,
>)
    ensures
        match r {
            Ok(f) => spec_faces(s@, fl, tag, count, off) == Ok::<FacesView, DecodeError>(f@),
            Err(e) => spec_faces(s@, fl, tag, count, off) == Err::<FacesView, DecodeError>(e),
        },
{
    let n: usize = s.len();
    if !(tag == 6 || tag == 8 || tag == 10 || tag == 11 || tag == 20 || tag == 21) {
        return Err(DecodeError::UnknownFaceType { offset: fl as u64, tag });
    }
    let width: u64 = if tag == 6 {
        18
    } else if tag == 8 {
        24
    } else if tag == 10 {
        18
    } else if tag == 11 {
        12
    } else if tag == 20 {
        30
    } else {
        24
    };
    if off == 0 {
        let f = if tag == 6 {
            NxfFaces::ColLitTri(Vec::new())
        } else if tag == 8 {
            NxfFaces::TexLitTri(Vec::new())
        } else if tag == 10 {
            NxfFaces::TexUnlitTri(Vec::new())
        } else if tag == 11 {
            NxfFaces::ColUnlitTri(Vec::new())
        } else if tag == 20 {
            NxfFaces::TexLitEnvTri(Vec::new())
        } else {
            NxfFaces::ColLitEnvTri(Vec::new())
        };
        proof {
            assert(f@ =~~= spec_faces_content(s@, tag, 0, 0));
        }
        return Ok(f);
    }
    if (off as u64) + (count as u64) * width > n as u64 {
        return Err(DecodeError::UnexpectedEnd { offset: off as u64 });
    }
    let f = if tag == 6 {
        NxfFaces::ColLitTri(read_col_lit_tris(s, off as u64, count))
    } else if tag == 8 {
        NxfFaces::TexLitTri(read_tex_lit_tris(s, off as u64, count))
    } else if tag == 10 {
        NxfFaces::TexUnlitTri(read_tex_unlit_tris(s, off as u64, count))
    } else if tag == 11 {
        NxfFaces::ColUnlitTri(read_col_unlit_tris(s, off as u64, count))
    } else if tag == 20 {
        NxfFaces::TexLitEnvTri(read_tex_lit_env_tris(s, off as u64, count))
    } else {
        NxfFaces::ColLitEnvTri(read_col_lit_env_tris(s, off as u64, count))
    };
    Ok(f)
}

/// The 3-component vector record at `i`.
pub open spec fn spec_vec3(s: Seq<u8>, i: int) -> Vec3 {
    Vec3 { x: be32(s, i), y: be32(s, i + 4), z: be32(s, i + 8) }
}

/// The 4-channel color record at `i`.
pub open spec fn spec_color(s: Seq<u8>, i: int) -> Color {
    Color { r: s[i], g: s[i + 1], b: s[i + 2], a: s[i + 3] }
}

/// The texture-coordinate record at `i`.
pub open spec fn spec_uv(s: Seq<u8>, i: int) -> Uv {
    Uv { u: be32(s, i), v: be32(s, i + 4) }
}

/// The buffer of `n` vector records pointed at by `ptr`: empty where the
/// pointer is 0, never dereferenced there.
pub open spec fn spec_vec3_buffer(s: Seq<u8>, ptr: u32, n: u32) -> Result<Seq<Vec3>, DecodeError> {
    if ptr == 0 {
        Ok(Seq::empty())
    } else if ptr + 12 * n > s.len() {
        Err(DecodeError::UnexpectedEnd { offset: ptr as u64 })
    } else {
        Ok(Seq::new(n as nat, |k: int| spec_vec3(s, ptr + 12 * k)))
    }
}

/// The buffer of `n` color records pointed at by `ptr`.
pub open spec fn spec_color_buffer(s: Seq<u8>, ptr: u32, n: u32) -> Result<
    Seq<Color>,
    DecodeError,
> {
    if ptr == 0 {
        Ok(Seq::empty())
    } else if ptr + 4 * n > s.len() {
        Err(DecodeError::UnexpectedEnd { offset: ptr as u64 })
    } else {
        Ok(Seq::new(n as nat, |k: int| spec_color(s, ptr + 4 * k)))
    }
}

/// The buffer of `n` texture-coordinate records pointed at by `ptr`.
pub open spec fn spec_uv_buffer(s: Seq<u8>, ptr: u32, n: u32) -> Result<Seq<Uv>, DecodeError> {
    if ptr == 0 {
        Ok(Seq::empty())
    } else if ptr + 8 * n > s.len() {
        Err(DecodeError::UnexpectedEnd { offset: ptr as u64 })
    } else {
        Ok(Seq::new(n as nat, |k: int| spec_uv(s, ptr + 8 * k)))
    }
}

/// Reads `n` vector records from `ptr`, or nothing for a 0 pointer.
fn read_vec3_buffer(s: &Vec<u8>, ptr: u32, n: u32) -> (r: Result<Vec<Vec3>, DecodeError>)
    ensures
        match r {
            Ok(v) => spec_vec3_buffer(s@, ptr, n) == Ok::<Seq<Vec3>, DecodeError>(v@),
            Err(e) => spec_vec3_buffer(s@, ptr, n) == Err::<Seq<Vec3>, DecodeError>(e),
        },
{
    let len: usize = s.len();
    if ptr == 0 {
        let v: Vec<Vec3> = Vec::new();
        proof {
            assert(v@ =~= Seq::<Vec3>::empty());
        }
        return Ok(v);
    }
    if (ptr as u64) + 12 * (n as u64) > len as u64 {
        return Err(DecodeError::UnexpectedEnd { offset: ptr as u64 });
    }
    let mut out: Vec<Vec3> = Vec::new();
    let mut j: u32 = 0;
    while j < n
        invariant
            j <= n,
            len == s@.len(),
            ptr + 12 * n <= s@.len(),
            out@ == Seq::new(j as nat, |k: int| spec_vec3(s@, ptr + 12 * k)),
        decreases n - j,
    {
        let p: u64 = (ptr as u64) + 12 * (j as u64);
        out.push(Vec3 { x: get_u32(s, p), y: get_u32(s, p + 4), z: get_u32(s, p + 8) });
        j = j + 1;
        proof {
            assert(out@ =~= Seq::new(j as nat, |k: int| spec_vec3(s@, ptr + 12 * k)));
        }
    }
    Ok(out)
}

/// Reads `n` color records from `ptr`, or nothing for a 0 pointer.
fn read_color_buffer(s: &Vec<u8>, ptr: u32, n: u32) -> (r: Result<Vec<Color>, DecodeError>)
    ensures
        match r {
            Ok(v) => spec_color_buffer(s@, ptr, n) == Ok::<Seq<Color>, DecodeError>(v@),
            Err(e) => spec_color_buffer(s@, ptr, n) == Err::<Seq<Color>, DecodeError>(e),
        },
{
    let len: usize = s.len();
    if ptr == 0 {
        let v: Vec<Color> = Vec::new();
        proof {
            assert(v@ =~= Seq::<Color>::empty());
        }
        return Ok(v);
    }
    if (ptr as u64) + 4 * (n as u64) > len as u64 {
        return Err(DecodeError::UnexpectedEnd { offset: ptr as u64 });
    }
    let mut out: Vec<Color> = Vec::new();
    let mut j: u32 = 0;
    while j < n
        invariant
            j <= n,
            len == s@.len(),
            ptr + 4 * n <= s@.len(),
            out@ == Seq::new(j as nat, |k: int| spec_color(s@, ptr + 4 * k)),
        decreases n - j,
    {
        let p: u64 = (ptr as u64) + 4 * (j as u64);
        out.push(
            Color {
                r: get_u8(s, p),
                g: get_u8(s, p + 1),
                b: get_u8(s, p + 2),
                a: get_u8(s, p + 3),
            },
        );
        j = j + 1;
        proof {
            assert(out@ =~= Seq::new(j as nat, |k: int| spec_color(s@, ptr + 4 * k)));
        }
    }
    Ok(out)
}

/// Reads `n` texture-coordinate records from `ptr`, or nothing for a 0
/// pointer.
fn read_uv_buffer(s: &Vec<u8>, ptr: u32, n: u32) -> (r: Result<Vec<Uv>, DecodeError>)
    ensures
        match r {
            Ok(v) => spec_uv_buffer(s@, ptr, n) == Ok::<Seq<Uv>, DecodeError>(v@),
            Err(e) => spec_uv_buffer(s@, ptr, n) == Err::<Seq<Uv>, DecodeError>(e),
        },
{
    let len: usize = s.len();
    if ptr == 0 {
        let v: Vec<Uv> = Vec::new();
        proof {
            assert(v@ =~= Seq::<Uv>::empty());
        }
        return Ok(v);
    }
    if (ptr as u64) + 8 * (n as u64) > len as u64 {
        return Err(DecodeError::UnexpectedEnd { offset: ptr as u64 });
    }
    let mut out: Vec<Uv> = Vec::new();
    let mut j: u32 = 0;
    while j < n
        invariant
            j <= n,
            len == s@.len(),
            ptr + 8 * n <= s@.len(),
            out@ == Seq::new(j as nat, |k: int| spec_uv(s@, ptr + 8 * k)),
        decreases n - j,
    {
        let p: u64 = (ptr as u64) + 8 * (j as u64);
        out.push(Uv { u: get_u32(s, p), v: get_u32(s, p + 4) });
        j = j + 1;
        proof {
            assert(out@ =~= Seq::new(j as nat, |k: int| spec_uv(s@, ptr + 8 * k)));
        }
    }
    Ok(out)
}

/// The vertex-array block at `a`: 100 bytes of fixed fields, of which
/// four pairs declare a buffer's actual count and its capacity, and four
/// pointers address the buffers themselves. A count above its capacity is
/// rejected; a buffer read in full holds exactly its declared count of
/// records.
pub open spec fn spec_array(s: Seq<u8>, a: u32) -> Result<NxfArrayView, DecodeError> {
    if a + 100 > s.len() {
        Err(DecodeError::UnexpectedEnd { offset: a as u64 })
    } else {
        let num_uvs = be32(s, a + 12);
        let num_normals = be32(s, a + 28);
        let num_verts = be32(s, a + 48);
        let num_cols = be32(s, a + 52);
        let max_verts = be32(s, a + 56);
        let max_normals = be32(s, a + 60);
        let max_cols = be32(s, a + 64);
        let max_uvs = be32(s, a + 68);
        if num_verts > max_verts {
            Err(
                DecodeError::CountOverCapacity {
                    offset: (a + 48) as u64,
                    count: num_verts,
                    capacity: max_verts,
                },
            )
        } else if num_normals > max_normals {
            Err(
                DecodeError::CountOverCapacity {
                    offset: (a + 28) as u64,
                    count: num_normals,
                    capacity: max_normals,
                },
            )
        } else if num_cols > max_cols {
            Err(
                DecodeError::CountOverCapacity {
                    offset: (a + 52) as u64,
                    count: num_cols,
                    capacity: max_cols,
                },
            )
        } else if num_uvs > max_uvs {
            Err(
                DecodeError::CountOverCapacity {
                    offset: (a + 12) as u64,
                    count: num_uvs,
                    capacity: max_uvs,
                },
            )
        } else {
            match spec_vec3_buffer(s, be32(s, a + 72), num_verts) {
                Ok(verts) => match spec_vec3_buffer(s, be32(s, a + 76), num_normals) {
                    Ok(normals) => match spec_color_buffer(s, be32(s, a + 80), num_cols) {
                        Ok(colors) => match spec_uv_buffer(s, be32(s, a + 84), num_uvs) {
                            Ok(uvs) => Ok(
                                NxfArrayView {
                                    min_x: be32(s, a as int),
                                    min_y: be32(s, a + 4),
                                    min_z: be32(s, a + 8),
                                    max_x: be32(s, a + 16),
                                    max_y: be32(s, a + 20),
                                    max_z: be32(s, a + 24),
                                    c_x: be32(s, a + 32),
                                    c_y: be32(s, a + 36),
                                    c_z: be32(s, a + 40),
                                    radius: be32(s, a + 44),
                                    max_verts,
                                    max_normals,
                                    max_cols,
                                    max_uvs,
                                    verts,
                                    normals,
                                    colors,
                                    uvs,
                                    flags: be32(s, a + 88),
                                },
                            ),
                            Err(e) => Err(e),
                        },
                        Err(e) => Err(e),
                    },
                    Err(e) => Err(e),
                },
                Err(e) => Err(e),
            }
        }
    }
}

/// Decodes the vertex-array block at `a`.
fn read_array(s: &Vec<u8>, a: u32) -> (r: Result<NxfArray, DecodeError>)
    ensures
        match r {
            Ok(arr) => spec_array(s@, a) == Ok::<NxfArrayView, DecodeError>(arr@),
            Err(e) => spec_array(s@, a) == Err::<NxfArrayView, DecodeError>(e),
        },
{
    let len: usize = s.len();
    if (a as u64) + 100 > len as u64 {
        return Err(DecodeError::UnexpectedEnd { offset: a as u64 });
    }
    let num_uvs = get_u32(s, (a as u64) + 12);
    let num_normals = get_u32(s, (a as u64) + 28);
    let num_verts = get_u32(s, (a as u64) + 48);
    let num_cols = get_u32(s, (a as u64) + 52);
    let max_verts = get_u32(s, (a as u64) + 56);
    let max_normals = get_u32(s, (a as u64) + 60);
    let max_cols = get_u32(s, (a as u64) + 64);
    let max_uvs = get_u32(s, (a as u64) + 68);
    if num_verts > max_verts {
        return Err(
            DecodeError::CountOverCapacity {
                offset: (a as u64) + 48,
                count: num_verts,
                capacity: max_verts,
            },
        );
    }
    if num_normals > max_normals {
        return Err(
            DecodeError::CountOverCapacity {
                offset: (a as u64) + 28,
                count: num_normals,
                capacity: max_normals,
            },
        );
    }
    if num_cols > max_cols {
        return Err(
            DecodeError::CountOverCapacity {
                offset: (a as u64) + 52,
                count: num_cols,
                capacity: max_cols,
            },
        );
    }
    if num_uvs > max_uvs {
        return Err(
            DecodeError::CountOverCapacity {
                offset: (a as u64) + 12,
                count: num_uvs,
                capacity: max_uvs,
            },
        );
    }
    let verts = match read_vec3_buffer(s, get_u32(s, (a as u64) + 72), num_verts) {
        Ok(v) => v,
        Err(e) => {
            return Err(e);
        },
    };
    let normals = match read_vec3_buffer(s, get_u32(s, (a as u64) + 76), num_normals) {
        Ok(v) => v,
        Err(e) => {
            return Err(e);
        },
    };
    let colors = match read_color_buffer(s, get_u32(s, (a as u64) + 80), num_cols) {
        Ok(v) => v,
        Err(e) => {
            return Err(e);
        },
    };
    let uvs = match read_uv_buffer(s, get_u32(s, (a as u64) + 84), num_uvs) {
        Ok(v) => v,
        Err(e) => {
            return Err(e);
        },
    };
    let arr = NxfArray {
        min_x: get_u32(s, a as u64),
        min_y: get_u32(s, (a as u64) + 4),
        min_z: get_u32(s, (a as u64) + 8),
        max_x: get_u32(s, (a as u64) + 16),
        max_y: get_u32(s, (a as u64) + 20),
        max_z: get_u32(s, (a as u64) + 24),
        c_x: get_u32(s, (a as u64) + 32),
        c_y: get_u32(s, (a as u64) + 36),
        c_z: get_u32(s, (a as u64) + 40),
        radius: get_u32(s, (a as u64) + 44),
        max_verts,
        max_normals,
        max_cols,
        max_uvs,
        verts,
        normals,
        colors,
        uvs,
        flags: get_u32(s, (a as u64) + 88),
    };
    proof {
        assert(arr@ =~~= spec_array(s@, a)->Ok_0);
    }
    Ok(arr)
}

/// The facelist record at `f` decoded against the cache `st`: 32 bytes of
/// fixed fields, of which the four at `f + 8` point at the shared
/// material and the four at `f + 16` point at the face block. The
/// trailing next-record offset at `f + 20` belongs to chain traversal and
/// is not part of the value.
pub open spec fn spec_facelist(s: Seq<u8>, f: u32, st: CacheView) -> Result<
    (FacelistView, CacheView),
    DecodeError,
> {
    if f + 32 > s.len() {
        Err(DecodeError::UnexpectedEnd { offset: f as u64 })
    } else {
        match spec_resolve_material(s, be32(s, f + 8), (f + 8) as u64, st) {
            Ok((mat, st1)) => match spec_faces(s, f, s[f + 2], be32(s, f + 12), be32(s, f + 16)) {
                Ok(faces) => Ok(
                    (
                        FacelistView {
                            flags: be16(s, f as int),
                            attribs: s[f + 3],
                            material: mat,
                            faces,
                            display_list: be32(s, f + 24),
                            display_list_size: be32(s, f + 28),
                        },
                        st1,
                    ),
                ),
                Err(e) => Err(e),
            },
            Err(e) => Err(e),
        }
    }
}

/// Decodes the facelist record at `f`, resolving its shared material and
/// reading its face block.
fn read_facelist(s: &Vec<u8>, cache: &mut DecodeCache, f: u32) -> (r: Result<
    NxfFacelist,
    DecodeError,
>)
    ensures
        match r {
            Ok(fl) => spec_facelist(s@, f, old(cache)@) == Ok::<
                (FacelistView, CacheView),
                DecodeError,
            >((fl@, final(cache)@)),
            Err(e) => spec_facelist(s@, f, old(cache)@) == Err::<
                (FacelistView, CacheView),
                DecodeError,
            >(e),
        },
{
    let len: usize = s.len();
    if (f as u64) + 32 > len as u64 {
        return Err(DecodeError::UnexpectedEnd { offset: f as u64 });
    }
    let mat = match resolve_material(s, cache, get_u32(s, (f as u64) + 8), (f as u64) + 8) {
        Ok(i) => i,
        Err(e) => {
            return Err(e);
        },
    };
    let tag = get_u8(s, (f as u64) + 2);
    let count = get_u32(s, (f as u64) + 12);
    let faces_off = get_u32(s, (f as u64) + 16);
    let faces = match read_faces(s, f, tag, count, faces_off) {
        Ok(x) => x,
        Err(e) => {
            return Err(e);
        },
    };
    let fl = NxfFacelist {
        flags: get_u16(s, f as u64),
        attribs: get_u8(s, (f as u64) + 3),
        material: mat,
        faces,
        display_list: get_u32(s, (f as u64) + 24),
        display_list_size: get_u32(s, (f as u64) + 28),
    };
    proof {
        assert(fl@ =~~= spec_facelist(s@, f, old(cache)@)->Ok_0.0);
    }
    Ok(fl)
}

/// The facelists decoded from the chain nodes `nodes[k..]`, threading the
/// cache from one record to the next.
pub open spec fn spec_facelists(s: Seq<u8>, nodes: Seq<u32>, k: int, st: CacheView) -> Result<
    (Seq<FacelistView>, CacheView),
    DecodeError,
>
    decreases nodes.len() - k,
{
    if k < 0 || k >= nodes.len() {
        Ok((Seq::empty(), st))
    } else {
        match spec_facelist(s, nodes[k], st) {
            Ok((fl, st1)) => match spec_facelists(s, nodes, k + 1, st1) {
                Ok((rest, st2)) => Ok((seq![fl] + rest, st2)),
                Err(e) => Err(e),
            },
            Err(e) => Err(e),
        }
    }
}

/// Decodes one facelist per chain node, in chain order.
fn read_facelists(s: &Vec<u8>, cache: &mut DecodeCache, nodes: &Vec<u32>) -> (r: Result<
    Vec<NxfFacelist>,
    DecodeError,
>)
    ensures
        match r {
            Ok(v) => spec_facelists(s@, nodes@, 0, old(cache)@) == Ok::<
                (Seq<FacelistView>, CacheView),
                DecodeError,
            >((Seq::new(v@.len(), |t: int| v@[t]@), final(cache)@)),
            Err(e) => spec_facelists(s@, nodes@, 0, old(cache)@) == Err::<
                (Seq<FacelistView>, CacheView),
                DecodeError,
            >(e),
        },
{
    let ghost st0 = cache@;
    let n: usize = nodes.len();
    let mut out: Vec<NxfFacelist> = Vec::new();
    let mut k: usize = 0;
    while k < n
        invariant
            k <= n,
            n == nodes@.len(),
            st0 == old(cache)@,
            (match spec_facelists(s@, nodes@, k as int, cache@) {
                Ok((rest, stf)) => spec_facelists(s@, nodes@, 0, st0) == Ok::<
                    (Seq<FacelistView>, CacheView),
                    DecodeError,
                >((Seq::new(out@.len(), |t: int| out@[t]@) + rest, stf)),
                Err(e) => spec_facelists(s@, nodes@, 0, st0) == Err::<
                    (Seq<FacelistView>, CacheView),
                    DecodeError,
                >(e),
            }),
        decreases n - k,
    {
        let node = nodes[k];
        match read_facelist(s, cache, node) {
            Ok(fl) => {
                let ghost pv = Seq::new(out@.len(), |t: int| out@[t]@);
                let ghost flv = fl@;
                out.push(fl);
                k = k + 1;
                proof {
                    assert(Seq::new(out@.len(), |t: int| out@[t]@) =~= pv.push(flv));
                    let after = spec_facelists(s@, nodes@, k as int, cache@);
                    match after {
                        Ok((rest, stf)) => {
                            assert(pv + (seq![flv] + rest) =~= pv.push(flv) + rest);
                        },
                        Err(_) => {},
                    }
                }
            },
            Err(e) => {
                return Err(e);
            },
        }
    }
    proof {
        assert(Seq::new(out@.len(), |t: int| out@[t]@) + Seq::<FacelistView>::empty() =~= Seq::new(
            out@.len(),
            |t: int| out@[t]@,
        ));
    }
    Ok(out)
}

/// The facelist-set record at `o` decoded against the cache `st`: flags,
/// the facelist chain headed by the offset at `o + 12`, and the matrix
/// palette, which the format reserves space for but never carries.
pub open spec fn spec_facelist_set(s: Seq<u8>, o: u32, st: CacheView) -> Result<
    (FacelistSetView, CacheView),
    DecodeError,
> {
    if o + 24 > s.len() {
        Err(DecodeError::UnexpectedEnd { offset: o as u64 })
    } else {
        match spec_chain(s, be32(s, o + 12), 32, 20, chain_fuel(s)) {
            Ok(fl_nodes) => match spec_facelists(s, fl_nodes, 0, st) {
                Ok((fls, st1)) => Ok(
                    (
                        FacelistSetView {
                            flags: be32(s, o as int),
                            facelists: fls,
                            mat_palette: None,
                        },
                        st1,
                    ),
                ),
                Err(e) => Err(e),
            },
            Err(e) => Err(e),
        }
    }
}

/// Decodes the facelist-set record at `o` and, through the chain headed
/// inside it, every facelist it owns.
fn read_facelist_set(s: &Vec<u8>, cache: &mut DecodeCache, o: u32) -> (r: Result<
    NxfFacelistSet,
    DecodeError,
>)
    ensures
        match r {
            Ok(set) => spec_facelist_set(s@, o, old(cache)@) == Ok::<
                (FacelistSetView, CacheView),
                DecodeError,
            >((set@, final(cache)@)),
            Err(e) => spec_facelist_set(s@, o, old(cache)@) == Err::<
                (FacelistSetView, CacheView),
                DecodeError,
            >(e),
        },
{
    let len: usize = s.len();
    if (o as u64) + 24 > len as u64 {
        return Err(DecodeError::UnexpectedEnd { offset: o as u64 });
    }
    let head = get_u32(s, (o as u64) + 12);
    let fl_nodes = match walk_chain(s, head, 32, 20) {
        Ok(v) => v,
        Err(e) => {
            return Err(e);
        },
    };
    let facelists = match read_facelists(s, cache, &fl_nodes) {
        Ok(v) => v,
        Err(e) => {
            return Err(e);
        },
    };
    let set = NxfFacelistSet { flags: get_u32(s, o as u64), facelists, mat_palette: None };
    proof {
        assert(set@ =~~= spec_facelist_set(s@, o, old(cache)@)->Ok_0.0);
    }
    Ok(set)
}

/// The facelist sets decoded from the chain nodes `nodes[k..]`.
pub open spec fn spec_facelist_sets(s: Seq<u8>, nodes: Seq<u32>, k: int, st: CacheView) -> Result<
    (Seq<FacelistSetView>, CacheView),
    DecodeError,
>
    decreases nodes.len() - k,
{
    if k < 0 || k >= nodes.len() {
        Ok((Seq::empty(), st))
    } else {
        match spec_facelist_set(s, nodes[k], st) {
            Ok((set, st1)) => match spec_facelist_sets(s, nodes, k + 1, st1) {
                Ok((rest, st2)) => Ok((seq![set] + rest, st2)),
                Err(e) => Err(e),
            },
            Err(e) => Err(e),
        }
    }
}

/// Decodes one facelist set per chain node, in chain order.
fn read_facelist_sets(s: &Vec<u8>, cache: &mut DecodeCache, nodes: &Vec<u32>) -> (r: Result<
    Vec<NxfFacelistSet>,
    DecodeError,
>)
    ensures
        match r {
            Ok(v) => spec_facelist_sets(s@, nodes@, 0, old(cache)@) == Ok::<
                (Seq<FacelistSetView>, CacheView),
                DecodeError,
            >((Seq::new(v@.len(), |t: int| v@[t]@), final(cache)@)),
            Err(e) => spec_facelist_sets(s@, nodes@, 0, old(cache)@) == Err::<
                (Seq<FacelistSetView>, CacheView),
                DecodeError,
            >(e),
        },
{
    let ghost st0 = cache@;
    let n: usize = nodes.len();
    let mut out: Vec<NxfFacelistSet> = Vec::new();
    let mut k: usize = 0;
    while k < n
        invariant
            k <= n,
            n == nodes@.len(),
            st0 == old(cache)@,
            (match spec_facelist_sets(s@, nodes@, k as int, cache@) {
                Ok((rest, stf)) => spec_facelist_sets(s@, nodes@, 0, st0) == Ok::<
                    (Seq<FacelistSetView>, CacheView),
                    DecodeError,
                >((Seq::new(out@.len(), |t: int| out@[t]@) + rest, stf)),
                Err(e) => spec_facelist_sets(s@, nodes@, 0, st0) == Err::<
                    (Seq<FacelistSetView>, CacheView),
                    DecodeError,
                >(e),
            }),
        decreases n - k,
    {
        let node = nodes[k];
        match read_facelist_set(s, cache, node) {
            Ok(set) => {
                let ghost pv = Seq::new(out@.len(), |t: int| out@[t]@);
                let ghost sv = set@;
                out.push(set);
                k = k + 1;
                proof {
                    assert(Seq::new(out@.len(), |t: int| out@[t]@) =~= pv.push(sv));
                    let after = spec_facelist_sets(s@, nodes@, k as int, cache@);
                    match after {
                        Ok((rest, stf)) => {
                            assert(pv + (seq![sv] + rest) =~= pv.push(sv) + rest);
                        },
                        Err(_) => {},
                    }
                }
            },
            Err(e) => {
                return Err(e);
            },
        }
    }
    proof {
        assert(Seq::new(out@.len(), |t: int| out@[t]@) + Seq::<FacelistSetView>::empty()
            =~= Seq::new(out@.len(), |t: int| out@[t]@));
    }
    Ok(out)
}

/// The string table: `count` consecutive pointer slots starting at byte
/// 32, each interned through the cache, so two slots holding the same
/// offset share one arena entry.
pub open spec fn spec_string_table(s: Seq<u8>, count: int, k: int, st: CacheView) -> Result<
    (Seq<usize>, CacheView),
    DecodeError,
>
    decreases count - k,
{
    if k < 0 || k >= count {
        Ok((Seq::empty(), st))
    } else {
        match spec_intern_string(s, be32(s, 32 + 4 * k), (32 + 4 * k) as u64, st) {
            Ok((i, st1)) => match spec_string_table(s, count, k + 1, st1) {
                Ok((rest, st2)) => Ok((seq![i] + rest, st2)),
                Err(e) => Err(e),
            },
            Err(e) => Err(e),
        }
    }
}

/// Decodes the string table, interning each slot.
fn read_string_table(s: &Vec<u8>, cache: &mut DecodeCache, count: u32) -> (r: Result<
    Vec<usize>,
    DecodeError,
>)
    requires
        32 + 4 * count <= s@.len(),
    ensures
        match r {
            Ok(v) => spec_string_table(s@, count as int, 0, old(cache)@) == Ok::<
                (Seq<usize>, CacheView),
                DecodeError,
            >((v@, final(cache)@)),
            Err(e) => spec_string_table(s@, count as int, 0, old(cache)@) == Err::<
                (Seq<usize>, CacheView),
                DecodeError,
            >(e),
        },
{
    let ghost st0 = cache@;
    let len: usize = s.len();
    let mut out: Vec<usize> = Vec::new();
    let mut k: u32 = 0;
    while k < count
        invariant
            k <= count,
            len == s@.len(),
            32 + 4 * count <= s@.len(),
            st0 == old(cache)@,
            (match spec_string_table(s@, count as int, k as int, cache@) {
                Ok((rest, stf)) => spec_string_table(s@, count as int, 0, st0) == Ok::<
                    (Seq<usize>, CacheView),
                    DecodeError,
                >((out@ + rest, stf)),
                Err(e) => spec_string_table(s@, count as int, 0, st0) == Err::<
                    (Seq<usize>, CacheView),
                    DecodeError,
                >(e),
            }),
        decreases count - k,
    {
        let at: u64 = 32 + 4 * (k as u64);
        let off = get_u32(s, at);
        match intern_string(s, cache, off, at) {
            Ok(i) => {
                let ghost pv = out@;
                out.push(i);
                k = k + 1;
                proof {
                    let after = spec_string_table(s@, count as int, k as int, cache@);
                    match after {
                        Ok((rest, stf)) => {
                            assert(pv + (seq![i] + rest) =~= pv.push(i) + rest);
                        },
                        Err(_) => {},
                    }
                }
            },
            Err(e) => {
                return Err(e);
            },
        }
    }
    proof {
        assert(out@ + Seq::<usize>::empty() =~= out@);
    }
    Ok(out)
}

/// The material list: each chain node holds a material pointer in its
/// first four bytes, resolved through the cache in chain order, so two
/// nodes (or a node and a facelist) holding the same offset share one
/// arena entry.
pub open spec fn spec_material_list(s: Seq<u8>, nodes: Seq<u32>, k: int, st: CacheView) -> Result<
    (Seq<usize>, CacheView),
    DecodeError,
>
    decreases nodes.len() - k,
{
    if k < 0 || k >= nodes.len() {
        Ok((Seq::empty(), st))
    } else if nodes[k] + 8 > s.len() {
        Err(DecodeError::UnexpectedEnd { offset: nodes[k] as u64 })
    } else {
        match spec_resolve_material(s, be32(s, nodes[k] as int), nodes[k] as u64, st) {
            Ok((i, st1)) => match spec_material_list(s, nodes, k + 1, st1) {
                Ok((rest, st2)) => Ok((seq![i] + rest, st2)),
                Err(e) => Err(e),
            },
            Err(e) => Err(e),
        }
    }
}

/// Resolves one material per chain node, in chain order.
fn resolve_material_chain(s: &Vec<u8>, cache: &mut DecodeCache, nodes: &Vec<u32>) -> (r: Result<
    Vec<usize>,
    DecodeError,
>)
    ensures
        match r {
            Ok(v) => spec_material_list(s@, nodes@, 0, old(cache)@) == Ok::<
                (Seq<usize>, CacheView),
                DecodeError,
            >((v@, final(cache)@)),
            Err(e) => spec_material_list(s@, nodes@, 0, old(cache)@) == Err::<
                (Seq<usize>, CacheView),
                DecodeError,
            >(e),
        },
{
    let ghost st0 = cache@;
    let len: usize = s.len();
    let n: usize = nodes.len();
    let mut out: Vec<usize> = Vec::new();
    let mut k: usize = 0;
    while k < n
        invariant
            k <= n,
            n == nodes@.len(),
            len == s@.len(),
            st0 == old(cache)@,
            (match spec_material_list(s@, nodes@, k as int, cache@) {
                Ok((rest, stf)) => spec_material_list(s@, nodes@, 0, st0) == Ok::<
                    (Seq<usize>, CacheView),
                    DecodeError,
                >((out@ + rest, stf)),
                Err(e) => spec_material_list(s@, nodes@, 0, st0) == Err::<
                    (Seq<usize>, CacheView),
                    DecodeError,
                >(e),
            }),
        decreases n - k,
    {
        let node = nodes[k];
        if (node as u64) + 8 > len as u64 {
            return Err(DecodeError::UnexpectedEnd { offset: node as u64 });
        }
        let off = get_u32(s, node as u64);
        match resolve_material(s, cache, off, node as u64) {
            Ok(i) => {
                let ghost pv = out@;
                out.push(i);
                k = k + 1;
                proof {
                    let after = spec_material_list(s@, nodes@, k as int, cache@);
                    match after {
                        Ok((rest, stf)) => {
                            assert(pv + (seq![i] + rest) =~= pv.push(i) + rest);
                        },
                        Err(_) => {},
                    }
                }
            },
            Err(e) => {
                return Err(e);
            },
        }
    }
    proof {
        assert(out@ + Seq::<usize>::empty() =~= out@);
    }
    Ok(out)
}

/// The complete object decoded from the source `s`.
///
/// The fixed 32-byte header prefix carries the identifier, the endianness
/// marker, the version bits, the three flag words, the string-table size,
/// and one reserved word; the table itself follows at byte 32, and the
/// trailer — a second reserved word, the material chain head, the
/// vertex-array pointer, the facelist-set chain head, the display-list
/// metadata, and four more words consumed but not interpreted — follows
/// the table. Decoding is all-or-nothing: the first failure, at any
/// nesting depth, is the result.
pub open spec fn spec_decode(s: Seq<u8>) -> Result<ObjGeomView, DecodeError> {
    if s.len() < 32 {
        Err(DecodeError::UnexpectedEnd { offset: 0 })
    } else {
        let nstr = be16(s, 24) as int;
        if 32 + 4 * nstr + 40 > s.len() {
            Err(DecodeError::UnexpectedEnd { offset: 32 })
        } else {
            let base = 32 + 4 * nstr;
            match spec_string_table(s, nstr, 0, empty_cache()) {
                Ok((slots, st1)) => match spec_chain(s, be32(s, base + 4), 8, 4, chain_fuel(s)) {
                    Ok(mat_nodes) => match spec_material_list(s, mat_nodes, 0, st1) {
                        Ok((mats, st2)) => {
                            let arr_ptr = be32(s, base + 8);
                            if arr_ptr == 0 {
                                Err(DecodeError::NullOffset { at: (base + 8) as u64 })
                            } else {
                                match spec_array(s, arr_ptr) {
                                    Ok(arr) => match spec_chain(
                                        s,
                                        be32(s, base + 12),
                                        24,
                                        20,
                                        chain_fuel(s),
                                    ) {
                                        Ok(set_nodes) => match spec_facelist_sets(
                                            s,
                                            set_nodes,
                                            0,
                                            st2,
                                        ) {
                                            Ok((sets, st3)) => Ok(
                                                ObjGeomView {
                                                    id: s.subrange(0, 4),
                                                    endian: be32(s, 4),
                                                    version: be32(s, 8),
                                                    flags: be32(s, 12),
                                                    alpha_mode: be32(s, 16),
                                                    env_map_alpha_mode: be32(s, 20),
                                                    string_arena: st3.strings,
                                                    strings: slots,
                                                    material_arena: st3.materials,
                                                    materials: mats,
                                                    arrays: arr,
                                                    facelist_sets: sets,
                                                    display_list: be32(s, base + 16),
                                                    display_list_size: be32(s, base + 20),
                                                },
                                            ),
                                            Err(e) => Err(e),
                                        },
                                        Err(e) => Err(e),
                                    },
                                    Err(e) => Err(e),
                                }
                            }
                        },
                        Err(e) => Err(e),
                    },
                    Err(e) => Err(e),
                },
                Err(e) => Err(e),
            }
        }
    }
}

impl NxfObjGeom {
    /// Decodes a complete object from the byte source.
    ///
    /// Returns exactly the value that `spec_decode` assigns to the bytes:
    /// a fully decoded, internally consistent object, or the first error
    /// the source presents.
    #[verifier::rlimit(100)]
    #[verifier::spinoff_prover]
    pub fn decode(s: &Vec<u8>) -> (r: Result<NxfObjGeom, DecodeError>)
        ensures
            match r {
                Ok(g) => spec_decode(s@) == Ok::<ObjGeomView, DecodeError>(g@),
                Err(e) => spec_decode(s@) == Err::<ObjGeomView, DecodeError>(e),
            },
    {
        let len: usize = s.len();
        if (len as u64) < 32 {
            return Err(DecodeError::UnexpectedEnd { offset: 0 });
        }
        let nstr = get_u16(s, 24);
        if 32 + 4 * (nstr as u64) + 40 > len as u64 {
            return Err(DecodeError::UnexpectedEnd { offset: 32 });
        }
        let base: u64 = 32 + 4 * (nstr as u64);
        let mut cache = DecodeCache::new();
        let slots = match read_string_table(s, &mut cache, nstr as u32) {
            Ok(v) => v,
            Err(e) => {
                return Err(e);
            },
        };
        let mat_nodes = match walk_chain(s, get_u32(s, base + 4), 8, 4) {
            Ok(v) => v,
            Err(e) => {
                return Err(e);
            },
        };
        let mats = match resolve_material_chain(s, &mut cache, &mat_nodes) {
            Ok(v) => v,
            Err(e) => {
                return Err(e);
            },
        };
        let arr_ptr = get_u32(s, base + 8);
        if arr_ptr == 0 {
            return Err(DecodeError::NullOffset { at: base + 8 });
        }
        let arrays = match read_array(s, arr_ptr) {
            Ok(a) => a,
            Err(e) => {
                return Err(e);
            },
        };
        let set_nodes = match walk_chain(s, get_u32(s, base + 12), 24, 20) {
            Ok(v) => v,
            Err(e) => {
                return Err(e);
            },
        };
        let facelist_sets = match read_facelist_sets(s, &mut cache, &set_nodes) {
            Ok(v) => v,
            Err(e) => {
                return Err(e);
            },
        };
        let g = NxfObjGeom {
            id: [get_u8(s, 0), get_u8(s, 1), get_u8(s, 2), get_u8(s, 3)],
            endian: get_u32(s, 4),
            version: get_u32(s, 8),
            flags: get_u32(s, 12),
            alpha_mode: get_u32(s, 16),
            env_map_alpha_mode: get_u32(s, 20),
            string_arena: cache.strings,
            strings: slots,
            material_arena: cache.materials,
            materials: mats,
            arrays,
            facelist_sets,
            display_list: get_u32(s, base + 16),
            display_list_size: get_u32(s, base + 20),
        };
        proof {
            assert(g.id@ =~= s@.subrange(0, 4));
            assert(g@ =~~= spec_decode(s@)->Ok_0);
        }
        Ok(g)
    }
}

} // verus!

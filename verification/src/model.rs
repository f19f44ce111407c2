//! The decoded object model.
//!
//! Every field of the on-disk format that is a 32-bit IEEE 754 value
//! (versions, bounding volumes, vertex positions, texture coordinates) is
//! carried as its raw big-endian bit pattern in a `u32`; the decoder makes
//! no floating-point computation, and a consumer that needs the numeric
//! value reassembles it from the bits.
//!
//! Shared records are held in arenas: `NxfObjGeom` owns one arena of
//! interned strings and one of materials, and every reference to a shared
//! record (a string-table slot, a material named by a facelist) is an index
//! into the corresponding arena. Two owners that reference the same source
//! offset hold the same index, so the record is decoded once and shared.

use vstd::prelude::*;

verus! {

/// A material: texture and reflection-map identifiers, an interned name
/// (an index into the owning object's string arena), a reflection color,
/// flags, and two alpha-mode fields.
#[derive(Clone, Debug, PartialEq, Eq, Structural)]
pub struct NxfMaterial {
    pub tex_pmi: u32,
    pub ref_pmi: u32,
    /// Index of the material's name in the string arena.
    pub tex_name: usize,
    pub ref_map: u32,
    pub ref_r: u8,
    pub ref_g: u8,
    pub ref_b: u8,
    pub ref_a: u8,
    pub flags: u32,
    pub alpha_mode: u32,
    pub env_map_alpha_mode: u32,
}

/// A 3-component vector; each component is the bit pattern of a 32-bit
/// IEEE 754 value.
#[derive(Clone, Copy, Debug, PartialEq, Eq, Structural)]
pub struct Vec3 {
    pub x: u32,
    pub y: u32,
    pub z: u32,
}

/// A 4-channel byte color.
#[derive(Clone, Copy, Debug, PartialEq, Eq, Structural)]
pub struct Color {
    pub r: u8,
    pub g: u8,
    pub b: u8,
    pub a: u8,
}

/// A texture coordinate pair; each component is the bit pattern of a
/// 32-bit IEEE 754 value.
#[derive(Clone, Copy, Debug, PartialEq, Eq, Structural)]
pub struct Uv {
    pub u: u32,
    pub v: u32,
}

/// A colored, lit, untextured triangle: position, normal and color
/// indices per corner.
#[derive(Clone, Copy, Debug, PartialEq, Eq, Structural)]
pub struct NxfColLitTri {
    pub v0: u16,
    pub n0: u16,
    pub c0: u16,
    pub v1: u16,
    pub n1: u16,
    pub c1: u16,
    pub v2: u16,
    pub n2: u16,
    pub c2: u16,
}

/// A textured, lit triangle: position, normal, color and texture
/// coordinate indices per corner.
#[derive(Clone, Copy, Debug, PartialEq, Eq, Structural)]
pub struct NxfTexLitTri {
    pub v0: u16,
    pub n0: u16,
    pub c0: u16,
    pub uv0: u16,
    pub v1: u16,
    pub n1: u16,
    pub c1: u16,
    pub uv1: u16,
    pub v2: u16,
    pub n2: u16,
    pub c2: u16,
    pub uv2: u16,
}

/// A textured, unlit triangle: position, color and texture coordinate
/// indices per corner.
#[derive(Clone, Copy, Debug, PartialEq, Eq, Structural)]
pub struct NxfTexUnlitTri {
    pub v0: u16,
    pub c0: u16,
    pub uv0: u16,
    pub v1: u16,
    pub c1: u16,
    pub uv1: u16,
    pub v2: u16,
    pub c2: u16,
    pub uv2: u16,
}

/// A colored, unlit triangle: position and color indices per corner.
#[derive(Clone, Copy, Debug, PartialEq, Eq, Structural)]
pub struct NxfColUnlitTri {
    pub v0: u16,
    pub c0: u16,
    pub v1: u16,
    pub c1: u16,
    pub v2: u16,
    pub c2: u16,
}

/// A textured, lit, environment-mapped triangle: position, normal, color,
/// texture coordinate and environment-matrix indices per corner.
#[derive(Clone, Copy, Debug, PartialEq, Eq, Structural)]
pub struct NxfTexLitEnvTri {
    pub v0: u16,
    pub n0: u16,
    pub c0: u16,
    pub uv0: u16,
    pub m0: u16,
    pub v1: u16,
    pub n1: u16,
    pub c1: u16,
    pub uv1: u16,
    pub m1: u16,
    pub v2: u16,
    pub n2: u16,
    pub c2: u16,
    pub uv2: u16,
    pub m2: u16,
}

/// A colored, lit, environment-mapped triangle: position, normal, color
/// and environment-matrix indices per corner.
#[derive(Clone, Copy, Debug, PartialEq, Eq, Structural)]
pub struct NxfColLitEnvTri {
    pub v0: u16,
    pub n0: u16,
    pub c0: u16,
    pub m0: u16,
    pub v1: u16,
    pub n1: u16,
    pub c1: u16,
    pub m1: u16,
    pub v2: u16,
    pub n2: u16,
    pub c2: u16,
    pub m2: u16,
}

/// A homogeneous run of triangles of one fixed-layout shape, selected by
/// the facelist's one-byte type tag.
#[derive(Clone, Debug, PartialEq)]
pub enum NxfFaces {
    ColLitTri(Vec<NxfColLitTri>),
    TexLitTri(Vec<NxfTexLitTri>),
    TexUnlitTri(Vec<NxfTexUnlitTri>),
    ColUnlitTri(Vec<NxfColUnlitTri>),
    TexLitEnvTri(Vec<NxfTexLitEnvTri>),
    ColLitEnvTri(Vec<NxfColLitEnvTri>),
}

/// The mathematical value of an `NxfFaces`: the same closed set of
/// shapes over sequences.
#[verifier::ext_equal]
pub enum FacesView {
    ColLitTri(Seq<NxfColLitTri>),
    TexLitTri(Seq<NxfTexLitTri>),
    TexUnlitTri(Seq<NxfTexUnlitTri>),
    ColUnlitTri(Seq<NxfColUnlitTri>),
    TexLitEnvTri(Seq<NxfTexLitEnvTri>),
    ColLitEnvTri(Seq<NxfColLitEnvTri>),
}

impl FacesView {
    /// The number of triangles, whatever the shape.
    pub open spec fn len(self) -> nat {
        match self {
            FacesView::ColLitTri(faces) => faces.len(),
            FacesView::TexLitTri(faces) => faces.len(),
            FacesView::TexUnlitTri(faces) => faces.len(),
            FacesView::ColUnlitTri(faces) => faces.len(),
            FacesView::TexLitEnvTri(faces) => faces.len(),
            FacesView::ColLitEnvTri(faces) => faces.len(),
        }
    }
}

impl View for NxfFaces {
    type V = FacesView;

    open spec fn view(&self) -> FacesView {
        match self {
            NxfFaces::ColLitTri(faces) => FacesView::ColLitTri(faces@),
            NxfFaces::TexLitTri(faces) => FacesView::TexLitTri(faces@),
            NxfFaces::TexUnlitTri(faces) => FacesView::TexUnlitTri(faces@),
            NxfFaces::ColUnlitTri(faces) => FacesView::ColUnlitTri(faces@),
            NxfFaces::TexLitEnvTri(faces) => FacesView::TexLitEnvTri(faces@),
            NxfFaces::ColLitEnvTri(faces) => FacesView::ColLitEnvTri(faces@),
        }
    }
}

impl NxfFaces {
    /// The number of triangles, whatever the shape.
    pub fn len(&self) -> (r: usize)
        ensures
            r == self@.len(),
    {
        match self {
            NxfFaces::ColLitTri(faces) => faces.len(),
            NxfFaces::TexLitTri(faces) => faces.len(),
            NxfFaces::TexUnlitTri(faces) => faces.len(),
            NxfFaces::ColUnlitTri(faces) => faces.len(),
            NxfFaces::TexLitEnvTri(faces) => faces.len(),
            NxfFaces::ColLitEnvTri(faces) => faces.len(),
        }
    }
}

/// The vertex-array block: bounding volumes, declared capacities and
/// counts, and the four parallel buffers the triangles index into.
#[derive(Clone, Debug, PartialEq)]
pub struct NxfArray {
    pub min_x: u32,
    pub min_y: u32,
    pub min_z: u32,
    pub max_x: u32,
    pub max_y: u32,
    pub max_z: u32,
    pub c_x: u32,
    pub c_y: u32,
    pub c_z: u32,
    pub radius: u32,
    pub max_verts: u32,
    pub max_normals: u32,
    pub max_cols: u32,
    pub max_uvs: u32,
    pub verts: Vec<Vec3>,
    pub normals: Vec<Vec3>,
    pub colors: Vec<Color>,
    pub uvs: Vec<Uv>,
    pub flags: u32,
}

/// The mathematical value of an `NxfArray`.
#[verifier::ext_equal]
pub struct NxfArrayView {
    pub min_x: u32,
    pub min_y: u32,
    pub min_z: u32,
    pub max_x: u32,
    pub max_y: u32,
    pub max_z: u32,
    pub c_x: u32,
    pub c_y: u32,
    pub c_z: u32,
    pub radius: u32,
    pub max_verts: u32,
    pub max_normals: u32,
    pub max_cols: u32,
    pub max_uvs: u32,
    pub verts: Seq<Vec3>,
    pub normals: Seq<Vec3>,
    pub colors: Seq<Color>,
    pub uvs: Seq<Uv>,
    pub flags: u32,
}

impl View for NxfArray {
    type V = NxfArrayView;

    open spec fn view(&self) -> NxfArrayView {
        NxfArrayView {
            min_x: self.min_x,
            min_y: self.min_y,
            min_z: self.min_z,
            max_x: self.max_x,
            max_y: self.max_y,
            max_z: self.max_z,
            c_x: self.c_x,
            c_y: self.c_y,
            c_z: self.c_z,
            radius: self.radius,
            max_verts: self.max_verts,
            max_normals: self.max_normals,
            max_cols: self.max_cols,
            max_uvs: self.max_uvs,
            verts: self.verts@,
            normals: self.normals@,
            colors: self.colors@,
            uvs: self.uvs@,
            flags: self.flags,
        }
    }
}

/// One facelist: flags, an attribute byte, the index of its shared
/// material in the material arena, and its owned triangle run. The
/// on-disk next-record offset is consumed by chain traversal and is not
/// part of the decoded model.
#[derive(Clone, Debug, PartialEq)]
pub struct NxfFacelist {
    pub flags: u16,
    pub attribs: u8,
    /// Index of the shared material in the material arena.
    pub material: usize,
    pub faces: NxfFaces,
    pub display_list: u32,
    pub display_list_size: u32,
}

/// The mathematical value of an `NxfFacelist`.
#[verifier::ext_equal]
pub struct FacelistView {
    pub flags: u16,
    pub attribs: u8,
    pub material: usize,
    pub faces: FacesView,
    pub display_list: u32,
    pub display_list_size: u32,
}

impl View for NxfFacelist {
    type V = FacelistView;

    open spec fn view(&self) -> FacelistView {
        FacelistView {
            flags: self.flags,
            attribs: self.attribs,
            material: self.material,
            faces: self.faces@,
            display_list: self.display_list,
            display_list_size: self.display_list_size,
        }
    }
}

/// A matrix palette. The format reserves a pointer to one per facelist
/// set, but no observed source carries one, so it stays a known-absent
/// placeholder.
#[derive(Clone, Copy, Debug, PartialEq, Eq, Structural)]
pub struct NxfMatrixPalette;

/// An ordered group of facelists, optionally associated with a matrix
/// palette (always absent).
#[derive(Clone, Debug, PartialEq)]
pub struct NxfFacelistSet {
    pub flags: u32,
    pub facelists: Vec<NxfFacelist>,
    pub mat_palette: Option<NxfMatrixPalette>,
}

/// The mathematical value of an `NxfFacelistSet`.
#[verifier::ext_equal]
pub struct FacelistSetView {
    pub flags: u32,
    pub facelists: Seq<FacelistView>,
    pub mat_palette: Option<NxfMatrixPalette>,
}

impl View for NxfFacelistSet {
    type V = FacelistSetView;

    open spec fn view(&self) -> FacelistSetView {
        FacelistSetView {
            flags: self.flags,
            facelists: Seq::new(self.facelists@.len(), |k: int| self.facelists@[k]@),
            mat_palette: self.mat_palette,
        }
    }
}

/// The root object: identification and flag fields, the string and
/// material arenas with the string table and the material list that index
/// into them, the vertex-array block, the facelist sets, and the trailing
/// display-list metadata (carried but not interpreted).
#[derive(Clone, Debug, PartialEq)]
pub struct NxfObjGeom {
    pub id: [u8; 4],
    pub endian: u32,
    /// Bit pattern of the 32-bit IEEE 754 version number.
    pub version: u32,
    pub flags: u32,
    pub alpha_mode: u32,
    pub env_map_alpha_mode: u32,
    /// Arena of interned strings, in first-use order, unique per source
    /// offset.
    pub string_arena: Vec<String>,
    /// The string table: for each slot, the index of its interned string
    /// in `string_arena`.
    pub strings: Vec<usize>,
    /// Arena of shared materials, in first-decode order, unique per
    /// source offset.
    pub material_arena: Vec<NxfMaterial>,
    /// The material list, in chain order: for each chain entry, the index
    /// of its material in `material_arena`.
    pub materials: Vec<usize>,
    pub arrays: NxfArray,
    pub facelist_sets: Vec<NxfFacelistSet>,
    pub display_list: u32,
    pub display_list_size: u32,
}

/// The mathematical value of an `NxfObjGeom`.
#[verifier::ext_equal]
pub struct ObjGeomView {
    pub id: Seq<u8>,
    pub endian: u32,
    pub version: u32,
    pub flags: u32,
    pub alpha_mode: u32,
    pub env_map_alpha_mode: u32,
    pub string_arena: Seq<Seq<char>>,
    pub strings: Seq<usize>,
    pub material_arena: Seq<NxfMaterial>,
    pub materials: Seq<usize>,
    pub arrays: NxfArrayView,
    pub facelist_sets: Seq<FacelistSetView>,
    pub display_list: u32,
    pub display_list_size: u32,
}

impl View for NxfObjGeom {
    type V = ObjGeomView;

    open spec fn view(&self) -> ObjGeomView {
        ObjGeomView {
            id: self.id@,
            endian: self.endian,
            version: self.version,
            flags: self.flags,
            alpha_mode: self.alpha_mode,
            env_map_alpha_mode: self.env_map_alpha_mode,
            string_arena: Seq::new(self.string_arena@.len(), |k: int| self.string_arena@[k]@),
            strings: self.strings@,
            material_arena: self.material_arena@,
            materials: self.materials@,
            arrays: self.arrays@,
            facelist_sets: Seq::new(
                self.facelist_sets@.len(),
                |k: int| self.facelist_sets@[k]@,
            ),
            display_list: self.display_list,
            display_list_size: self.display_list_size,
        }
    }
}

} // verus!

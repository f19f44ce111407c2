//! Decoder for the sibling scene-placement format.
//!
//! A simpler, offset-addressed, big-endian container of flat fixed-size
//! records with no shared records: a template header points at clumps by
//! absolute offset, and each clump holds its placements consecutively.
//! Name fields are 32 bytes, null-padded, truncated at the first null or
//! at 32 bytes, whichever comes first, and decoded as UTF-8 (malformed
//! names are rejected). As in the mesh decoder, every 32-bit IEEE 754
//! field is carried as its raw bit pattern in a `u32`.
//!
//! A placement's variant payload is decoded from its own data block, so
//! the byte offsets inside `UnexpectedEnd` and `InvalidString` errors
//! raised there are relative to that block, not to the whole source.

use vstd::prelude::*;
use crate::bytes::{be16, be32, copy_range, get_u8, get_u16, get_u32, nul_from, string_from_utf8,
    utf8_decoded};
use crate::error::DecodeError;

verus! {

/// The geometry format that a placement's model is stored in.
#[derive(Clone, Copy, Debug, PartialEq, Eq, Structural)]
pub enum SceneGeomFormat {
    Unknown,
    Imf,
    Hmf,
    Hxf,
    Hxf2,
    Vu1,
    Vu1Paged,
    Ixf,
    Nxf,
}

/// The geometry format encoded by `val`.
pub open spec fn spec_geom_format(val: u32) -> SceneGeomFormat {
    if val == 1 {
        SceneGeomFormat::Imf
    } else if val == 2 {
        SceneGeomFormat::Hmf
    } else if val == 3 {
        SceneGeomFormat::Hxf
    } else if val == 4 {
        SceneGeomFormat::Hxf2
    } else if val == 6 {
        SceneGeomFormat::Vu1
    } else if val == 7 {
        SceneGeomFormat::Vu1Paged
    } else if val == 8 {
        SceneGeomFormat::Ixf
    } else if val == 9 {
        SceneGeomFormat::Nxf
    } else {
        SceneGeomFormat::Unknown
    }
}

impl SceneGeomFormat {
    /// The geometry format encoded by `val`; values outside the known
    /// set decode to `Unknown`.
    pub fn from_u32(val: u32) -> (r: SceneGeomFormat)
        ensures
            r == spec_geom_format(val),
    {
        match val {
            1 => SceneGeomFormat::Imf,
            2 => SceneGeomFormat::Hmf,
            3 => SceneGeomFormat::Hxf,
            4 => SceneGeomFormat::Hxf2,
            6 => SceneGeomFormat::Vu1,
            7 => SceneGeomFormat::Vu1Paged,
            8 => SceneGeomFormat::Ixf,
            9 => SceneGeomFormat::Nxf,
            _ => SceneGeomFormat::Unknown,
        }
    }
}

/// A 4-component vector; each component is the bit pattern of a 32-bit
/// IEEE 754 value.
#[derive(Clone, Copy, Debug, PartialEq, Eq, Structural)]
pub struct Vec4 {
    pub x: u32,
    pub y: u32,
    pub z: u32,
    pub w: u32,
}

/// The variant payload of a placement, selected by its main type. A main
/// type outside the known set keeps its raw data block rather than
/// failing: the placement format tolerates unknown record kinds, unlike
/// the mesh format's face tags.
#[derive(Clone, Debug, PartialEq)]
pub enum ScenePlacementData {
    Static(SceneGeomFormat),
    StaticInst(SceneGeomFormat),
    Animated,
    AnimatedInst,
    Ground(SceneGeomFormat),
    GroundVU1(SceneGeomFormat),
    Point(u32),
    DirLight { sub_type: u32, r: u32, g: u32, b: u32 },
    AmbientLight { sub_type: u32, r: u32, g: u32, b: u32 },
    Camera { sub_type: u32, interest_x: u32, interest_y: u32, interest_z: u32, field_of_view: u32 },
    Path_,
    AnimWithPath,
    AnimWithoutPath,
    BoundingBox { sub_type: u32, min: Vec4, max: Vec4 },
    WorldSprite,
    PointList,
    Sky(SceneGeomFormat),
    Bezier {
        sub_type: u32,
        length: u32,
        degree: u32,
        closed: u32,
        param_type: u32,
        nb_knots: u32,
        nb_control_points: u32,
        control_points: u32,
        knots: u32,
        curve_points: u32,
        true_length: u32,
        pad: [u32; 5],
    },
    ColCylinder { sub_type: u32, min: Vec4, max: Vec4 },
    CoverList,
    CombatPath,
    Unknown(u32, u32, Vec<u8>),
}

/// The mathematical value of a `ScenePlacementData`.
#[verifier::ext_equal]
pub enum PlacementDataView {
    Static(SceneGeomFormat),
    StaticInst(SceneGeomFormat),
    Ground(SceneGeomFormat),
    GroundVU1(SceneGeomFormat),
    Point(u32),
    DirLight { sub_type: u32, r: u32, g: u32, b: u32 },
    AmbientLight { sub_type: u32, r: u32, g: u32, b: u32 },
    Camera { sub_type: u32, interest_x: u32, interest_y: u32, interest_z: u32, field_of_view: u32 },
    BoundingBox { sub_type: u32, min: Vec4, max: Vec4 },
    Sky(SceneGeomFormat),
    Bezier {
        sub_type: u32,
        length: u32,
        degree: u32,
        closed: u32,
        param_type: u32,
        nb_knots: u32,
        nb_control_points: u32,
        control_points: u32,
        knots: u32,
        curve_points: u32,
        true_length: u32,
        pad: Seq<u32>,
    },
    ColCylinder { sub_type: u32, min: Vec4, max: Vec4 },
    Unknown(u32, u32, Seq<u8>),
    Other(ScenePlacementDataTag),
}

/// The payload-free placement kinds, named so the view can carry them
/// without duplicating empty variants.
#[derive(Clone, Copy, Debug, PartialEq, Eq, Structural)]
pub enum ScenePlacementDataTag {
    Animated,
    AnimatedInst,
    Path_,
    AnimWithPath,
    AnimWithoutPath,
    WorldSprite,
    PointList,
    CoverList,
    CombatPath,
}

impl View for ScenePlacementData {
    type V = PlacementDataView;

    open spec fn view(&self) -> PlacementDataView {
        match self {
            ScenePlacementData::Static(f) => PlacementDataView::Static(*f),
            ScenePlacementData::StaticInst(f) => PlacementDataView::StaticInst(*f),
            ScenePlacementData::Animated => PlacementDataView::Other(
                ScenePlacementDataTag::Animated,
            ),
            ScenePlacementData::AnimatedInst => PlacementDataView::Other(
                ScenePlacementDataTag::AnimatedInst,
            ),
            ScenePlacementData::Ground(f) => PlacementDataView::Ground(*f),
            ScenePlacementData::GroundVU1(f) => PlacementDataView::GroundVU1(*f),
            ScenePlacementData::Point(v) => PlacementDataView::Point(*v),
            ScenePlacementData::DirLight { sub_type, r, g, b } => PlacementDataView::DirLight {
                sub_type: *sub_type,
                r: *r,
                g: *g,
                b: *b,
            },
            ScenePlacementData::AmbientLight { sub_type, r, g, b } => {
                PlacementDataView::AmbientLight { sub_type: *sub_type, r: *r, g: *g, b: *b }
            },
            ScenePlacementData::Camera {
                sub_type,
                interest_x,
                interest_y,
                interest_z,
                field_of_view,
            } => PlacementDataView::Camera {
                sub_type: *sub_type,
                interest_x: *interest_x,
                interest_y: *interest_y,
                interest_z: *interest_z,
                field_of_view: *field_of_view,
            },
            ScenePlacementData::Path_ => PlacementDataView::Other(ScenePlacementDataTag::Path_),
            ScenePlacementData::AnimWithPath => PlacementDataView::Other(
                ScenePlacementDataTag::AnimWithPath,
            ),
            ScenePlacementData::AnimWithoutPath => PlacementDataView::Other(
                ScenePlacementDataTag::AnimWithoutPath,
            ),
            ScenePlacementData::BoundingBox { sub_type, min, max } => {
                PlacementDataView::BoundingBox { sub_type: *sub_type, min: *min, max: *max }
            },
            ScenePlacementData::WorldSprite => PlacementDataView::Other(
                ScenePlacementDataTag::WorldSprite,
            ),
            ScenePlacementData::PointList => PlacementDataView::Other(
                ScenePlacementDataTag::PointList,
            ),
            ScenePlacementData::Sky(f) => PlacementDataView::Sky(*f),
            ScenePlacementData::Bezier {
                sub_type,
                length,
                degree,
                closed,
                param_type,
                nb_knots,
                nb_control_points,
                control_points,
                knots,
                curve_points,
                true_length,
                pad,
            } => PlacementDataView::Bezier {
                sub_type: *sub_type,
                length: *length,
                degree: *degree,
                closed: *closed,
                param_type: *param_type,
                nb_knots: *nb_knots,
                nb_control_points: *nb_control_points,
                control_points: *control_points,
                knots: *knots,
                curve_points: *curve_points,
                true_length: *true_length,
                pad: pad@,
            },
            ScenePlacementData::ColCylinder { sub_type, min, max } => {
                PlacementDataView::ColCylinder { sub_type: *sub_type, min: *min, max: *max }
            },
            ScenePlacementData::CoverList => PlacementDataView::Other(
                ScenePlacementDataTag::CoverList,
            ),
            ScenePlacementData::CombatPath => PlacementDataView::Other(
                ScenePlacementDataTag::CombatPath,
            ),
            ScenePlacementData::Unknown(m, su, d) => PlacementDataView::Unknown(*m, *su, d@),
        }
    }
}

/// The number of payload bytes that the variant selected by `main_type`
/// reads from its data block; 0 both for the payload-free kinds and for
/// unknown kinds, which keep the block raw.
pub open spec fn placement_data_need(main_type: u32) -> int {
    if main_type == 7 || main_type == 8 {
        12
    } else if main_type == 9 {
        16
    } else if main_type == 13 || main_type == 25 {
        32
    } else if main_type == 22 {
        60
    } else {
        0
    }
}

/// The variant payload decoded from a placement's data block. The block
/// may hold more bytes than the variant reads; the excess is ignored,
/// except that an unknown main type keeps the whole block.
pub open spec fn spec_placement_data(main_type: u32, sub_type: u32, d: Seq<u8>) -> Result<
    PlacementDataView,
    DecodeError,
> {
    if d.len() < placement_data_need(main_type) {
        Err(DecodeError::UnexpectedEnd { offset: 0 })
    } else if main_type == 0 {
        Ok(PlacementDataView::Static(spec_geom_format(sub_type)))
    } else if main_type == 1 {
        Ok(PlacementDataView::StaticInst(spec_geom_format(sub_type)))
    } else if main_type == 4 {
        Ok(PlacementDataView::Ground(spec_geom_format(sub_type)))
    } else if main_type == 5 {
        Ok(PlacementDataView::GroundVU1(spec_geom_format(sub_type)))
    } else if main_type == 6 {
        Ok(PlacementDataView::Point(sub_type))
    } else if main_type == 7 {
        Ok(
            PlacementDataView::DirLight {
                sub_type,
                r: be32(d, 0),
                g: be32(d, 4),
                b: be32(d, 8),
            },
        )
    } else if main_type == 8 {
        Ok(
            PlacementDataView::AmbientLight {
                sub_type,
                r: be32(d, 0),
                g: be32(d, 4),
                b: be32(d, 8),
            },
        )
    } else if main_type == 9 {
        Ok(
            PlacementDataView::Camera {
                sub_type,
                interest_x: be32(d, 0),
                interest_y: be32(d, 4),
                interest_z: be32(d, 8),
                field_of_view: be32(d, 12),
            },
        )
    } else if main_type == 13 {
        Ok(
            PlacementDataView::BoundingBox {
                sub_type,
                min: Vec4 { x: be32(d, 0), y: be32(d, 4), z: be32(d, 8), w: be32(d, 12) },
                max: Vec4 { x: be32(d, 16), y: be32(d, 20), z: be32(d, 24), w: be32(d, 28) },
            },
        )
    } else if main_type == 20 {
        Ok(PlacementDataView::Sky(spec_geom_format(sub_type)))
    } else if main_type == 22 {
        Ok(
            PlacementDataView::Bezier {
                sub_type,
                length: be32(d, 0),
                degree: be32(d, 4),
                closed: be32(d, 8),
                param_type: be32(d, 12),
                nb_knots: be32(d, 16),
                nb_control_points: be32(d, 20),
                control_points: be32(d, 24),
                knots: be32(d, 28),
                curve_points: be32(d, 32),
                true_length: be32(d, 36),
                pad: seq![be32(d, 40), be32(d, 44), be32(d, 48), be32(d, 52), be32(d, 56)],
            },
        )
    } else if main_type == 25 {
        Ok(
            PlacementDataView::ColCylinder {
                sub_type,
                min: Vec4 { x: be32(d, 0), y: be32(d, 4), z: be32(d, 8), w: be32(d, 12) },
                max: Vec4 { x: be32(d, 16), y: be32(d, 20), z: be32(d, 24), w: be32(d, 28) },
            },
        )
    } else {
        Ok(PlacementDataView::Unknown(main_type, sub_type, d))
    }
}

impl ScenePlacementData {
    /// Decodes a placement's variant payload from its data block.
    pub fn from_bytes(main_type: u32, sub_type: u32, data: Vec<u8>) -> (r: Result<
        ScenePlacementData,
        DecodeError,
    >)
        ensures
            match r {
                Ok(v) => spec_placement_data(main_type, sub_type, data@) == Ok::<
                    PlacementDataView,
                    DecodeError,
                >(v@),
                Err(e) => spec_placement_data(main_type, sub_type, data@) == Err::<
                    PlacementDataView,
                    DecodeError,
                >(e),
            },
    {
        let ghost dv = data@;
        let need: usize = if main_type == 7 || main_type == 8 {
            12
        } else if main_type == 9 {
            16
        } else if main_type == 13 || main_type == 25 {
            32
        } else if main_type == 22 {
            60
        } else {
            0
        };
        if data.len() < need {
            return Err(DecodeError::UnexpectedEnd { offset: 0 });
        }
        let d = &data;
        let r = if main_type == 0 {
            ScenePlacementData::Static(SceneGeomFormat::from_u32(sub_type))
        } else if main_type == 1 {
            ScenePlacementData::StaticInst(SceneGeomFormat::from_u32(sub_type))
        } else if main_type == 4 {
            ScenePlacementData::Ground(SceneGeomFormat::from_u32(sub_type))
        } else if main_type == 5 {
            ScenePlacementData::GroundVU1(SceneGeomFormat::from_u32(sub_type))
        } else if main_type == 6 {
            ScenePlacementData::Point(sub_type)
        } else if main_type == 7 {
            ScenePlacementData::DirLight {
                sub_type,
                r: get_u32(d, 0),
                g: get_u32(d, 4),
                b: get_u32(d, 8),
            }
        } else if main_type == 8 {
            ScenePlacementData::AmbientLight {
                sub_type,
                r: get_u32(d, 0),
                g: get_u32(d, 4),
                b: get_u32(d, 8),
            }
        } else if main_type == 9 {
            ScenePlacementData::Camera {
                sub_type,
                interest_x: get_u32(d, 0),
                interest_y: get_u32(d, 4),
                interest_z: get_u32(d, 8),
                field_of_view: get_u32(d, 12),
            }
        } else if main_type == 13 {
            ScenePlacementData::BoundingBox {
                sub_type,
                min: Vec4 { x: get_u32(d, 0), y: get_u32(d, 4), z: get_u32(d, 8), w: get_u32(d, 12) },
                max: Vec4 { x: get_u32(d, 16), y: get_u32(d, 20), z: get_u32(d, 24), w: get_u32(d, 28) },
            }
        } else if main_type == 20 {
            ScenePlacementData::Sky(SceneGeomFormat::from_u32(sub_type))
        } else if main_type == 22 {
            ScenePlacementData::Bezier {
                sub_type,
                length: get_u32(d, 0),
                degree: get_u32(d, 4),
                closed: get_u32(d, 8),
                param_type: get_u32(d, 12),
                nb_knots: get_u32(d, 16),
                nb_control_points: get_u32(d, 20),
                control_points: get_u32(d, 24),
                knots: get_u32(d, 28),
                curve_points: get_u32(d, 32),
                true_length: get_u32(d, 36),
                pad: [
                    get_u32(d, 40),
                    get_u32(d, 44),
                    get_u32(d, 48),
                    get_u32(d, 52),
                    get_u32(d, 56),
                ],
            }
        } else if main_type == 25 {
            ScenePlacementData::ColCylinder {
                sub_type,
                min: Vec4 { x: get_u32(d, 0), y: get_u32(d, 4), z: get_u32(d, 8), w: get_u32(d, 12) },
                max: Vec4 { x: get_u32(d, 16), y: get_u32(d, 20), z: get_u32(d, 24), w: get_u32(d, 28) },
            }
        } else {
            ScenePlacementData::Unknown(main_type, sub_type, data)
        };
        proof {
            assert(r@ =~~= spec_placement_data(main_type, sub_type, dv)->Ok_0);
        }
        Ok(r)
    }
}

/// The name in the 32-byte, null-padded window at `i`: the bytes up to
/// the first null or to the window's end, whichever comes first, decoded
/// as UTF-8.
pub open spec fn spec_name(s: Seq<u8>, i: int) -> Result<Seq<char>, DecodeError> {
    let e = nul_from(s, i);
    let cut = if e < 0 || e - i >= 32 {
        32
    } else {
        e - i
    };
    match utf8_decoded(s.subrange(i, i + cut)) {
        Some(cs) => Ok(cs),
        None => Err(DecodeError::InvalidString { offset: i as u64 }),
    }
}

/// The length of the name in the 32-byte window at `i`.
fn name_cut(s: &Vec<u8>, i: u64) -> (cut: u64)
    requires
        i + 32 <= s@.len(),
    ensures
        cut <= 32,
        ({
            let e = nul_from(s@, i as int);
            cut == if e < 0 || e - i >= 32 {
                32 as int
            } else {
                e - i
            }
        }),
{
    let len: usize = s.len();
    let mut j: u64 = 0;
    while j < 32
        invariant
            j <= 32,
            len == s@.len(),
            i + 32 <= s@.len(),
            nul_from(s@, i as int) == nul_from(s@, (i + j) as int),
        decreases 32 - j,
    {
        if get_u8(s, i + j) == 0 {
            return j;
        }
        j = j + 1;
    }
    proof {
        crate::bytes::lemma_nul_from_range(s@, (i + 32) as int);
    }
    32
}

/// Decodes the 32-byte, null-padded name window at `i`.
fn read_name(s: &Vec<u8>, i: u64) -> (r: Result<String, DecodeError>)
    requires
        i + 32 <= s@.len(),
    ensures
        match r {
            Ok(v) => spec_name(s@, i as int) == Ok::<Seq<char>, DecodeError>(v@),
            Err(e) => spec_name(s@, i as int) == Err::<Seq<char>, DecodeError>(e),
        },
{
    let _len: usize = s.len(); // lets the verifier bound the view's length
    let cut = name_cut(s, i);
    let raw = copy_range(s, i, i + cut);
    match string_from_utf8(raw) {
        Some(v) => Ok(v),
        None => Err(DecodeError::InvalidString { offset: i }),
    }
}

/// One placement: the names of the model and of the geometry it
/// references, a position, rotation and scale (bit patterns), and the
/// variant payload selected by the record's main type.
#[derive(Clone, Debug, PartialEq)]
pub struct ScenePlacement {
    pub model_name: String,
    pub geom_name: String,
    pub x_pos: u32,
    pub y_pos: u32,
    pub z_pos: u32,
    pub w_pos: u32,
    pub x_rot: u32,
    pub y_rot: u32,
    pub z_rot: u32,
    pub w_rot: u32,
    pub x_scale: u32,
    pub y_scale: u32,
    pub z_scale: u32,
    pub w_scale: u32,
    pub data: ScenePlacementData,
}

/// The mathematical value of a `ScenePlacement`.
#[verifier::ext_equal]
pub struct PlacementView {
    pub model_name: Seq<char>,
    pub geom_name: Seq<char>,
    pub x_pos: u32,
    pub y_pos: u32,
    pub z_pos: u32,
    pub w_pos: u32,
    pub x_rot: u32,
    pub y_rot: u32,
    pub z_rot: u32,
    pub w_rot: u32,
    pub x_scale: u32,
    pub y_scale: u32,
    pub z_scale: u32,
    pub w_scale: u32,
    pub data: PlacementDataView,
}

impl View for ScenePlacement {
    type V = PlacementView;

    open spec fn view(&self) -> PlacementView {
        PlacementView {
            model_name: self.model_name@,
            geom_name: self.geom_name@,
            x_pos: self.x_pos,
            y_pos: self.y_pos,
            z_pos: self.z_pos,
            w_pos: self.w_pos,
            x_rot: self.x_rot,
            y_rot: self.y_rot,
            z_rot: self.z_rot,
            w_rot: self.w_rot,
            x_scale: self.x_scale,
            y_scale: self.y_scale,
            z_scale: self.z_scale,
            w_scale: self.w_scale,
            data: self.data@,
        }
    }
}

/// The placement record at `p` and the position just past it. The record
/// is 124 bytes of fixed fields followed by its variable-length data
/// block, whose length the four bytes at `p + 120` declare.
pub open spec fn spec_placement(s: Seq<u8>, p: int) -> Result<(PlacementView, int), DecodeError> {
    if p + 124 > s.len() {
        Err(DecodeError::UnexpectedEnd { offset: p as u64 })
    } else {
        let data_len = be32(s, p + 120) as int;
        if p + 124 + data_len > s.len() {
            Err(DecodeError::UnexpectedEnd { offset: (p + 124) as u64 })
        } else {
            match spec_name(s, p + 8) {
                Ok(model_name) => match spec_name(s, p + 40) {
                    Ok(geom_name) => match spec_placement_data(
                        be32(s, p),
                        be32(s, p + 4),
                        s.subrange(p + 124, p + 124 + data_len),
                    ) {
                        Ok(data) => Ok(
                            (
                                PlacementView {
                                    model_name,
                                    geom_name,
                                    x_pos: be32(s, p + 72),
                                    y_pos: be32(s, p + 76),
                                    z_pos: be32(s, p + 80),
                                    w_pos: be32(s, p + 84),
                                    x_rot: be32(s, p + 88),
                                    y_rot: be32(s, p + 92),
                                    z_rot: be32(s, p + 96),
                                    w_rot: be32(s, p + 100),
                                    x_scale: be32(s, p + 104),
                                    y_scale: be32(s, p + 108),
                                    z_scale: be32(s, p + 112),
                                    w_scale: be32(s, p + 116),
                                    data,
                                },
                                p + 124 + data_len,
                            ),
                        ),
                        Err(e) => Err(e),
                    },
                    Err(e) => Err(e),
                },
                Err(e) => Err(e),
            }
        }
    }
}

/// Decodes the placement record at `p`; on success also returns the
/// position just past its data block, where the next placement of the
/// same clump starts.
fn read_placement(s: &Vec<u8>, p: u64) -> (r: Result<(ScenePlacement, u64), DecodeError>)
    ensures
        match r {
            Ok(pl) => spec_placement(s@, p as int) == Ok::<(PlacementView, int), DecodeError>(
                (pl.0@, pl.1 as int),
            ) && pl.1 <= s@.len(),
            Err(e) => spec_placement(s@, p as int) == Err::<(PlacementView, int), DecodeError>(e),
        },
{
    let len: usize = s.len();
    if (len as u64) < 124 || p > (len as u64) - 124 {
        return Err(DecodeError::UnexpectedEnd { offset: p });
    }
    let data_len = get_u32(s, p + 120);
    if (data_len as u64) > (len as u64) - (p + 124) {
        return Err(DecodeError::UnexpectedEnd { offset: p + 124 });
    }
    let model_name = match read_name(s, p + 8) {
        Ok(v) => v,
        Err(e) => {
            return Err(e);
        },
    };
    let geom_name = match read_name(s, p + 40) {
        Ok(v) => v,
        Err(e) => {
            return Err(e);
        },
    };
    let block = copy_range(s, p + 124, p + 124 + data_len as u64);
    let data = match ScenePlacementData::from_bytes(get_u32(s, p), get_u32(s, p + 4), block) {
        Ok(v) => v,
        Err(e) => {
            return Err(e);
        },
    };
    let pl = ScenePlacement {
        model_name,
        geom_name,
        x_pos: get_u32(s, p + 72),
        y_pos: get_u32(s, p + 76),
        z_pos: get_u32(s, p + 80),
        w_pos: get_u32(s, p + 84),
        x_rot: get_u32(s, p + 88),
        y_rot: get_u32(s, p + 92),
        z_rot: get_u32(s, p + 96),
        w_rot: get_u32(s, p + 100),
        x_scale: get_u32(s, p + 104),
        y_scale: get_u32(s, p + 108),
        z_scale: get_u32(s, p + 112),
        w_scale: get_u32(s, p + 116),
        data,
    };
    proof {
        assert(pl@ =~~= spec_placement(s@, p as int)->Ok_0.0);
    }
    Ok((pl, p + 124 + data_len as u64))
}

/// The `count` placements stored consecutively from `p`, and the
/// position just past the last one.
pub open spec fn spec_placements(s: Seq<u8>, p: int, count: int) -> Result<
    (Seq<PlacementView>, int),
    DecodeError,
>
    decreases count,
{
    if count <= 0 {
        Ok((Seq::empty(), p))
    } else {
        match spec_placement(s, p) {
            Ok((pl, p1)) => match spec_placements(s, p1, count - 1) {
                Ok((rest, pe)) => Ok((seq![pl] + rest, pe)),
                Err(e) => Err(e),
            },
            Err(e) => Err(e),
        }
    }
}

/// Decodes `count` consecutive placements starting at `p`.
#[verifier::rlimit(100)]
#[verifier::spinoff_prover]
fn read_placements(s: &Vec<u8>, p: u64, count: u16) -> (r: Result<
    (Vec<ScenePlacement>, u64),
    DecodeError,
>)
    ensures
        match r {
            Ok(v) => spec_placements(s@, p as int, count as int) == Ok::<
                (Seq<PlacementView>, int),
                DecodeError,
            >((Seq::new(v.0@.len(), |t: int| v.0@[t]@), v.1 as int)),
            Err(e) => spec_placements(s@, p as int, count as int) == Err::<
                (Seq<PlacementView>, int),
                DecodeError,
            >(e),
        },
{
    let mut out: Vec<ScenePlacement> = Vec::new();
    let mut pos: u64 = p;
    let mut k: u16 = 0;
    while k < count
        invariant
            k <= count,
            (match spec_placements(s@, pos as int, (count - k) as int) {
                Ok((rest, pe)) => spec_placements(s@, p as int, count as int) == Ok::<
                    (Seq<PlacementView>, int),
                    DecodeError,
                >((Seq::new(out@.len(), |t: int| out@[t]@) + rest, pe)),
                Err(e) => spec_placements(s@, p as int, count as int) == Err::<
                    (Seq<PlacementView>, int),
                    DecodeError,
                >(e),
            }),
        decreases count - k,
    {
        match read_placement(s, pos) {
            Ok((pl, next)) => {
                let ghost pv = Seq::new(out@.len(), |t: int| out@[t]@);
                let ghost plv = pl@;
                out.push(pl);
                pos = next;
                k = k + 1;
                proof {
                    assert(Seq::new(out@.len(), |t: int| out@[t]@) =~= pv.push(plv));
                    match spec_placements(s@, pos as int, (count - k) as int) {
                        Ok((rest, pe)) => {
                            assert(pv + (seq![plv] + rest) =~= pv.push(plv) + rest);
                        },
                        Err(_) => {},
                    }
                }
            },
            Err(e) => {
                return Err(e);
            },
        }
    }
    proof {
        assert(Seq::new(out@.len(), |t: int| out@[t]@) + Seq::<PlacementView>::empty()
            =~= Seq::new(out@.len(), |t: int| out@[t]@));
    }
    Ok((out, pos))
}

/// One clump: a ground rectangle and the placements it holds.
#[derive(Clone, Debug, PartialEq)]
pub struct SceneClump {
    pub min_x: u32,
    pub max_x: u32,
    pub min_z: u32,
    pub max_z: u32,
    pub placements: Vec<ScenePlacement>,
}

/// The mathematical value of a `SceneClump`.
#[verifier::ext_equal]
pub struct ClumpView {
    pub min_x: u32,
    pub max_x: u32,
    pub min_z: u32,
    pub max_z: u32,
    pub placements: Seq<PlacementView>,
}

impl View for SceneClump {
    type V = ClumpView;

    open spec fn view(&self) -> ClumpView {
        ClumpView {
            min_x: self.min_x,
            max_x: self.max_x,
            min_z: self.min_z,
            max_z: self.max_z,
            placements: Seq::new(self.placements@.len(), |t: int| self.placements@[t]@),
        }
    }
}

/// The clump record at `c`: a placement count, the ground rectangle, and
/// that many placements stored consecutively after the fixed fields.
pub open spec fn spec_clump(s: Seq<u8>, c: int) -> Result<ClumpView, DecodeError> {
    if c + 20 > s.len() {
        Err(DecodeError::UnexpectedEnd { offset: c as u64 })
    } else {
        match spec_placements(s, c + 20, be16(s, c) as int) {
            Ok((pls, _pe)) => Ok(
                ClumpView {
                    min_x: be32(s, c + 4),
                    max_x: be32(s, c + 8),
                    min_z: be32(s, c + 12),
                    max_z: be32(s, c + 16),
                    placements: pls,
                },
            ),
            Err(e) => Err(e),
        }
    }
}

/// Decodes the clump record at `c`.
fn read_clump(s: &Vec<u8>, c: u32) -> (r: Result<SceneClump, DecodeError>)
    ensures
        match r {
            Ok(cl) => spec_clump(s@, c as int) == Ok::<ClumpView, DecodeError>(cl@),
            Err(e) => spec_clump(s@, c as int) == Err::<ClumpView, DecodeError>(e),
        },
{
    let len: usize = s.len();
    if (c as u64) + 20 > len as u64 {
        return Err(DecodeError::UnexpectedEnd { offset: c as u64 });
    }
    let num = get_u16(s, c as u64);
    let placements = match read_placements(s, (c as u64) + 20, num) {
        Ok(v) => v.0,
        Err(e) => {
            return Err(e);
        },
    };
    let cl = SceneClump {
        min_x: get_u32(s, (c as u64) + 4),
        max_x: get_u32(s, (c as u64) + 8),
        min_z: get_u32(s, (c as u64) + 12),
        max_z: get_u32(s, (c as u64) + 16),
        placements,
    };
    proof {
        assert(cl@ =~~= spec_clump(s@, c as int)->Ok_0);
    }
    Ok(cl)
}

/// The scene template: identification fields, its own name, cut sizes
/// and bounds, and the clumps its offset table points at.
#[derive(Clone, Debug, PartialEq)]
pub struct SceneTemplate {
    pub header: u32,
    pub format: u32,
    /// Bit pattern of the 32-bit IEEE 754 version number.
    pub version: u32,
    pub name: String,
    pub x_cut_size: u32,
    pub z_cut_size: u32,
    pub min_x: u32,
    pub max_x: u32,
    pub min_z: u32,
    pub max_z: u32,
    pub clumps: Vec<SceneClump>,
}

/// The mathematical value of a `SceneTemplate`.
#[verifier::ext_equal]
pub struct TemplateView {
    pub header: u32,
    pub format: u32,
    pub version: u32,
    pub name: Seq<char>,
    pub x_cut_size: u32,
    pub z_cut_size: u32,
    pub min_x: u32,
    pub max_x: u32,
    pub min_z: u32,
    pub max_z: u32,
    pub clumps: Seq<ClumpView>,
}

impl View for SceneTemplate {
    type V = TemplateView;

    open spec fn view(&self) -> TemplateView {
        TemplateView {
            header: self.header,
            format: self.format,
            version: self.version,
            name: self.name@,
            x_cut_size: self.x_cut_size,
            z_cut_size: self.z_cut_size,
            min_x: self.min_x,
            max_x: self.max_x,
            min_z: self.min_z,
            max_z: self.max_z,
            clumps: Seq::new(self.clumps@.len(), |t: int| self.clumps@[t]@),
        }
    }
}

/// The clumps pointed at by the offset-table slots `k..count`, each slot
/// four bytes starting at byte 72.
pub open spec fn spec_clumps(s: Seq<u8>, k: int, count: int) -> Result<Seq<ClumpView>, DecodeError>
    decreases count - k,
{
    if k < 0 || k >= count {
        Ok(Seq::empty())
    } else {
        match spec_clump(s, be32(s, 72 + 4 * k) as int) {
            Ok(cl) => match spec_clumps(s, k + 1, count) {
                Ok(rest) => Ok(seq![cl] + rest),
                Err(e) => Err(e),
            },
            Err(e) => Err(e),
        }
    }
}

/// Decodes one clump per offset-table slot.
fn read_clumps(s: &Vec<u8>, count: u16) -> (r: Result<Vec<SceneClump>, DecodeError>)
    requires
        72 + 4 * count <= s@.len(),
    ensures
        match r {
            Ok(v) => spec_clumps(s@, 0, count as int) == Ok::<Seq<ClumpView>, DecodeError>(
                Seq::new(v@.len(), |t: int| v@[t]@),
            ),
            Err(e) => spec_clumps(s@, 0, count as int) == Err::<Seq<ClumpView>, DecodeError>(e),
        },
{
    let len: usize = s.len();
    let mut out: Vec<SceneClump> = Vec::new();
    let mut k: u16 = 0;
    while k < count
        invariant
            k <= count,
            len == s@.len(),
            72 + 4 * count <= s@.len(),
            (match spec_clumps(s@, k as int, count as int) {
                Ok(rest) => spec_clumps(s@, 0, count as int) == Ok::<
                    Seq<ClumpView>,
                    DecodeError,
                >(Seq::new(out@.len(), |t: int| out@[t]@) + rest),
                Err(e) => spec_clumps(s@, 0, count as int) == Err::<Seq<ClumpView>, DecodeError>(
                    e,
                ),
            }),
        decreases count - k,
    {
        let off = get_u32(s, 72 + 4 * (k as u64));
        match read_clump(s, off) {
            Ok(cl) => {
                let ghost pv = Seq::new(out@.len(), |t: int| out@[t]@);
                let ghost cv = cl@;
                out.push(cl);
                k = k + 1;
                proof {
                    assert(Seq::new(out@.len(), |t: int| out@[t]@) =~= pv.push(cv));
                    match spec_clumps(s@, k as int, count as int) {
                        Ok(rest) => {
                            assert(pv + (seq![cv] + rest) =~= pv.push(cv) + rest);
                        },
                        Err(_) => {},
                    }
                }
            },
            Err(e) => {
                return Err(e);
            },
        }
    }
    proof {
        assert(Seq::new(out@.len(), |t: int| out@[t]@) + Seq::<ClumpView>::empty() =~= Seq::new(
            out@.len(),
            |t: int| out@[t]@,
        ));
    }
    Ok(out)
}

/// The complete template decoded from the source `s`: 72 bytes of fixed
/// fields, then the clump offset table, each slot dereferenced to its
/// clump. Decoding is all-or-nothing, as for the mesh format.
pub open spec fn spec_template(s: Seq<u8>) -> Result<TemplateView, DecodeError> {
    if s.len() < 72 {
        Err(DecodeError::UnexpectedEnd { offset: 0 })
    } else {
        let num = be16(s, 68) as int;
        if 72 + 4 * num > s.len() {
            Err(DecodeError::UnexpectedEnd { offset: 72 })
        } else {
            match spec_name(s, 12) {
                Ok(name) => match spec_clumps(s, 0, num) {
                    Ok(clumps) => Ok(
                        TemplateView {
                            header: be32(s, 0),
                            format: be32(s, 4),
                            version: be32(s, 8),
                            name,
                            x_cut_size: be32(s, 44),
                            z_cut_size: be32(s, 48),
                            min_x: be32(s, 52),
                            max_x: be32(s, 56),
                            min_z: be32(s, 60),
                            max_z: be32(s, 64),
                            clumps,
                        },
                    ),
                    Err(e) => Err(e),
                },
                Err(e) => Err(e),
            }
        }
    }
}

impl SceneTemplate {
    /// Decodes a complete scene template from the byte source.
    ///
    /// Returns exactly the value that `spec_template` assigns to the
    /// bytes: a fully decoded template, or the first error the source
    /// presents.
    pub fn from_read(s: &Vec<u8>) -> (r: Result<SceneTemplate, DecodeError>)
        ensures
            match r {
                Ok(t) => spec_template(s@) == Ok::<TemplateView, DecodeError>(t@),
                Err(e) => spec_template(s@) == Err::<TemplateView, DecodeError>(e),
            },
    {
        let len: usize = s.len();
        if (len as u64) < 72 {
            return Err(DecodeError::UnexpectedEnd { offset: 0 });
        }
        let num = get_u16(s, 68);
        if 72 + 4 * (num as u64) > len as u64 {
            return Err(DecodeError::UnexpectedEnd { offset: 72 });
        }
        let name = match read_name(s, 12) {
            Ok(v) => v,
            Err(e) => {
                return Err(e);
            },
        };
        let clumps = match read_clumps(s, num) {
            Ok(v) => v,
            Err(e) => {
                return Err(e);
            },
        };
        let t = SceneTemplate {
            header: get_u32(s, 0),
            format: get_u32(s, 4),
            version: get_u32(s, 8),
            name,
            x_cut_size: get_u32(s, 44),
            z_cut_size: get_u32(s, 48),
            min_x: get_u32(s, 52),
            max_x: get_u32(s, 56),
            min_z: get_u32(s, 60),
            max_z: get_u32(s, 64),
            clumps,
        };
        proof {
            assert(t@ =~~= spec_template(s@)->Ok_0);
        }
        Ok(t)
    }
}

} // verus!

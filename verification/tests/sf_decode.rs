use nxf::error::DecodeError;
use nxf::sf::{SceneGeomFormat, ScenePlacementData, SceneTemplate};

fn put_u16(v: &mut Vec<u8>, x: u16) {
    v.extend_from_slice(&x.to_be_bytes());
}

fn put_u32(v: &mut Vec<u8>, x: u32) {
    v.extend_from_slice(&x.to_be_bytes());
}

fn put_f32(v: &mut Vec<u8>, x: f32) {
    v.extend_from_slice(&x.to_be_bytes());
}

fn set_u32(v: &mut Vec<u8>, at: usize, x: u32) {
    v[at..at + 4].copy_from_slice(&x.to_be_bytes());
}

fn put_name(v: &mut Vec<u8>, name: &[u8]) {
    assert!(name.len() <= 32);
    v.extend_from_slice(name);
    v.extend_from_slice(&vec![0u8; 32 - name.len()]);
}

/// Lays down a template header for `num_clumps` clumps, with the clump
/// offset table zeroed; returns nothing, the table starts at byte 72.
fn template_header(v: &mut Vec<u8>, name: &[u8], num_clumps: u16) {
    put_u32(v, 0xBEEF); // header word
    put_u32(v, 2); // format
    put_f32(v, 1.5); // version
    put_name(v, name);
    put_f32(v, 10.0); // x cut size
    put_f32(v, 20.0); // z cut size
    put_f32(v, -5.0); // min x
    put_f32(v, 5.0); // max x
    put_f32(v, -6.0); // min z
    put_f32(v, 6.0); // max z
    put_u16(v, num_clumps);
    put_u16(v, 0);
    for _ in 0..num_clumps {
        put_u32(v, 0); // table slot, patched later
    }
}

/// Appends one placement with the given types and data block.
fn placement(v: &mut Vec<u8>, main_type: u32, sub_type: u32, data: &[u8]) {
    put_u32(v, main_type);
    put_u32(v, sub_type);
    put_name(v, b"mdl");
    put_name(v, b"geo");
    for i in 0..12 {
        put_f32(v, i as f32);
    }
    put_u32(v, data.len() as u32);
    v.extend_from_slice(data);
}

#[test]
fn geom_format_from_u32_maps_known_values() {
    assert_eq!(SceneGeomFormat::from_u32(1), SceneGeomFormat::Imf);
    assert_eq!(SceneGeomFormat::from_u32(2), SceneGeomFormat::Hmf);
    assert_eq!(SceneGeomFormat::from_u32(3), SceneGeomFormat::Hxf);
    assert_eq!(SceneGeomFormat::from_u32(4), SceneGeomFormat::Hxf2);
    assert_eq!(SceneGeomFormat::from_u32(6), SceneGeomFormat::Vu1);
    assert_eq!(SceneGeomFormat::from_u32(7), SceneGeomFormat::Vu1Paged);
    assert_eq!(SceneGeomFormat::from_u32(8), SceneGeomFormat::Ixf);
    assert_eq!(SceneGeomFormat::from_u32(9), SceneGeomFormat::Nxf);
    assert_eq!(SceneGeomFormat::from_u32(0), SceneGeomFormat::Unknown);
    assert_eq!(SceneGeomFormat::from_u32(5), SceneGeomFormat::Unknown);
    assert_eq!(SceneGeomFormat::from_u32(999), SceneGeomFormat::Unknown);
}

#[test]
fn minimal_template_decodes() {
    let mut v = Vec::new();
    template_header(&mut v, b"Level", 1);
    let clump_at = v.len() as u32;
    put_u16(&mut v, 1); // one placement
    put_u16(&mut v, 0);
    put_f32(&mut v, -1.0);
    put_f32(&mut v, 1.0);
    put_f32(&mut v, -2.0);
    put_f32(&mut v, 2.0);
    placement(&mut v, 0, 9, b"");
    set_u32(&mut v, 72, clump_at);

    let t = SceneTemplate::from_read(&v).unwrap();
    assert_eq!(t.header, 0xBEEF);
    assert_eq!(t.format, 2);
    assert_eq!(t.version, 1.5f32.to_bits());
    assert_eq!(t.name, "Level");
    assert_eq!(t.x_cut_size, 10.0f32.to_bits());
    assert_eq!(t.max_z, 6.0f32.to_bits());
    assert_eq!(t.clumps.len(), 1);
    let c = &t.clumps[0];
    assert_eq!(c.min_x, (-1.0f32).to_bits());
    assert_eq!(c.max_z, 2.0f32.to_bits());
    assert_eq!(c.placements.len(), 1);
    let p = &c.placements[0];
    assert_eq!(p.model_name, "mdl");
    assert_eq!(p.geom_name, "geo");
    assert_eq!(p.x_pos, 0.0f32.to_bits());
    assert_eq!(p.w_scale, 11.0f32.to_bits());
    assert_eq!(p.data, ScenePlacementData::Static(SceneGeomFormat::Nxf));
}

#[test]
fn consecutive_placements_share_no_state() {
    let mut v = Vec::new();
    template_header(&mut v, b"L", 1);
    let clump_at = v.len() as u32;
    put_u16(&mut v, 3);
    put_u16(&mut v, 0);
    for _ in 0..4 {
        put_f32(&mut v, 0.0);
    }
    let mut light = Vec::new();
    put_f32(&mut light, 0.5);
    put_f32(&mut light, 0.25);
    put_f32(&mut light, 0.75);
    placement(&mut v, 7, 1, &light); // directional light
    placement(&mut v, 6, 42, b""); // point
    placement(&mut v, 99, 3, &[1, 2, 3]); // unknown kind keeps its block
    set_u32(&mut v, 72, clump_at);

    let t = SceneTemplate::from_read(&v).unwrap();
    let ps = &t.clumps[0].placements;
    assert_eq!(ps.len(), 3);
    match &ps[0].data {
        ScenePlacementData::DirLight { sub_type, r, g, b } => {
            assert_eq!(*sub_type, 1);
            assert_eq!(*r, 0.5f32.to_bits());
            assert_eq!(*g, 0.25f32.to_bits());
            assert_eq!(*b, 0.75f32.to_bits());
        }
        other => panic!("wrong payload: {:?}", other),
    }
    assert_eq!(ps[1].data, ScenePlacementData::Point(42));
    assert_eq!(
        ps[2].data,
        ScenePlacementData::Unknown(99, 3, vec![1, 2, 3])
    );
}

#[test]
fn bounding_box_and_bezier_payloads_decode() {
    let mut v = Vec::new();
    template_header(&mut v, b"L", 1);
    let clump_at = v.len() as u32;
    put_u16(&mut v, 2);
    put_u16(&mut v, 0);
    for _ in 0..4 {
        put_f32(&mut v, 0.0);
    }
    let mut bbox = Vec::new();
    for i in 0..8 {
        put_f32(&mut bbox, i as f32);
    }
    placement(&mut v, 13, 0, &bbox);
    let mut bez = Vec::new();
    put_f32(&mut bez, 7.5); // curve length
    for x in [3u32, 1, 0, 11, 7, 70, 71, 72] {
        put_u32(&mut bez, x);
    }
    put_f32(&mut bez, 7.25); // true length
    for x in [91u32, 92, 93, 94, 95] {
        put_u32(&mut bez, x);
    }
    placement(&mut v, 22, 8, &bez);
    set_u32(&mut v, 72, clump_at);

    let t = SceneTemplate::from_read(&v).unwrap();
    let ps = &t.clumps[0].placements;
    match &ps[0].data {
        ScenePlacementData::BoundingBox { sub_type, min, max } => {
            assert_eq!(*sub_type, 0);
            assert_eq!(min.x, 0.0f32.to_bits());
            assert_eq!(min.w, 3.0f32.to_bits());
            assert_eq!(max.x, 4.0f32.to_bits());
            assert_eq!(max.w, 7.0f32.to_bits());
        }
        other => panic!("wrong payload: {:?}", other),
    }
    match &ps[1].data {
        ScenePlacementData::Bezier {
            sub_type,
            length,
            degree,
            closed,
            param_type,
            nb_knots,
            nb_control_points,
            control_points,
            knots,
            curve_points,
            true_length,
            pad,
        } => {
            assert_eq!(*sub_type, 8);
            assert_eq!(*length, 7.5f32.to_bits());
            assert_eq!(*degree, 3);
            assert_eq!(*closed, 1);
            assert_eq!(*param_type, 0);
            assert_eq!(*nb_knots, 11);
            assert_eq!(*nb_control_points, 7);
            assert_eq!(*control_points, 70);
            assert_eq!(*knots, 71);
            assert_eq!(*curve_points, 72);
            assert_eq!(*true_length, 7.25f32.to_bits());
            assert_eq!(*pad, [91, 92, 93, 94, 95]);
        }
        other => panic!("wrong payload: {:?}", other),
    }
}

#[test]
fn from_bytes_rejects_short_payload() {
    let err = ScenePlacementData::from_bytes(7, 0, vec![0; 11]).unwrap_err();
    assert_eq!(err, DecodeError::UnexpectedEnd { offset: 0 });
    let ok = ScenePlacementData::from_bytes(7, 0, vec![0; 12]).unwrap();
    assert_eq!(
        ok,
        ScenePlacementData::DirLight {
            sub_type: 0,
            r: 0,
            g: 0,
            b: 0
        }
    );
}

#[test]
fn name_is_cut_at_first_null_or_window_end() {
    let mut v = Vec::new();
    // a name that fills all 32 bytes, and one cut short by a null
    template_header(&mut v, b"ABCDEFGHIJKLMNOPQRSTUVWXYZ012345", 1);
    let clump_at = v.len() as u32;
    put_u16(&mut v, 1);
    put_u16(&mut v, 0);
    for _ in 0..4 {
        put_f32(&mut v, 0.0);
    }
    placement(&mut v, 6, 0, b"");
    set_u32(&mut v, 72, clump_at);
    // overwrite the placement's model name window: "ab\0" then junk
    let p_at = clump_at as usize + 20;
    v[p_at + 8..p_at + 13].copy_from_slice(b"ab\0cd");

    let t = SceneTemplate::from_read(&v).unwrap();
    assert_eq!(t.name, "ABCDEFGHIJKLMNOPQRSTUVWXYZ012345");
    assert_eq!(t.clumps[0].placements[0].model_name, "ab");
}

#[test]
fn malformed_name_is_rejected() {
    let mut v = Vec::new();
    template_header(&mut v, b"L", 0);
    v[12] = 0xFF;
    v[13] = 0xFE;
    let err = SceneTemplate::from_read(&v).unwrap_err();
    assert_eq!(err, DecodeError::InvalidString { offset: 12 });
}

#[test]
fn truncated_template_is_rejected() {
    let v = vec![0u8; 71];
    let err = SceneTemplate::from_read(&v).unwrap_err();
    assert_eq!(err, DecodeError::UnexpectedEnd { offset: 0 });
}

#[test]
fn truncated_placement_is_rejected() {
    let mut v = Vec::new();
    template_header(&mut v, b"L", 1);
    let clump_at = v.len() as u32;
    put_u16(&mut v, 1); // one placement declared, none stored
    put_u16(&mut v, 0);
    for _ in 0..4 {
        put_f32(&mut v, 0.0);
    }
    set_u32(&mut v, 72, clump_at);
    let err = SceneTemplate::from_read(&v).unwrap_err();
    assert_eq!(
        err,
        DecodeError::UnexpectedEnd {
            offset: clump_at as u64 + 20
        }
    );
}

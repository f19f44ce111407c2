use nxf::decode::DecodeCache;
use nxf::error::DecodeError;
use nxf::model::{NxfFaces, NxfObjGeom};

fn put_u16(v: &mut Vec<u8>, x: u16) {
    v.extend_from_slice(&x.to_be_bytes());
}

fn put_u32(v: &mut Vec<u8>, x: u32) {
    v.extend_from_slice(&x.to_be_bytes());
}

fn put_f32(v: &mut Vec<u8>, x: f32) {
    v.extend_from_slice(&x.to_be_bytes());
}

fn set_u32(v: &mut Vec<u8>, at: usize, x: u32) {
    v[at..at + 4].copy_from_slice(&x.to_be_bytes());
}

/// Lays down the fixed header for a file with `nstr` string-table slots,
/// leaving every pointer and the table slots zeroed; returns the byte
/// position of the trailer (the "base").
fn header(v: &mut Vec<u8>, nstr: u16) -> usize {
    v.extend_from_slice(b"NXF0");
    put_u32(v, 1); // endianness marker
    put_f32(v, 1.0); // version
    put_u32(v, 0); // flags
    put_u32(v, 0); // alpha mode
    put_u32(v, 0); // env-map alpha mode
    put_u16(v, nstr);
    put_u16(v, 0); // padding
    put_u32(v, 0); // string-table offset word (consumed, not interpreted)
    for _ in 0..nstr {
        put_u32(v, 0); // table slot, patched later
    }
    let base = v.len();
    for _ in 0..10 {
        put_u32(v, 0); // trailer words, pointers patched later
    }
    base
}

const MAT_CHAIN_HEAD: usize = 4; // trailer offset of the material chain head
const ARRAYS_PTR: usize = 8; // trailer offset of the vertex-array pointer
const SET_CHAIN_HEAD: usize = 12; // trailer offset of the facelist-set chain head

/// Appends a 100-byte vertex-array block with all counts and pointers
/// zero, returning its offset.
fn empty_array_block(v: &mut Vec<u8>) -> u32 {
    let at = v.len() as u32;
    for _ in 0..25 {
        put_u32(v, 0);
    }
    at
}

/// Appends a 40-byte material record pointing at the name at `name_off`.
fn material_record(v: &mut Vec<u8>, name_off: u32, tex_pmi: u32) -> u32 {
    let at = v.len() as u32;
    put_u32(v, tex_pmi);
    put_u32(v, 2); // ref_pmi
    put_u32(v, name_off);
    put_u32(v, 3); // ref_map
    v.extend_from_slice(&[10, 20, 30, 40]); // reflection color
    put_u32(v, 5); // flags
    put_u32(v, 6); // alpha mode
    put_u32(v, 7); // env-map alpha mode
    put_u32(v, 0);
    put_u32(v, 0);
    at
}

#[test]
fn minimal_file_decodes() {
    let mut v = Vec::new();
    let base = header(&mut v, 1);
    let name_at = v.len() as u32;
    v.extend_from_slice(b"Foo\0");
    let mat_at = material_record(&mut v, name_at, 1);
    let node_at = v.len() as u32;
    put_u32(&mut v, mat_at); // chain node: material pointer
    put_u32(&mut v, 0); // chain node: next
    // vertex-array block: 3 positions, 3 colors, no normals, no uvs
    let arr_at = v.len() as u32;
    put_f32(&mut v, -1.0); // bounding-box min
    put_f32(&mut v, -2.0);
    put_f32(&mut v, -3.0);
    put_u32(&mut v, 0); // uv count
    put_f32(&mut v, 1.0); // bounding-box max
    put_f32(&mut v, 2.0);
    put_f32(&mut v, 3.0);
    put_u32(&mut v, 0); // normal count
    put_f32(&mut v, 0.5); // bounding-sphere center and radius
    put_f32(&mut v, 0.25);
    put_f32(&mut v, 0.125);
    put_f32(&mut v, 9.0);
    put_u32(&mut v, 3); // position count
    put_u32(&mut v, 3); // color count
    put_u32(&mut v, 3); // position capacity
    put_u32(&mut v, 0); // normal capacity
    put_u32(&mut v, 3); // color capacity
    put_u32(&mut v, 0); // uv capacity
    let verts_ptr_at = v.len();
    put_u32(&mut v, 0); // position buffer, patched below
    put_u32(&mut v, 0); // normal buffer
    let cols_ptr_at = v.len();
    put_u32(&mut v, 0); // color buffer, patched below
    put_u32(&mut v, 0); // uv buffer
    put_u32(&mut v, 9); // flags
    put_u32(&mut v, 0);
    put_u32(&mut v, 0);
    let verts_at = v.len() as u32;
    for i in 0..3 {
        put_f32(&mut v, i as f32);
        put_f32(&mut v, (i + 1) as f32);
        put_f32(&mut v, (i + 2) as f32);
    }
    let cols_at = v.len() as u32;
    for i in 0..3u8 {
        v.extend_from_slice(&[i, i, i, 255]);
    }
    set_u32(&mut v, verts_ptr_at, verts_at);
    set_u32(&mut v, cols_ptr_at, cols_at);
    // one facelist, tag 11 (colored, unlit), one triangle
    let fl_at = v.len() as u32;
    put_u16(&mut v, 1); // flags
    v.push(11); // face-type tag
    v.push(2); // attribs
    put_u32(&mut v, 0); // padding
    put_u32(&mut v, mat_at); // shared material
    put_u32(&mut v, 1); // face count
    let faces_ptr_at = v.len();
    put_u32(&mut v, 0); // face block, patched below
    put_u32(&mut v, 0); // next facelist
    put_u32(&mut v, 0); // display list
    put_u32(&mut v, 0); // display list size
    let faces_at = v.len() as u32;
    for x in [0u16, 0, 1, 1, 2, 2] {
        put_u16(&mut v, x);
    }
    set_u32(&mut v, faces_ptr_at, faces_at);
    // one facelist set owning that facelist
    let set_at = v.len() as u32;
    put_u32(&mut v, 4); // flags
    put_u32(&mut v, 0); // padding
    put_u32(&mut v, 1); // list count (not interpreted)
    put_u32(&mut v, fl_at);
    put_u32(&mut v, 0); // matrix palette (absent)
    put_u32(&mut v, 0); // chain node: next
    set_u32(&mut v, 32, name_at); // string-table slot
    set_u32(&mut v, base + MAT_CHAIN_HEAD, node_at);
    set_u32(&mut v, base + ARRAYS_PTR, arr_at);
    set_u32(&mut v, base + SET_CHAIN_HEAD, set_at);

    let g = NxfObjGeom::decode(&v).unwrap();
    assert_eq!(&g.id, b"NXF0");
    assert_eq!(g.endian, 1);
    assert_eq!(g.version, 1.0f32.to_bits());
    assert_eq!(g.string_arena, vec!["Foo".to_string()]);
    assert_eq!(g.strings, vec![0]);
    assert_eq!(g.materials, vec![0]);
    assert_eq!(g.material_arena.len(), 1);
    let m = &g.material_arena[0];
    assert_eq!(m.tex_pmi, 1);
    assert_eq!(m.ref_pmi, 2);
    assert_eq!(m.tex_name, 0);
    assert_eq!(m.ref_map, 3);
    assert_eq!((m.ref_r, m.ref_g, m.ref_b, m.ref_a), (10, 20, 30, 40));
    assert_eq!(m.flags, 5);
    assert_eq!(m.alpha_mode, 6);
    assert_eq!(m.env_map_alpha_mode, 7);
    assert_eq!(g.arrays.min_x, (-1.0f32).to_bits());
    assert_eq!(g.arrays.max_z, 3.0f32.to_bits());
    assert_eq!(g.arrays.radius, 9.0f32.to_bits());
    assert_eq!(g.arrays.verts.len(), 3);
    assert_eq!(g.arrays.verts[1].x, 1.0f32.to_bits());
    assert_eq!(g.arrays.verts[2].z, 4.0f32.to_bits());
    assert_eq!(g.arrays.normals.len(), 0);
    assert_eq!(g.arrays.colors.len(), 3);
    assert_eq!(g.arrays.colors[2].r, 2);
    assert_eq!(g.arrays.colors[2].a, 255);
    assert_eq!(g.arrays.uvs.len(), 0);
    assert_eq!(g.arrays.flags, 9);
    assert_eq!(g.facelist_sets.len(), 1);
    let set = &g.facelist_sets[0];
    assert_eq!(set.flags, 4);
    assert!(set.mat_palette.is_none());
    assert_eq!(set.facelists.len(), 1);
    let fl = &set.facelists[0];
    assert_eq!(fl.flags, 1);
    assert_eq!(fl.attribs, 2);
    assert_eq!(fl.material, 0);
    assert_eq!(fl.faces.len(), 1);
    match &fl.faces {
        NxfFaces::ColUnlitTri(ts) => {
            assert_eq!((ts[0].v0, ts[0].c0), (0, 0));
            assert_eq!((ts[0].v1, ts[0].c1), (1, 1));
            assert_eq!((ts[0].v2, ts[0].c2), (2, 2));
        }
        other => panic!("wrong face shape: {:?}", other),
    }
}

/// Builds a file whose single facelist set owns `tags.len()` facelists,
/// chained in order, each with the given tag and two triangles of that
/// shape, all sharing one material.
fn file_with_facelists(tags: &[u8]) -> Vec<u8> {
    let mut v = Vec::new();
    let base = header(&mut v, 0);
    let name_at = v.len() as u32;
    v.extend_from_slice(b"m\0");
    let mat_at = material_record(&mut v, name_at, 1);
    let node_at = v.len() as u32;
    put_u32(&mut v, mat_at);
    put_u32(&mut v, 0);
    let arr_at = empty_array_block(&mut v);
    let mut fl_offsets = Vec::new();
    for &tag in tags {
        let width = match tag {
            6 | 10 => 18,
            8 | 21 => 24,
            11 => 12,
            20 => 30,
            other => panic!("no width for tag {}", other),
        };
        let fl_at = v.len() as u32;
        fl_offsets.push(fl_at);
        put_u16(&mut v, 0);
        v.push(tag);
        v.push(0);
        put_u32(&mut v, 0);
        put_u32(&mut v, mat_at);
        put_u32(&mut v, 2); // two triangles
        put_u32(&mut v, fl_at + 32); // face block directly after the record
        put_u32(&mut v, 0); // next facelist, patched below
        put_u32(&mut v, 0);
        put_u32(&mut v, 0);
        for b in 0..(2 * width) {
            v.push(b as u8);
        }
    }
    for w in fl_offsets.windows(2) {
        set_u32(&mut v, w[0] as usize + 20, w[1]);
    }
    let set_at = v.len() as u32;
    put_u32(&mut v, 0);
    put_u32(&mut v, 0);
    put_u32(&mut v, fl_offsets.len() as u32);
    put_u32(&mut v, fl_offsets[0]);
    put_u32(&mut v, 0);
    put_u32(&mut v, 0);
    set_u32(&mut v, base + MAT_CHAIN_HEAD, node_at);
    set_u32(&mut v, base + ARRAYS_PTR, arr_at);
    set_u32(&mut v, base + SET_CHAIN_HEAD, set_at);
    v
}

#[test]
fn material_shared_between_facelists() {
    let v = file_with_facelists(&[11, 11]);
    let g = NxfObjGeom::decode(&v).unwrap();
    // Two facelists name the same material offset: one arena entry,
    // decoded once, referenced by both — and by the material list.
    assert_eq!(g.material_arena.len(), 1);
    assert_eq!(g.materials, vec![0]);
    let fls = &g.facelist_sets[0].facelists;
    assert_eq!(fls.len(), 2);
    assert_eq!(fls[0].material, fls[1].material);
    assert_eq!(fls[0].material, 0);
}

#[test]
fn each_tag_decodes_to_its_shape() {
    let v = file_with_facelists(&[6, 8, 10, 11, 20, 21]);
    let g = NxfObjGeom::decode(&v).unwrap();
    let fls = &g.facelist_sets[0].facelists;
    assert_eq!(fls.len(), 6);
    for fl in fls {
        assert_eq!(fl.faces.len(), 2);
    }
    // Each record is read big-endian from consecutive bytes with no
    // padding; the first triangle of each run starts with bytes 0,1.
    match &fls[0].faces {
        NxfFaces::ColLitTri(ts) => {
            assert_eq!(ts[0].v0, 0x0001);
            assert_eq!(ts[0].n0, 0x0203);
            assert_eq!(ts[1].v0, 0x1213);
        }
        other => panic!("tag 6 gave {:?}", other),
    }
    match &fls[1].faces {
        NxfFaces::TexLitTri(ts) => {
            assert_eq!(ts[0].uv2, 0x1617);
            assert_eq!(ts[1].v0, 0x1819);
        }
        other => panic!("tag 8 gave {:?}", other),
    }
    match &fls[2].faces {
        NxfFaces::TexUnlitTri(ts) => assert_eq!(ts[0].c0, 0x0203),
        other => panic!("tag 10 gave {:?}", other),
    }
    match &fls[3].faces {
        NxfFaces::ColUnlitTri(ts) => assert_eq!(ts[1].c2, 0x1617),
        other => panic!("tag 11 gave {:?}", other),
    }
    match &fls[4].faces {
        NxfFaces::TexLitEnvTri(ts) => assert_eq!(ts[0].m0, 0x0809),
        other => panic!("tag 20 gave {:?}", other),
    }
    match &fls[5].faces {
        NxfFaces::ColLitEnvTri(ts) => assert_eq!(ts[0].m0, 0x0607),
        other => panic!("tag 21 gave {:?}", other),
    }
}

#[test]
fn face_block_needs_exactly_count_times_width_bytes() {
    // The facelist's face block holds exactly 2 × 12 bytes: decoding
    // succeeds with two triangles.
    let v = file_with_facelists(&[11]);
    let g = NxfObjGeom::decode(&v).unwrap();
    assert_eq!(g.facelist_sets[0].facelists[0].faces.len(), 2);
    // Declaring one more triangle than the block holds no longer fits.
    let mut short = file_with_facelists(&[11]);
    let fl_at = {
        // facelist position: find it from the set record it is named in
        let set_at = u32::from_be_bytes(short[44..48].try_into().unwrap()) as usize;
        u32::from_be_bytes(short[set_at + 12..set_at + 16].try_into().unwrap()) as usize
    };
    set_u32(&mut short, fl_at + 12, 1000); // far more triangles than the file holds
    let err = NxfObjGeom::decode(&short).unwrap_err();
    let faces_at = u32::from_be_bytes(short[fl_at + 16..fl_at + 20].try_into().unwrap());
    assert_eq!(
        err,
        DecodeError::UnexpectedEnd {
            offset: faces_at as u64
        }
    );
}

#[test]
fn unknown_tag_is_rejected() {
    let v = file_with_facelists(&[11]);
    let set_at = u32::from_be_bytes(v[44..48].try_into().unwrap()) as usize;
    let fl_at = u32::from_be_bytes(v[set_at + 12..set_at + 16].try_into().unwrap()) as usize;
    let mut bad = v.clone();
    bad[fl_at + 2] = 99;
    let err = NxfObjGeom::decode(&bad).unwrap_err();
    assert_eq!(
        err,
        DecodeError::UnknownFaceType {
            offset: fl_at as u64,
            tag: 99
        }
    );
}

#[test]
fn zero_offsets_decode_to_empty() {
    // Material chain head 0, facelist-set chain head 0, and an array
    // block whose four buffer pointers are 0: everything absent decodes
    // to empty, and nothing is dereferenced.
    let mut v = Vec::new();
    let base = header(&mut v, 0);
    let arr_at = empty_array_block(&mut v);
    set_u32(&mut v, base + ARRAYS_PTR, arr_at);
    let g = NxfObjGeom::decode(&v).unwrap();
    assert!(g.string_arena.is_empty());
    assert!(g.strings.is_empty());
    assert!(g.materials.is_empty());
    assert!(g.material_arena.is_empty());
    assert!(g.facelist_sets.is_empty());
    assert!(g.arrays.verts.is_empty());
    assert!(g.arrays.normals.is_empty());
    assert!(g.arrays.colors.is_empty());
    assert!(g.arrays.uvs.is_empty());
}

#[test]
fn chain_of_three_decodes_in_order() {
    let mut v = Vec::new();
    let base = header(&mut v, 0);
    let name_at = v.len() as u32;
    v.extend_from_slice(b"m\0");
    let mat1 = material_record(&mut v, name_at, 101);
    let mat2 = material_record(&mut v, name_at, 102);
    let mat3 = material_record(&mut v, name_at, 103);
    // chain nodes in reverse file order, linked 1 -> 2 -> 3
    let node3 = v.len() as u32;
    put_u32(&mut v, mat3);
    put_u32(&mut v, 0);
    let node2 = v.len() as u32;
    put_u32(&mut v, mat2);
    put_u32(&mut v, node3);
    let node1 = v.len() as u32;
    put_u32(&mut v, mat1);
    put_u32(&mut v, node2);
    let arr_at = empty_array_block(&mut v);
    set_u32(&mut v, base + MAT_CHAIN_HEAD, node1);
    set_u32(&mut v, base + ARRAYS_PTR, arr_at);
    let g = NxfObjGeom::decode(&v).unwrap();
    assert_eq!(g.materials, vec![0, 1, 2]);
    let pmis: Vec<u32> = g.material_arena.iter().map(|m| m.tex_pmi).collect();
    assert_eq!(pmis, vec![101, 102, 103]);
    // one name, interned once, shared by all three materials
    assert_eq!(g.string_arena.len(), 1);
    assert!(g.material_arena.iter().all(|m| m.tex_name == 0));
}

#[test]
fn cyclic_chain_is_rejected() {
    let mut v = Vec::new();
    let base = header(&mut v, 0);
    let name_at = v.len() as u32;
    v.extend_from_slice(b"m\0");
    let mat_at = material_record(&mut v, name_at, 1);
    let node_at = v.len() as u32;
    put_u32(&mut v, mat_at);
    put_u32(&mut v, node_at); // the node is its own successor
    let arr_at = empty_array_block(&mut v);
    set_u32(&mut v, base + MAT_CHAIN_HEAD, node_at);
    set_u32(&mut v, base + ARRAYS_PTR, arr_at);
    let err = NxfObjGeom::decode(&v).unwrap_err();
    assert_eq!(
        err,
        DecodeError::CyclicChain {
            offset: node_at as u64
        }
    );
}

#[test]
fn strings_interned_by_offset() {
    // Two table slots point at the same "Foo\0" bytes: one arena entry,
    // decoded once, shared by both slots.
    let mut v = Vec::new();
    let base = header(&mut v, 2);
    let name_at = v.len() as u32;
    v.extend_from_slice(b"Foo\0");
    let arr_at = empty_array_block(&mut v);
    set_u32(&mut v, 32, name_at);
    set_u32(&mut v, 36, name_at);
    set_u32(&mut v, base + ARRAYS_PTR, arr_at);
    let g = NxfObjGeom::decode(&v).unwrap();
    assert_eq!(g.string_arena, vec!["Foo".to_string()]);
    assert_eq!(g.strings, vec![0, 0]);
}

#[test]
fn truncated_header_is_rejected() {
    let v = vec![0u8; 31];
    let err = NxfObjGeom::decode(&v).unwrap_err();
    assert_eq!(err, DecodeError::UnexpectedEnd { offset: 0 });
}

#[test]
fn missing_array_block_is_rejected() {
    // A zeroed trailer leaves the vertex-array pointer 0, which is a
    // required record: the null sentinel is rejected, not dereferenced.
    let mut v = Vec::new();
    let base = header(&mut v, 0);
    let err = NxfObjGeom::decode(&v).unwrap_err();
    assert_eq!(
        err,
        DecodeError::NullOffset {
            at: (base + ARRAYS_PTR) as u64
        }
    );
}

#[test]
fn malformed_string_is_rejected() {
    let mut v = Vec::new();
    let base = header(&mut v, 1);
    let name_at = v.len() as u32;
    v.extend_from_slice(&[0xFF, 0xFE, 0x00]); // not UTF-8
    let arr_at = empty_array_block(&mut v);
    set_u32(&mut v, 32, name_at);
    set_u32(&mut v, base + ARRAYS_PTR, arr_at);
    let err = NxfObjGeom::decode(&v).unwrap_err();
    assert_eq!(
        err,
        DecodeError::InvalidString {
            offset: name_at as u64
        }
    );
}

#[test]
fn unterminated_string_is_rejected() {
    let mut v = Vec::new();
    let base = header(&mut v, 1);
    let arr_at = empty_array_block(&mut v);
    let name_at = v.len() as u32;
    v.extend_from_slice(b"Foo"); // terminator missing, end of file
    set_u32(&mut v, 32, name_at);
    set_u32(&mut v, base + ARRAYS_PTR, arr_at);
    let err = NxfObjGeom::decode(&v).unwrap_err();
    assert_eq!(
        err,
        DecodeError::UnexpectedEnd {
            offset: name_at as u64
        }
    );
}

#[test]
fn count_over_capacity_is_rejected() {
    let mut v = Vec::new();
    let base = header(&mut v, 0);
    let arr_at = empty_array_block(&mut v);
    set_u32(&mut v, arr_at as usize + 48, 2); // position count
    set_u32(&mut v, arr_at as usize + 56, 1); // position capacity
    set_u32(&mut v, base + ARRAYS_PTR, arr_at);
    let err = NxfObjGeom::decode(&v).unwrap_err();
    assert_eq!(
        err,
        DecodeError::CountOverCapacity {
            offset: arr_at as u64 + 48,
            count: 2,
            capacity: 1
        }
    );
}

#[test]
fn null_material_pointer_is_rejected() {
    let v = file_with_facelists(&[11]);
    let set_at = u32::from_be_bytes(v[44..48].try_into().unwrap()) as usize;
    let fl_at = u32::from_be_bytes(v[set_at + 12..set_at + 16].try_into().unwrap()) as usize;
    let mut bad = v.clone();
    set_u32(&mut bad, fl_at + 8, 0); // the facelist's material pointer
    let err = NxfObjGeom::decode(&bad).unwrap_err();
    assert_eq!(
        err,
        DecodeError::NullOffset {
            at: fl_at as u64 + 8
        }
    );
}

#[test]
fn null_name_pointer_is_rejected() {
    let v = file_with_facelists(&[11]);
    let node_at = u32::from_be_bytes(v[36..40].try_into().unwrap()) as usize;
    let mat_at = u32::from_be_bytes(v[node_at..node_at + 4].try_into().unwrap()) as usize;
    let mut bad = v.clone();
    set_u32(&mut bad, mat_at + 8, 0); // the material's name pointer
    let err = NxfObjGeom::decode(&bad).unwrap_err();
    assert_eq!(
        err,
        DecodeError::NullOffset {
            at: mat_at as u64 + 8
        }
    );
}

#[test]
fn faces_len_counts_every_shape() {
    let faces = NxfFaces::ColUnlitTri(Vec::new());
    assert_eq!(faces.len(), 0);
    let v = file_with_facelists(&[20]);
    let g = NxfObjGeom::decode(&v).unwrap();
    assert_eq!(g.facelist_sets[0].facelists[0].faces.len(), 2);
}

#[test]
fn fresh_cache_is_empty() {
    let cache = DecodeCache::new();
    assert!(cache.string_offsets.is_empty());
    assert!(cache.strings.is_empty());
    assert!(cache.material_offsets.is_empty());
    assert!(cache.materials.is_empty());
}

//! Laws of the decoder, stated and proved once for all sources.
//!
//! Each law is a public proof function over the decoder's specification
//! functions; the executable decoder is proved elsewhere to return
//! exactly what those specification functions say, so every law carries
//! over to it.

use vstd::prelude::*;
use vstd::seq_lib::group_seq_properties;
use vstd::set::group_set_axioms;
use vstd::set_lib::{lemma_int_range, lemma_len_subset, set_int_range};
use crate::bytes::{be16, be32};
use crate::chain::{chain_fuel, spec_chain};
use crate::decode::{empty_cache, find_from, known_face_type, spec_color_buffer, spec_decode,
    spec_faces, spec_facelist, spec_facelist_set, spec_facelist_sets, spec_facelists,
    spec_intern_string, spec_material, spec_material_list, spec_resolve_material,
    spec_string_table, spec_uv_buffer, spec_vec3_buffer, CacheView};
use crate::error::DecodeError;
use crate::model::{Color, NxfMaterial, ObjGeomView, Uv, Vec3};

verus! {

/// A chain whose head offset is 0 is the empty chain, whatever the
/// source holds: the null sentinel is never dereferenced.
pub proof fn lemma_zero_head_empty_chain(s: Seq<u8>, node_size: int, next_rel: int, fuel: nat)
    ensures
        spec_chain(s, 0, node_size, next_rel, fuel) == Ok::<Seq<u32>, DecodeError>(
            Seq::<u32>::empty(),
        ),
{
}

/// A buffer pointer of 0 decodes to the empty buffer, whatever the
/// declared count: the null sentinel is never dereferenced.
pub proof fn lemma_zero_pointer_empty_buffers(s: Seq<u8>, n: u32)
    ensures
        spec_vec3_buffer(s, 0, n) == Ok::<Seq<Vec3>, DecodeError>(Seq::<Vec3>::empty()),
        spec_color_buffer(s, 0, n) == Ok::<Seq<Color>, DecodeError>(Seq::<Color>::empty()),
        spec_uv_buffer(s, 0, n) == Ok::<Seq<Uv>, DecodeError>(Seq::<Uv>::empty()),
{
}

/// A face-block pointer of 0 decodes, for every known tag, to the empty
/// triangle run of that tag's shape: the null sentinel is never
/// dereferenced.
pub proof fn lemma_zero_pointer_empty_faces(s: Seq<u8>, fl: u32, tag: u8, count: u32)
    requires
        known_face_type(tag),
    ensures
        spec_faces(s, fl, tag, count, 0) is Ok,
        spec_faces(s, fl, tag, count, 0)->Ok_0.len() == 0,
{
}

/// A find result is either -1 or a position of the key.
proof fn lemma_find_from_range(xs: Seq<u32>, x: u32, i: int)
    requires
        0 <= i,
    ensures
        find_from(xs, x, i) == -1 || (i <= find_from(xs, x, i) < xs.len() && xs[find_from(
            xs,
            x,
            i,
        )] == x),
    decreases xs.len() - i,
{
    if i < xs.len() && xs[i] != x {
        lemma_find_from_range(xs, x, i + 1);
    }
}

/// Appending a fresh key to an offset index makes it findable at the old
/// length.
proof fn lemma_find_from_push(xs: Seq<u32>, x: u32, i: int)
    requires
        0 <= i <= xs.len(),
        find_from(xs, x, i) == -1,
    ensures
        find_from(xs.push(x), x, i) == xs.len(),
    decreases xs.len() - i,
{
    if i < xs.len() {
        assert(xs.push(x)[i] == xs[i]);
        lemma_find_from_push(xs, x, i + 1);
    } else {
        assert(xs.push(x)[xs.len() as int] == x);
    }
}

/// Interning is idempotent: once the string at `off` has been interned,
/// interning the same offset again — from whichever pointer field —
/// returns the same arena index and leaves the cache untouched, so two
/// table slots (or any two owners) naming one offset share one decoded
/// string, read once.
pub proof fn lemma_string_interned_once(
    s: Seq<u8>,
    off: u32,
    at1: u64,
    at2: u64,
    st: CacheView,
    i: usize,
    st1: CacheView,
)
    requires
        st.string_offsets.len() == st.strings.len(),
        spec_intern_string(s, off, at1, st) == Ok::<(usize, CacheView), DecodeError>((i, st1)),
    ensures
        spec_intern_string(s, off, at2, st1) == Ok::<(usize, CacheView), DecodeError>((i, st1)),
{
    lemma_find_from_range(st.string_offsets, off, 0);
    let j = find_from(st.string_offsets, off, 0);
    if j >= 0 {
    } else {
        lemma_find_from_push(st.string_offsets, off, 0);
    }
}

/// Material resolution is idempotent: once the material at `off` has
/// been decoded, resolving the same offset again — from whichever
/// facelist or chain node — returns the same arena index and leaves the
/// cache untouched, so all owners naming one offset share one decoded
/// material, read once.
pub proof fn lemma_material_resolved_once(
    s: Seq<u8>,
    off: u32,
    at1: u64,
    at2: u64,
    st: CacheView,
    i: usize,
    st1: CacheView,
)
    requires
        st.material_offsets.len() == st.materials.len(),
        spec_resolve_material(s, off, at1, st) == Ok::<(usize, CacheView), DecodeError>((i, st1)),
    ensures
        spec_resolve_material(s, off, at2, st1) == Ok::<(usize, CacheView), DecodeError>((i, st1)),
{
    lemma_find_from_range(st.material_offsets, off, 0);
    let j = find_from(st.material_offsets, off, 0);
    if j >= 0 {
    } else {
        lemma_find_from_push(st.material_offsets, off, 0);
    }
}

/// `ns` lists exactly the nodes of the terminating chain headed at
/// `head`: `ns` is empty just where `head` is the null sentinel, and
/// otherwise starts at `head`, holds a whole node there, and continues
/// with the chain headed at that node's next pointer, down to a next
/// pointer of 0.
pub open spec fn is_chain(
    s: Seq<u8>,
    head: u32,
    node_size: int,
    next_rel: int,
    ns: Seq<u32>,
) -> bool
    decreases ns.len(),
{
    if ns.len() == 0 {
        head == 0
    } else {
        &&& head != 0
        &&& head == ns[0]
        &&& head + node_size <= s.len()
        &&& is_chain(s, be32(s, head + next_rel), node_size, next_rel, ns.skip(1))
    }
}

/// A head offset determines its terminating chain: two node lists of one
/// head are equal.
proof fn lemma_is_chain_unique(
    s: Seq<u8>,
    head: u32,
    node_size: int,
    next_rel: int,
    ns1: Seq<u32>,
    ns2: Seq<u32>,
)
    requires
        is_chain(s, head, node_size, next_rel, ns1),
        is_chain(s, head, node_size, next_rel, ns2),
    ensures
        ns1 == ns2,
    decreases ns1.len(),
{
    if ns1.len() == 0 {
        assert(ns2.len() == 0);
        assert(ns1 =~= ns2);
    } else {
        assert(ns2.len() > 0);
        lemma_is_chain_unique(
            s,
            be32(s, head + next_rel),
            node_size,
            next_rel,
            ns1.skip(1),
            ns2.skip(1),
        );
        assert(ns1 =~= ns2) by {
            assert(ns1.len() == ns2.len());
            assert forall|t: int| 0 <= t < ns1.len() implies ns1[t] == ns2[t] by {
                if t > 0 {
                    assert(ns1[t] == ns1.skip(1)[t - 1]);
                    assert(ns2[t] == ns2.skip(1)[t - 1]);
                }
            }
        };
    }
}

/// Every suffix of a terminating chain is itself a terminating chain,
/// headed at the node where the suffix starts.
proof fn lemma_is_chain_suffix(
    s: Seq<u8>,
    head: u32,
    node_size: int,
    next_rel: int,
    ns: Seq<u32>,
    j: int,
)
    requires
        is_chain(s, head, node_size, next_rel, ns),
        0 <= j < ns.len(),
    ensures
        is_chain(s, ns[j], node_size, next_rel, ns.skip(j)),
    decreases j,
{
    if j == 0 {
        assert(ns.skip(0) =~= ns);
    } else {
        lemma_is_chain_suffix(s, head, node_size, next_rel, ns, j - 1);
        let prev = ns.skip(j - 1);
        assert(prev[0] == ns[j - 1]);
        assert(is_chain(s, be32(s, ns[j - 1] + next_rel), node_size, next_rel, prev.skip(1)));
        assert(prev.skip(1) =~= ns.skip(j));
        assert(is_chain(s, be32(s, ns[j - 1] + next_rel), node_size, next_rel, ns.skip(j)));
        assert(ns.skip(j)[0] == ns[j]);
        assert(be32(s, ns[j - 1] + next_rel) == ns[j]);
    }
}

/// A terminating chain never visits a node twice: the walk from a node
/// is deterministic, so a revisited node would head two suffixes of
/// different lengths, which one head cannot.
proof fn lemma_is_chain_no_duplicates(
    s: Seq<u8>,
    head: u32,
    node_size: int,
    next_rel: int,
    ns: Seq<u32>,
)
    requires
        is_chain(s, head, node_size, next_rel, ns),
    ensures
        ns.no_duplicates(),
{
    assert forall|j: int, k: int|
        0 <= j < ns.len() && 0 <= k < ns.len() && j != k implies ns[j] != ns[k] by {
        let lo = if j < k {
            j
        } else {
            k
        };
        let hi = if j < k {
            k
        } else {
            j
        };
        if ns[lo] == ns[hi] {
            lemma_is_chain_suffix(s, head, node_size, next_rel, ns, lo);
            lemma_is_chain_suffix(s, head, node_size, next_rel, ns, hi);
            lemma_is_chain_unique(
                s,
                ns[lo],
                node_size,
                next_rel,
                ns.skip(lo),
                ns.skip(hi),
            );
            assert(ns.skip(lo).len() == ns.skip(hi).len());
            assert(false);
        }
    }
}

/// A terminating chain of whole nodes has fewer nodes than the source
/// has bytes: its nodes are distinct offsets, each at least 1 and small
/// enough to leave room for a node.
proof fn lemma_chain_len_bound(
    s: Seq<u8>,
    head: u32,
    node_size: int,
    next_rel: int,
    ns: Seq<u32>,
)
    requires
        is_chain(s, head, node_size, next_rel, ns),
        1 <= node_size,
    ensures
        ns.len() <= s.len(),
{
    broadcast use group_set_axioms;
    broadcast use group_seq_properties;

    if ns.len() > 0 {
        lemma_is_chain_no_duplicates(s, head, node_size, next_rel, ns);
        assert forall|k: int| 0 <= k < ns.len() implies 1 <= ns[k] && ns[k] + node_size
            <= s.len() by {
            lemma_is_chain_suffix(s, head, node_size, next_rel, ns, k);
        }
        let si = ns.map_values(|v: u32| v as int);
        assert(si.no_duplicates()) by {
            assert forall|a: int, b: int|
                0 <= a < si.len() && 0 <= b < si.len() && a != b implies si[a] != si[b] by {
                assert(ns[a] != ns[b]);
            }
        }
        si.unique_seq_to_set();
        let hi = s.len() - node_size + 1;
        assert(si.to_set().subset_of(set_int_range(1, hi))) by {
            assert forall|x: int| si.to_set().contains(x) implies set_int_range(
                1,
                hi,
            ).contains(x) by {
                let k = choose|k: int| 0 <= k < si.len() && si[k] == x;
                assert(1 <= ns[k] && ns[k] + node_size <= s.len());
            }
        }
        lemma_int_range(1, hi);
        lemma_len_subset(si.to_set(), set_int_range(1, hi));
        assert(si.len() <= hi - 1);
    }
}

/// With at least as much fuel as the chain has nodes, the chain
/// specification returns exactly the chain's node list.
proof fn lemma_chain_complete_fuel(
    s: Seq<u8>,
    head: u32,
    node_size: int,
    next_rel: int,
    ns: Seq<u32>,
    fuel: nat,
)
    requires
        is_chain(s, head, node_size, next_rel, ns),
        ns.len() <= fuel,
    ensures
        spec_chain(s, head, node_size, next_rel, fuel) == Ok::<Seq<u32>, DecodeError>(ns),
    decreases ns.len(),
{
    if ns.len() == 0 {
        assert(ns =~= Seq::<u32>::empty());
    } else {
        lemma_chain_complete_fuel(
            s,
            be32(s, head + next_rel),
            node_size,
            next_rel,
            ns.skip(1),
            (fuel - 1) as nat,
        );
        assert(seq![ns[0]] + ns.skip(1) =~= ns);
    }
}

/// Chain exactness: a chain of N whole records followed by a 0
/// terminator decodes to exactly those N records, in file order — and in
/// particular a chain whose start offset is already 0 decodes to the
/// empty sequence.
pub proof fn lemma_chain_decodes_exactly(
    s: Seq<u8>,
    head: u32,
    node_size: int,
    next_rel: int,
    ns: Seq<u32>,
)
    requires
        is_chain(s, head, node_size, next_rel, ns),
        1 <= node_size,
    ensures
        spec_chain(s, head, node_size, next_rel, chain_fuel(s)) == Ok::<Seq<u32>, DecodeError>(
            ns,
        ),
{
    lemma_chain_len_bound(s, head, node_size, next_rel, ns);
    lemma_chain_complete_fuel(s, head, node_size, next_rel, ns, chain_fuel(s));
}

/// Variant dispatch: for a known tag, a face block that fits decodes to
/// exactly the declared count of records of the tag's shape; for a tag
/// outside the closed set, decoding fails with the format error naming
/// that tag, whatever else the source holds.
pub proof fn lemma_faces_dispatch(s: Seq<u8>, fl: u32, tag: u8, count: u32, off: u32)
    ensures
        !known_face_type(tag) ==> spec_faces(s, fl, tag, count, off) == Err::<
            crate::model::FacesView,
            DecodeError,
        >(DecodeError::UnknownFaceType { offset: fl as u64, tag }),
        known_face_type(tag) && off != 0 && off + count * crate::decode::face_width(tag)
            <= s.len() ==> (spec_faces(s, fl, tag, count, off) is Ok && spec_faces(
            s,
            fl,
            tag,
            count,
            off,
        )->Ok_0.len() == count),
{
}

/// A face block is consumed exactly: decoding `count` records of a known
/// tag from `off` reads the `count * width(tag)` bytes of the block and
/// nothing else, so two sources that agree on the block decode to the
/// same triangle run, whatever else they hold.
pub proof fn lemma_faces_read_only_their_block(
    s1: Seq<u8>,
    s2: Seq<u8>,
    fl: u32,
    tag: u8,
    count: u32,
    off: u32,
)
    requires
        known_face_type(tag),
        off != 0,
        off + count * crate::decode::face_width(tag) <= s1.len(),
        off + count * crate::decode::face_width(tag) <= s2.len(),
        forall|i: int|
            off <= i < off + count * crate::decode::face_width(tag) ==> #[trigger] s1[i] == s2[i],
    ensures
        spec_faces(s1, fl, tag, count, off) == spec_faces(s2, fl, tag, count, off),
{
    if tag == 6 {
        assert(Seq::new(count as nat, |k: int| crate::decode::spec_col_lit_tri(s1, off + 18 * k))
            =~= Seq::new(count as nat, |k: int| crate::decode::spec_col_lit_tri(s2, off + 18 * k)));
    } else if tag == 8 {
        assert(Seq::new(count as nat, |k: int| crate::decode::spec_tex_lit_tri(s1, off + 24 * k))
            =~= Seq::new(count as nat, |k: int| crate::decode::spec_tex_lit_tri(s2, off + 24 * k)));
    } else if tag == 10 {
        assert(Seq::new(
            count as nat,
            |k: int| crate::decode::spec_tex_unlit_tri(s1, off + 18 * k),
        ) =~= Seq::new(count as nat, |k: int| crate::decode::spec_tex_unlit_tri(s2, off + 18 * k)));
    } else if tag == 11 {
        assert(Seq::new(
            count as nat,
            |k: int| crate::decode::spec_col_unlit_tri(s1, off + 12 * k),
        ) =~= Seq::new(count as nat, |k: int| crate::decode::spec_col_unlit_tri(s2, off + 12 * k)));
    } else if tag == 20 {
        assert(Seq::new(
            count as nat,
            |k: int| crate::decode::spec_tex_lit_env_tri(s1, off + 30 * k),
        ) =~= Seq::new(
            count as nat,
            |k: int| crate::decode::spec_tex_lit_env_tri(s2, off + 30 * k),
        ));
    } else {
        assert(Seq::new(
            count as nat,
            |k: int| crate::decode::spec_col_lit_env_tri(s1, off + 24 * k),
        ) =~= Seq::new(
            count as nat,
            |k: int| crate::decode::spec_col_lit_env_tri(s2, off + 24 * k),
        ));
    }
}

/// Well-formedness of a decode cache: offsets and arenas grow in
/// lockstep, and every cached material names a string inside the string
/// arena.
pub open spec fn cache_wf(st: CacheView) -> bool {
    &&& st.string_offsets.len() == st.strings.len()
    &&& st.material_offsets.len() == st.materials.len()
    &&& forall|k: int|
        0 <= k < st.materials.len() ==> (#[trigger] st.materials[k]).tex_name < st.strings.len()
}

/// One cache extends another: decoding only appends to the arenas.
pub open spec fn cache_le(a: CacheView, b: CacheView) -> bool {
    a.strings.len() <= b.strings.len() && a.materials.len() <= b.materials.len()
}

proof fn lemma_intern_wf(s: Seq<u8>, off: u32, at: u64, st: CacheView, i: usize, st1: CacheView)
    requires
        cache_wf(st),
        spec_intern_string(s, off, at, st) == Ok::<(usize, CacheView), DecodeError>((i, st1)),
    ensures
        cache_wf(st1),
        cache_le(st, st1),
        i < st1.strings.len(),
{
    lemma_find_from_range(st.string_offsets, off, 0);
}

proof fn lemma_material_wf(s: Seq<u8>, m: u32, st: CacheView, mat: NxfMaterial, st1: CacheView)
    requires
        cache_wf(st),
        spec_material(s, m, st) == Ok::<(NxfMaterial, CacheView), DecodeError>((mat, st1)),
    ensures
        cache_wf(st1),
        cache_le(st, st1),
        mat.tex_name < st1.strings.len(),
{
    let r = spec_intern_string(s, be32(s, m + 8), (m + 8) as u64, st);
    lemma_intern_wf(s, be32(s, m + 8), (m + 8) as u64, st, r->Ok_0.0, r->Ok_0.1);
}

proof fn lemma_resolve_wf(s: Seq<u8>, off: u32, at: u64, st: CacheView, i: usize, st1: CacheView)
    requires
        cache_wf(st),
        spec_resolve_material(s, off, at, st) == Ok::<(usize, CacheView), DecodeError>((i, st1)),
    ensures
        cache_wf(st1),
        cache_le(st, st1),
        i < st1.materials.len(),
{
    lemma_find_from_range(st.material_offsets, off, 0);
    if find_from(st.material_offsets, off, 0) < 0 {
        let r = spec_material(s, off, st);
        lemma_material_wf(s, off, st, r->Ok_0.0, r->Ok_0.1);
    }
}

proof fn lemma_string_table_wf(
    s: Seq<u8>,
    count: int,
    k: int,
    st: CacheView,
    slots: Seq<usize>,
    st1: CacheView,
)
    requires
        cache_wf(st),
        spec_string_table(s, count, k, st) == Ok::<(Seq<usize>, CacheView), DecodeError>(
            (slots, st1),
        ),
    ensures
        cache_wf(st1),
        cache_le(st, st1),
        forall|t: int| 0 <= t < slots.len() ==> #[trigger] slots[t] < st1.strings.len(),
    decreases count - k,
{
    if k < 0 || k >= count {
    } else {
        let r0 = spec_intern_string(s, be32(s, 32 + 4 * k), (32 + 4 * k) as u64, st);
        lemma_intern_wf(s, be32(s, 32 + 4 * k), (32 + 4 * k) as u64, st, r0->Ok_0.0, r0->Ok_0.1);
        let r1 = spec_string_table(s, count, k + 1, r0->Ok_0.1);
        lemma_string_table_wf(s, count, k + 1, r0->Ok_0.1, r1->Ok_0.0, r1->Ok_0.1);
    }
}

proof fn lemma_material_list_wf(
    s: Seq<u8>,
    nodes: Seq<u32>,
    k: int,
    st: CacheView,
    idxs: Seq<usize>,
    st1: CacheView,
)
    requires
        cache_wf(st),
        spec_material_list(s, nodes, k, st) == Ok::<(Seq<usize>, CacheView), DecodeError>(
            (idxs, st1),
        ),
    ensures
        cache_wf(st1),
        cache_le(st, st1),
        forall|t: int| 0 <= t < idxs.len() ==> #[trigger] idxs[t] < st1.materials.len(),
    decreases nodes.len() - k,
{
    if k < 0 || k >= nodes.len() {
    } else {
        let r0 = spec_resolve_material(s, be32(s, nodes[k] as int), nodes[k] as u64, st);
        lemma_resolve_wf(
            s,
            be32(s, nodes[k] as int),
            nodes[k] as u64,
            st,
            r0->Ok_0.0,
            r0->Ok_0.1,
        );
        let r1 = spec_material_list(s, nodes, k + 1, r0->Ok_0.1);
        lemma_material_list_wf(s, nodes, k + 1, r0->Ok_0.1, r1->Ok_0.0, r1->Ok_0.1);
    }
}

proof fn lemma_facelist_wf(
    s: Seq<u8>,
    f: u32,
    st: CacheView,
    fl: crate::model::FacelistView,
    st1: CacheView,
)
    requires
        cache_wf(st),
        spec_facelist(s, f, st) == Ok::<
            (crate::model::FacelistView, CacheView),
            DecodeError,
        >((fl, st1)),
    ensures
        cache_wf(st1),
        cache_le(st, st1),
        fl.material < st1.materials.len(),
{
    let r0 = spec_resolve_material(s, be32(s, f + 8), (f + 8) as u64, st);
    lemma_resolve_wf(s, be32(s, f + 8), (f + 8) as u64, st, r0->Ok_0.0, r0->Ok_0.1);
}

proof fn lemma_facelists_wf(
    s: Seq<u8>,
    nodes: Seq<u32>,
    k: int,
    st: CacheView,
    fls: Seq<crate::model::FacelistView>,
    st1: CacheView,
)
    requires
        cache_wf(st),
        spec_facelists(s, nodes, k, st) == Ok::<
            (Seq<crate::model::FacelistView>, CacheView),
            DecodeError,
        >((fls, st1)),
    ensures
        cache_wf(st1),
        cache_le(st, st1),
        forall|t: int|
            0 <= t < fls.len() ==> (#[trigger] fls[t]).material < st1.materials.len(),
    decreases nodes.len() - k,
{
    if k < 0 || k >= nodes.len() {
    } else {
        let r0 = spec_facelist(s, nodes[k], st);
        lemma_facelist_wf(s, nodes[k], st, r0->Ok_0.0, r0->Ok_0.1);
        let r1 = spec_facelists(s, nodes, k + 1, r0->Ok_0.1);
        lemma_facelists_wf(s, nodes, k + 1, r0->Ok_0.1, r1->Ok_0.0, r1->Ok_0.1);
    }
}

proof fn lemma_facelist_set_wf(
    s: Seq<u8>,
    o: u32,
    st: CacheView,
    set: crate::model::FacelistSetView,
    st1: CacheView,
)
    requires
        cache_wf(st),
        spec_facelist_set(s, o, st) == Ok::<
            (crate::model::FacelistSetView, CacheView),
            DecodeError,
        >((set, st1)),
    ensures
        cache_wf(st1),
        cache_le(st, st1),
        forall|t: int|
            0 <= t < set.facelists.len() ==> (#[trigger] set.facelists[t]).material
                < st1.materials.len(),
{
    let nodes = spec_chain(s, be32(s, o + 12), 32, 20, chain_fuel(s));
    let r0 = spec_facelists(s, nodes->Ok_0, 0, st);
    lemma_facelists_wf(s, nodes->Ok_0, 0, st, r0->Ok_0.0, r0->Ok_0.1);
}

proof fn lemma_facelist_sets_wf(
    s: Seq<u8>,
    nodes: Seq<u32>,
    k: int,
    st: CacheView,
    sets: Seq<crate::model::FacelistSetView>,
    st1: CacheView,
)
    requires
        cache_wf(st),
        spec_facelist_sets(s, nodes, k, st) == Ok::<
            (Seq<crate::model::FacelistSetView>, CacheView),
            DecodeError,
        >((sets, st1)),
    ensures
        cache_wf(st1),
        cache_le(st, st1),
        forall|i: int, j: int|
            0 <= i < sets.len() && 0 <= j < (#[trigger] sets[i]).facelists.len()
                ==> (#[trigger] sets[i].facelists[j]).material < st1.materials.len(),
    decreases nodes.len() - k,
{
    if k < 0 || k >= nodes.len() {
    } else {
        let r0 = spec_facelist_set(s, nodes[k], st);
        lemma_facelist_set_wf(s, nodes[k], st, r0->Ok_0.0, r0->Ok_0.1);
        let r1 = spec_facelist_sets(s, nodes, k + 1, r0->Ok_0.1);
        lemma_facelist_sets_wf(s, nodes, k + 1, r0->Ok_0.1, r1->Ok_0.0, r1->Ok_0.1);
    }
}

/// Internal consistency of a decoded object: every string-table slot,
/// every material-list entry, every material's name and every facelist's
/// material index lands inside its arena, and no buffer exceeds its
/// declared capacity.
pub open spec fn obj_geom_consistent(g: ObjGeomView) -> bool {
    &&& forall|k: int|
        0 <= k < g.strings.len() ==> #[trigger] g.strings[k] < g.string_arena.len()
    &&& forall|k: int|
        0 <= k < g.materials.len() ==> #[trigger] g.materials[k] < g.material_arena.len()
    &&& forall|k: int|
        0 <= k < g.material_arena.len() ==> (#[trigger] g.material_arena[k]).tex_name
            < g.string_arena.len()
    &&& forall|i: int, j: int|
        0 <= i < g.facelist_sets.len() && 0 <= j < (#[trigger] g.facelist_sets[i]).facelists.len()
            ==> (#[trigger] g.facelist_sets[i].facelists[j]).material < g.material_arena.len()
    &&& g.arrays.verts.len() <= g.arrays.max_verts
    &&& g.arrays.normals.len() <= g.arrays.max_normals
    &&& g.arrays.colors.len() <= g.arrays.max_cols
    &&& g.arrays.uvs.len() <= g.arrays.max_uvs
}

/// A decode is all-or-nothing, and what it yields is internally
/// consistent: every cross-reference in the decoded object is a valid
/// arena index, and the vertex-array buffers respect their declared
/// capacities.
#[verifier::rlimit(100)]
#[verifier::spinoff_prover]
pub proof fn lemma_decode_consistent(s: Seq<u8>, g: ObjGeomView)
    requires
        spec_decode(s) == Ok::<ObjGeomView, DecodeError>(g),
    ensures
        obj_geom_consistent(g),
{
    let nstr = be16(s, 24) as int;
    let base = 32 + 4 * nstr;
    let t = spec_string_table(s, nstr, 0, empty_cache());
    lemma_string_table_wf(s, nstr, 0, empty_cache(), t->Ok_0.0, t->Ok_0.1);
    let mat_nodes = spec_chain(s, be32(s, base + 4), 8, 4, chain_fuel(s));
    let ml = spec_material_list(s, mat_nodes->Ok_0, 0, t->Ok_0.1);
    lemma_material_list_wf(s, mat_nodes->Ok_0, 0, t->Ok_0.1, ml->Ok_0.0, ml->Ok_0.1);
    let set_nodes = spec_chain(s, be32(s, base + 12), 24, 20, chain_fuel(s));
    let fs = spec_facelist_sets(s, set_nodes->Ok_0, 0, ml->Ok_0.1);
    lemma_facelist_sets_wf(s, set_nodes->Ok_0, 0, ml->Ok_0.1, fs->Ok_0.0, fs->Ok_0.1);
}

} // verus!

//! Geometry encoding: from a feature's geometry references over the shared
//! vertex/polygon store to one binary multi-polygon envelope and its
//! bounding box.

use vstd::prelude::*;

use crate::bbox::{bbox_union, Bbox};

verus! {

/// The kinds a geometry reference can carry.  Only the polygonal kinds are
/// renderable here; curves and points are not supported.
#[derive(Clone, Copy, PartialEq, Eq, Structural, Debug)]
pub enum GeometryKind {
    Solid,
    Surface,
    Triangle,
    Curve,
    Point,
}

/// One reference into the shared polygon pool: a kind and a range.
#[derive(Clone, Copy, PartialEq, Eq, Structural, Debug)]
pub struct GeometryRef {
    pub kind: GeometryKind,
    pub pos: usize,
    pub len: usize,
}

/// A vertex in fixed-point coordinates.
#[derive(Clone, Copy, PartialEq, Eq, Structural, Debug)]
pub struct Vertex {
    pub x: i64,
    pub y: i64,
    pub z: i64,
}

/// One polygon: rings of indices into the shared vertex list.
pub struct Polygon {
    pub rings: Vec<Vec<usize>>,
}

/// The shared, read-only geometry store an entity's references point into.
pub struct GeometryStore {
    pub vertices: Vec<Vertex>,
    pub polygons: Vec<Polygon>,
}

/// Every vertex index of the polygon is inside a vertex list of length `n`.
pub open spec fn polygon_wf(p: Polygon, n: int) -> bool {
    forall|r: int, v: int|
        0 <= r < p.rings@.len() && 0 <= v < p.rings@[r]@.len() ==> #[trigger] p.rings@[r]@[v] < n
}

impl GeometryStore {
    pub open spec fn wf(&self) -> bool {
        forall|i: int|
            0 <= i < self.polygons@.len() ==> polygon_wf(
                #[trigger] self.polygons@[i],
                self.vertices@.len() as int,
            )
    }
}

/// Failure of the encoder on input it does not support.
#[derive(Clone, Copy, PartialEq, Eq, Structural, Debug)]
pub enum GeomError {
    UnsupportedGeometryKind { kind: GeometryKind },
}

pub open spec fn is_supported_kind(k: GeometryKind) -> bool {
    k is Solid || k is Surface || k is Triangle
}

pub open spec fn has_unsupported(refs: Seq<GeometryRef>) -> bool {
    exists|i: int| 0 <= i < refs.len() && !is_supported_kind(refs[i].kind)
}

/// The polygon-pool indices covered by a range reference.
pub open spec fn range_ids(pos: usize, len: usize) -> Seq<usize> {
    Seq::new(len as nat, |i: int| (pos + i) as usize)
}

/// The polygon-pool indices a reference list selects, in order, taking the
/// ranges of the supported kinds.
pub open spec fn collect_ids(refs: Seq<GeometryRef>) -> Seq<usize>
    decreases refs.len(),
{
    if refs.len() == 0 {
        Seq::empty()
    } else {
        (if is_supported_kind(refs[0].kind) {
            range_ids(refs[0].pos, refs[0].len)
        } else {
            Seq::empty()
        }) + collect_ids(refs.drop_first())
    }
}

/// A `u32` as four little-endian bytes.
pub open spec fn u32_le(n: u32) -> Seq<u8> {
    seq![
        (n % 256) as u8,
        ((n / 256) % 256) as u8,
        ((n / 65536) % 256) as u8,
        ((n / 16777216) % 256) as u8,
    ]
}

/// A `u64` as eight little-endian bytes.
pub open spec fn u64_le(n: u64) -> Seq<u8> {
    seq![
        (n % 256) as u8,
        ((n / 256) % 256) as u8,
        ((n / 65536) % 256) as u8,
        ((n / 16777216) % 256) as u8,
        ((n / 4294967296) % 256) as u8,
        ((n / 1099511627776) % 256) as u8,
        ((n / 281474976710656) % 256) as u8,
        ((n / 72057594037927936) % 256) as u8,
    ]
}

/// An `i64` as its two's-complement little-endian bytes.
pub open spec fn i64_le(n: i64) -> Seq<u8> {
    u64_le(n as u64)
}

pub open spec fn vertex_bytes(v: Vertex) -> Seq<u8> {
    i64_le(v.x) + i64_le(v.y) + i64_le(v.z)
}

pub open spec fn ring_points_bytes(vertices: Seq<Vertex>, ring: Seq<usize>) -> Seq<u8>
    decreases ring.len(),
{
    if ring.len() == 0 {
        Seq::empty()
    } else {
        vertex_bytes(vertices[ring[0] as int]) + ring_points_bytes(vertices, ring.drop_first())
    }
}

/// A ring: its point count, then its points.
pub open spec fn ring_bytes(vertices: Seq<Vertex>, ring: Seq<usize>) -> Seq<u8> {
    u64_le(ring.len() as u64) + ring_points_bytes(vertices, ring)
}

pub open spec fn rings_bytes(vertices: Seq<Vertex>, rings: Seq<Vec<usize>>) -> Seq<u8>
    decreases rings.len(),
{
    if rings.len() == 0 {
        Seq::empty()
    } else {
        ring_bytes(vertices, rings[0]@) + rings_bytes(vertices, rings.drop_first())
    }
}

/// A polygon: its ring count, then its rings.
pub open spec fn poly_bytes(vertices: Seq<Vertex>, p: Polygon) -> Seq<u8> {
    u64_le(p.rings@.len() as u64) + rings_bytes(vertices, p.rings@)
}

pub open spec fn polys_bytes(vertices: Seq<Vertex>, polygons: Seq<Polygon>, ids: Seq<usize>) -> Seq<
    u8,
>
    decreases ids.len(),
{
    if ids.len() == 0 {
        Seq::empty()
    } else {
        poly_bytes(vertices, polygons[ids[0] as int]) + polys_bytes(
            vertices,
            polygons,
            ids.drop_first(),
        )
    }
}

/// The fixed binary envelope: magic, version and flags, the spatial
/// reference id, the polygon count, then the polygons.
pub open spec fn envelope_bytes(
    srs_id: u32,
    vertices: Seq<Vertex>,
    polygons: Seq<Polygon>,
    ids: Seq<usize>,
) -> Seq<u8> {
    seq![0x47u8, 0x50u8, 0u8, 0u8] + u32_le(srs_id) + u64_le(ids.len() as u64) + polys_bytes(
        vertices,
        polygons,
        ids,
    )
}

/// The vertex indices of one polygon, rings in order.
pub open spec fn rings_flat(rings: Seq<Vec<usize>>) -> Seq<usize>
    decreases rings.len(),
{
    if rings.len() == 0 {
        Seq::empty()
    } else {
        rings[0]@ + rings_flat(rings.drop_first())
    }
}

/// The vertex indices of all selected polygons, in order.
pub open spec fn ids_flat(polygons: Seq<Polygon>, ids: Seq<usize>) -> Seq<usize>
    decreases ids.len(),
{
    if ids.len() == 0 {
        Seq::empty()
    } else {
        rings_flat(polygons[ids[0] as int].rings@) + ids_flat(polygons, ids.drop_first())
    }
}

/// The one-point box around a vertex.
pub open spec fn point_bbox(v: Vertex) -> Bbox {
    Bbox { min_x: v.x, min_y: v.y, max_x: v.x, max_y: v.y }
}

/// The sentinel box a union starts from.
pub open spec fn empty_bbox() -> Bbox {
    Bbox { min_x: i64::MAX, min_y: i64::MAX, max_x: i64::MIN, max_y: i64::MIN }
}

pub open spec fn bbox_fold(vertices: Seq<Vertex>, vids: Seq<usize>, acc: Bbox) -> Bbox
    decreases vids.len(),
{
    if vids.len() == 0 {
        acc
    } else {
        bbox_fold(
            vertices,
            vids.drop_first(),
            bbox_union(acc, point_bbox(vertices[vids[0] as int])),
        )
    }
}

/// The box around everything a selection of polygons references.
pub open spec fn bbox_of(vertices: Seq<Vertex>, polygons: Seq<Polygon>, ids: Seq<usize>) -> Bbox {
    bbox_fold(vertices, ids_flat(polygons, ids), empty_bbox())
}

fn push_u32_le(bytes: &mut Vec<u8>, n: u32)
    ensures
        final(bytes)@ == old(bytes)@ + u32_le(n),
{
    let ghost b0 = bytes@;
    bytes.push((n % 256) as u8);
    bytes.push(((n / 256) % 256) as u8);
    bytes.push(((n / 65536) % 256) as u8);
    bytes.push(((n / 16777216) % 256) as u8);
    proof {
        assert(bytes@ =~= b0 + u32_le(n));
    }
}

fn push_u64_le(bytes: &mut Vec<u8>, n: u64)
    ensures
        final(bytes)@ == old(bytes)@ + u64_le(n),
{
    let ghost b0 = bytes@;
    bytes.push((n % 256) as u8);
    bytes.push(((n / 256) % 256) as u8);
    bytes.push(((n / 65536) % 256) as u8);
    bytes.push(((n / 16777216) % 256) as u8);
    bytes.push(((n / 4294967296) % 256) as u8);
    bytes.push(((n / 1099511627776) % 256) as u8);
    bytes.push(((n / 281474976710656) % 256) as u8);
    bytes.push(((n / 72057594037927936) % 256) as u8);
    proof {
        assert(bytes@ =~= b0 + u64_le(n));
    }
}

fn push_vertex(bytes: &mut Vec<u8>, v: &Vertex)
    ensures
        final(bytes)@ == old(bytes)@ + vertex_bytes(*v),
{
    let ghost b0 = bytes@;
    push_u64_le(bytes, v.x as u64);
    push_u64_le(bytes, v.y as u64);
    push_u64_le(bytes, v.z as u64);
    proof {
        assert(bytes@ =~= b0 + vertex_bytes(*v));
    }
}

fn write_ring(bytes: &mut Vec<u8>, vertices: &Vec<Vertex>, ring: &Vec<usize>)
    requires
        forall|i: int| 0 <= i < ring@.len() ==> #[trigger] ring@[i] < vertices@.len(),
    ensures
        final(bytes)@ == old(bytes)@ + ring_bytes(vertices@, ring@),
{
    let ghost target = old(bytes)@ + ring_bytes(vertices@, ring@);
    push_u64_le(bytes, ring.len() as u64);
    proof {
        assert(ring@.skip(0) =~= ring@);
        assert(bytes@ + ring_points_bytes(vertices@, ring@) =~= target);
    }
    let mut i: usize = 0;
    while i < ring.len()
        invariant
            forall|l: int| 0 <= l < ring@.len() ==> #[trigger] ring@[l] < vertices@.len(),
            i <= ring@.len(),
            bytes@ + ring_points_bytes(vertices@, ring@.skip(i as int)) == target,
        decreases ring@.len() - i,
    {
        proof {
            assert(ring@.skip(i as int)[0] == ring@[i as int]);
            assert(ring@.skip(i as int).drop_first() =~= ring@.skip(i as int + 1));
        }
        let ghost b0 = bytes@;
        push_vertex(bytes, &vertices[ring[i]]);
        proof {
            assert(bytes@ + ring_points_bytes(vertices@, ring@.skip(i as int + 1)) =~= b0
                + ring_points_bytes(vertices@, ring@.skip(i as int)));
        }
        i += 1;
    }
    proof {
        assert(ring_points_bytes(vertices@, ring@.skip(ring@.len() as int)) =~= Seq::<
            u8,
        >::empty());
        assert(bytes@ =~= target);
    }
}

fn write_polygon(bytes: &mut Vec<u8>, vertices: &Vec<Vertex>, poly: &Polygon)
    requires
        polygon_wf(*poly, vertices@.len() as int),
    ensures
        final(bytes)@ == old(bytes)@ + poly_bytes(vertices@, *poly),
{
    let ghost target = old(bytes)@ + poly_bytes(vertices@, *poly);
    push_u64_le(bytes, poly.rings.len() as u64);
    proof {
        assert(poly.rings@.skip(0) =~= poly.rings@);
        assert(bytes@ + rings_bytes(vertices@, poly.rings@) =~= target);
    }
    let mut r: usize = 0;
    while r < poly.rings.len()
        invariant
            polygon_wf(*poly, vertices@.len() as int),
            r <= poly.rings@.len(),
            bytes@ + rings_bytes(vertices@, poly.rings@.skip(r as int)) == target,
        decreases poly.rings@.len() - r,
    {
        proof {
            assert(poly.rings@.skip(r as int)[0] == poly.rings@[r as int]);
            assert(poly.rings@.skip(r as int).drop_first() =~= poly.rings@.skip(r as int + 1));
        }
        let ghost b0 = bytes@;
        write_ring(bytes, vertices, &poly.rings[r]);
        proof {
            assert(bytes@ + rings_bytes(vertices@, poly.rings@.skip(r as int + 1)) =~= b0
                + rings_bytes(vertices@, poly.rings@.skip(r as int)));
        }
        r += 1;
    }
    proof {
        assert(rings_bytes(vertices@, poly.rings@.skip(poly.rings@.len() as int)) =~= Seq::<
            u8,
        >::empty());
        assert(bytes@ =~= target);
    }
}

fn flat_polygon(out: &mut Vec<usize>, poly: &Polygon)
    ensures
        final(out)@ == old(out)@ + rings_flat(poly.rings@),
{
    let ghost target = old(out)@ + rings_flat(poly.rings@);
    proof {
        assert(poly.rings@.skip(0) =~= poly.rings@);
    }
    let mut r: usize = 0;
    while r < poly.rings.len()
        invariant
            r <= poly.rings@.len(),
            out@ + rings_flat(poly.rings@.skip(r as int)) == target,
        decreases poly.rings@.len() - r,
    {
        proof {
            assert(poly.rings@.skip(r as int)[0] == poly.rings@[r as int]);
            assert(poly.rings@.skip(r as int).drop_first() =~= poly.rings@.skip(r as int + 1));
        }
        let ring = &poly.rings[r];
        let ghost o0 = out@;
        let mut j: usize = 0;
        while j < ring.len()
            invariant
                ring@ == poly.rings@[r as int]@,
                j <= ring@.len(),
                out@ == o0 + ring@.take(j as int),
            decreases ring@.len() - j,
        {
            out.push(ring[j]);
            proof {
                assert(out@ =~= o0 + ring@.take(j as int + 1));
            }
            j += 1;
        }
        proof {
            assert(ring@.take(ring@.len() as int) =~= ring@);
            assert(out@ + rings_flat(poly.rings@.skip(r as int + 1)) =~= o0 + rings_flat(
                poly.rings@.skip(r as int),
            ));
        }
        r += 1;
    }
    proof {
        assert(rings_flat(poly.rings@.skip(poly.rings@.len() as int)) =~= Seq::<usize>::empty());
        assert(out@ =~= target);
    }
}

/// The geometry and the bounding box the encoder produces for one feature.
pub struct EncodedGeometry {
    pub bytes: Vec<u8>,
    pub bbox: Bbox,
}

/// Encode a feature's selected polygons into the binary envelope and
/// compute their bounding box.  A curve or point reference fails the
/// record; a selection with no polygons means "no renderable geometry".
pub fn encode_geometry(
    store: &GeometryStore,
    geometries: &Vec<GeometryRef>,
    srs_id: u32,
) -> (r: Result<Option<EncodedGeometry>, GeomError>)
    requires
        store.wf(),
        forall|i: int|
            0 <= i < geometries@.len() ==> #[trigger] geometries@[i].pos + geometries@[i].len
                <= store.polygons@.len(),
    ensures
        (r is Err) == has_unsupported(geometries@),
        r matches Err(e) ==> exists|i: int|
            0 <= i < geometries@.len() && !is_supported_kind(#[trigger] geometries@[i].kind) && e
                == (GeomError::UnsupportedGeometryKind { kind: geometries@[i].kind }) && (forall|
                j: int,
            | 0 <= j < i ==> is_supported_kind(geometries@[j].kind)),
        !has_unsupported(geometries@) && collect_ids(geometries@).len() == 0 ==> r == Result::<
            Option<EncodedGeometry>,
            GeomError,
        >::Ok(None),
        !has_unsupported(geometries@) && collect_ids(geometries@).len() > 0 ==> (r matches Ok(g)
            && g matches Some(enc) && enc.bytes@ == envelope_bytes(
            srs_id,
            store.vertices@,
            store.polygons@,
            collect_ids(geometries@),
        ) && enc.bbox == bbox_of(store.vertices@, store.polygons@, collect_ids(geometries@))),
{
    let ghost refs = geometries@;
    let ghost all_ids = collect_ids(refs);
    let npolys = store.polygons.len();
    // Select the polygon ranges, failing on an unsupported kind.
    let mut ids: Vec<usize> = Vec::new();
    let mut i: usize = 0;
    proof {
        assert(refs.skip(0) =~= refs);
        assert(ids@ + collect_ids(refs.skip(0)) =~= all_ids);
    }
    while i < geometries.len()
        invariant
            refs == geometries@,
            all_ids == collect_ids(refs),
            npolys == store.polygons@.len(),
            store.wf(),
            forall|l: int|
                0 <= l < refs.len() ==> #[trigger] refs[l].pos + refs[l].len
                    <= store.polygons@.len(),
            i <= refs.len(),
            forall|j: int| 0 <= j < i ==> is_supported_kind(#[trigger] refs[j].kind),
            ids@ + collect_ids(refs.skip(i as int)) == all_ids,
            forall|l: int| 0 <= l < ids@.len() ==> #[trigger] ids@[l] < store.polygons@.len(),
        decreases refs.len() - i,
    {
        proof {
            assert(refs.skip(i as int)[0] == refs[i as int]);
            assert(refs.skip(i as int).drop_first() =~= refs.skip(i as int + 1));
        }
        let entry = geometries[i];
        let supported = match entry.kind {
            GeometryKind::Solid => true,
            GeometryKind::Surface => true,
            GeometryKind::Triangle => true,
            GeometryKind::Curve => false,
            GeometryKind::Point => false,
        };
        if !supported {
            return Err(GeomError::UnsupportedGeometryKind { kind: entry.kind });
        }
        let ghost ids0 = ids@;
        let mut j: usize = 0;
        while j < entry.len
            invariant
                entry == refs[i as int],
                i < refs.len(),
                npolys == store.polygons@.len(),
                refs[i as int].pos + refs[i as int].len <= store.polygons@.len(),
                j <= entry.len,
                ids@ == ids0 + range_ids(entry.pos, entry.len).take(j as int),
                forall|l: int| 0 <= l < ids0.len() ==> #[trigger] ids0[l] < store.polygons@.len(),
            decreases entry.len - j,
        {
            ids.push(entry.pos + j);
            proof {
                assert(ids@ =~= ids0 + range_ids(entry.pos, entry.len).take(j as int + 1));
            }
            j += 1;
        }
        proof {
            assert(range_ids(entry.pos, entry.len).take(entry.len as int) =~= range_ids(
                entry.pos,
                entry.len,
            ));
            assert(ids@ + collect_ids(refs.skip(i as int + 1)) =~= ids0 + collect_ids(
                refs.skip(i as int),
            ));
            assert forall|l: int| 0 <= l < ids@.len() implies #[trigger] ids@[l]
                < store.polygons@.len() by {
                if l >= ids0.len() {
                    assert(ids@[l] == range_ids(entry.pos, entry.len)[l - ids0.len()]);
                }
            }
        }
        i += 1;
    }
    proof {
        assert(collect_ids(refs.skip(refs.len() as int)) =~= Seq::<usize>::empty());
        assert(ids@ =~= all_ids);
        assert(!has_unsupported(refs));
    }
    if ids.len() == 0 {
        return Ok(None);
    }
    // Serialize the envelope.
    let mut bytes: Vec<u8> = Vec::new();
    bytes.push(0x47);
    bytes.push(0x50);
    bytes.push(0);
    bytes.push(0);
    proof {
        assert(bytes@ =~= seq![0x47u8, 0x50u8, 0u8, 0u8]);
    }
    push_u32_le(&mut bytes, srs_id);
    push_u64_le(&mut bytes, ids.len() as u64);
    let ghost header = bytes@;
    let ghost target = header + polys_bytes(store.vertices@, store.polygons@, all_ids);
    proof {
        assert(all_ids.skip(0) =~= all_ids);
    }
    let mut p: usize = 0;
    while p < ids.len()
        invariant
            store.wf(),
            ids@ == all_ids,
            target == header + polys_bytes(store.vertices@, store.polygons@, all_ids),
            forall|l: int| 0 <= l < ids@.len() ==> #[trigger] ids@[l] < store.polygons@.len(),
            p <= ids@.len(),
            bytes@ + polys_bytes(store.vertices@, store.polygons@, all_ids.skip(p as int))
                == target,
        decreases ids@.len() - p,
    {
        proof {
            assert(all_ids.skip(p as int)[0] == all_ids[p as int]);
            assert(all_ids.skip(p as int).drop_first() =~= all_ids.skip(p as int + 1));
        }
        let ghost b0 = bytes@;
        write_polygon(&mut bytes, &store.vertices, &store.polygons[ids[p]]);
        proof {
            assert(bytes@ + polys_bytes(store.vertices@, store.polygons@, all_ids.skip(p as int + 1))
                =~= b0 + polys_bytes(store.vertices@, store.polygons@, all_ids.skip(p as int)));
        }
        p += 1;
    }
    proof {
        assert(polys_bytes(store.vertices@, store.polygons@, all_ids.skip(all_ids.len() as int))
            =~= Seq::<u8>::empty());
        assert(bytes@ =~= envelope_bytes(srs_id, store.vertices@, store.polygons@, all_ids));
    }
    // Compute the bounding box over the referenced vertices.
    let mut vids: Vec<usize> = Vec::new();
    let ghost flat = ids_flat(store.polygons@, all_ids);
    proof {
        assert(all_ids.skip(0) =~= all_ids);
        assert(vids@ + ids_flat(store.polygons@, all_ids.skip(0)) =~= flat);
    }
    let mut p: usize = 0;
    while p < ids.len()
        invariant
            store.wf(),
            ids@ == all_ids,
            flat == ids_flat(store.polygons@, all_ids),
            forall|l: int| 0 <= l < ids@.len() ==> #[trigger] ids@[l] < store.polygons@.len(),
            p <= ids@.len(),
            vids@ + ids_flat(store.polygons@, all_ids.skip(p as int)) == flat,
            forall|l: int| 0 <= l < vids@.len() ==> #[trigger] vids@[l] < store.vertices@.len(),
        decreases ids@.len() - p,
    {
        proof {
            assert(all_ids.skip(p as int)[0] == all_ids[p as int]);
            assert(all_ids.skip(p as int).drop_first() =~= all_ids.skip(p as int + 1));
        }
        let ghost v0 = vids@;
        flat_polygon(&mut vids, &store.polygons[ids[p]]);
        proof {
            assert(vids@ + ids_flat(store.polygons@, all_ids.skip(p as int + 1)) =~= v0 + ids_flat(
                store.polygons@,
                all_ids.skip(p as int),
            ));
            let poly = store.polygons@[all_ids[p as int] as int];
            assert forall|l: int| 0 <= l < vids@.len() implies #[trigger] vids@[l]
                < store.vertices@.len() by {
                if l >= v0.len() {
                    lemma_rings_flat_bounds(poly.rings@, store.vertices@.len() as int, l - v0.len());
                }
            }
        }
        p += 1;
    }
    proof {
        assert(ids_flat(store.polygons@, all_ids.skip(all_ids.len() as int)) =~= Seq::<
            usize,
        >::empty());
        assert(vids@ =~= flat);
    }
    let mut acc = Bbox {
        min_x: i64::MAX,
        min_y: i64::MAX,
        max_x: i64::MIN,
        max_y: i64::MIN,
    };
    proof {
        assert(flat.skip(0) =~= flat);
    }
    let mut q: usize = 0;
    while q < vids.len()
        invariant
            vids@ == flat,
            q <= flat.len(),
            forall|l: int| 0 <= l < vids@.len() ==> #[trigger] vids@[l] < store.vertices@.len(),
            bbox_fold(store.vertices@, flat.skip(q as int), acc) == bbox_fold(
                store.vertices@,
                flat,
                empty_bbox(),
            ),
        decreases flat.len() - q,
    {
        proof {
            assert(flat.skip(q as int)[0] == flat[q as int]);
            assert(flat.skip(q as int).drop_first() =~= flat.skip(q as int + 1));
        }
        let v = &store.vertices[vids[q]];
        let pb = Bbox { min_x: v.x, min_y: v.y, max_x: v.x, max_y: v.y };
        acc.merge(&pb);
        q += 1;
    }
    proof {
        assert(flat.skip(flat.len() as int) =~= Seq::<usize>::empty());
    }
    Ok(Some(EncodedGeometry { bytes, bbox: acc }))
}

/// Every element of a polygon's flattened index list stays inside the
/// vertex bound the polygon is well-formed for.
pub proof fn lemma_rings_flat_bounds(rings: Seq<Vec<usize>>, n: int, l: int)
    requires
        forall|r: int, v: int|
            0 <= r < rings.len() && 0 <= v < rings[r]@.len() ==> #[trigger] rings[r]@[v] < n,
        0 <= l < rings_flat(rings).len(),
    ensures
        rings_flat(rings)[l] < n,
    decreases rings.len(),
{
    if rings.len() > 0 {
        let head = rings[0]@;
        if l < head.len() {
            assert(rings_flat(rings)[l] == head[l]);
        } else {
            assert forall|r: int, v: int|
                0 <= r < rings.drop_first().len() && 0 <= v < rings.drop_first()[r]@.len()
                    implies #[trigger] rings.drop_first()[r]@[v] < n by {
                assert(rings.drop_first()[r] == rings[r + 1]);
            }
            lemma_rings_flat_bounds(rings.drop_first(), n, l - head.len());
            assert(rings_flat(rings)[l] == rings_flat(rings.drop_first())[l - head.len()]);
        }
    }
}

} // verus!

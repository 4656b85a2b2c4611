//! Mesh models: vertices, and the deduplicated vertex and index lists that
//! are uploaded for indexed drawing.

use crate::obj_scan::{faces_safe, obj_faces_safe};
use crate::vertex::Vertex;
use std::collections::HashMap;
use vstd::prelude::*;

verus! {

broadcast use {vstd::std_specs::hash::group_hash_axioms, vstd::array::group_array_axioms};

/// The bucket key of a vertex: its position and the first texture component.
pub open spec fn vertex_key(v: Vertex) -> u128 {
    (v.pos[0] as u128) | ((v.pos[1] as u128) << 32u128) | ((v.pos[2] as u128) << 64u128) | ((
    v.uv[0] as u128) << 96u128)
}

fn bucket_key(v: &Vertex) -> (r: u128)
    ensures
        r == vertex_key(*v),
{
    (v.pos[0] as u128) | ((v.pos[1] as u128) << 32u128) | ((v.pos[2] as u128) << 64u128) | ((
    v.uv[0] as u128) << 96u128)
}

/// The distinct vertices of `c`, in the order of their first occurrence.
pub open spec fn unique_vertices(c: Seq<Vertex>) -> Seq<Vertex>
    decreases c.len(),
{
    if c.len() == 0 {
        Seq::empty()
    } else {
        let prev = unique_vertices(c.drop_last());
        if prev.contains(c.last()) {
            prev
        } else {
            prev.push(c.last())
        }
    }
}

/// `vertices` and `indices` are the indexed form of the corner list `c`:
/// `vertices` lists the distinct corners in order of first occurrence, and
/// `indices[k]` points at the vertex equal to `c[k]`.
pub open spec fn is_deduplication(c: Seq<Vertex>, vertices: Seq<Vertex>, indices: Seq<u32>) -> bool {
    &&& vertices == unique_vertices(c)
    &&& indices.len() == c.len()
    &&& forall|k: int|
        0 <= k < c.len() ==> (#[trigger] indices[k] as int) < vertices.len() && vertices[indices[k]
            as int] == c[k]
}

/// Why a mesh could not be built.
#[derive(Clone, Copy, Debug, PartialEq, Eq, Structural)]
pub enum ModelError {
    /// The model text is not valid Wavefront OBJ, or a face holds a texture
    /// or normal index that the reader cannot take.
    Parse,
    /// A corner lacks a texture index, or an index points past the
    /// positions or texture coordinates.
    IndexOutOfRange,
    /// More corners than a 32-bit index buffer can address.
    TooManyCorners,
}

/// One mesh of a model file: for each triangle corner, the index of its
/// position and the index of its texture coordinate; and the flattened
/// positions (three components each) and texture coordinates (two each), as
/// 32-bit float bit patterns.
#[derive(Clone, Debug)]
pub struct MeshData {
    pub indices: Vec<u32>,
    pub texcoord_indices: Vec<u32>,
    pub positions: Vec<u32>,
    pub texcoords: Vec<u32>,
}

impl View for MeshData {
    type V = (Seq<u32>, Seq<u32>, Seq<u32>, Seq<u32>);

    open spec fn view(&self) -> Self::V {
        (self.indices@, self.texcoord_indices@, self.positions@, self.texcoords@)
    }
}

/// The meshes that the OBJ reader finds in `text`, or `None` when it rejects
/// the text.
pub uninterp spec fn obj_meshes(text: Seq<u8>) -> Option<
    Seq<(Seq<u32>, Seq<u32>, Seq<u32>, Seq<u32>)>,
>;

/// The OBJ reader's error, carried through opaquely.
#[verifier::external_type_specification]
#[verifier::external_body]
pub struct ExLoadError(tobj::LoadError);

/// A material of an OBJ material library, carried through opaquely.
#[verifier::external_type_specification]
#[verifier::external_body]
pub struct ExMaterial(tobj::Material);

/// An empty material library: model files are read for their geometry only.
fn no_materials() -> (Vec<tobj::Material>, HashMap<String, usize>) {
    (Vec::new(), HashMap::new())
}

/// Relies on `tobj::load_obj_buf`, with faces triangulated and no material
/// file read: the meshes it returns depend on the text alone. Each float is
/// handed on as its bit pattern. The reader multiplies texture and normal
/// indices without overflow checking, so text with a face index that the
/// pre-scan rejects is not handed to it.
#[verifier::external_body]
fn load_obj_buf(text: &[u8]) -> (r: Result<Vec<MeshData>, tobj::LoadError>)
    requires
        obj_faces_safe(text@),
    ensures
        match r {
            Ok(ms) => obj_meshes(text@) == Some(ms@.map_values(|m: MeshData| m@)),
            Err(_) => obj_meshes(text@) is None,
        },
{
    let mut reader = std::io::Cursor::new(text);
    let options = tobj::LoadOptions { triangulate: true, ..Default::default() };
    let loaded = tobj::load_obj_buf(&mut reader, &options, |_| Ok(no_materials()));
    loaded.map(|(models, _)| models.into_iter().map(|m| MeshData {
        indices: m.mesh.indices,
        texcoord_indices: m.mesh.texcoord_indices,
        positions: m.mesh.positions.iter().map(|x| x.to_bits()).collect(),
        texcoords: m.mesh.texcoords.iter().map(|x| x.to_bits()).collect(),
    }).collect())
}

/// Reads the meshes of a Wavefront OBJ model, faces triangulated. Text that
/// the pre-scan rejects is refused without being read: a face with a texture
/// or normal index that the reader cannot take, or a line holding a `/` and
/// a byte outside ASCII that is a face line or has that byte in its first
/// word.
pub fn parse_obj(text: &[u8]) -> (r: Result<Vec<MeshData>, ModelError>)
    ensures
        match r {
            Ok(ms) => obj_faces_safe(text@) && obj_meshes(text@) == Some(
                ms@.map_values(|m: MeshData| m@),
            ),
            Err(e) => e == ModelError::Parse && (!obj_faces_safe(text@) || obj_meshes(text@) is None),
        },
{
    if !faces_safe(text) {
        return Err(ModelError::Parse);
    }
    match load_obj_buf(text) {
        Ok(ms) => Ok(ms),
        Err(_) => Err(ModelError::Parse),
    }
}

/// Corner index `idx` has a position and a texture coordinate in `m`.
pub open spec fn corner_in_range(m: MeshData, k: int) -> bool {
    &&& k < m.texcoord_indices@.len()
    &&& 3 * m.indices@[k] + 2 < m.positions@.len()
    &&& 2 * m.texcoord_indices@[k] + 1 < m.texcoords@.len()
}

/// The vertex of corner `k` of `m`: the position that its position index
/// names and the texture coordinate that its texture index names.
pub open spec fn corner_vertex(m: MeshData, k: int) -> Vertex {
    let p = m.positions@;
    let t = m.texcoords@;
    let pi = m.indices@[k];
    let ti = m.texcoord_indices@[k];
    Vertex {
        pos: [p[3 * pi], p[3 * pi + 1], p[3 * pi + 2]],
        uv: [t[2 * ti], t[2 * ti + 1]],
    }
}

/// Every corner of every mesh has its position and texture coordinate.
pub open spec fn meshes_in_range(ms: Seq<MeshData>) -> bool {
    forall|i: int, k: int|
        0 <= i < ms.len() && 0 <= k < ms[i].indices@.len() ==> #[trigger] corner_in_range(
            ms[i],
            k,
        )
}

/// The corners of one mesh, in order.
pub open spec fn mesh_corners(m: MeshData) -> Seq<Vertex> {
    Seq::new(m.indices@.len(), |k: int| corner_vertex(m, k))
}

/// The corners of all meshes, mesh after mesh.
pub open spec fn all_corners(ms: Seq<MeshData>) -> Seq<Vertex>
    decreases ms.len(),
{
    if ms.len() == 0 {
        Seq::empty()
    } else {
        all_corners(ms.drop_last()) + mesh_corners(ms.last())
    }
}

/// Meshes with equal contents have the same corners.
pub proof fn lemma_all_corners_by_view(ms1: Seq<MeshData>, ms2: Seq<MeshData>)
    requires
        ms1.map_values(|m: MeshData| m@) == ms2.map_values(|m: MeshData| m@),
    ensures
        all_corners(ms1) == all_corners(ms2),
    decreases ms1.len(),
{
    assert(ms1.len() == ms1.map_values(|m: MeshData| m@).len());
    if ms1.len() > 0 {
        let d1 = ms1.drop_last();
        let d2 = ms2.drop_last();
        assert forall|i: int| 0 <= i < d1.len() implies #[trigger] d1[i]@ == d2[i]@ by {
            assert(ms1.map_values(|m: MeshData| m@)[i] == ms2.map_values(|m: MeshData| m@)[i]);
        }
        assert(d1.map_values(|m: MeshData| m@) =~= d2.map_values(|m: MeshData| m@));
        lemma_all_corners_by_view(d1, d2);
        let last = ms1.len() - 1;
        assert(ms1.map_values(|m: MeshData| m@)[last] == ms2.map_values(|m: MeshData| m@)[last]);
        assert(mesh_corners(ms1.last()) =~= mesh_corners(ms2.last()));
    }
}

/// Loading the same model text twice gives identical vertex and index lists.
pub proof fn lemma_model_load_deterministic(
    text: Seq<u8>,
    ms1: Seq<MeshData>,
    ms2: Seq<MeshData>,
    v1: Seq<Vertex>,
    i1: Seq<u32>,
    v2: Seq<Vertex>,
    i2: Seq<u32>,
)
    requires
        obj_meshes(text) == Some(ms1.map_values(|m: MeshData| m@)),
        obj_meshes(text) == Some(ms2.map_values(|m: MeshData| m@)),
        is_deduplication(all_corners(ms1), v1, i1),
        is_deduplication(all_corners(ms2), v2, i2),
    ensures
        v1 == v2,
        i1 == i2,
{
    lemma_all_corners_by_view(ms1, ms2);
    lemma_deduplication_deterministic(all_corners(ms1), v1, i1, v2, i2);
}

/// An indexed triangle mesh.
#[derive(Clone, Debug)]
pub struct Model {
    pub vertices: Vec<Vertex>,
    pub indices: Vec<u32>,
}

/// The buckets index the vertex list: each vertex is listed under its key,
/// and each bucket entry names a vertex with that key.
pub open spec fn buckets_index(buckets: Map<u128, Vec<u32>>, vertices: Seq<Vertex>) -> bool {
    &&& forall|j: int|
        0 <= j < vertices.len() ==> buckets.contains_key(vertex_key(#[trigger] vertices[j]))
            && buckets[vertex_key(vertices[j])]@.contains(j as u32)
    &&& forall|key: u128, t: int|
        buckets.contains_key(key) && 0 <= t < buckets[key]@.len() ==> (#[trigger] buckets[key]@[t]
            as int) < vertices.len() && vertex_key(vertices[buckets[key]@[t] as int]) == key
}

/// Finds the position of `v` in `vertices` through the bucket index.
fn lookup_vertex(buckets: &HashMap<u128, Vec<u32>>, vertices: &Vec<Vertex>, v: &Vertex) -> (r:
    Option<u32>)
    requires
        buckets_index(buckets@, vertices@),
        vertices@.len() <= u32::MAX as int + 1,
    ensures
        match r {
            Some(i) => (i as int) < vertices@.len() && vertices@[i as int] == *v,
            None => !vertices@.contains(*v),
        },
{
    let key = bucket_key(v);
    match buckets.get(&key) {
        None => {
            proof {
                if vertices@.contains(*v) {
                    let j = choose|j: int| 0 <= j < vertices@.len() && vertices@[j] == *v;
                    assert(buckets@.contains_key(vertex_key(vertices@[j])));
                }
            }
            None
        },
        Some(bucket) => {
            let mut t: usize = 0;
            while t < bucket.len()
                invariant
                    buckets@.contains_key(key),
                    buckets@[key] == *bucket,
                    buckets_index(buckets@, vertices@),
                    vertices@.len() <= u32::MAX as int + 1,
                    key == vertex_key(*v),
                    t <= bucket@.len(),
                    forall|s: int| 0 <= s < t ==> vertices@[#[trigger] bucket@[s] as int] != *v,
                decreases bucket.len() - t,
            {
                let idx = bucket[t];
                assert(buckets@[key]@[t as int] == idx);
                if vertices[idx as usize].same_as(v) {
                    return Some(idx);
                }
                t = t + 1;
            }
            proof {
                if vertices@.contains(*v) {
                    let j = choose|j: int| 0 <= j < vertices@.len() && vertices@[j] == *v;
                    assert(buckets@[vertex_key(vertices@[j])]@.contains(j as u32));
                    let s = choose|s: int| 0 <= s < bucket@.len() && bucket@[s] == j as u32;
                    assert(vertices@[bucket@[s] as int] != *v);
                }
            }
            None
        },
    }
}

/// A vertex occurs among the distinct vertices exactly when it occurs in `c`.
pub proof fn lemma_unique_vertices_contains(c: Seq<Vertex>, x: Vertex)
    ensures
        unique_vertices(c).contains(x) <==> c.contains(x),
    decreases c.len(),
{
    if c.len() > 0 {
        let d = c.drop_last();
        lemma_unique_vertices_contains(d, x);
        let prev = unique_vertices(d);
        if c.contains(x) {
            let k = choose|k: int| 0 <= k < c.len() && c[k] == x;
            if k < c.len() - 1 {
                assert(d[k] == x);
            }
            if !prev.contains(c.last()) {
                assert(prev.push(c.last())[prev.len() as int] == c.last());
            }
            if prev.contains(x) {
                let t = choose|t: int| 0 <= t < prev.len() && prev[t] == x;
                assert(unique_vertices(c)[t] == x);
            }
        }
        if unique_vertices(c).contains(x) {
            let t = choose|t: int| 0 <= t < unique_vertices(c).len() && unique_vertices(c)[t] == x;
            if t < prev.len() {
                assert(prev[t] == x);
                let k = choose|k: int| 0 <= k < d.len() && d[k] == x;
                assert(c[k] == x);
            } else {
                assert(c[c.len() - 1] == x);
            }
        }
    }
}

/// The distinct vertices hold no vertex twice.
pub proof fn lemma_unique_vertices_distinct(c: Seq<Vertex>)
    ensures
        unique_vertices(c).no_duplicates(),
    decreases c.len(),
{
    if c.len() > 0 {
        lemma_unique_vertices_distinct(c.drop_last());
    }
}

/// The distinct vertices of a prefix of `c` begin the distinct vertices of `c`.
pub proof fn lemma_unique_vertices_prefix(c: Seq<Vertex>, m: int)
    requires
        0 <= m <= c.len(),
    ensures
        unique_vertices(c.take(m)).len() <= unique_vertices(c).len(),
        forall|i: int|
            0 <= i < unique_vertices(c.take(m)).len() ==> #[trigger] unique_vertices(c.take(m))[i]
                == unique_vertices(c)[i],
    decreases c.len(),
{
    if m == c.len() {
        assert(c.take(m) == c);
    } else {
        let d = c.drop_last();
        assert(c.take(m) == d.take(m));
        lemma_unique_vertices_prefix(d, m);
    }
}

/// A list without repeated vertices is its own deduplication.
pub proof fn lemma_unique_vertices_of_distinct(s: Seq<Vertex>)
    requires
        s.no_duplicates(),
    ensures
        unique_vertices(s) == s,
    decreases s.len(),
{
    if s.len() > 0 {
        let d = s.drop_last();
        assert(d.no_duplicates());
        lemma_unique_vertices_of_distinct(d);
        if d.contains(s.last()) {
            let k = choose|k: int| 0 <= k < d.len() && d[k] == s.last();
            assert(s[k] == s[s.len() - 1]);
        }
        assert(d.push(s.last()) == s);
    }
}

/// Deduplicating the same corner list twice gives the same vertex and index
/// lists: the result is a function of the corners.
pub proof fn lemma_deduplication_deterministic(
    c: Seq<Vertex>,
    v1: Seq<Vertex>,
    i1: Seq<u32>,
    v2: Seq<Vertex>,
    i2: Seq<u32>,
)
    requires
        is_deduplication(c, v1, i1),
        is_deduplication(c, v2, i2),
    ensures
        v1 == v2,
        i1 == i2,
{
    lemma_unique_vertices_distinct(c);
    assert forall|k: int| 0 <= k < c.len() implies i1[k] == i2[k] by {
        assert(v1[i1[k] as int] == c[k]);
        assert(v1[i2[k] as int] == c[k]);
    }
    assert(i1 =~= i2);
}

/// The vertex list has exactly as many entries as `c` has distinct corners,
/// and none twice.
pub proof fn lemma_deduplication_count(c: Seq<Vertex>, vertices: Seq<Vertex>, indices: Seq<u32>)
    requires
        is_deduplication(c, vertices, indices),
    ensures
        vertices.no_duplicates(),
        vertices.len() == c.to_set().len(),
{
    lemma_unique_vertices_distinct(c);
    assert forall|x: Vertex| vertices.contains(x) <==> c.contains(x) by {
        lemma_unique_vertices_contains(c, x);
    }
    assert(vertices.to_set() =~= c.to_set());
    vertices.unique_seq_to_set();
}

/// Every corner gets the index of the first corner equal to it, and the
/// first occurrence of a new vertex gets the next unused index, so the
/// vertex list keeps the order in which vertices first appear.
pub proof fn lemma_deduplication_first_occurrence(
    c: Seq<Vertex>,
    vertices: Seq<Vertex>,
    indices: Seq<u32>,
)
    requires
        is_deduplication(c, vertices, indices),
    ensures
        forall|j: int, k: int|
            0 <= j < c.len() && 0 <= k < c.len() && c[j] == c[k] ==> #[trigger] indices[j]
                == #[trigger] indices[k],
        forall|f: int|
            0 <= f < c.len() && !c.take(f).contains(#[trigger] c[f]) ==> indices[f]
                == unique_vertices(c.take(f)).len(),
{
    lemma_unique_vertices_distinct(c);
    assert forall|j: int, k: int|
        0 <= j < c.len() && 0 <= k < c.len() && c[j] == c[k] implies #[trigger] indices[j]
        == #[trigger] indices[k] by {
        assert(vertices[indices[j] as int] == c[j]);
        assert(vertices[indices[k] as int] == c[k]);
    }
    assert forall|f: int| 0 <= f < c.len() && !c.take(f).contains(#[trigger] c[f]) implies indices[f]
        == unique_vertices(c.take(f)).len() by {
        let prefix = c.take(f + 1);
        assert(prefix.drop_last() == c.take(f));
        assert(prefix.last() == c[f]);
        lemma_unique_vertices_contains(c.take(f), c[f]);
        lemma_unique_vertices_prefix(c, f + 1);
        let p = unique_vertices(c.take(f)).len() as int;
        assert(unique_vertices(prefix)[p] == c[f]);
        assert(vertices[p] == c[f]);
        assert(vertices[indices[f] as int] == c[f]);
    }
}

/// Deduplicating an already deduplicated vertex list changes nothing: the
/// vertices stay as they are and each one indexes itself.
pub proof fn lemma_deduplication_idempotent(
    c: Seq<Vertex>,
    vertices: Seq<Vertex>,
    indices: Seq<u32>,
    vertices2: Seq<Vertex>,
    indices2: Seq<u32>,
)
    requires
        is_deduplication(c, vertices, indices),
        is_deduplication(vertices, vertices2, indices2),
    ensures
        vertices2 == vertices,
        forall|t: int| 0 <= t < vertices.len() ==> #[trigger] indices2[t] == t,
{
    lemma_unique_vertices_distinct(c);
    lemma_unique_vertices_of_distinct(vertices);
    assert forall|t: int| 0 <= t < vertices.len() implies #[trigger] indices2[t] == t by {
        assert(vertices2[indices2[t] as int] == vertices[t]);
    }
}

impl Model {
    /// Builds the indexed form of a corner list: each distinct vertex is kept
    /// once, at the place of its first occurrence, and every corner becomes
    /// the index of its vertex.
    pub fn from_corners(corners: &Vec<Vertex>) -> (r: Model)
        requires
            corners@.len() <= u32::MAX as int + 1,
        ensures
            is_deduplication(corners@, r.vertices@, r.indices@),
    {
        let mut vertices: Vec<Vertex> = Vec::new();
        let mut indices: Vec<u32> = Vec::new();
        let mut buckets: HashMap<u128, Vec<u32>> = HashMap::new();
        let n = corners.len();
        let mut k: usize = 0;
        while k < n
            invariant
                n == corners@.len(),
                n <= u32::MAX as int + 1,
                k <= n,
                vertices@ == unique_vertices(corners@.take(k as int)),
                vertices@.len() <= k,
                indices@.len() == k,
                forall|j: int|
                    0 <= j < k ==> (#[trigger] indices@[j] as int) < vertices@.len()
                        && vertices@[indices@[j] as int] == corners@[j],
                buckets_index(buckets@, vertices@),
            decreases n - k,
        {
            let v = corners[k];
            assert(corners@.take(k + 1).drop_last() == corners@.take(k as int));
            assert(corners@.take(k + 1).last() == v);
            match lookup_vertex(&buckets, &vertices, &v) {
                Some(i) => {
                    assert(vertices@.contains(v)) by {
                        assert(vertices@[i as int] == v);
                    }
                    indices.push(i);
                },
                None => {
                    let idx = vertices.len() as u32;
                    let key = bucket_key(&v);
                    let ghost old_vertices = vertices@;
                    let ghost old_buckets = buckets@;
                    vertices.push(v);
                    let mut bucket = match buckets.remove(&key) {
                        Some(b) => b,
                        None => Vec::new(),
                    };
                    let ghost old_bucket = bucket@;
                    bucket.push(idx);
                    buckets.insert(key, bucket);
                    assert forall|j: int| 0 <= j < vertices@.len() implies buckets@.contains_key(
                        vertex_key(#[trigger] vertices@[j]),
                    ) && buckets@[vertex_key(vertices@[j])]@.contains(j as u32) by {
                        if j < old_vertices.len() {
                            assert(old_vertices[j] == vertices@[j]);
                            let ok = vertex_key(vertices@[j]);
                            assert(old_buckets[ok]@.contains(j as u32));
                            if ok == key {
                                let s = choose|s: int|
                                    0 <= s < old_bucket.len() && old_bucket[s] == j as u32;
                                assert(buckets@[ok]@[s] == j as u32);
                            }
                        } else {
                            assert(buckets@[key]@[old_bucket.len() as int] == idx);
                        }
                    }
                    assert forall|key2: u128, t: int|
                        buckets@.contains_key(key2) && 0 <= t < buckets@[key2]@.len() implies (
                    #[trigger] buckets@[key2]@[t] as int) < vertices@.len() && vertex_key(
                        vertices@[buckets@[key2]@[t] as int],
                    ) == key2 by {
                        if key2 == key {
                            if t < old_bucket.len() {
                                assert(buckets@[key2]@[t] == old_buckets[key2]@[t]);
                            }
                        } else {
                            assert(buckets@[key2] == old_buckets[key2]);
                            assert(old_buckets[key2]@[t] == buckets@[key2]@[t]);
                        }
                    }
                    indices.push(idx);
                },
            }
            k = k + 1;
        }
        assert(corners@.take(n as int) == corners@);
        Model { vertices, indices }
    }
    /// Builds the indexed mesh of a model: the corners of all meshes, mesh
    /// after mesh, deduplicated as by `from_corners`.
    pub fn from_meshes(meshes: &Vec<MeshData>) -> (r: Result<Model, ModelError>)
        ensures
            match r {
                Ok(m) => {
                    &&& meshes_in_range(meshes@)
                    &&& all_corners(meshes@).len() <= u32::MAX as int + 1
                    &&& is_deduplication(all_corners(meshes@), m.vertices@, m.indices@)
                },
                Err(e) => {
                    ||| e == ModelError::IndexOutOfRange && !meshes_in_range(meshes@)
                    ||| e == ModelError::TooManyCorners && meshes_in_range(meshes@) && all_corners(
                        meshes@,
                    ).len() > u32::MAX as int + 1
                },
            },
    {
        let mut corners: Vec<Vertex> = Vec::new();
        let mut i: usize = 0;
        while i < meshes.len()
            invariant
                i <= meshes@.len(),
                corners@ == all_corners(meshes@.take(i as int)),
                forall|i2: int, k2: int|
                    0 <= i2 < i && 0 <= k2 < meshes@[i2].indices@.len() ==> #[trigger] corner_in_range(
                        meshes@[i2],
                        k2,
                    ),
            decreases meshes.len() - i,
        {
            let m = &meshes[i];
            let mut k: usize = 0;
            while k < m.indices.len()
                invariant
                    i < meshes@.len(),
                    *m == meshes@[i as int],
                    k <= m.indices@.len(),
                    corners@ == all_corners(meshes@.take(i as int)) + mesh_corners(*m).take(k as int),
                    forall|k2: int| 0 <= k2 < k ==> #[trigger] corner_in_range(*m, k2),
                decreases m.indices.len() - k,
            {
                if k >= m.texcoord_indices.len() {
                    assert(!corner_in_range(meshes@[i as int], k as int));
                    return Err(ModelError::IndexOutOfRange);
                }
                let p = (m.indices[k] as u64) * 3;
                let t = (m.texcoord_indices[k] as u64) * 2;
                if p + 2 >= m.positions.len() as u64 || t + 1 >= m.texcoords.len() as u64 {
                    assert(!corner_in_range(meshes@[i as int], k as int));
                    return Err(ModelError::IndexOutOfRange);
                }
                let v = Vertex {
                    pos: [m.positions[p as usize], m.positions[p as usize + 1], m.positions[p as usize + 2]],
                    uv: [m.texcoords[t as usize], m.texcoords[t as usize + 1]],
                };
                assert(v.pos =~= corner_vertex(*m, k as int).pos);
                assert(v.uv =~= corner_vertex(*m, k as int).uv);
                assert(mesh_corners(*m).take(k + 1) =~= mesh_corners(*m).take(k as int).push(v));
                corners.push(v);
                k = k + 1;
            }
            assert(mesh_corners(*m).take(k as int) =~= mesh_corners(*m));
            assert(meshes@.take(i + 1).drop_last() =~= meshes@.take(i as int));
            i = i + 1;
        }
        assert(meshes@.take(i as int) =~= meshes@);
        if corners.len() as u64 > 0x1_0000_0000u64 {
            return Err(ModelError::TooManyCorners);
        }
        Ok(Model::from_corners(&corners))
    }
}


} // verus!

//! The vertex and index buffers that yakui's geometry is gathered into before
//! upload: each mesh is appended with its indices rebased past the vertices
//! already gathered.
use vstd::prelude::*;
use core::ops::Range;

verus! {

/// The indices of a mesh whose vertices start at `base`.
pub open spec fn rebased(indices: Seq<u16>, base: int) -> Seq<u32> {
    indices.map_values(|i: u16| (base + i) as u32)
}

/// Vertices and indices gathered for one frame.
pub struct MeshBuffers<V> {
    vertices: Vec<V>,
    indices: Vec<u32>,
}

impl<V: Copy> MeshBuffers<V> {
    /// The vertices gathered so far.
    pub closed spec fn vertex_seq(self) -> Seq<V> {
        self.vertices@
    }

    /// The indices gathered so far.
    pub closed spec fn index_seq(self) -> Seq<u32> {
        self.indices@
    }

    /// Whether one more mesh with `indices` fits: the vertex count, the
    /// rebased indices and the new index count are representable in `u32`.
    pub open spec fn can_append(self, indices: Seq<u16>) -> bool {
        &&& self.vertex_seq().len() <= u32::MAX
        &&& self.index_seq().len() + indices.len() <= u32::MAX
        &&& forall|j: int| 0 <= j < indices.len() ==> self.vertex_seq().len() + #[trigger] indices[j] <= u32::MAX
    }

    /// Empty buffers.
    pub fn new() -> (r: Self)
        ensures
            r.vertex_seq() == Seq::<V>::empty(),
            r.index_seq() == Seq::<u32>::empty(),
    {
        MeshBuffers { vertices: Vec::new(), indices: Vec::new() }
    }

    /// Drops everything gathered.
    pub fn clear(&mut self)
        ensures
            final(self).vertex_seq() == Seq::<V>::empty(),
            final(self).index_seq() == Seq::<u32>::empty(),
    {
        self.vertices.clear();
        self.indices.clear();
    }

    /// The vertices gathered so far, for upload.
    pub fn vertices(&self) -> (r: &[V])
        ensures
            r@ == self.vertex_seq(),
    {
        self.vertices.as_slice()
    }

    /// The indices gathered so far, for upload.
    pub fn indices(&self) -> (r: &[u32])
        ensures
            r@ == self.index_seq(),
    {
        self.indices.as_slice()
    }

    /// Appends a mesh: its vertices after those gathered, its indices rebased
    /// past them. Returns the range of the index buffer that draws the mesh.
    pub fn append(&mut self, vertices: &[V], indices: &[u16]) -> (r: Range<u32>)
        requires
            old(self).can_append(indices@),
        ensures
            final(self).vertex_seq() == old(self).vertex_seq() + vertices@,
            final(self).index_seq() == old(self).index_seq() + rebased(
                indices@,
                old(self).vertex_seq().len() as int,
            ),
            r.start == old(self).index_seq().len(),
            r.end == old(self).index_seq().len() + indices@.len(),
            final(self).index_seq().len() == old(self).index_seq().len() + indices@.len(),
            forall|j: int|
                0 <= j < indices@.len() ==> #[trigger] final(self).index_seq()[old(
                    self,
                ).index_seq().len() + j] == old(self).vertex_seq().len() + indices@[j],
            forall|j: int|
                0 <= j < old(self).index_seq().len() ==> #[trigger] final(self).index_seq()[j] == old(
                    self,
                ).index_seq()[j],
    {
        let base = self.vertices.len() as u32;
        let start = self.indices.len() as u32;
        let end = start + indices.len() as u32;
        let ghost v0 = self.vertices@;
        let ghost i0 = self.indices@;
        let mut j: usize = 0;
        while j < vertices.len()
            invariant
                j <= vertices@.len(),
                self.vertices@ == v0 + vertices@.take(j as int),
                self.indices@ == i0,
            decreases vertices@.len() - j,
        {
            self.vertices.push(vertices[j]);
            assert(vertices@.take(j + 1) == vertices@.take(j as int).push(vertices@[j as int]));
            j = j + 1;
        }
        assert(vertices@.take(vertices@.len() as int) == vertices@);
        let mut j: usize = 0;
        while j < indices.len()
            invariant
                j <= indices@.len(),
                base == v0.len(),
                forall|t: int| 0 <= t < indices@.len() ==> v0.len() + #[trigger] indices@[t] <= u32::MAX,
                self.vertices@ == v0 + vertices@,
                self.indices@ == i0 + rebased(indices@.take(j as int), v0.len() as int),
            decreases indices@.len() - j,
        {
            let index = indices[j];
            assert(v0.len() + indices@[j as int] <= u32::MAX);
            self.indices.push(base + index as u32);
            assert(rebased(indices@.take(j + 1), v0.len() as int) =~= rebased(
                indices@.take(j as int),
                v0.len() as int,
            ).push((v0.len() + index) as u32));
            j = j + 1;
        }
        assert(indices@.take(indices@.len() as int) == indices@);
        Range { start, end }
    }
}

} // verus!

verus! {

/// After a mesh whose indices all point into its own vertices is appended,
/// the index range returned for it addresses exactly that mesh's vertices, in
/// the mesh's own order.
pub proof fn lemma_appended_mesh_draws_its_vertices<V>(
    v0: Seq<V>,
    i0: Seq<u32>,
    vertices: Seq<V>,
    indices: Seq<u16>,
    t: int,
)
    requires
        v0.len() <= u32::MAX,
        forall|j: int| 0 <= j < indices.len() ==> v0.len() + #[trigger] indices[j] <= u32::MAX,
        forall|j: int| 0 <= j < indices.len() ==> #[trigger] indices[j] < vertices.len(),
        0 <= t < indices.len(),
    ensures
        ({
            let vs = v0 + vertices;
            let is = i0 + rebased(indices, v0.len() as int);
            &&& is[i0.len() + t] < vs.len()
            &&& vs[is[i0.len() + t] as int] == vertices[indices[t] as int]
        }),
{
    let is = i0 + rebased(indices, v0.len() as int);
    assert(is[i0.len() + t] == v0.len() + indices[t]);
}

/// Appending a mesh changes nothing that an earlier draw addresses: the
/// earlier indices stay, and so do the vertices they point at.
pub proof fn lemma_append_keeps_earlier_draws<V>(
    v0: Seq<V>,
    i0: Seq<u32>,
    vertices: Seq<V>,
    indices: Seq<u16>,
    t: int,
)
    requires
        0 <= t < i0.len(),
        i0[t] < v0.len(),
    ensures
        ({
            let vs = v0 + vertices;
            let is = i0 + rebased(indices, v0.len() as int);
            &&& is[t] == i0[t]
            &&& vs[is[t] as int] == v0[i0[t] as int]
        }),
{
}

} // verus!

//! Mesh assembly: the builder, the immutable mesh, and the conversion of
//! material offsets to material runs.
//!
//! A builder accumulates vertices and 32-bit indices, each appended index
//! being offset by the vertex count at the time of the append, so the
//! index list always stays valid relative to the cumulative vertex
//! array. An ordered `(material, starting offset)` list marks where each
//! material's index run begins; building converts those offsets to run
//! lengths, dropping zero-length runs, and uploads the data into pooled
//! GPU buffers.

use vstd::prelude::*;
use crate::gfx::GfxContext;
use crate::gfx::MaterialID;
use crate::gfx::only_buffer_alloc;
use crate::matlist::MatOffsets;
use crate::matlist::mat_offsets_new;
use crate::matlist::mat_offsets_push;
use crate::matlist::mat_offsets_seq;
use crate::matlist::mat_offsets_to_vec;
use crate::pbuffer::BufferUsage;
use crate::pbuffer::PBuffer;
use crate::pbuffer::write_post;
use crate::vertex::MeshVertex;

verus! {

/// The long-lived vertex/index buffer pair of a persistent builder.
#[derive(Clone, Copy, PartialEq, Eq, Structural, Debug)]
pub struct ViBuffers {
    pub vertex: PBuffer,
    pub index: PBuffer,
}

/// Well-formedness of a material-offset list against an index count:
/// offsets are non-decreasing and never exceed the index count.
pub open spec fn offsets_wf(mats: Seq<(MaterialID, u32)>, index_count: int) -> bool {
    &&& forall|i: int| 0 <= i < mats.len() ==> (#[trigger] mats[i].1 as int) <= index_count
    &&& forall|i: int, j: int| 0 <= i <= j < mats.len() ==> mats[i].1 <= mats[j].1
}

/// Where the index run of entry `k` ends: at the next entry's offset, or
/// at the end of the index buffer for the last entry.
pub open spec fn run_end(mats: Seq<(MaterialID, u32)>, total: int, k: int) -> int {
    if k + 1 < mats.len() {
        mats[k + 1].1 as int
    } else {
        total
    }
}

/// The material runs derived from the first `k` offset entries: each
/// entry's run spans from its offset to the next offset (or the end),
/// and zero-length runs are dropped.
pub open spec fn runs_prefix(mats: Seq<(MaterialID, u32)>, total: int, k: int) -> Seq<
    (MaterialID, u32),
>
    decreases k,
{
    if k <= 0 {
        Seq::empty()
    } else {
        let l = run_end(mats, total, k - 1) - mats[k - 1].1;
        runs_prefix(mats, total, k - 1) + if l == 0 {
            Seq::empty()
        } else {
            seq![(mats[k - 1].0, l as u32)]
        }
    }
}

/// The material runs of a mesh built from offsets `mats` over `total`
/// indices.
pub open spec fn runs_of(mats: Seq<(MaterialID, u32)>, total: int) -> Seq<(MaterialID, u32)> {
    runs_prefix(mats, total, mats.len() as int)
}

/// The starting index offset of run `k`: the sum of the run lengths
/// before it.
pub open spec fn run_offset(runs: Seq<(MaterialID, u32)>, k: int) -> int
    decreases k,
{
    if k <= 0 {
        0
    } else {
        run_offset(runs, k - 1) + runs[k - 1].1
    }
}

/// The total index count covered by a run list.
pub open spec fn sum_runs(runs: Seq<(MaterialID, u32)>) -> int {
    run_offset(runs, runs.len() as int)
}

/// A run offset only reads the runs before it: sequences agreeing on the
/// first `k` runs have the same offset for run `k`.
pub proof fn lemma_run_offset_agree(a: Seq<(MaterialID, u32)>, b: Seq<(MaterialID, u32)>, k: int)
    requires
        0 <= k <= a.len(),
        k <= b.len(),
        forall|i: int| 0 <= i < k ==> a[i] == b[i],
    ensures
        run_offset(a, k) == run_offset(b, k),
    decreases k,
{
    if k > 0 {
        lemma_run_offset_agree(a, b, k - 1);
    }
}

/// Run offsets are never negative.
pub proof fn lemma_run_offset_nonneg(runs: Seq<(MaterialID, u32)>, k: int)
    ensures
        run_offset(runs, k) >= 0,
    decreases k,
{
    if k > 0 {
        lemma_run_offset_nonneg(runs, k - 1);
        if k - 1 < runs.len() {
            assert(runs[k - 1].1 >= 0);
        }
    }
}

/// Run offsets are monotone and bounded by the total run sum.
pub proof fn lemma_run_offset_mono(runs: Seq<(MaterialID, u32)>, k: int)
    requires
        0 <= k <= runs.len(),
    ensures
        0 <= run_offset(runs, k) <= sum_runs(runs),
    decreases runs.len() - k,
{
    lemma_run_offset_nonneg(runs, k);
    if k < runs.len() {
        lemma_run_offset_mono(runs, k + 1);
    }
}

/// Every derived run is non-empty, and the derived runs cover exactly the
/// index range from the first offset to the end of the index buffer.
pub proof fn lemma_runs_prefix(mats: Seq<(MaterialID, u32)>, total: int, k: int)
    requires
        offsets_wf(mats, total),
        0 <= total <= u32::MAX,
        0 <= k <= mats.len(),
    ensures
        forall|i: int|
            0 <= i < runs_prefix(mats, total, k).len() ==> (#[trigger] runs_prefix(
                mats,
                total,
                k,
            )[i].1) > 0,
        sum_runs(runs_prefix(mats, total, k)) == if k == 0 {
            0
        } else {
            (if k < mats.len() {
                mats[k].1 as int
            } else {
                total
            }) - mats[0].1
        },
    decreases k,
{
    if k > 0 {
        lemma_runs_prefix(mats, total, k - 1);
        let prev = runs_prefix(mats, total, k - 1);
        let cur = runs_prefix(mats, total, k);
        let l = run_end(mats, total, k - 1) - mats[k - 1].1;
        assert(mats[k - 1].1 <= run_end(mats, total, k - 1) <= total);
        if l == 0 {
            assert(cur =~= prev);
        } else {
            assert(0 < l <= u32::MAX);
            assert(cur.len() == prev.len() + 1);
            assert(cur[prev.len() as int] == (mats[k - 1].0, l as u32));
            assert forall|i: int| 0 <= i < cur.len() implies (#[trigger] cur[i].1) > 0 by {
                if i < prev.len() {
                    assert(cur[i] == prev[i]);
                }
            }
            lemma_run_offset_agree(cur, prev, prev.len() as int);
            assert(sum_runs(cur) == run_offset(cur, prev.len() as int) + cur[prev.len() as int].1);
        }
    }
}

/// Law of the run derivation: for an offset list whose first material
/// offset is zero, the run lengths of the built mesh sum to the total
/// index count, and no zero-length run appears in the output. (With a
/// non-zero first offset the leading index range belongs to no material
/// and is not covered by any run.)
pub proof fn lemma_material_runs_partition(mats: Seq<(MaterialID, u32)>, total: int)
    requires
        offsets_wf(mats, total),
        0 <= total <= u32::MAX,
        mats.len() > 0,
        mats[0].1 == 0,
    ensures
        sum_runs(runs_of(mats, total)) == total,
        forall|i: int|
            0 <= i < runs_of(mats, total).len() ==> (#[trigger] runs_of(mats, total)[i].1) > 0,
{
    lemma_runs_prefix(mats, total, mats.len() as int);
}

/// The run lengths never cover more than the index buffer: their sum is
/// at most `total`.
pub proof fn lemma_runs_bounded(mats: Seq<(MaterialID, u32)>, total: int)
    requires
        offsets_wf(mats, total),
        0 <= total <= u32::MAX,
    ensures
        0 <= sum_runs(runs_of(mats, total)) <= total,
        forall|i: int|
            0 <= i < runs_of(mats, total).len() ==> (#[trigger] runs_of(mats, total)[i].1) > 0,
{
    lemma_runs_prefix(mats, total, mats.len() as int);
}

/// The 12 scalar words of one vertex, in buffer order: position, normal,
/// UV, tangent.
pub open spec fn vertex_words(v: MeshVertex) -> Seq<u32> {
    seq![
        v.position[0],
        v.position[1],
        v.position[2],
        v.normal[0],
        v.normal[1],
        v.normal[2],
        v.uv[0],
        v.uv[1],
        v.tangent[0],
        v.tangent[1],
        v.tangent[2],
        v.tangent[3],
    ]
}

/// The scalar words of the first `n` vertices, concatenated.
pub open spec fn words_of(s: Seq<MeshVertex>, n: int) -> Seq<u32>
    decreases n,
{
    if n <= 0 {
        Seq::empty()
    } else {
        words_of(s, n - 1) + vertex_words(s[n - 1])
    }
}

/// Tightly packed vertex data is 12 words per vertex.
pub proof fn lemma_words_of_len(s: Seq<MeshVertex>, n: int)
    requires
        0 <= n <= s.len(),
    ensures
        words_of(s, n).len() == 12 * n,
    decreases n,
{
    if n > 0 {
        lemma_words_of_len(s, n - 1);
    }
}

/// Serialize the vertex array into its tightly packed scalar words.
fn flatten_vertices(vs: &Vec<MeshVertex>) -> (r: Vec<u32>)
    ensures
        r@ == words_of(vs@, vs@.len() as int),
        r@.len() == 12 * vs@.len(),
{
    let mut r: Vec<u32> = Vec::new();
    let n = vs.len();
    let mut k: usize = 0;
    while k < n
        invariant
            k <= n,
            n == vs@.len(),
            r@ == words_of(vs@, k as int),
        decreases n - k,
    {
        let v = vs[k];
        r.push(v.position[0]);
        r.push(v.position[1]);
        r.push(v.position[2]);
        r.push(v.normal[0]);
        r.push(v.normal[1]);
        r.push(v.normal[2]);
        r.push(v.uv[0]);
        r.push(v.uv[1]);
        r.push(v.tangent[0]);
        r.push(v.tangent[1]);
        r.push(v.tangent[2]);
        r.push(v.tangent[3]);
        proof {
            assert(r@ =~= words_of(vs@, k + 1 as int));
        }
        k += 1;
    }
    proof {
        lemma_words_of_len(vs@, n as int);
    }
    r
}

/// Relies on `bytemuck::cast_slice`: reinterpreting a slice of 32-bit
/// words as bytes yields four bytes per word (same allocation length in
/// bytes; the byte order is the machine's and is not stated).
#[verifier::external_body]
fn words_to_bytes(v: &Vec<u32>) -> (r: Vec<u8>)
    ensures
        r@.len() == 4 * v@.len(),
{
    bytemuck::cast_slice::<u32, u8>(v.as_slice()).to_vec()
}

/// A mesh under construction. `PERSISTENT` builders keep one long-lived
/// vertex/index buffer pair reused across rebuilds; transient builders
/// allocate scratch buffers per build.
pub struct MeshBuilder<const PERSISTENT: bool> {
    pub vertices: Vec<MeshVertex>,
    pub indices: Vec<u32>,
    pub vi_buffers: Option<ViBuffers>,
    /// The ordered (material, starting index offset) pairs.
    pub materials: MatOffsets,
}

/// An immutable, shareable draw unit: the uploaded vertex and index
/// buffers, the derived (material, run length) list, and whether the
/// mesh skips the depth pass.
#[derive(Clone, Debug)]
pub struct Mesh {
    pub vertex_buffer: u64,
    pub index_buffer: u64,
    /// Ordered (material, index count) runs; no run is empty.
    pub materials: Vec<(MaterialID, u32)>,
    pub skip_depth: bool,
}

impl Mesh {
    /// Every run is non-empty and the total indexed range fits the index
    /// type.
    pub open spec fn wf(&self) -> bool {
        &&& forall|i: int|
            0 <= i < self.materials@.len() ==> (#[trigger] self.materials@[i].1) > 0
        &&& sum_runs(self.materials@) <= u32::MAX
    }
}

impl Mesh {
    /// The materials used by this mesh, as (material, index offset, index
    /// count) triples in run order, the offset of each run being the sum
    /// of the lengths before it.
    pub fn iter_materials(&self) -> (r: Vec<(MaterialID, u32, u32)>)
        requires
            self.wf(),
        ensures
            r@.len() == self.materials@.len(),
            forall|k: int|
                0 <= k < r@.len() ==> #[trigger] r@[k] == (
                    self.materials@[k].0,
                    run_offset(self.materials@, k) as u32,
                    self.materials@[k].1,
                ),
    {
        let mut r: Vec<(MaterialID, u32, u32)> = Vec::new();
        let mut offset: u32 = 0;
        let n = self.materials.len();
        let mut k: usize = 0;
        while k < n
            invariant
                k <= n,
                n == self.materials@.len(),
                self.wf(),
                offset == run_offset(self.materials@, k as int),
                r@.len() == k,
                forall|j: int|
                    0 <= j < k ==> #[trigger] r@[j] == (
                        self.materials@[j].0,
                        run_offset(self.materials@, j) as u32,
                        self.materials@[j].1,
                    ),
            decreases n - k,
        {
            proof {
                lemma_run_offset_mono(self.materials@, k + 1 as int);
            }
            let (mat, len) = self.materials[k];
            r.push((mat, offset, len));
            offset = offset + len;
            k += 1;
        }
        r
    }
}

impl<const PERSISTENT: bool> MeshBuilder<PERSISTENT> {
    /// The material-offset entries of this builder.
    pub open spec fn mat_seq(&self) -> Seq<(MaterialID, u32)> {
        mat_offsets_seq(self.materials)
    }

    /// Builder well-formedness: counts fit the 32-bit index type, every
    /// stored index refers to an existing vertex, the material offsets
    /// fit the index list, and persistent builders (exactly) own their
    /// buffer pair.
    pub open spec fn wf(&self) -> bool {
        &&& self.vertices@.len() <= u32::MAX
        &&& self.indices@.len() <= u32::MAX
        &&& forall|i: int|
            0 <= i < self.indices@.len() ==> (#[trigger] self.indices@[i] as int)
                < self.vertices@.len()
        &&& offsets_wf(self.mat_seq(), self.indices@.len() as int)
        &&& (self.vi_buffers is Some) == PERSISTENT
        &&& self.vi_buffers matches Some(b) ==> b.vertex.wf() && b.index.wf()
    }

    fn fresh_vi_buffers() -> (r: Option<ViBuffers>)
        ensures
            (r is Some) == PERSISTENT,
            r is Some ==> r->0 == (ViBuffers {
                vertex: PBuffer { usage: BufferUsage::Vertex, capacity: 0, buffer: None },
                index: PBuffer { usage: BufferUsage::Index, capacity: 0, buffer: None },
            }),
    {
        if PERSISTENT {
            Some(
                ViBuffers {
                    vertex: PBuffer::new(BufferUsage::Vertex),
                    index: PBuffer::new(BufferUsage::Index),
                },
            )
        } else {
            None
        }
    }

    /// An empty builder whose first material run starts at offset zero.
    pub fn new(mat: MaterialID) -> (r: Self)
        ensures
            r.wf(),
            r.vertices@.len() == 0,
            r.indices@.len() == 0,
            r.mat_seq() == seq![(mat, 0u32)],
    {
        let mut materials = mat_offsets_new();
        mat_offsets_push(&mut materials, mat, 0);
        proof {
            assert(mat_offsets_seq(materials) =~= seq![(mat, 0u32)]);
        }
        MeshBuilder {
            vertices: Vec::new(),
            indices: Vec::new(),
            vi_buffers: Self::fresh_vi_buffers(),
            materials,
        }
    }

    /// An empty builder with no material yet; the caller is expected to
    /// call `set_material` before it pushes indices it wants drawn.
    pub fn new_without_mat() -> (r: Self)
        ensures
            r.wf(),
            r.vertices@.len() == 0,
            r.indices@.len() == 0,
            r.mat_seq() == Seq::<(MaterialID, u32)>::empty(),
    {
        MeshBuilder {
            vertices: Vec::new(),
            indices: Vec::new(),
            vi_buffers: Self::fresh_vi_buffers(),
            materials: mat_offsets_new(),
        }
    }

    /// Reset the vertex and index storage. The material list is kept:
    /// whether its offsets still make sense against the emptied index
    /// list is the caller's responsibility.
    pub fn clear(&mut self)
        ensures
            final(self).vertices@.len() == 0,
            final(self).indices@.len() == 0,
            final(self).materials == old(self).materials,
            final(self).vi_buffers == old(self).vi_buffers,
    {
        self.vertices.clear();
        self.indices.clear();
    }

    /// Append a batch of vertices and indices. The indices are given
    /// relative to the batch and are offset by the vertex count already
    /// present, so every appended index stays below the cumulative vertex
    /// count.
    pub fn extend(&mut self, vertices: &Vec<MeshVertex>, indices: &Vec<u32>)
        requires
            old(self).wf(),
            old(self).vertices@.len() + vertices@.len() <= u32::MAX,
            old(self).indices@.len() + indices@.len() <= u32::MAX,
            forall|i: int|
                0 <= i < indices@.len() ==> (#[trigger] indices@[i] as int) < vertices@.len(),
        ensures
            final(self).wf(),
            final(self).vertices@ == old(self).vertices@ + vertices@,
            final(self).indices@.len() == old(self).indices@.len() + indices@.len(),
            forall|i: int|
                0 <= i < old(self).indices@.len() ==> final(self).indices@[i] == old(
                    self,
                ).indices@[i],
            forall|i: int|
                0 <= i < indices@.len() ==> (#[trigger] final(self).indices@[old(
                    self,
                ).indices@.len() + i] as int) == indices@[i] + old(self).vertices@.len(),
            final(self).materials == old(self).materials,
            final(self).vi_buffers == old(self).vi_buffers,
    {
        let offset = self.vertices.len() as u32;
        let nv = vertices.len();
        let mut k: usize = 0;
        while k < nv
            invariant
                k <= nv,
                nv == vertices@.len(),
                self.vertices@ == old(self).vertices@ + vertices@.take(k as int),
                self.indices == old(self).indices,
                self.materials == old(self).materials,
                self.vi_buffers == old(self).vi_buffers,
            decreases nv - k,
        {
            self.vertices.push(vertices[k]);
            proof {
                assert(self.vertices@ =~= old(self).vertices@ + vertices@.take(k + 1 as int));
            }
            k += 1;
        }
        proof {
            assert(self.vertices@ =~= old(self).vertices@ + vertices@);
        }
        let ni = indices.len();
        let mut k: usize = 0;
        while k < ni
            invariant
                k <= ni,
                ni == indices@.len(),
                offset == old(self).vertices@.len(),
                self.vertices@ == old(self).vertices@ + vertices@,
                self.materials == old(self).materials,
                self.vi_buffers == old(self).vi_buffers,
                self.indices@.len() == old(self).indices@.len() + k,
                forall|i: int|
                    0 <= i < old(self).indices@.len() ==> self.indices@[i] == old(
                        self,
                    ).indices@[i],
                forall|i: int|
                    0 <= i < k ==> (#[trigger] self.indices@[old(self).indices@.len() + i]
                        as int) == indices@[i] + old(self).vertices@.len(),
            decreases ni - k,
        {
            self.indices.push(indices[k] + offset);
            k += 1;
        }
        proof {
            let pre = old(self).indices@.len() as int;
            assert forall|i: int|
                0 <= i < self.indices@.len() implies (#[trigger] self.indices@[i] as int)
                < self.vertices@.len() by {
                if i >= pre {
                    assert((self.indices@[pre + (i - pre)] as int) == indices@[i - pre] + old(
                        self,
                    ).vertices@.len());
                }
            }
        }
    }

    /// Record that all indices pushed from now on use `material`: a new
    /// run boundary at the current index count. Marking a boundary and
    /// then pushing nothing for it is valid; the empty run is dropped at
    /// build time.
    pub fn set_material(&mut self, material: MaterialID)
        requires
            old(self).wf(),
        ensures
            final(self).wf(),
            final(self).mat_seq() == old(self).mat_seq().push(
                (material, old(self).indices@.len() as u32),
            ),
            final(self).vertices == old(self).vertices,
            final(self).indices == old(self).indices,
            final(self).vi_buffers == old(self).vi_buffers,
    {
        let n = self.indices.len() as u32;
        mat_offsets_push(&mut self.materials, material, n);
    }

    /// Append a batch produced by an incremental emitter: the vertices to
    /// add and the batch-relative indices it emitted. Equivalent to
    /// [`MeshBuilder::extend`] on the same data.
    pub fn extend_with(&mut self, vertices: Vec<MeshVertex>, rel_indices: Vec<u32>)
        requires
            old(self).wf(),
            old(self).vertices@.len() + vertices@.len() <= u32::MAX,
            old(self).indices@.len() + rel_indices@.len() <= u32::MAX,
            forall|i: int|
                0 <= i < rel_indices@.len() ==> (#[trigger] rel_indices@[i] as int)
                    < vertices@.len(),
        ensures
            final(self).wf(),
            final(self).vertices@ == old(self).vertices@ + vertices@,
            final(self).indices@.len() == old(self).indices@.len() + rel_indices@.len(),
            forall|i: int|
                0 <= i < old(self).indices@.len() ==> final(self).indices@[i] == old(
                    self,
                ).indices@[i],
            forall|i: int|
                0 <= i < rel_indices@.len() ==> (#[trigger] final(self).indices@[old(
                    self,
                ).indices@.len() + i] as int) == rel_indices@[i] + old(self).vertices@.len(),
            final(self).materials == old(self).materials,
            final(self).vi_buffers == old(self).vi_buffers,
    {
        self.extend(&vertices, &rel_indices);
    }

    /// Triangle count of the accumulated index list.
    pub fn num_faces(&self) -> (r: usize)
        ensures
            r == self.indices@.len() / 3,
    {
        self.indices.len() / 3
    }

    /// Every face of the triangle list has three vertices.
    pub fn num_vertices_of_face(&self, _face: usize) -> (r: usize)
        ensures
            r == 3,
    {
        3
    }

    /// The position words of corner `vert` of triangle `face`.
    pub fn position(&self, face: usize, vert: usize) -> (r: [u32; 3])
        requires
            self.wf(),
            face * 3 + vert < self.indices@.len(),
        ensures
            r == self.vertices@[self.indices@[face * 3 + vert] as int].position,
    {
        let i = self.indices[face * 3 + vert] as usize;
        self.vertices[i].position
    }

    /// The normal words of corner `vert` of triangle `face`.
    pub fn normal(&self, face: usize, vert: usize) -> (r: [u32; 3])
        requires
            self.wf(),
            face * 3 + vert < self.indices@.len(),
        ensures
            r == self.vertices@[self.indices@[face * 3 + vert] as int].normal,
    {
        let i = self.indices[face * 3 + vert] as usize;
        self.vertices[i].normal
    }

    /// The texture-coordinate words of corner `vert` of triangle `face`.
    pub fn tex_coord(&self, face: usize, vert: usize) -> (r: [u32; 2])
        requires
            self.wf(),
            face * 3 + vert < self.indices@.len(),
        ensures
            r == self.vertices@[self.indices@[face * 3 + vert] as int].uv,
    {
        let i = self.indices[face * 3 + vert] as usize;
        self.vertices[i].uv
    }

    /// Store a packed tangent into the vertex referenced by corner `vert`
    /// of triangle `face`, in place; everything else is untouched.
    pub fn set_tangent_encoded(&mut self, tangent: [u32; 4], face: usize, vert: usize)
        requires
            old(self).wf(),
            face * 3 + vert < old(self).indices@.len(),
        ensures
            final(self).wf(),
            final(self).vertices@ == old(self).vertices@.update(
                old(self).indices@[face * 3 + vert] as int,
                (MeshVertex {
                    tangent,
                    ..old(self).vertices@[old(self).indices@[face * 3 + vert] as int]
                }),
            ),
            final(self).indices == old(self).indices,
            final(self).materials == old(self).materials,
            final(self).vi_buffers == old(self).vi_buffers,
    {
        let i = self.indices[face * 3 + vert] as usize;
        let mut v = self.vertices[i];
        v.tangent = tangent;
        self.vertices.set(i, v);
    }

    /// The backing index pool buffer a persistent builder carries into
    /// this build, if it was ever written.
    pub open spec fn prior_index_buffer(&self) -> Option<u64> {
        if self.vi_buffers is Some {
            self.vi_buffers->0.index.buffer
        } else {
            None
        }
    }

    /// Build the accumulated data into an immutable mesh.
    ///
    /// Nothing was ever added: the result is absent (an empty mesh is "no
    /// mesh", not an error). Otherwise the vertex and index bytes are
    /// uploaded through the buffer pool — persistent builders reuse their
    /// buffer pair, transient builders allocate scratch — and the
    /// material offsets become (material, run length) runs with empty
    /// runs dropped. The mesh is returned only if both pool buffers have
    /// a backing allocation; an index pool that never saw data (no
    /// indices now, none before) yields absence.
    pub fn build(&mut self, gfx: &mut GfxContext) -> (r: Option<Mesh>)
        requires
            old(self).wf(),
            old(gfx).next_buffer_id + 2 <= u64::MAX,
        ensures
            final(self).wf(),
            final(self).vertices == old(self).vertices,
            final(self).indices == old(self).indices,
            final(self).materials == old(self).materials,
            only_buffer_alloc(*old(gfx), *final(gfx)),
            (r is Some) == (old(self).vertices@.len() > 0 && (old(self).indices@.len() > 0 || old(
                self,
            ).prior_index_buffer() is Some)),
            old(self).vertices@.len() == 0 ==> *final(self) == *old(self) && *final(gfx) == *old(
                gfx,
            ),
            old(self).vertices@.len() > 0 ==> {
                &&& if PERSISTENT {
                    &&& final(self).vi_buffers is Some
                    &&& write_post(
                        old(self).vi_buffers->0.vertex,
                        final(self).vi_buffers->0.vertex,
                        48 * old(self).vertices@.len() as int,
                        old(gfx).next_buffer_id as int,
                    )
                    &&& write_post(
                        old(self).vi_buffers->0.index,
                        final(self).vi_buffers->0.index,
                        4 * old(self).indices@.len() as int,
                        old(gfx).next_buffer_id as int + (if 48 * old(self).vertices@.len() > old(
                            self,
                        ).vi_buffers->0.vertex.capacity {
                            1int
                        } else {
                            0int
                        }),
                    )
                } else {
                    final(self).vi_buffers is None
                }
            },
            r matches Some(m) ==> {
                &&& m.skip_depth == false
                &&& m.materials@ == runs_of(old(self).mat_seq(), old(self).indices@.len() as int)
                &&& m.wf()
                &&& if PERSISTENT {
                    &&& final(self).vi_buffers->0.vertex.buffer == Some(m.vertex_buffer)
                    &&& final(self).vi_buffers->0.index.buffer == Some(m.index_buffer)
                } else {
                    &&& m.vertex_buffer == old(gfx).next_buffer_id
                    &&& m.index_buffer == old(gfx).next_buffer_id + 1
                    &&& final(gfx).next_buffer_id == old(gfx).next_buffer_id + 2
                }
            },
    {
        if self.vertices.len() == 0 {
            return None;
        }
        let words = flatten_vertices(&self.vertices);
        let vbytes = words_to_bytes(&words);
        let ibytes = words_to_bytes(&self.indices);
        assert(vbytes@.len() == 48 * self.vertices@.len());
        assert(ibytes@.len() == 4 * self.indices@.len());

        let vhandle: Option<u64>;
        let ihandle: Option<u64>;
        if PERSISTENT {
            match &mut self.vi_buffers {
                Some(b) => {
                    b.vertex.write(gfx, &vbytes);
                    b.index.write(gfx, &ibytes);
                    vhandle = b.vertex.inner();
                    ihandle = b.index.inner();
                },
                None => {
                    proof {
                        assert(false);
                    }
                    return None;
                },
            }
        } else {
            let mut tmpv = PBuffer::new(BufferUsage::Vertex);
            let mut tmpi = PBuffer::new(BufferUsage::Index);
            tmpv.write(gfx, &vbytes);
            tmpi.write(gfx, &ibytes);
            vhandle = tmpv.inner();
            ihandle = tmpi.inner();
        }

        let vertex_buffer = match vhandle {
            Some(v) => v,
            None => {
                proof {
                    assert(false);
                }
                return None;
            },
        };
        let index_buffer = match ihandle {
            Some(v) => v,
            None => {
                return None;
            },
        };

        let offs = mat_offsets_to_vec(&self.materials);
        let total = self.indices.len() as u32;
        let mut runs: Vec<(MaterialID, u32)> = Vec::new();
        let nm = offs.len();
        let mut k: usize = 0;
        while k < nm
            invariant
                k <= nm,
                nm == offs@.len(),
                offs@ == self.mat_seq(),
                offsets_wf(self.mat_seq(), self.indices@.len() as int),
                self.indices@.len() <= u32::MAX,
                total == self.indices@.len(),
                runs@ == runs_prefix(self.mat_seq(), total as int, k as int),
            decreases nm - k,
        {
            let (mat, start) = offs[k];
            let end = if k + 1 < nm {
                offs[k + 1].1
            } else {
                total
            };
            proof {
                assert(offs@[k as int].1 <= end) by {
                    assert(offsets_wf(self.mat_seq(), self.indices@.len() as int));
                    if k + 1 < nm {
                        assert(self.mat_seq()[k as int].1 <= self.mat_seq()[k + 1 as int].1);
                    } else {
                        assert((self.mat_seq()[k as int].1 as int) <= self.indices@.len() as int);
                    }
                }
                assert(end as int == run_end(self.mat_seq(), total as int, k as int));
            }
            let l = end - start;
            if l != 0 {
                runs.push((mat, l));
                proof {
                    assert(runs@ =~= runs_prefix(self.mat_seq(), total as int, k + 1 as int));
                }
            } else {
                proof {
                    assert(runs@ =~= runs_prefix(self.mat_seq(), total as int, k + 1 as int));
                }
            }
            k += 1;
        }
        proof {
            lemma_runs_bounded(self.mat_seq(), total as int);
        }

        Some(Mesh { vertex_buffer, index_buffer, materials: runs, skip_depth: false })
    }
}

} // verus!

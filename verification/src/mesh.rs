//! Geometry assembly: from one parsed mesh record to a renderer-ready
//! triangle mesh, in either indexing mode.

use vstd::prelude::*;
use crate::geometry::{
    group_pairs, group_triples, indices_in_bounds, pairs, triangles, triple_at, triples, Indices,
    TriMesh, Triangle, Vec2, Vec3,
};

verus! {

/// How a mesh record names its material.
#[derive(Clone, Debug, PartialEq)]
pub enum MaterialRef {
    /// Position in the material list of the same file.
    Index(usize),
    /// Name of a material of the same file.
    Name(String),
}

/// One mesh as the parser hands it over: flat attribute arrays, an index
/// array and an optional material reference.
#[derive(Clone, Debug, PartialEq)]
pub struct MeshRecord<S> {
    pub name: String,
    /// Position triples, flattened.
    pub positions: Vec<S>,
    /// Normal triples, flattened; empty when the mesh has none.
    pub normals: Vec<S>,
    /// Texture-coordinate pairs, flattened; empty when the mesh has none.
    pub texcoords: Vec<S>,
    pub indices: Indices,
    pub material: Option<MaterialRef>,
}

/// The layout in which the parser delivered a record's attributes.
#[derive(Clone, Copy, Debug, PartialEq, Eq)]
pub enum IndexMode {
    /// The attribute arrays already hold one vertex per group; the index
    /// array addresses those groups.
    MultiIndex,
    /// The attribute arrays are shared; every index entry becomes a vertex
    /// of its own.
    SingleIndex,
}

/// Why a mesh record cannot be assembled.
#[derive(Clone, Copy, Debug, PartialEq, Eq)]
pub enum MeshError {
    /// The entry in `slot` of the index array names vertex `index`, which
    /// the position array does not hold. `slot` is the first such entry.
    IndexOutOfBounds { slot: usize, index: u32 },
    /// The index array has more entries than a 32-bit index can number.
    TooManyIndices,
}

/// One vector per entry of `indices`, each gathered from the group of `flat`
/// that the entry names.
pub open spec fn gathered_triples<S>(flat: Seq<S>, indices: Seq<int>) -> Seq<Vec3<S>> {
    Seq::new(indices.len(), |k: int| triple_at(flat, indices[k]))
}

/// As [`gathered_triples`], but an entry whose group `flat` does not fully
/// hold yields the vector of three `zero`s.
pub open spec fn gathered_or_zero<S>(flat: Seq<S>, indices: Seq<int>, zero: S) -> Seq<Vec3<S>> {
    Seq::new(
        indices.len(),
        |k: int|
            if 3 * indices[k] + 2 < flat.len() {
                triple_at(flat, indices[k])
            } else {
                Vec3 { x: zero, y: zero, z: zero }
            },
    )
}

/// The sequence `0, 1, .., n - 1`.
pub open spec fn identity_indices(n: nat) -> Seq<int> {
    Seq::new(n, |k: int| k)
}

impl<S> MeshRecord<S> {
    /// Number of complete position groups.
    pub open spec fn vertex_count(&self) -> int {
        self.positions@.len() as int / 3
    }

    /// Every index entry names a complete position group.
    pub open spec fn indices_valid(&self) -> bool {
        indices_in_bounds(self.indices.values(), self.vertex_count())
    }

    /// `slot` holds the first index entry that names no complete position
    /// group.
    pub open spec fn first_invalid_slot(&self, slot: int) -> bool {
        &&& 0 <= slot < self.indices.values().len()
        &&& self.indices.values()[slot] >= self.vertex_count()
        &&& forall|k: int|
            0 <= k < slot ==> 0 <= #[trigger] self.indices.values()[k] < self.vertex_count()
    }

    /// Normal and texture-coordinate groups, where present, match the
    /// position groups one to one.
    pub open spec fn groups_aligned(&self) -> bool {
        &&& self.normals@.len() > 0 ==> self.normals@.len() / 3 == self.positions@.len() / 3
        &&& self.texcoords@.len() > 0 ==> self.texcoords@.len() / 2 == self.positions@.len() / 3
    }

    /// The faces that the record describes, as corner positions.
    pub open spec fn triangles(&self) -> Seq<Triangle<S>> {
        triangles(triples(self.positions@), self.indices.values())
    }

    /// Position buffer of the assembled mesh.
    pub open spec fn assembled_positions(&self, mode: IndexMode) -> Seq<Vec3<S>> {
        match mode {
            IndexMode::MultiIndex => triples(self.positions@),
            IndexMode::SingleIndex => gathered_triples(self.positions@, self.indices.values()),
        }
    }

    /// Normal buffer of the assembled mesh: absent when the record has no
    /// normals at all.
    pub open spec fn assembled_normals(&self, mode: IndexMode, zero: S) -> Option<Seq<Vec3<S>>> {
        if self.normals@.len() == 0 {
            None
        } else {
            match mode {
                IndexMode::MultiIndex => Some(triples(self.normals@)),
                IndexMode::SingleIndex => Some(
                    gathered_or_zero(self.normals@, self.indices.values(), zero),
                ),
            }
        }
    }

    /// Texture-coordinate buffer of the assembled mesh, the same in both
    /// modes: absent when the record has no texture coordinates at all.
    pub open spec fn assembled_uvs(&self) -> Option<Seq<Vec2<S>>> {
        if self.texcoords@.len() == 0 {
            None
        } else {
            Some(pairs(self.texcoords@))
        }
    }

    /// Index values of the assembled mesh.
    pub open spec fn assembled_indices(&self, mode: IndexMode) -> Seq<int> {
        match mode {
            IndexMode::MultiIndex => self.indices.values(),
            IndexMode::SingleIndex => identity_indices(self.indices.values().len()),
        }
    }

    /// Assembling the record in `mode` succeeds.
    pub open spec fn assembles(&self, mode: IndexMode) -> bool {
        &&& self.indices_valid()
        &&& mode == IndexMode::SingleIndex ==> self.indices.values().len() <= u32::MAX
    }

    /// Assembling the record in `mode` is refused with `error`.
    pub open spec fn fails_with(&self, mode: IndexMode, error: MeshError) -> bool {
        match error {
            MeshError::IndexOutOfBounds { slot, index } => {
                &&& self.first_invalid_slot(slot as int)
                &&& index == self.indices.values()[slot as int]
            },
            MeshError::TooManyIndices => {
                &&& self.indices_valid()
                &&& mode == IndexMode::SingleIndex
                &&& self.indices.values().len() > u32::MAX
            },
        }
    }

    /// `mesh` is what assembling the record in `mode` yields.
    pub open spec fn assembles_to(&self, mode: IndexMode, zero: S, mesh: TriMesh<S>) -> bool {
        &&& mesh.positions@ == self.assembled_positions(mode)
        &&& mesh.normals_view() == self.assembled_normals(mode, zero)
        &&& mesh.uvs_view() == self.assembled_uvs()
        &&& mesh.indices.values() == self.assembled_indices(mode)
        &&& mode == IndexMode::MultiIndex ==> mesh.indices == self.indices
        &&& mode == IndexMode::SingleIndex ==> mesh.indices is U32
    }
}

/// Checks every index entry against the number of complete position groups
/// and reports the first that names none.
fn check_indices(indices: &Indices, vertex_count: usize) -> (out: Result<(), MeshError>)
    ensures
        out is Ok <==> indices_in_bounds(indices.values(), vertex_count as int),
        out matches Err(e) ==> {
            &&& e matches MeshError::IndexOutOfBounds { slot, index }
            &&& 0 <= slot < indices.values().len()
            &&& index == indices.values()[slot as int]
            &&& index >= vertex_count
            &&& forall|k: int| 0 <= k < slot ==> 0 <= #[trigger] indices.values()[k] < vertex_count
        },
{
    let n: usize = indices.len();
    let mut k: usize = 0;
    while k < n
        invariant
            n == indices.values().len(),
            k <= n,
            forall|j: int| 0 <= j < k ==> 0 <= #[trigger] indices.values()[j] < vertex_count,
        decreases n - k,
    {
        let index: u32 = indices.get(k);
        if index as usize >= vertex_count {
            return Err(MeshError::IndexOutOfBounds { slot: k, index });
        }
        k += 1;
    }
    Ok(())
}

/// One position per index entry, gathered from the shared position array.
fn gather_positions<S: Copy>(flat: &Vec<S>, indices: &Indices) -> (out: Vec<Vec3<S>>)
    requires
        indices_in_bounds(indices.values(), flat@.len() as int / 3),
    ensures
        out@ == gathered_triples(flat@, indices.values()),
{
    let n: usize = indices.len();
    let groups: usize = flat.len() / 3;
    let mut out: Vec<Vec3<S>> = Vec::new();
    let mut k: usize = 0;
    while k < n
        invariant
            n == indices.values().len(),
            flat@.len() <= usize::MAX,
            groups == flat@.len() / 3,
            indices_in_bounds(indices.values(), groups as int),
            k <= n,
            out@.len() == k,
            forall|j: int| 0 <= j < k ==> out@[j] == triple_at(flat@, indices.values()[j]),
        decreases n - k,
    {
        let i: usize = indices.get(k) as usize;
        assert(0 <= indices.values()[k as int] < groups);
        out.push(Vec3 { x: flat[3 * i], y: flat[3 * i + 1], z: flat[3 * i + 2] });
        k += 1;
    }
    assert(out@ =~= gathered_triples(flat@, indices.values()));
    out
}

/// One normal per index entry, gathered from the shared normal array where
/// it reaches far enough and zero elsewhere.
fn gather_normals<S: Copy>(flat: &Vec<S>, indices: &Indices, zero: S) -> (out: Vec<Vec3<S>>)
    ensures
        out@ == gathered_or_zero(flat@, indices.values(), zero),
{
    let n: usize = indices.len();
    let groups: usize = flat.len() / 3;
    let mut out: Vec<Vec3<S>> = Vec::new();
    let mut k: usize = 0;
    while k < n
        invariant
            n == indices.values().len(),
            flat@.len() <= usize::MAX,
            groups == flat@.len() / 3,
            k <= n,
            out@.len() == k,
            forall|j: int|
                0 <= j < k ==> out@[j] == gathered_or_zero(flat@, indices.values(), zero)[j],
        decreases n - k,
    {
        let i: usize = indices.get(k) as usize;
        let normal = if i < groups {
            Vec3 { x: flat[3 * i], y: flat[3 * i + 1], z: flat[3 * i + 2] }
        } else {
            Vec3 { x: zero, y: zero, z: zero }
        };
        out.push(normal);
        k += 1;
    }
    assert(out@ =~= gathered_or_zero(flat@, indices.values(), zero));
    out
}

/// The index buffer `0, 1, .., n - 1`.
fn identity_buffer(n: u32) -> (out: Vec<u32>)
    ensures
        out@.len() == n,
        forall|k: int| 0 <= k < n ==> out@[k] == k,
{
    let mut out: Vec<u32> = Vec::new();
    let mut k: u32 = 0;
    while k < n
        invariant
            k <= n,
            out@.len() == k,
            forall|j: int| 0 <= j < k ==> out@[j] == j,
        decreases n - k,
    {
        out.push(k);
        k += 1;
    }
    out
}

/// Assembles the vertex and index buffers of one mesh record.
///
/// In [`IndexMode::MultiIndex`] the attribute arrays are read straight
/// through in groups and the index buffer is passed on as it is. In
/// [`IndexMode::SingleIndex`] every index entry becomes a vertex: its
/// position is gathered from the shared array, its normal too where the
/// normal array reaches that far and `zero` elsewhere, and the index buffer
/// becomes `0, 1, ..`. An empty normal or texture-coordinate array leaves the
/// buffer out in both modes.
///
/// A record with an index entry that names no complete position group is
/// refused, in both modes.
pub fn assemble_mesh<S: Copy>(record: MeshRecord<S>, mode: IndexMode, zero: S) -> (out: Result<
    TriMesh<S>,
    MeshError,
>)
    ensures
        out is Ok <==> record.assembles(mode),
        out matches Ok(mesh) ==> record.assembles_to(mode, zero, mesh),
        out matches Err(error) ==> record.fails_with(mode, error),
        out matches Ok(mesh) ==> mesh.well_formed() && mesh.triangles() == record.triangles(),
        out matches Ok(mesh) ==> (mode == IndexMode::MultiIndex && record.groups_aligned() ==> {
            &&& mesh.normals matches Some(normals) ==> normals@.len() == mesh.positions@.len()
            &&& mesh.uvs matches Some(uvs) ==> uvs@.len() == mesh.positions@.len()
        }),
{
    let vertex_count: usize = record.positions.len() / 3;
    match check_indices(&record.indices, vertex_count) {
        Err(error) => {
            return Err(error);
        },
        Ok(()) => {},
    }
    let uvs = if record.texcoords.len() == 0 {
        None
    } else {
        Some(group_pairs(&record.texcoords))
    };
    match mode {
        IndexMode::MultiIndex => {
            let positions = group_triples(&record.positions);
            let normals = if record.normals.len() == 0 {
                None
            } else {
                Some(group_triples(&record.normals))
            };
            let mesh = TriMesh { positions, normals, uvs, indices: record.indices };
            Ok(mesh)
        },
        IndexMode::SingleIndex => {
            let n: usize = record.indices.len();
            if n > u32::MAX as usize {
                return Err(MeshError::TooManyIndices);
            }
            let positions = gather_positions(&record.positions, &record.indices);
            let normals = if record.normals.len() == 0 {
                None
            } else {
                Some(gather_normals(&record.normals, &record.indices, zero))
            };
            let indices = Indices::U32(identity_buffer(n as u32));
            let mesh = TriMesh { positions, normals, uvs, indices };
            proof {
                assert(mesh.indices.values() =~= identity_indices(n as nat));
                assert(mesh.triangles() =~= record.triangles());
            }
            Ok(mesh)
        },
    }
}

/// `expanded` is the expanded form of `shared`: one position group per index
/// entry of `shared`, in entry order, addressed by the indices `0, 1, ..`.
pub open spec fn is_expansion_of<S>(expanded: MeshRecord<S>, shared: MeshRecord<S>) -> bool {
    &&& triples(expanded.positions@) == gathered_triples(
        shared.positions@,
        shared.indices.values(),
    )
    &&& expanded.indices.values() == identity_indices(shared.indices.values().len())
}

/// An assembled mesh never points past its position buffer, and it describes
/// the very faces that its record describes, in the same order, in either
/// mode.
pub proof fn lemma_assembly_keeps_faces<S>(
    record: MeshRecord<S>,
    mode: IndexMode,
    zero: S,
    mesh: TriMesh<S>,
)
    requires
        record.assembles(mode),
        record.assembles_to(mode, zero, mesh),
    ensures
        mesh.well_formed(),
        mesh.triangles() == record.triangles(),
{
    assert(mesh.triangles() =~= record.triangles());
}

/// The expanded form of a record describes the same faces as the record, and
/// its indices are valid whenever the record's are.
pub proof fn lemma_expansion_keeps_faces<S>(expanded: MeshRecord<S>, shared: MeshRecord<S>)
    requires
        is_expansion_of(expanded, shared),
        shared.indices_valid(),
    ensures
        expanded.indices_valid(),
        expanded.triangles() == shared.triangles(),
{
    let n = shared.indices.values().len();
    assert(triples(expanded.positions@).len() == n);
    assert(expanded.triangles() =~= shared.triangles());
}

/// Two records that describe the same faces up to order, such as the
/// expanded and the shared form of one mesh, assemble to meshes that
/// describe the same faces up to order, the first read in multi-index mode
/// and the second in single-index mode.
pub proof fn lemma_modes_agree_on_equivalent_records<S>(
    expanded: MeshRecord<S>,
    shared: MeshRecord<S>,
    zero: S,
    from_expanded: TriMesh<S>,
    from_shared: TriMesh<S>,
)
    requires
        expanded.triangles().to_multiset() == shared.triangles().to_multiset(),
        expanded.assembles(IndexMode::MultiIndex),
        shared.assembles(IndexMode::SingleIndex),
        expanded.assembles_to(IndexMode::MultiIndex, zero, from_expanded),
        shared.assembles_to(IndexMode::SingleIndex, zero, from_shared),
    ensures
        from_expanded.triangles().to_multiset() == from_shared.triangles().to_multiset(),
{
    lemma_assembly_keeps_faces(expanded, IndexMode::MultiIndex, zero, from_expanded);
    lemma_assembly_keeps_faces(shared, IndexMode::SingleIndex, zero, from_shared);
}

/// A record of `faces` triangles that share no vertex, read in multi-index
/// mode, yields three positions and three index entries per triangle, and
/// those entries form the record's `faces` triangles.
pub proof fn lemma_unshared_faces_survive<S>(
    record: MeshRecord<S>,
    faces: nat,
    zero: S,
    mesh: TriMesh<S>,
)
    requires
        record.positions@.len() == 9 * faces,
        record.indices.values().len() == 3 * faces,
        record.indices_valid(),
        record.assembles_to(IndexMode::MultiIndex, zero, mesh),
    ensures
        mesh.positions@.len() == 3 * faces,
        mesh.indices.values().len() == 3 * faces,
        mesh.triangles().len() == faces,
        mesh.triangles() == record.triangles(),
        mesh.well_formed(),
{
    lemma_assembly_keeps_faces(record, IndexMode::MultiIndex, zero, mesh);
}

} // verus!

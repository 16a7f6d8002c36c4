//! Typed vertex buffers read from flat attribute arrays.
//!
//! The scalar type `S` is a parameter: the functions here only move scalars
//! around and never look inside one.

use vstd::prelude::*;

verus! {

/// A three-component vector over a caller-chosen scalar type.
#[derive(Clone, Copy, Debug, PartialEq)]
pub struct Vec3<S> {
    pub x: S,
    pub y: S,
    pub z: S,
}

/// A two-component vector over a caller-chosen scalar type.
#[derive(Clone, Copy, Debug, PartialEq)]
pub struct Vec2<S> {
    pub x: S,
    pub y: S,
}

/// The `k`-th group of three in `flat`.
pub open spec fn triple_at<S>(flat: Seq<S>, k: int) -> Vec3<S> {
    Vec3 { x: flat[3 * k], y: flat[3 * k + 1], z: flat[3 * k + 2] }
}

/// The `k`-th group of two in `flat`.
pub open spec fn pair_at<S>(flat: Seq<S>, k: int) -> Vec2<S> {
    Vec2 { x: flat[2 * k], y: flat[2 * k + 1] }
}

/// `flat` read in consecutive groups of three; a trailing partial group is
/// dropped.
pub open spec fn triples<S>(flat: Seq<S>) -> Seq<Vec3<S>> {
    Seq::new((flat.len() / 3) as nat, |k: int| triple_at(flat, k))
}

/// `flat` read in consecutive groups of two; a trailing single scalar is
/// dropped.
pub open spec fn pairs<S>(flat: Seq<S>) -> Seq<Vec2<S>> {
    Seq::new((flat.len() / 2) as nat, |k: int| pair_at(flat, k))
}

/// Reads `flat` in consecutive groups of three, one vector per complete
/// group, in source order.
pub fn group_triples<S: Copy>(flat: &Vec<S>) -> (out: Vec<Vec3<S>>)
    ensures
        out@ == triples(flat@),
{
    let n: usize = flat.len() / 3;
    let mut out: Vec<Vec3<S>> = Vec::new();
    let mut k: usize = 0;
    while k < n
        invariant
            n == flat@.len() / 3,
            flat@.len() <= usize::MAX,
            k <= n,
            out@.len() == k,
            forall|j: int| 0 <= j < k ==> out@[j] == triple_at(flat@, j),
        decreases n - k,
    {
        let v = Vec3 { x: flat[3 * k], y: flat[3 * k + 1], z: flat[3 * k + 2] };
        out.push(v);
        k += 1;
    }
    assert(out@ =~= triples(flat@));
    out
}

/// Reads `flat` in consecutive groups of two, one vector per complete group,
/// in source order.
pub fn group_pairs<S: Copy>(flat: &Vec<S>) -> (out: Vec<Vec2<S>>)
    ensures
        out@ == pairs(flat@),
{
    let n: usize = flat.len() / 2;
    let mut out: Vec<Vec2<S>> = Vec::new();
    let mut k: usize = 0;
    while k < n
        invariant
            n == flat@.len() / 2,
            flat@.len() <= usize::MAX,
            k <= n,
            out@.len() == k,
            forall|j: int| 0 <= j < k ==> out@[j] == pair_at(flat@, j),
        decreases n - k,
    {
        let v = Vec2 { x: flat[2 * k], y: flat[2 * k + 1] };
        out.push(v);
        k += 1;
    }
    assert(out@ =~= pairs(flat@));
    out
}

/// An index buffer of either supported width.
#[derive(Clone, Debug, PartialEq)]
pub enum Indices {
    U16(Vec<u16>),
    U32(Vec<u32>),
}

impl Indices {
    /// The index values in buffer order, whatever the storage width.
    pub open spec fn values(&self) -> Seq<int> {
        match self {
            Indices::U16(v) => Seq::new(v@.len(), |k: int| v@[k] as int),
            Indices::U32(v) => Seq::new(v@.len(), |k: int| v@[k] as int),
        }
    }

    /// Number of index entries.
    pub fn len(&self) -> (n: usize)
        ensures
            n == self.values().len(),
    {
        match self {
            Indices::U16(v) => v.len(),
            Indices::U32(v) => v.len(),
        }
    }

    /// The entry in slot `k`, widened to 32 bits.
    pub fn get(&self, k: usize) -> (value: u32)
        requires
            k < self.values().len(),
        ensures
            value == self.values()[k as int],
    {
        match self {
            Indices::U16(v) => v[k] as u32,
            Indices::U32(v) => v[k],
        }
    }
}

/// Three corner positions of one face.
#[derive(Clone, Copy, Debug, PartialEq)]
pub struct Triangle<S> {
    pub a: Vec3<S>,
    pub b: Vec3<S>,
    pub c: Vec3<S>,
}

/// Every index value names a vertex below `vertex_count`.
pub open spec fn indices_in_bounds(indices: Seq<int>, vertex_count: int) -> bool {
    forall|k: int| 0 <= k < indices.len() ==> 0 <= #[trigger] indices[k] < vertex_count
}

/// The faces that `indices` describes over `positions`: each consecutive
/// group of three index entries picks the corners of one triangle.
pub open spec fn triangles<S>(positions: Seq<Vec3<S>>, indices: Seq<int>) -> Seq<Triangle<S>> {
    Seq::new(
        (indices.len() / 3) as nat,
        |t: int|
            Triangle {
                a: positions[indices[3 * t]],
                b: positions[indices[3 * t + 1]],
                c: positions[indices[3 * t + 2]],
            },
    )
}

/// An indexed triangle mesh with optional per-vertex normals and texture
/// coordinates.
#[derive(Clone, Debug, PartialEq)]
pub struct TriMesh<S> {
    pub positions: Vec<Vec3<S>>,
    pub normals: Option<Vec<Vec3<S>>>,
    pub uvs: Option<Vec<Vec2<S>>>,
    pub indices: Indices,
}

impl<S> TriMesh<S> {
    /// The normal buffer as a sequence, where the mesh has one.
    pub open spec fn normals_view(&self) -> Option<Seq<Vec3<S>>> {
        match self.normals {
            Some(v) => Some(v@),
            None => None,
        }
    }

    /// The texture-coordinate buffer as a sequence, where the mesh has one.
    pub open spec fn uvs_view(&self) -> Option<Seq<Vec2<S>>> {
        match self.uvs {
            Some(v) => Some(v@),
            None => None,
        }
    }

    /// No index entry points past the position buffer.
    pub open spec fn well_formed(&self) -> bool {
        indices_in_bounds(self.indices.values(), self.positions@.len() as int)
    }

    /// The mesh's faces as corner positions.
    pub open spec fn triangles(&self) -> Seq<Triangle<S>> {
        triangles(self.positions@, self.indices.values())
    }
}

impl<S: Copy> TriMesh<S> {
    /// Looks the corner positions of every face up. `None` exactly when some
    /// index entry points past the position buffer.
    pub fn face_positions(&self) -> (out: Option<Vec<Triangle<S>>>)
        ensures
            out is Some <==> self.well_formed(),
            out matches Some(faces) ==> faces@ == self.triangles(),
    {
        let n: usize = self.indices.len();
        let count: usize = self.positions.len();
        let mut k: usize = 0;
        while k < n
            invariant
                n == self.indices.values().len(),
                count == self.positions@.len(),
                k <= n,
                forall|j: int| 0 <= j < k ==> 0 <= #[trigger] self.indices.values()[j] < count,
            decreases n - k,
        {
            if self.indices.get(k) as usize >= count {
                return None;
            }
            k += 1;
        }
        let faces_len: usize = n / 3;
        let mut faces: Vec<Triangle<S>> = Vec::new();
        let mut t: usize = 0;
        while t < faces_len
            invariant
                n == self.indices.values().len(),
                n <= usize::MAX,
                faces_len == n / 3,
                self.well_formed(),
                t <= faces_len,
                faces@.len() == t,
                forall|j: int| 0 <= j < t ==> faces@[j] == self.triangles()[j],
            decreases faces_len - t,
        {
            let a = self.positions[self.indices.get(3 * t) as usize];
            let b = self.positions[self.indices.get(3 * t + 1) as usize];
            let c = self.positions[self.indices.get(3 * t + 2) as usize];
            faces.push(Triangle { a, b, c });
            t += 1;
        }
        assert(faces@ =~= self.triangles());
        Some(faces)
    }
}

} // verus!

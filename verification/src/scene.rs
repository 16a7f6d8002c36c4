//! Scene assembly: nodes from mesh records, linked to the materials of the
//! same file.

use vstd::prelude::*;
use crate::geometry::TriMesh;
use crate::material::PbrMaterial;
use crate::mesh::{assemble_mesh, IndexMode, MaterialRef, MeshError, MeshRecord};

verus! {

/// One named piece of a scene: a mesh and the material it is drawn with.
#[derive(Clone, Debug, PartialEq)]
pub struct Node<S> {
    pub name: String,
    pub geometry: Option<TriMesh<S>>,
    /// Position of the node's material in the scene's material list.
    pub material_index: Option<usize>,
}

/// Everything that one source file describes.
#[derive(Clone, Debug, PartialEq)]
pub struct Scene<S, X> {
    /// The path of the source file, as given.
    pub name: String,
    /// One node per mesh record, in record order.
    pub children: Vec<Node<S>>,
    /// One material per material record, in record order.
    pub materials: Vec<PbrMaterial<S, X>>,
}

/// Why a scene cannot be built: the mesh record at position `record` is
/// refused with `error`, and every record before it is sound.
#[derive(Clone, Copy, Debug, PartialEq, Eq)]
pub struct SceneError {
    pub record: usize,
    pub error: MeshError,
}

/// `link` is the material that `reference` leads to in `materials`.
///
/// An index is taken as it stands where the list reaches that far. A name
/// leads to the first material of that name. No reference, an index past
/// the end and a name that no material bears all leave the link unset.
pub open spec fn links_to<S, X>(
    reference: Option<MaterialRef>,
    materials: Seq<PbrMaterial<S, X>>,
    link: Option<usize>,
) -> bool {
    match reference {
        None => link is None,
        Some(MaterialRef::Index(i)) => link == if i < materials.len() {
            Some(i)
        } else {
            None
        },
        Some(MaterialRef::Name(name)) => match link {
            Some(i) => {
                &&& i < materials.len()
                &&& materials[i as int].name@ == name@
                &&& forall|j: int| 0 <= j < i ==> (#[trigger] materials[j]).name@ != name@
            },
            None => forall|j: int|
                0 <= j < materials.len() ==> (#[trigger] materials[j]).name@ != name@,
        },
    }
}

impl<S> Node<S> {
    /// The node's mesh, if any, is well formed, and its material link, if
    /// any, points into a list of `material_count` materials.
    pub open spec fn well_formed(&self, material_count: nat) -> bool {
        &&& self.geometry matches Some(mesh) ==> mesh.well_formed()
        &&& self.material_index matches Some(i) ==> i < material_count
    }
}

impl<S, X> Scene<S, X> {
    /// Every node is well formed against the scene's material list.
    pub open spec fn well_formed(&self) -> bool {
        forall|k: int|
            0 <= k < self.children@.len() ==> (#[trigger] self.children@[k]).well_formed(
                self.materials@.len(),
            )
    }
}

impl<S> MeshRecord<S> {
    /// `node` is what the record becomes in `mode` beside `materials`.
    pub open spec fn becomes<X>(
        &self,
        mode: IndexMode,
        zero: S,
        materials: Seq<PbrMaterial<S, X>>,
        node: Node<S>,
    ) -> bool {
        &&& node.name == self.name
        &&& node.geometry matches Some(mesh) && self.assembles_to(mode, zero, mesh)
        &&& links_to(self.material, materials, node.material_index)
    }
}

/// Finds the material that `reference` leads to in `materials`.
pub fn link_material<S, X>(
    reference: &Option<MaterialRef>,
    materials: &Vec<PbrMaterial<S, X>>,
) -> (link: Option<usize>)
    ensures
        links_to(*reference, materials@, link),
        link matches Some(i) ==> i < materials@.len(),
{
    match reference {
        None => None,
        Some(MaterialRef::Index(i)) => {
            if *i < materials.len() {
                Some(*i)
            } else {
                None
            }
        },
        Some(MaterialRef::Name(name)) => {
            let n: usize = materials.len();
            let mut k: usize = 0;
            while k < n
                invariant
                    *reference == Some(MaterialRef::Name(*name)),
                    n == materials@.len(),
                    k <= n,
                    forall|j: int| 0 <= j < k ==> (#[trigger] materials@[j]).name@ != name@,
                decreases n - k,
            {
                if materials[k].name == *name {
                    return Some(k);
                }
                k += 1;
            }
            None
        },
    }
}

/// Turns one mesh record into a node: its buffers assembled in `mode`, its
/// name kept, its material found in `materials`.
///
/// A record with an index entry that names no complete position group is
/// refused.
pub fn assemble<S: Copy, X>(
    record: MeshRecord<S>,
    mode: IndexMode,
    zero: S,
    materials: &Vec<PbrMaterial<S, X>>,
) -> (out: Result<Node<S>, MeshError>)
    ensures
        out is Ok <==> record.assembles(mode),
        out matches Ok(node) ==> record.becomes(mode, zero, materials@, node),
        out matches Ok(node) ==> node.well_formed(materials@.len()),
        out matches Ok(node) ==> node.geometry matches Some(mesh) && mesh.triangles()
            == record.triangles(),
        out matches Err(error) ==> record.fails_with(mode, error),
{
    let material_index = link_material(&record.material, materials);
    let name = record.name.clone();
    match assemble_mesh(record, mode, zero) {
        Ok(mesh) => Ok(Node { name, geometry: Some(mesh), material_index }),
        Err(error) => Err(error),
    }
}

/// Builds the scene of one source file from its parsed mesh records and its
/// synthesized materials.
///
/// The scene is named `name`, holds one node per mesh record in record
/// order, each assembled in `mode` and linked into `materials`, and holds
/// `materials` as they are. Empty lists are in order. The first mesh record
/// with an index entry that names no complete position group makes the
/// whole import fail.
pub fn deserialize_obj<S: Copy, X>(
    name: String,
    meshes: Vec<MeshRecord<S>>,
    materials: Vec<PbrMaterial<S, X>>,
    mode: IndexMode,
    zero: S,
) -> (out: Result<Scene<S, X>, SceneError>)
    ensures
        out is Ok <==> forall|k: int|
            0 <= k < meshes@.len() ==> (#[trigger] meshes@[k]).assembles(mode),
        out matches Ok(scene) ==> {
            &&& scene.name == name
            &&& scene.materials == materials
            &&& scene.children@.len() == meshes@.len()
            &&& forall|k: int|
                0 <= k < meshes@.len() ==> (#[trigger] meshes@[k]).becomes(
                    mode,
                    zero,
                    materials@,
                    scene.children@[k],
                )
            &&& scene.well_formed()
            &&& materials@.len() == 0 ==> forall|k: int|
                0 <= k < scene.children@.len() ==> (#[trigger] scene.children@[k]).material_index
                    is None
        },
        out matches Err(e) ==> {
            &&& e.record < meshes@.len()
            &&& meshes@[e.record as int].fails_with(mode, e.error)
            &&& forall|k: int| 0 <= k < e.record ==> (#[trigger] meshes@[k]).assembles(mode)
        },
{
    let ghost records = meshes@;
    let mut children: Vec<Node<S>> = Vec::new();
    for record in it: meshes
        invariant
            it.seq() == records,
            children@.len() == it.index(),
            forall|k: int| 0 <= k < it.index() ==> (#[trigger] records[k]).assembles(mode),
            forall|k: int|
                0 <= k < it.index() ==> (#[trigger] records[k]).becomes(
                    mode,
                    zero,
                    materials@,
                    children@[k],
                ),
            forall|k: int|
                0 <= k < it.index() ==> (#[trigger] children@[k]).well_formed(materials@.len()),
    {
        let position: usize = children.len();
        match assemble(record, mode, zero, &materials) {
            Ok(node) => {
                children.push(node);
            },
            Err(error) => {
                return Err(SceneError { record: position, error });
            },
        }
    }
    Ok(Scene { name, children, materials })
}

} // verus!

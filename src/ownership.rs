//! Shared ownership of meshes by the objects that draw them: a mesh's GPU
//! buffers and texture are released exactly when the last object that
//! references it is destroyed, and never while one still does.
use vstd::prelude::*;

verus! {

/// Why an ownership operation was refused.
#[derive(Clone, Copy, Debug, PartialEq, Eq, Structural)]
pub enum OwnershipError {
    /// The mesh does not exist or was already released.
    UnknownMesh,
    /// The object does not exist or was already destroyed.
    UnknownObject,
    /// No further object identifier can be handed out.
    TooManyObjects,
}

/// How many objects in `objects` reference mesh `m`.
pub open spec fn count_refs(objects: Seq<Option<usize>>, m: usize) -> nat
    decreases objects.len(),
{
    if objects.len() == 0 {
        0
    } else {
        count_refs(objects.drop_last(), m) + if objects.last() == Some(m) {
            1nat
        } else {
            0nat
        }
    }
}

/// The registry as mathematical values.
pub struct SceneView {
    /// Per mesh: how many live objects reference it.
    pub mesh_refs: Seq<usize>,
    /// Per mesh: its GPU resources are still held.
    pub mesh_live: Seq<bool>,
    /// Per object: the mesh it references, or `None` once destroyed.
    pub objects: Seq<Option<usize>>,
}

/// The registry's invariant: each mesh's count is the number of live objects
/// that reference it, a released mesh has no references, and every live
/// object references a known mesh.
pub open spec fn scene_inv(v: SceneView) -> bool {
    &&& v.mesh_refs.len() == v.mesh_live.len()
    &&& forall|m: usize| m < v.mesh_refs.len() ==> v.mesh_refs[m as int] == count_refs(v.objects, m)
    &&& forall|m: int| 0 <= m < v.mesh_live.len() && !v.mesh_live[m] ==> v.mesh_refs[m] == 0
    &&& forall|o: int| 0 <= o < v.objects.len() && v.objects[o] is Some ==> v.objects[o]->0 < v.mesh_refs.len()
}

/// Appending one object adds one to the count of the mesh it references.
pub proof fn lemma_count_push(objects: Seq<Option<usize>>, x: Option<usize>, m: usize)
    ensures
        count_refs(objects.push(x), m) == count_refs(objects, m) + if x == Some(m) {
            1nat
        } else {
            0nat
        },
{
    assert(objects.push(x).drop_last() =~= objects);
}

/// Destroying object `i` removes exactly its own reference.
pub proof fn lemma_count_clear(objects: Seq<Option<usize>>, i: int, m: usize)
    requires
        0 <= i < objects.len(),
    ensures
        count_refs(objects.update(i, None), m) + if objects[i] == Some(m) {
            1nat
        } else {
            0nat
        } == count_refs(objects, m),
    decreases objects.len(),
{
    let u = objects.update(i, None);
    if i == objects.len() - 1 {
        assert(u.drop_last() =~= objects.drop_last());
    } else {
        lemma_count_clear(objects.drop_last(), i, m);
        assert(u.drop_last() =~= objects.drop_last().update(i, None));
    }
}

/// A mesh that some object references has a count of at least one.
pub proof fn lemma_count_positive(objects: Seq<Option<usize>>, i: int, m: usize)
    requires
        0 <= i < objects.len(),
        objects[i] == Some(m),
    ensures
        count_refs(objects, m) >= 1,
    decreases objects.len(),
{
    if i < objects.len() - 1 {
        lemma_count_positive(objects.drop_last(), i, m);
    }
}

/// No count exceeds the number of objects.
pub proof fn lemma_count_bound(objects: Seq<Option<usize>>, m: usize)
    ensures
        count_refs(objects, m) <= objects.len(),
    decreases objects.len(),
{
    if objects.len() > 0 {
        lemma_count_bound(objects.drop_last(), m);
    }
}

/// Meshes shared by objects, with the count of references to each.
pub struct SceneResources {
    mesh_refs: Vec<usize>,
    mesh_live: Vec<bool>,
    objects: Vec<Option<usize>>,
}

impl View for SceneResources {
    type V = SceneView;

    closed spec fn view(&self) -> SceneView {
        SceneView { mesh_refs: self.mesh_refs@, mesh_live: self.mesh_live@, objects: self.objects@ }
    }
}

impl SceneResources {
    /// An empty registry.
    pub fn new() -> (r: Self)
        ensures
            scene_inv(r@),
            r@.mesh_refs.len() == 0,
            r@.objects.len() == 0,
    {
        SceneResources { mesh_refs: Vec::new(), mesh_live: Vec::new(), objects: Vec::new() }
    }

    /// Registers a new mesh, referenced by no object yet, and returns its
    /// identifier.
    pub fn add_mesh(&mut self) -> (r: usize)
        requires
            scene_inv(old(self)@),
        ensures
            scene_inv(final(self)@),
            r == old(self)@.mesh_refs.len(),
            final(self)@.mesh_refs == old(self)@.mesh_refs.push(0),
            final(self)@.mesh_live == old(self)@.mesh_live.push(true),
            final(self)@.objects == old(self)@.objects,
    {
        let r = self.mesh_refs.len();
        self.mesh_refs.push(0);
        self.mesh_live.push(true);
        proof {
            assert forall|m: usize| m < self@.mesh_refs.len() implies self@.mesh_refs[m as int]
                == count_refs(self@.objects, m) by {
                if m == r {
                    lemma_count_zero(self@.objects, m);
                }
            }
        }
        r
    }

    /// Whether mesh `mesh` still holds its GPU resources.
    pub fn is_mesh_live(&self, mesh: usize) -> (r: bool)
        ensures
            r == (mesh < self@.mesh_live.len() && self@.mesh_live[mesh as int]),
    {
        mesh < self.mesh_live.len() && self.mesh_live[mesh]
    }

    /// How many live objects reference mesh `mesh`, or `None` for an unknown
    /// mesh.
    pub fn mesh_ref_count(&self, mesh: usize) -> (r: Option<usize>)
        ensures
            mesh < self@.mesh_refs.len() ==> r == Some(self@.mesh_refs[mesh as int]),
            mesh >= self@.mesh_refs.len() ==> r is None,
    {
        if mesh < self.mesh_refs.len() {
            Some(self.mesh_refs[mesh])
        } else {
            None
        }
    }

    /// Creates an object that shares mesh `mesh` and returns its identifier.
    /// Refused when the mesh is unknown or released.
    pub fn add_object(&mut self, mesh: usize) -> (r: Result<usize, OwnershipError>)
        requires
            scene_inv(old(self)@),
        ensures
            scene_inv(final(self)@),
            !(mesh < old(self)@.mesh_live.len() && old(self)@.mesh_live[mesh as int]) ==> r == Err::<
                usize,
                OwnershipError,
            >(OwnershipError::UnknownMesh) && final(self)@ == old(self)@,
            (mesh < old(self)@.mesh_live.len() && old(self)@.mesh_live[mesh as int]) && old(self)@.objects.len() == usize::MAX ==> r == Err::<usize, OwnershipError>(
                OwnershipError::TooManyObjects,
            ) && final(self)@ == old(self)@,
            (mesh < old(self)@.mesh_live.len() && old(self)@.mesh_live[mesh as int]) && old(self)@.objects.len() < usize::MAX ==> r == Ok::<usize, OwnershipError>(
                old(self)@.objects.len() as usize,
            ) && final(self)@.objects == old(self)@.objects.push(Some(mesh))
                && final(self)@.mesh_live == old(self)@.mesh_live && final(self)@.mesh_refs == old(self)@.mesh_refs.update(mesh as int, (old(self)@.mesh_refs[mesh as int] + 1) as usize),
    {
        if !(mesh < self.mesh_live.len() && self.mesh_live[mesh]) {
            return Err(OwnershipError::UnknownMesh);
        }
        if self.objects.len() == usize::MAX {
            return Err(OwnershipError::TooManyObjects);
        }
        let id = self.objects.len();
        proof {
            lemma_count_bound(self@.objects, mesh);
            lemma_count_push(self@.objects, Some(mesh), mesh);
        }
        let n = self.mesh_refs[mesh];
        self.mesh_refs.set(mesh, n + 1);
        let ghost before = self@.objects;
        self.objects.push(Some(mesh));
        proof {
            assert forall|m: usize| m < self@.mesh_refs.len() implies self@.mesh_refs[m as int]
                == count_refs(self@.objects, m) by {
                lemma_count_push(before, Some(mesh), m);
            }
        }
        Ok(id)
    }

    /// Destroys object `object`. When it held the last reference to its
    /// mesh, the mesh is released and its identifier returned, so that the
    /// caller frees the mesh's buffers and texture; otherwise `None`.
    pub fn destroy_object(&mut self, object: usize) -> (r: Result<Option<usize>, OwnershipError>)
        requires
            scene_inv(old(self)@),
        ensures
            scene_inv(final(self)@),
            !(object < old(self)@.objects.len() && old(self)@.objects[object as int] is Some) ==> r
                == Err::<Option<usize>, OwnershipError>(OwnershipError::UnknownObject) && final(self)@ == old(self)@,
            object < old(self)@.objects.len() && old(self)@.objects[object as int] is Some ==> {
                let m = old(self)@.objects[object as int]->0;
                let last = old(self)@.mesh_refs[m as int] == 1;
                &&& final(self)@.objects == old(self)@.objects.update(object as int, None)
                &&& final(self)@.mesh_refs == old(self)@.mesh_refs.update(
                    m as int,
                    (old(self)@.mesh_refs[m as int] - 1) as usize,
                )
                &&& last ==> r == Ok::<Option<usize>, OwnershipError>(Some(m)) && final(self)@.mesh_live == old(self)@.mesh_live.update(m as int, false)
                &&& !last ==> r == Ok::<Option<usize>, OwnershipError>(None) && final(self)@.mesh_live == old(self)@.mesh_live
            },
    {
        if !(object < self.objects.len() && self.objects[object].is_some()) {
            return Err(OwnershipError::UnknownObject);
        }
        let m = self.objects[object].unwrap();
        let ghost before = self@.objects;
        proof {
            lemma_count_positive(before, object as int, m);
        }
        self.objects.set(object, None);
        let n = self.mesh_refs[m];
        self.mesh_refs.set(m, n - 1);
        let released = n == 1;
        if released {
            self.mesh_live.set(m, false);
        }
        proof {
            assert forall|k: usize| k < self@.mesh_refs.len() implies self@.mesh_refs[k as int]
                == count_refs(self@.objects, k) by {
                lemma_count_clear(before, object as int, k);
            }
        }
        if released {
            Ok(Some(m))
        } else {
            Ok(None)
        }
    }
}

/// A mesh that no object names has a count of zero.
pub proof fn lemma_count_zero(objects: Seq<Option<usize>>, m: usize)
    requires
        forall|o: int| 0 <= o < objects.len() ==> objects[o] != Some(m),
    ensures
        count_refs(objects, m) == 0,
    decreases objects.len(),
{
    if objects.len() > 0 {
        lemma_count_zero(objects.drop_last(), m);
    }
}

/// Two distinct objects that reference one mesh count twice.
pub proof fn lemma_count_two(objects: Seq<Option<usize>>, i: int, j: int, m: usize)
    requires
        0 <= i < objects.len(),
        0 <= j < objects.len(),
        i != j,
        objects[i] == Some(m),
        objects[j] == Some(m),
    ensures
        count_refs(objects, m) >= 2,
    decreases objects.len(),
{
    let last = objects.len() - 1;
    if i == last {
        lemma_count_positive(objects.drop_last(), j, m);
    } else if j == last {
        lemma_count_positive(objects.drop_last(), i, m);
    } else {
        lemma_count_two(objects.drop_last(), i, j, m);
    }
}

/// A mesh is never released while a live object references it.
pub proof fn lemma_referenced_mesh_is_live(v: SceneView, o: int)
    requires
        scene_inv(v),
        0 <= o < v.objects.len(),
        v.objects[o] is Some,
    ensures
        v.mesh_live[v.objects[o]->0 as int],
        v.mesh_refs[v.objects[o]->0 as int] >= 1,
{
    let m = v.objects[o]->0;
    lemma_count_positive(v.objects, o, m);
}

/// Two live objects share a mesh: the mesh has at least two references, so
/// destroying either one leaves the mesh live (`destroy_object` then returns
/// `Ok(None)`); only the destruction of the last one releases it.
pub proof fn lemma_shared_mesh_survives_one_destroy(v: SceneView, a: int, b: int)
    requires
        scene_inv(v),
        0 <= a < v.objects.len(),
        0 <= b < v.objects.len(),
        a != b,
        v.objects[a] is Some,
        v.objects[a] == v.objects[b],
    ensures
        v.mesh_refs[v.objects[a]->0 as int] >= 2,
        v.mesh_live[v.objects[a]->0 as int],
{
    lemma_count_two(v.objects, a, b, v.objects[a]->0);
}

} // verus!

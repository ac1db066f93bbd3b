//! Mesh data in the layout of the kernels' buffers.
//!
//! A loader hands over each mesh as flat arrays, three numbers per vertex,
//! per normal and per triangle. The buffers want four per element, so each
//! triple is padded. The scalar type `S` of the coordinates is the host's.

use vstd::prelude::*;

verus! {

/// A mesh as a loader gives it: three scalars per position and per normal,
/// three indices per triangle.
pub struct Mesh<S> {
    pub positions: Vec<S>,
    pub normals: Vec<S>,
    pub indices: Vec<u32>,
}

/// All meshes of a model, one after the other, four components per element.
pub struct Model<S> {
    pub positions: Vec<[S; 4]>,
    pub normals: Vec<[S; 4]>,
    pub indices: Vec<[u32; 4]>,
    pub normal_indices: Vec<[u32; 4]>,
}

/// `padded` holds the triples of `flat`, in order, each as the first three
/// components of one element.
pub open spec fn holds_triples<T>(padded: Seq<[T; 4]>, flat: Seq<T>) -> bool {
    &&& 3 * padded.len() == flat.len()
    &&& forall|i: int|
        0 <= i < padded.len() ==> {
            &&& (#[trigger] padded[i])[0] == flat[3 * i]
            &&& padded[i][1] == flat[3 * i + 1]
            &&& padded[i][2] == flat[3 * i + 2]
        }
}

/// The fourth component of each element of `padded` is `pad`.
pub open spec fn padded_with<T>(padded: Seq<[T; 4]>, pad: T) -> bool {
    forall|i: int| 0 <= i < padded.len() ==> (#[trigger] padded[i])[3] == pad
}

/// The fourth component of each element of `padded` is a default value of
/// `T`.
pub open spec fn padded_with_default<T: Default>(padded: Seq<[T; 4]>) -> bool {
    forall|i: int| 0 <= i < padded.len() ==> call_ensures(T::default, (), (#[trigger] padded[i])[3])
}

impl<S> Mesh<S> {
    /// The three arrays are made of whole triples.
    pub open spec fn wf(self) -> bool {
        &&& self.positions@.len() % 3 == 0
        &&& self.normals@.len() % 3 == 0
        &&& self.indices@.len() % 3 == 0
    }
}

/// `after` is `before` followed by the padded triples of `flat`.
pub open spec fn appends_triples<T>(after: Seq<[T; 4]>, before: Seq<[T; 4]>, flat: Seq<T>) -> bool {
    &&& after.len() >= before.len()
    &&& after.take(before.len() as int) == before
    &&& holds_triples(after.skip(before.len() as int), flat)
}

/// The positions of all of `meshes`, one mesh after the other.
pub open spec fn all_positions<S>(meshes: Seq<Mesh<S>>) -> Seq<S>
    decreases meshes.len(),
{
    if meshes.len() == 0 {
        Seq::empty()
    } else {
        all_positions(meshes.drop_last()) + meshes.last().positions@
    }
}

/// The normals of all of `meshes`, one mesh after the other.
pub open spec fn all_normals<S>(meshes: Seq<Mesh<S>>) -> Seq<S>
    decreases meshes.len(),
{
    if meshes.len() == 0 {
        Seq::empty()
    } else {
        all_normals(meshes.drop_last()) + meshes.last().normals@
    }
}

/// The triangle indices of all of `meshes`, one mesh after the other. They
/// are not shifted: each mesh counts its vertices from 0.
pub open spec fn all_indices<S>(meshes: Seq<Mesh<S>>) -> Seq<u32>
    decreases meshes.len(),
{
    if meshes.len() == 0 {
        Seq::empty()
    } else {
        all_indices(meshes.drop_last()) + meshes.last().indices@
    }
}

impl<S> Model<S> {
    /// `self` is `before` followed by the padded triples of the given flat
    /// arrays. The triangle indices serve as normal indices too: a mesh is
    /// indexed once for all its attributes.
    pub open spec fn extends(
        self,
        before: Self,
        positions: Seq<S>,
        normals: Seq<S>,
        indices: Seq<u32>,
    ) -> bool where S: Default {
        &&& appends_triples(self.positions@, before.positions@, positions)
        &&& appends_triples(self.normals@, before.normals@, normals)
        &&& appends_triples(self.indices@, before.indices@, indices)
        &&& appends_triples(self.normal_indices@, before.normal_indices@, indices)
        &&& padded_with_default(self.positions@.skip(before.positions@.len() as int))
        &&& padded_with_default(self.normals@.skip(before.normals@.len() as int))
        &&& padded_with(self.indices@.skip(before.indices@.len() as int), 0u32)
        &&& padded_with(self.normal_indices@.skip(before.normal_indices@.len() as int), 0u32)
    }
}

/// Appending triples twice appends the triples of both flat arrays.
proof fn lemma_appends_twice<T>(
    first: Seq<[T; 4]>,
    second: Seq<[T; 4]>,
    third: Seq<[T; 4]>,
    flat: Seq<T>,
    more: Seq<T>,
)
    requires
        appends_triples(second, first, flat),
        appends_triples(third, second, more),
    ensures
        appends_triples(third, first, flat + more),
        third.skip(first.len() as int) == second.skip(first.len() as int) + third.skip(
            second.len() as int,
        ),
{
    let a = first.len() as int;
    let b = second.len() as int;
    let whole = third.skip(a);
    assert(third.take(a) =~= third.take(b).take(a));
    assert(whole =~= second.skip(a) + third.skip(b));
    assert forall|i: int| 0 <= i < whole.len() implies {
        &&& (#[trigger] whole[i])[0] == (flat + more)[3 * i]
        &&& whole[i][1] == (flat + more)[3 * i + 1]
        &&& whole[i][2] == (flat + more)[3 * i + 2]
    } by {
        if i < b - a {
            assert(whole[i] == second.skip(a)[i]);
        } else {
            assert(whole[i] == third.skip(b)[i - (b - a)]);
        }
    }
}

/// Appends the triples of `flat` to `padded`, each with 0 as its fourth
/// component.
pub fn append_indices(padded: &mut Vec<[u32; 4]>, flat: &Vec<u32>)
    requires
        flat@.len() % 3 == 0,
    ensures
        appends_triples(final(padded)@, old(padded)@, flat@),
        padded_with(final(padded)@.skip(old(padded)@.len() as int), 0u32),
{
    let ghost start = padded@.len() as int;
    let mut i: usize = 0;
    while i < flat.len()
        invariant
            i <= flat@.len(),
            i % 3 == 0,
            flat@.len() % 3 == 0,
            start == old(padded)@.len(),
            padded@.len() == start + i / 3,
            padded@.take(start) == old(padded)@,
            holds_triples(padded@.skip(start), flat@.take(i as int)),
            padded_with(padded@.skip(start), 0u32),
        decreases flat@.len() - i,
    {
        let ghost before = padded@;
        padded.push([flat[i], flat[i + 1], flat[i + 2], 0]);
        proof {
            assert(padded@.take(start) =~= before.take(start));
            assert(padded@.skip(start) =~= before.skip(start).push(padded@[padded@.len() - 1]));
        }
        i += 3;
    }
    assert(flat@.take(flat@.len() as int) =~= flat@);
}

/// Appends the triples of `flat` to `padded`, each with a default value of
/// `S` as its fourth component.
pub fn append_vectors<S: Copy + Default>(padded: &mut Vec<[S; 4]>, flat: &Vec<S>)
    requires
        flat@.len() % 3 == 0,
    ensures
        appends_triples(final(padded)@, old(padded)@, flat@),
        padded_with_default(final(padded)@.skip(old(padded)@.len() as int)),
{
    let ghost start = padded@.len() as int;
    let mut i: usize = 0;
    while i < flat.len()
        invariant
            i <= flat@.len(),
            i % 3 == 0,
            flat@.len() % 3 == 0,
            start == old(padded)@.len(),
            padded@.len() == start + i / 3,
            padded@.take(start) == old(padded)@,
            holds_triples(padded@.skip(start), flat@.take(i as int)),
            padded_with_default(padded@.skip(start)),
        decreases flat@.len() - i,
    {
        let ghost before = padded@;
        padded.push([flat[i], flat[i + 1], flat[i + 2], S::default()]);
        proof {
            assert(padded@.take(start) =~= before.take(start));
            assert(padded@.skip(start) =~= before.skip(start).push(padded@[padded@.len() - 1]));
        }
        i += 3;
    }
    assert(flat@.take(flat@.len() as int) =~= flat@);
}

impl<S: Copy + Default> Model<S> {
    /// A model without meshes.
    pub fn new() -> (model: Self)
        ensures
            model.positions@.len() == 0,
            model.normals@.len() == 0,
            model.indices@.len() == 0,
            model.normal_indices@.len() == 0,
    {
        Model {
            positions: Vec::new(),
            normals: Vec::new(),
            indices: Vec::new(),
            normal_indices: Vec::new(),
        }
    }

    /// Appends one mesh.
    pub fn add_mesh(&mut self, mesh: &Mesh<S>)
        requires
            mesh.wf(),
        ensures
            final(self).extends(*old(self), mesh.positions@, mesh.normals@, mesh.indices@),
    {
        append_vectors(&mut self.positions, &mesh.positions);
        append_vectors(&mut self.normals, &mesh.normals);
        append_indices(&mut self.indices, &mesh.indices);
        append_indices(&mut self.normal_indices, &mesh.indices);
    }

    /// Appends the meshes of a loaded file, in the file's order.
    pub fn load_obj(&mut self, meshes: &Vec<Mesh<S>>)
        requires
            forall|i: int| 0 <= i < meshes@.len() ==> (#[trigger] meshes@[i]).wf(),
        ensures
            final(self).extends(
                *old(self),
                all_positions(meshes@),
                all_normals(meshes@),
                all_indices(meshes@),
            ),
    {
        let mut k: usize = 0;
        assert(self.positions@.skip(self.positions@.len() as int) =~= Seq::<[S; 4]>::empty());
        assert(self.normals@.skip(self.normals@.len() as int) =~= Seq::<[S; 4]>::empty());
        assert(self.indices@.skip(self.indices@.len() as int) =~= Seq::<[u32; 4]>::empty());
        assert(self.normal_indices@.skip(self.normal_indices@.len() as int) =~= Seq::<
            [u32; 4],
        >::empty());
        assert(self.positions@.take(self.positions@.len() as int) =~= self.positions@);
        assert(self.normals@.take(self.normals@.len() as int) =~= self.normals@);
        assert(self.indices@.take(self.indices@.len() as int) =~= self.indices@);
        assert(self.normal_indices@.take(self.normal_indices@.len() as int)
            =~= self.normal_indices@);
        while k < meshes.len()
            invariant
                k <= meshes@.len(),
                forall|i: int| 0 <= i < meshes@.len() ==> (#[trigger] meshes@[i]).wf(),
                self.extends(
                    *old(self),
                    all_positions(meshes@.take(k as int)),
                    all_normals(meshes@.take(k as int)),
                    all_indices(meshes@.take(k as int)),
                ),
            decreases meshes@.len() - k,
        {
            let ghost before = *self;
            let mesh = &meshes[k];
            self.add_mesh(mesh);
            proof {
                let done = meshes@.take(k + 1);
                assert(done.drop_last() =~= meshes@.take(k as int));
                assert(done.last() == *mesh);
                lemma_appends_twice(
                    old(self).positions@,
                    before.positions@,
                    self.positions@,
                    all_positions(meshes@.take(k as int)),
                    mesh.positions@,
                );
                lemma_appends_twice(
                    old(self).normals@,
                    before.normals@,
                    self.normals@,
                    all_normals(meshes@.take(k as int)),
                    mesh.normals@,
                );
                lemma_appends_twice(
                    old(self).indices@,
                    before.indices@,
                    self.indices@,
                    all_indices(meshes@.take(k as int)),
                    mesh.indices@,
                );
                lemma_appends_twice(
                    old(self).normal_indices@,
                    before.normal_indices@,
                    self.normal_indices@,
                    all_indices(meshes@.take(k as int)),
                    mesh.indices@,
                );
            }
            k += 1;
        }
        assert(meshes@.take(meshes@.len() as int) =~= meshes@);
    }
}

} // verus!

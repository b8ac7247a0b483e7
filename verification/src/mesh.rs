//! Triangle meshes: what the triangulation answers, and what of it is kept.

use std::collections::HashMap;
use vstd::prelude::*;
use crate::error::MeshError;
use crate::vector::Vector2;

verus! {

broadcast use vstd::std_specs::hash::group_hash_axioms;

/// One triangle of an indexed mesh: the positions of its three corners in the
/// vertex list, as the triangulation reports them.
#[derive(Clone, Copy, Debug, PartialEq, Eq, Structural)]
pub struct Face {
    pub v1: i32,
    pub v2: i32,
    pub v3: i32,
}

impl Face {
    /// The triangle with the given corners.
    pub fn new(v1: i32, v2: i32, v3: i32) -> (face: Face)
        ensures
            face.v1 == v1,
            face.v2 == v2,
            face.v3 == v3,
    {
        Face { v1, v2, v3 }
    }

    /// The corner at place 0, 1 or 2.
    pub open spec fn corner(self, place: int) -> int {
        if place == 0 {
            self.v1 as int
        } else if place == 1 {
            self.v2 as int
        } else {
            self.v3 as int
        }
    }

    /// Whether all three corners name one of `count` vertices.
    pub open spec fn within(self, count: int) -> bool {
        &&& 0 <= self.v1 < count
        &&& 0 <= self.v2 < count
        &&& 0 <= self.v3 < count
    }

    /// Whether the three corners are three different vertices.
    pub open spec fn proper(self) -> bool {
        self.v1 != self.v2 && self.v2 != self.v3 && self.v1 != self.v3
    }

    /// Whether `vertex` is a corner of the face.
    pub open spec fn has_corner(self, vertex: int) -> bool {
        self.v1 == vertex || self.v2 == vertex || self.v3 == vertex
    }

    /// Whether the edge that joins the vertices `a` and `b` is a side of the
    /// face.
    pub open spec fn has_edge(self, a: int, b: int) -> bool {
        a != b && self.has_corner(a) && self.has_corner(b)
    }
}

/// The number of faces that have the edge joining `a` and `b` as a side.
pub open spec fn edge_uses(faces: Seq<Face>, a: int, b: int) -> nat
    decreases faces.len(),
{
    if faces.len() == 0 {
        0
    } else {
        edge_uses(faces.drop_last(), a, b) + if faces.last().has_edge(a, b) {
            1nat
        } else {
            0nat
        }
    }
}

/// The most triangles a mesh may have: three times as many vertices are
/// handed to the caller, and their count is reported in 32 bits.
pub const MAX_TRIANGLES: usize = 0x5555_5555;

/// Whether a vertex list and a face list make a mesh: there are no more than
/// `MAX_TRIANGLES` faces; the corners of every face are three different
/// vertices of the list; and no edge is a side of more than two faces.
pub open spec fn is_mesh(vertices: Seq<Vector2>, faces: Seq<Face>) -> bool {
    &&& faces.len() <= MAX_TRIANGLES
    &&& forall|k: int|
        0 <= k < faces.len() ==> (#[trigger] faces[k]).within(vertices.len() as int)
            && faces[k].proper()
    &&& forall|a: int, b: int| #[trigger] edge_uses(faces, a, b) <= 2
}

/// The triangles of an indexed mesh written out corner by corner: the
/// vertices at places `3k`, `3k + 1` and `3k + 2` are the corners of face `k`.
pub open spec fn triangle_stream(vertices: Seq<Vector2>, faces: Seq<Face>) -> Seq<Vector2> {
    Seq::new(3 * faces.len(), |i: int| vertices[faces[i / 3].corner(i % 3)])
}

/// A triangulated glyph.
///
/// The mesh is seen as its triangle stream: a sequence of vertices in which
/// each group of three is one triangle, in the order in which the
/// triangulation produced them. Inside, shared vertices are stored once.
#[derive(Debug)]
pub struct Mesh2D {
    vertices: Vec<Vector2>,
    faces: Vec<Face>,
}

impl View for Mesh2D {
    type V = Seq<Vector2>;

    closed spec fn view(&self) -> Seq<Vector2> {
        triangle_stream(self.vertices@, self.faces@)
    }
}

impl Mesh2D {
    #[verifier::type_invariant]
    spec fn indexed(self) -> bool {
        is_mesh(self.vertices@, self.faces@)
    }

    /// The mesh without triangles: that of a glyph with nothing to draw.
    pub fn empty() -> (mesh: Mesh2D)
        ensures
            mesh@ == Seq::<Vector2>::empty(),
    {
        Mesh2D { vertices: Vec::new(), faces: Vec::new() }
    }

    /// Takes the answer of the triangulation: a vertex list and the faces
    /// that index it.
    ///
    /// The answer is kept if and only if it is a mesh (`is_mesh`); its
    /// triangles are then those the faces name, in the order of the faces.
    /// Any other answer is a failure of the triangulation.
    pub fn from_indexed(vertices: Vec<Vector2>, faces: Vec<Face>) -> (mesh: Result<
        Mesh2D,
        MeshError,
    >)
        ensures
            is_mesh(vertices@, faces@) ==> (mesh matches Ok(m) && m@ == triangle_stream(
                vertices@,
                faces@,
            )),
            !is_mesh(vertices@, faces@) ==> (mesh matches Err(e) && e
                == MeshError::TriangulationFailed),
    {
        if faces.len() > MAX_TRIANGLES {
            return Err(MeshError::TriangulationFailed);
        }
        let count: usize = vertices.len();
        let mut uses: HashMap<u64, u8> = HashMap::new();
        let mut k: usize = 0;
        while k < faces.len()
            invariant
                k <= faces.len(),
                count == vertices@.len(),
                forall|j: int|
                    0 <= j < k ==> (#[trigger] faces@[j]).within(count as int) && faces@[j].proper(),
                tallied(uses@, faces@.take(k as int)),
            decreases faces.len() - k,
        {
            let face: Face = faces[k];
            if !(index_within(face.v1, count) && index_within(face.v2, count) && index_within(
                face.v3,
                count,
            )) {
                return Err(MeshError::TriangulationFailed);
            }
            if face.v1 == face.v2 || face.v2 == face.v3 || face.v1 == face.v3 {
                return Err(MeshError::TriangulationFailed);
            }
            let ghost before = uses@;
            let first: bool = tally_edge(&mut uses, face.v1, face.v2);
            let second: bool = first && tally_edge(&mut uses, face.v2, face.v3);
            let third: bool = second && tally_edge(&mut uses, face.v1, face.v3);
            proof {
                lemma_face_tallied(faces@, k as int, before, uses@);
            }
            if !third {
                return Err(MeshError::TriangulationFailed);
            }
            k += 1;
        }
        proof {
            assert(faces@.take(k as int) =~= faces@);
            lemma_tallied_conforms(uses@, faces@, count as int);
        }
        Ok(Mesh2D { vertices, faces })
    }

    /// The number of triangles.
    pub fn triangle_count(&self) -> (count: usize)
        ensures
            3 * count == self@.len(),
            count <= MAX_TRIANGLES,
    {
        proof {
            use_type_invariant(self);
        }
        self.faces.len()
    }

    /// The corners of triangle `index`, in the order of the triangle stream.
    pub fn triangle(&self, index: usize) -> (corners: (Vector2, Vector2, Vector2))
        requires
            3 * index + 2 < self@.len(),
        ensures
            corners.0 == self@[3 * index],
            corners.1 == self@[3 * index + 1],
            corners.2 == self@[3 * index + 2],
    {
        proof {
            use_type_invariant(self);
        }
        let face: Face = self.faces[index];
        (
            self.vertices[face.v1 as usize],
            self.vertices[face.v2 as usize],
            self.vertices[face.v3 as usize],
        )
    }

    /// The triangle stream as a vector: every triangle's three corners, in
    /// the order of the triangles.
    pub fn to_stream(&self) -> (stream: Vec<Vector2>)
        ensures
            stream@ == self@,
            stream@.len() <= u32::MAX,
            stream@.len() % 3 == 0,
    {
        proof {
            use_type_invariant(self);
        }
        let mut stream: Vec<Vector2> = Vec::new();
        let mut k: usize = 0;
        while k < self.faces.len()
            invariant
                k <= self.faces.len(),
                is_mesh(self.vertices@, self.faces@),
                stream@.len() == 3 * k,
                forall|i: int|
                    0 <= i < 3 * k ==> stream@[i] == triangle_stream(
                        self.vertices@,
                        self.faces@,
                    )[i],
            decreases self.faces.len() - k,
        {
            let (a, b, c) = self.triangle(k);
            stream.push(a);
            stream.push(b);
            stream.push(c);
            k += 1;
        }
        stream
    }
}

/// The key under which the uses of the edge joining `a` and `b` are counted,
/// for `a` below `b`.
spec fn edge_key(a: int, b: int) -> u64 {
    (a * 0x1_0000_0000 + b) as u64
}

/// The key of the edge joining two corners, whichever comes first.
spec fn side_key(a: i32, b: i32) -> u64 {
    if a < b {
        edge_key(a as int, b as int)
    } else {
        edge_key(b as int, a as int)
    }
}

/// The count kept under `key`: zero where none is kept.
spec fn tally(uses: Map<u64, u8>, key: u64) -> nat {
    if uses.contains_key(key) {
        uses[key] as nat
    } else {
        0
    }
}

/// Whether `uses` counts, for every edge, the faces of `faces` that have it
/// as a side, and none of the counts is above two.
spec fn tallied(uses: Map<u64, u8>, faces: Seq<Face>) -> bool {
    forall|a: int, b: int|
        0 <= a < b <= i32::MAX ==> tally(uses, edge_key(a, b)) == #[trigger] edge_uses(
            faces,
            a,
            b,
        ) && edge_uses(faces, a, b) <= 2
}

/// Counts one more use of the edge joining `a` and `b`, unless two are
/// counted already.
fn tally_edge(uses: &mut HashMap<u64, u8>, a: i32, b: i32) -> (counted: bool)
    requires
        0 <= a,
        0 <= b,
        a != b,
    ensures
        counted == (tally(old(uses)@, side_key(a, b)) < 2),
        counted ==> final(uses)@ == old(uses)@.insert(
            side_key(a, b),
            (tally(old(uses)@, side_key(a, b)) + 1) as u8,
        ),
        !counted ==> final(uses)@ == old(uses)@,
{
    let low: u64 = if a < b {
        a as u64
    } else {
        b as u64
    };
    let high: u64 = if a < b {
        b as u64
    } else {
        a as u64
    };
    let key: u64 = low * 0x1_0000_0000 + high;
    let seen: u8 = match uses.get(&key) {
        Some(n) => *n,
        None => 0,
    };
    if seen < 2 {
        uses.insert(key, seen + 1);
        true
    } else {
        false
    }
}

/// The faces before a given one use an edge no more often than all faces do.
proof fn lemma_edge_uses_grow(faces: Seq<Face>, upto: int, a: int, b: int)
    requires
        0 <= upto <= faces.len(),
    ensures
        edge_uses(faces.take(upto), a, b) <= edge_uses(faces, a, b),
    decreases faces.len(),
{
    if upto == faces.len() {
        assert(faces.take(upto) =~= faces);
    } else {
        assert(faces.drop_last().take(upto) =~= faces.take(upto));
        lemma_edge_uses_grow(faces.drop_last(), upto, a, b);
    }
}

/// An edge that is no side of any face is used by none.
proof fn lemma_edge_unused(faces: Seq<Face>, a: int, b: int)
    requires
        forall|k: int| 0 <= k < faces.len() ==> !(#[trigger] faces[k]).has_edge(a, b),
    ensures
        edge_uses(faces, a, b) == 0,
    decreases faces.len(),
{
    if faces.len() > 0 {
        lemma_edge_unused(faces.drop_last(), a, b);
    }
}

/// An edge has no direction: it is used as often from `b` to `a` as from `a`
/// to `b`.
proof fn lemma_edge_uses_symmetric(faces: Seq<Face>, a: int, b: int)
    ensures
        edge_uses(faces, a, b) == edge_uses(faces, b, a),
    decreases faces.len(),
{
    if faces.len() > 0 {
        lemma_edge_uses_symmetric(faces.drop_last(), a, b);
    }
}

/// Counting the three sides of face `k` turns a count of the faces before it
/// into a count of the faces up to it; where one of the sides is used twice
/// already, the faces are no mesh.
proof fn lemma_face_tallied(faces: Seq<Face>, k: int, before: Map<u64, u8>, after: Map<u64, u8>)
    requires
        0 <= k < faces.len(),
        0 <= faces[k].v1,
        0 <= faces[k].v2,
        0 <= faces[k].v3,
        faces[k].proper(),
        tallied(before, faces.take(k)),
        ({
            let face = faces[k];
            let k1 = side_key(face.v1, face.v2);
            let k2 = side_key(face.v2, face.v3);
            let k3 = side_key(face.v1, face.v3);
            let full = before.insert(k1, (tally(before, k1) + 1) as u8).insert(
                k2,
                (tally(before, k2) + 1) as u8,
            ).insert(k3, (tally(before, k3) + 1) as u8);
            if tally(before, k1) < 2 && tally(before, k2) < 2 && tally(before, k3) < 2 {
                after == full
            } else {
                true
            }
        }),
    ensures
        ({
            let face = faces[k];
            let k1 = side_key(face.v1, face.v2);
            let k2 = side_key(face.v2, face.v3);
            let k3 = side_key(face.v1, face.v3);
            if tally(before, k1) < 2 && tally(before, k2) < 2 && tally(before, k3) < 2 {
                tallied(after, faces.take(k + 1))
            } else {
                exists|a: int, b: int| edge_uses(faces, a, b) > 2
            }
        }),
{
    let face = faces[k];
    let k1 = side_key(face.v1, face.v2);
    let k2 = side_key(face.v2, face.v3);
    let k3 = side_key(face.v1, face.v3);
    let upto = faces.take(k + 1);
    assert(upto.drop_last() =~= faces.take(k));
    if tally(before, k1) < 2 && tally(before, k2) < 2 && tally(before, k3) < 2 {
        assert forall|a: int, b: int| 0 <= a < b <= i32::MAX implies tally(after, edge_key(a, b))
            == #[trigger] edge_uses(upto, a, b) && edge_uses(upto, a, b) <= 2 by {
            assert(tally(before, edge_key(a, b)) == edge_uses(faces.take(k), a, b));
        }
    } else {
        let (a, b) = if tally(before, k1) >= 2 {
            (face.v1 as int, face.v2 as int)
        } else if tally(before, k2) >= 2 {
            (face.v2 as int, face.v3 as int)
        } else {
            (face.v1 as int, face.v3 as int)
        };
        let (low, high) = if a < b {
            (a, b)
        } else {
            (b, a)
        };
        assert(tally(before, edge_key(low, high)) == edge_uses(faces.take(k), low, high));
        lemma_edge_uses_grow(faces, k + 1, low, high);
    }
}

/// A count of all faces shows that no edge is a side of more than two.
proof fn lemma_tallied_conforms(uses: Map<u64, u8>, faces: Seq<Face>, count: int)
    requires
        tallied(uses, faces),
        forall|k: int| 0 <= k < faces.len() ==> (#[trigger] faces[k]).within(count),
    ensures
        forall|a: int, b: int| #[trigger] edge_uses(faces, a, b) <= 2,
{
    assert forall|a: int, b: int| #[trigger] edge_uses(faces, a, b) <= 2 by {
        if 0 <= a < b <= i32::MAX {
        } else if 0 <= b < a <= i32::MAX {
            lemma_edge_uses_symmetric(faces, a, b);
        } else {
            lemma_edge_unused(faces, a, b);
        }
    }
}

/// Whether `index` names one of `count` vertices.
fn index_within(index: i32, count: usize) -> (within: bool)
    ensures
        within == (0 <= index < count),
{
    index >= 0 && (index as usize) < count
}

} // verus!

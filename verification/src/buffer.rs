//! What the caller on the far side of the boundary gets to read.

use vstd::prelude::*;
use crate::mesh::Mesh2D;
use crate::vector::Vector2;

verus! {

/// A vertex array on its way to the caller, with its element count.
///
/// The count is in elements, fits the 32 bits in which it is reported, and is
/// always the true length of the array.
#[derive(Debug)]
pub struct BufferVec2 {
    data: Vec<Vector2>,
    len: u32,
}

impl View for BufferVec2 {
    type V = Seq<Vector2>;

    closed spec fn view(&self) -> Seq<Vector2> {
        self.data@
    }
}

impl BufferVec2 {
    #[verifier::type_invariant]
    spec fn exact_length(self) -> bool {
        self.len == self.data@.len()
    }

    /// Wraps a vertex array. There is a buffer for it if and only if its
    /// length can be reported in 32 bits; the buffer holds the array
    /// unchanged.
    pub fn new(data: Vec<Vector2>) -> (buffer: Option<BufferVec2>)
        ensures
            data@.len() <= u32::MAX ==> (buffer matches Some(b) && b@ == data@),
            data@.len() > u32::MAX ==> buffer is None,
    {
        let length: usize = data.len();
        if length > 0xFFFF_FFFF {
            None
        } else {
            Some(BufferVec2 { data, len: length as u32 })
        }
    }

    /// The number of vertices in the buffer.
    pub fn len(&self) -> (len: u32)
        ensures
            len == self@.len(),
    {
        proof {
            use_type_invariant(self);
        }
        self.len
    }

    /// The vertices, for reading.
    pub fn as_vec(&self) -> (data: &Vec<Vector2>)
        ensures
            data@ == self@,
    {
        &self.data
    }

    /// Gives up the array and its element count, for the caller to own from
    /// here on.
    pub fn into_parts(self) -> (parts: (Vec<Vector2>, u32))
        ensures
            parts.0@ == self@,
            parts.1 == self@.len(),
    {
        proof {
            use_type_invariant(&self);
        }
        (self.data, self.len)
    }
}

/// Lays a mesh out for the caller: the flat array holds the mesh's triangle
/// stream, vertex for vertex, and the count is its length. This never fails.
pub fn export(mesh: Mesh2D) -> (buffer: BufferVec2)
    ensures
        buffer@ == mesh@,
        buffer@.len() <= u32::MAX,
        buffer@.len() % 3 == 0,
{
    let stream: Vec<Vector2> = mesh.to_stream();
    let length: usize = stream.len();
    BufferVec2 { data: stream, len: length as u32 }
}

} // verus!

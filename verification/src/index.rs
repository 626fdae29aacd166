//! Index buffers, and the sources of indices that a draw consumes.

use std::ops::Deref;
use vstd::prelude::*;
use crate::buffer::{BufferCreationError, BufferMode, BufferType, BufferView, Facade};
use crate::command::{DrawCommandIndices, DrawCommandNoIndices};
use crate::content::Content;

verus! {

/// How the device assembles vertices into shapes.
#[derive(Debug, Copy, Clone, PartialEq, Eq, Structural)]
pub enum PrimitiveType {
    /// Each vertex is a point.
    Points,
    /// Every two vertices are a line.
    LinesList,
    /// Lines of four vertices each, of which the first and the last are
    /// only neighbours.
    LinesListAdjacency,
    /// Each vertex after the first ends a line that the one before began.
    LineStrip,
    /// A line strip whose first and last vertices are only neighbours.
    LineStripAdjacency,
    /// A line strip that the last vertex closes with the first.
    LineLoop,
    /// Every three vertices are a triangle.
    TrianglesList,
    /// Triangles of six vertices each, of which every second one is only a
    /// neighbour.
    TrianglesListAdjacency,
    /// Each vertex after the second makes a triangle with the two before it.
    TriangleStrip,
    /// A triangle strip in which every second vertex is only a neighbour.
    TriangleStripAdjacency,
    /// Each vertex after the second makes a triangle with the one before it
    /// and the first.
    TriangleFan,
    /// Patches for tessellation.
    Patches {
        /// Number of vertices of one patch.
        vertices_per_patch: u16,
    },
}

/// The type of the indices of an index buffer.
#[derive(Debug, Copy, Clone, PartialEq, Eq, Structural)]
pub enum IndexType {
    /// 8-bit unsigned indices.
    U8,
    /// 16-bit unsigned indices.
    U16,
    /// 32-bit unsigned indices.
    U32,
}

impl IndexType {
    /// The number of bytes of one index of this type.
    pub open spec fn spec_size(self) -> nat {
        match self {
            IndexType::U8 => 1,
            IndexType::U16 => 2,
            IndexType::U32 => 4,
        }
    }

    /// The number of bytes of one index of this type.
    pub fn get_size(&self) -> (r: usize)
        ensures
            r == self.spec_size(),
    {
        match self {
            IndexType::U8 => 1,
            IndexType::U16 => 2,
            IndexType::U32 => 4,
        }
    }
}

/// A borrowed array of indices of any of the three types.
#[derive(Debug, Copy, Clone)]
pub enum IndexSlice<'a> {
    /// 8-bit unsigned indices.
    U8(&'a [u8]),
    /// 16-bit unsigned indices.
    U16(&'a [u16]),
    /// 32-bit unsigned indices.
    U32(&'a [u32]),
}

impl<'a> IndexSlice<'a> {
    /// The type of the indices.
    pub open spec fn spec_index_type(self) -> IndexType {
        match self {
            IndexSlice::U8(_) => IndexType::U8,
            IndexSlice::U16(_) => IndexType::U16,
            IndexSlice::U32(_) => IndexType::U32,
        }
    }

    /// The indices as numbers, in their order.
    pub open spec fn spec_values(self) -> Seq<nat> {
        match self {
            IndexSlice::U8(indices) => indices@.map_values(|i: u8| i as nat),
            IndexSlice::U16(indices) => indices@.map_values(|i: u16| i as nat),
            IndexSlice::U32(indices) => indices@.map_values(|i: u32| i as nat),
        }
    }

    /// The type of the indices.
    pub fn get_type(&self) -> (r: IndexType)
        ensures
            r == self.spec_index_type(),
    {
        match self {
            IndexSlice::U8(_) => IndexType::U8,
            IndexSlice::U16(_) => IndexType::U16,
            IndexSlice::U32(_) => IndexType::U32,
        }
    }

    /// The number of indices.
    pub fn len(&self) -> (r: usize)
        ensures
            r == self.spec_values().len(),
    {
        match self {
            IndexSlice::U8(indices) => indices.len(),
            IndexSlice::U16(indices) => indices.len(),
            IndexSlice::U32(indices) => indices.len(),
        }
    }
}

/// A type of integer that can be an index.
pub trait Index: Content {
    /// The tag of this type.
    spec fn spec_index_type() -> IndexType;

    /// The index as a number.
    spec fn spec_value(self) -> nat;

    /// An index takes as many bytes as its tag says.
    proof fn lemma_index_size()
        ensures
            Self::spec_size() == Self::spec_index_type().spec_size(),
    ;

    /// The tag of this type.
    fn get_type() -> (r: IndexType)
        ensures
            r == Self::spec_index_type(),
    ;

    /// The same borrowed indices, with their type as a tag.
    fn as_index_slice<'a>(indices: &'a [Self]) -> (r: IndexSlice<'a>)
        ensures
            r.spec_index_type() == Self::spec_index_type(),
            r.spec_values() == indices@.map_values(|i: Self| i.spec_value()),
    ;
}

impl Index for u8 {
    open spec fn spec_index_type() -> IndexType {
        IndexType::U8
    }

    open spec fn spec_value(self) -> nat {
        self as nat
    }

    proof fn lemma_index_size() {
    }

    fn get_type() -> (r: IndexType) {
        IndexType::U8
    }

    fn as_index_slice<'a>(indices: &'a [u8]) -> (r: IndexSlice<'a>) {
        let r = IndexSlice::U8(indices);
        assert(r.spec_values() =~= indices@.map_values(|i: u8| i.spec_value()));
        r
    }
}

impl Index for u16 {
    open spec fn spec_index_type() -> IndexType {
        IndexType::U16
    }

    open spec fn spec_value(self) -> nat {
        self as nat
    }

    proof fn lemma_index_size() {
    }

    fn get_type() -> (r: IndexType) {
        IndexType::U16
    }

    fn as_index_slice<'a>(indices: &'a [u16]) -> (r: IndexSlice<'a>) {
        let r = IndexSlice::U16(indices);
        assert(r.spec_values() =~= indices@.map_values(|i: u16| i.spec_value()));
        r
    }
}

impl Index for u32 {
    open spec fn spec_index_type() -> IndexType {
        IndexType::U32
    }

    open spec fn spec_value(self) -> nat {
        self as nat
    }

    proof fn lemma_index_size() {
    }

    fn get_type() -> (r: IndexType) {
        IndexType::U32
    }

    fn as_index_slice<'a>(indices: &'a [u32]) -> (r: IndexSlice<'a>) {
        let r = IndexSlice::U32(indices);
        assert(r.spec_values() =~= indices@.map_values(|i: u32| i.spec_value()));
        r
    }
}

/// A list of indices in the memory that the device sees, with the shapes
/// that they are meant to be assembled into.
pub struct IndexBuffer<T: Index> {
    buffer: BufferView<T>,
    primitives: PrimitiveType,
}

impl<T: Index> View for IndexBuffer<T> {
    type V = Seq<T>;

    /// The indices, in their order.
    open spec fn view(&self) -> Seq<T> {
        self.spec_buffer()@
    }
}

impl<T: Index> IndexBuffer<T> {
    /// The shapes that the indices are meant to be assembled into.
    pub closed spec fn spec_primitives_type(&self) -> PrimitiveType {
        self.primitives
    }

    /// The view that holds the indices.
    pub closed spec fn spec_buffer(&self) -> BufferView<T> {
        self.buffer
    }

    /// Builds an index buffer from the answer to the request for a view of
    /// as many indices as `data` holds. A refusal is handed on as it is. A
    /// view that was granted is filled with a copy of `data` and becomes the
    /// buffer, with its type and mode.
    pub fn from_view(
        primitives: PrimitiveType,
        data: &[T],
        answer: Result<BufferView<T>, BufferCreationError>,
    ) -> (r: Result<IndexBuffer<T>, BufferCreationError>)
        requires
            answer matches Ok(view) ==> view@.len() == data@.len(),
        ensures
            match answer {
                Ok(view) => {
                    &&& r matches Ok(buffer)
                    &&& buffer@ == data@
                    &&& buffer.spec_primitives_type() == primitives
                    &&& buffer.spec_buffer().spec_buffer_type() == view.spec_buffer_type()
                    &&& buffer.spec_buffer().spec_mode() == view.spec_mode()
                },
                Err(e) => r == Err::<IndexBuffer<T>, _>(e),
            },
    {
        match answer {
            Err(e) => Err(e),
            Ok(mut buffer) => {
                buffer.write(data);
                Ok(IndexBuffer { buffer, primitives })
            },
        }
    }

    /// Builds an index buffer that holds a copy of `data`, after asking
    /// `facade` for its storage. The result is what `from_view` makes of the
    /// answer to the request for a view of as many zeroed indices, of the
    /// type for indices and the default mode.
    pub fn new<F: Facade>(facade: &F, primitives: PrimitiveType, data: &[T]) -> (r: Result<
        IndexBuffer<T>,
        BufferCreationError,
    >)
        ensures
            r matches Ok(buffer) ==> {
                &&& buffer@ == data@
                &&& buffer.spec_primitives_type() == primitives
                &&& buffer.spec_buffer().spec_buffer_type() == BufferType::ElementArrayBuffer
                &&& buffer.spec_buffer().spec_mode() == BufferMode::Default
            },
            crate::buffer::spec_array_size::<T>(data@.len()) is None ==> r == Err::<
                IndexBuffer<T>,
                _,
            >(BufferCreationError::OutOfMemory),
    {
        Self::from_view(
            primitives,
            data,
            BufferView::empty_array(
                facade,
                BufferType::ElementArrayBuffer,
                data.len(),
                BufferMode::Default,
            ),
        )
    }

    /// The shapes that the indices are meant to be assembled into.
    #[verifier::when_used_as_spec(spec_primitives_type)]
    pub fn get_primitives_type(&self) -> (r: PrimitiveType)
        ensures
            r == self.spec_primitives_type(),
    {
        self.primitives
    }

    /// The type of the indices. One index of this type takes as many bytes
    /// as one element of the buffer.
    pub fn get_indices_type(&self) -> (r: IndexType)
        ensures
            r == T::spec_index_type(),
            r.spec_size() == T::spec_size(),
    {
        proof {
            T::lemma_index_size();
        }
        T::get_type()
    }

    /// The indices, borrowed from the buffer, with their type as a tag.
    pub fn as_slice_any(&self) -> (r: IndexSlice<'_>)
        ensures
            r.spec_index_type() == T::spec_index_type(),
            r.spec_values() == self@.map_values(|i: T| i.spec_value()),
    {
        T::as_index_slice(self.buffer.as_slice())
    }
}

impl<T: Index> Deref for IndexBuffer<T> {
    type Target = BufferView<T>;

    /// The view that holds the indices.
    fn deref(&self) -> (r: &BufferView<T>)
        ensures
            *r == self.spec_buffer(),
            r@ == self@,
    {
        &self.buffer
    }
}

/// What a draw reads its vertices through: a list of draw commands and, if
/// the draws are indexed, a list of indices. A source borrows the lists from
/// the buffers that hold them.
#[derive(Debug, Copy, Clone)]
pub enum IndicesSource<'a> {
    /// Many draws, without indices.
    MultidrawArray {
        /// The draw commands.
        buffer: &'a [DrawCommandNoIndices],
        /// The shapes to assemble the vertices into.
        primitives: PrimitiveType,
    },
    /// Many draws that share one list of indices.
    MultidrawElement {
        /// The draw commands.
        commands: &'a [DrawCommandIndices],
        /// The indices.
        indices: IndexSlice<'a>,
        /// The type of the indices.
        data_type: IndexType,
        /// The shapes to assemble the vertices into.
        primitives: PrimitiveType,
    },
}

impl<'a> IndicesSource<'a> {
    /// The shapes to assemble the vertices into.
    pub fn get_primitives_type(&self) -> (r: PrimitiveType)
        ensures
            r == match *self {
                IndicesSource::MultidrawArray { primitives, .. } => primitives,
                IndicesSource::MultidrawElement { primitives, .. } => primitives,
            },
    {
        match *self {
            IndicesSource::MultidrawArray { primitives, .. } => primitives,
            IndicesSource::MultidrawElement { primitives, .. } => primitives,
        }
    }

    /// The type of the indices, if the draws are indexed.
    pub fn get_indices_type(&self) -> (r: Option<IndexType>)
        ensures
            r == match *self {
                IndicesSource::MultidrawArray { .. } => None,
                IndicesSource::MultidrawElement { data_type, .. } => Some(data_type),
            },
    {
        match *self {
            IndicesSource::MultidrawArray { .. } => None,
            IndicesSource::MultidrawElement { data_type, .. } => Some(data_type),
        }
    }
}

} // verus!

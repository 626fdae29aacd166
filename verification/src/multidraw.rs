//! Buffers of draw commands, to draw many pieces of geometry at once.
//!
//! A buffer owns a view of its records and hands out every operation of the
//! view by dereferencing. The number of records is fixed when the buffer is
//! created.

use std::ops::Deref;
use std::ops::DerefMut;
use vstd::prelude::*;
use crate::buffer::{spec_array_size, zeroed_array};
use crate::buffer::{BufferCreationError, BufferMode, BufferType, BufferView, Facade};
use crate::command::{DrawCommandIndices, DrawCommandNoIndices};
use crate::content::Content;
use crate::index::{Index, IndexBuffer, IndicesSource, PrimitiveType};

verus! {

/// Whether `view` is what the creation of a buffer of `elements` records of
/// type `T` with the mode `mode` gives: so many zeroed records, in storage
/// for draw commands.
pub open spec fn created<T: Content>(
    view: BufferView<T>,
    elements: usize,
    mode: BufferMode,
) -> bool {
    &&& view@.len() == elements
    &&& view@ == zeroed_array::<T>(elements as nat)
    &&& view.spec_buffer_type() == BufferType::DrawIndirectBuffer
    &&& view.spec_mode() == mode
}

/// A buffer containing a list of draw commands without indices.
pub struct DrawCommandsNoIndicesBuffer {
    buffer: BufferView<DrawCommandNoIndices>,
}

impl View for DrawCommandsNoIndicesBuffer {
    type V = Seq<DrawCommandNoIndices>;

    /// The records, in their order.
    open spec fn view(&self) -> Seq<DrawCommandNoIndices> {
        self.spec_buffer()@
    }
}

impl DrawCommandsNoIndicesBuffer {
    /// The view that holds the records.
    pub closed spec fn spec_buffer(&self) -> BufferView<DrawCommandNoIndices> {
        self.buffer
    }

    /// Builds a buffer from the answer to the request for its view. A view
    /// that was granted becomes the buffer, as it is. A refusal is handed on
    /// as it is: no buffer is built in its place.
    pub fn from_view(answer: Result<BufferView<DrawCommandNoIndices>, BufferCreationError>) -> (r: Result<
        DrawCommandsNoIndicesBuffer,
        BufferCreationError,
    >)
        ensures
            match answer {
                Ok(view) => r matches Ok(buffer) && buffer.spec_buffer() == view,
                Err(e) => r == Err::<DrawCommandsNoIndicesBuffer, _>(e),
            },
    {
        match answer {
            Ok(buffer) => Ok(DrawCommandsNoIndicesBuffer { buffer }),
            Err(e) => Err(e),
        }
    }

    /// Builds a buffer of `elements` zeroed records.
    ///
    /// The device decides whether the buffer is created. If it is, it holds
    /// exactly `elements` records. A number of records whose bytes no
    /// `usize` counts is out of memory. The result is what `from_view` makes
    /// of the answer to the request for the view.
    pub fn empty<F: Facade>(facade: &F, elements: usize) -> (r: Result<
        DrawCommandsNoIndicesBuffer,
        BufferCreationError,
    >)
        ensures
            r matches Ok(buffer) ==> created(buffer.spec_buffer(), elements, BufferMode::Default),
            spec_array_size::<DrawCommandNoIndices>(elements as nat) is None ==> r == Err::<
                DrawCommandsNoIndicesBuffer,
                _,
            >(BufferCreationError::OutOfMemory),
    {
        Self::from_view(
            BufferView::empty_array(
                facade,
                BufferType::DrawIndirectBuffer,
                elements,
                BufferMode::Default,
            ),
        )
    }

    /// Builds a buffer of `elements` zeroed records that is written often.
    ///
    /// The device decides whether the buffer is created. If it is, it holds
    /// exactly `elements` records. A number of records whose bytes no
    /// `usize` counts is out of memory. The result is what `from_view` makes
    /// of the answer to the request for the view.
    pub fn empty_dynamic<F: Facade>(facade: &F, elements: usize) -> (r: Result<
        DrawCommandsNoIndicesBuffer,
        BufferCreationError,
    >)
        ensures
            r matches Ok(buffer) ==> created(buffer.spec_buffer(), elements, BufferMode::Dynamic),
            spec_array_size::<DrawCommandNoIndices>(elements as nat) is None ==> r == Err::<
                DrawCommandsNoIndicesBuffer,
                _,
            >(BufferCreationError::OutOfMemory),
    {
        Self::from_view(
            BufferView::empty_array(
                facade,
                BufferType::DrawIndirectBuffer,
                elements,
                BufferMode::Dynamic,
            ),
        )
    }

    /// Builds a buffer of `elements` zeroed records that stays mapped as
    /// long as it lives.
    ///
    /// The device decides whether the buffer is created. If it is, it holds
    /// exactly `elements` records. A number of records whose bytes no
    /// `usize` counts is out of memory. The result is what `from_view` makes
    /// of the answer to the request for the view.
    pub fn empty_persistent<F: Facade>(facade: &F, elements: usize) -> (r: Result<
        DrawCommandsNoIndicesBuffer,
        BufferCreationError,
    >)
        ensures
            r matches Ok(buffer) ==> created(
                buffer.spec_buffer(),
                elements,
                BufferMode::Persistent,
            ),
            spec_array_size::<DrawCommandNoIndices>(elements as nat) is None ==> r == Err::<
                DrawCommandsNoIndicesBuffer,
                _,
            >(BufferCreationError::OutOfMemory),
    {
        Self::from_view(
            BufferView::empty_array(
                facade,
                BufferType::DrawIndirectBuffer,
                elements,
                BufferMode::Persistent,
            ),
        )
    }

    /// Builds a buffer of `elements` zeroed records whose content is not
    /// meant to change.
    ///
    /// The device decides whether the buffer is created. If it is, it holds
    /// exactly `elements` records. A number of records whose bytes no
    /// `usize` counts is out of memory. The result is what `from_view` makes
    /// of the answer to the request for the view.
    pub fn empty_immutable<F: Facade>(facade: &F, elements: usize) -> (r: Result<
        DrawCommandsNoIndicesBuffer,
        BufferCreationError,
    >)
        ensures
            r matches Ok(buffer) ==> created(
                buffer.spec_buffer(),
                elements,
                BufferMode::Immutable,
            ),
            spec_array_size::<DrawCommandNoIndices>(elements as nat) is None ==> r == Err::<
                DrawCommandsNoIndicesBuffer,
                _,
            >(BufferCreationError::OutOfMemory),
    {
        Self::from_view(
            BufferView::empty_array(
                facade,
                BufferType::DrawIndirectBuffer,
                elements,
                BufferMode::Immutable,
            ),
        )
    }

    /// Builds an indices source from this buffer and a primitives type. The
    /// source borrows all the records of the buffer, whatever they hold and
    /// however many they are, and can be passed to a draw.
    pub fn with_primitive_type(&self, primitives: PrimitiveType) -> (r: IndicesSource<'_>)
        ensures
            r matches IndicesSource::MultidrawArray { buffer, primitives: tagged } && {
                &&& buffer@ == self@
                &&& tagged == primitives
            },
    {
        IndicesSource::MultidrawArray { buffer: self.buffer.as_slice(), primitives }
    }
}

impl Deref for DrawCommandsNoIndicesBuffer {
    type Target = BufferView<DrawCommandNoIndices>;

    /// The view that holds the records.
    fn deref(&self) -> (r: &BufferView<DrawCommandNoIndices>)
        ensures
            *r == self.spec_buffer(),
    {
        &self.buffer
    }
}

impl DerefMut for DrawCommandsNoIndicesBuffer {
    /// The view that holds the records, to change them.
    fn deref_mut(&mut self) -> (r: &mut BufferView<DrawCommandNoIndices>)
        ensures
            *r == old(self).spec_buffer(),
            final(self).spec_buffer() == *final(r),
    {
        &mut self.buffer
    }
}

/// A buffer containing a list of draw commands with indices.
pub struct DrawCommandsIndicesBuffer {
    buffer: BufferView<DrawCommandIndices>,
}

impl View for DrawCommandsIndicesBuffer {
    type V = Seq<DrawCommandIndices>;

    /// The records, in their order.
    open spec fn view(&self) -> Seq<DrawCommandIndices> {
        self.spec_buffer()@
    }
}

impl DrawCommandsIndicesBuffer {
    /// The view that holds the records.
    pub closed spec fn spec_buffer(&self) -> BufferView<DrawCommandIndices> {
        self.buffer
    }

    /// Builds a buffer from the answer to the request for its view. A view
    /// that was granted becomes the buffer, as it is. A refusal is handed on
    /// as it is: no buffer is built in its place.
    pub fn from_view(answer: Result<BufferView<DrawCommandIndices>, BufferCreationError>) -> (r: Result<
        DrawCommandsIndicesBuffer,
        BufferCreationError,
    >)
        ensures
            match answer {
                Ok(view) => r matches Ok(buffer) && buffer.spec_buffer() == view,
                Err(e) => r == Err::<DrawCommandsIndicesBuffer, _>(e),
            },
    {
        match answer {
            Ok(buffer) => Ok(DrawCommandsIndicesBuffer { buffer }),
            Err(e) => Err(e),
        }
    }

    /// Builds a buffer of `elements` zeroed records.
    ///
    /// The device decides whether the buffer is created. If it is, it holds
    /// exactly `elements` records. A number of records whose bytes no
    /// `usize` counts is out of memory. The result is what `from_view` makes
    /// of the answer to the request for the view.
    pub fn empty<F: Facade>(facade: &F, elements: usize) -> (r: Result<
        DrawCommandsIndicesBuffer,
        BufferCreationError,
    >)
        ensures
            r matches Ok(buffer) ==> created(buffer.spec_buffer(), elements, BufferMode::Default),
            spec_array_size::<DrawCommandIndices>(elements as nat) is None ==> r == Err::<
                DrawCommandsIndicesBuffer,
                _,
            >(BufferCreationError::OutOfMemory),
    {
        Self::from_view(
            BufferView::empty_array(
                facade,
                BufferType::DrawIndirectBuffer,
                elements,
                BufferMode::Default,
            ),
        )
    }

    /// Builds a buffer of `elements` zeroed records that is written often.
    ///
    /// The device decides whether the buffer is created. If it is, it holds
    /// exactly `elements` records. A number of records whose bytes no
    /// `usize` counts is out of memory. The result is what `from_view` makes
    /// of the answer to the request for the view.
    pub fn empty_dynamic<F: Facade>(facade: &F, elements: usize) -> (r: Result<
        DrawCommandsIndicesBuffer,
        BufferCreationError,
    >)
        ensures
            r matches Ok(buffer) ==> created(buffer.spec_buffer(), elements, BufferMode::Dynamic),
            spec_array_size::<DrawCommandIndices>(elements as nat) is None ==> r == Err::<
                DrawCommandsIndicesBuffer,
                _,
            >(BufferCreationError::OutOfMemory),
    {
        Self::from_view(
            BufferView::empty_array(
                facade,
                BufferType::DrawIndirectBuffer,
                elements,
                BufferMode::Dynamic,
            ),
        )
    }

    /// Builds a buffer of `elements` zeroed records that stays mapped as
    /// long as it lives.
    ///
    /// The device decides whether the buffer is created. If it is, it holds
    /// exactly `elements` records. A number of records whose bytes no
    /// `usize` counts is out of memory. The result is what `from_view` makes
    /// of the answer to the request for the view.
    pub fn empty_persistent<F: Facade>(facade: &F, elements: usize) -> (r: Result<
        DrawCommandsIndicesBuffer,
        BufferCreationError,
    >)
        ensures
            r matches Ok(buffer) ==> created(
                buffer.spec_buffer(),
                elements,
                BufferMode::Persistent,
            ),
            spec_array_size::<DrawCommandIndices>(elements as nat) is None ==> r == Err::<
                DrawCommandsIndicesBuffer,
                _,
            >(BufferCreationError::OutOfMemory),
    {
        Self::from_view(
            BufferView::empty_array(
                facade,
                BufferType::DrawIndirectBuffer,
                elements,
                BufferMode::Persistent,
            ),
        )
    }

    /// Builds a buffer of `elements` zeroed records whose content is not
    /// meant to change.
    ///
    /// The device decides whether the buffer is created. If it is, it holds
    /// exactly `elements` records. A number of records whose bytes no
    /// `usize` counts is out of memory. The result is what `from_view` makes
    /// of the answer to the request for the view.
    pub fn empty_immutable<F: Facade>(facade: &F, elements: usize) -> (r: Result<
        DrawCommandsIndicesBuffer,
        BufferCreationError,
    >)
        ensures
            r matches Ok(buffer) ==> created(
                buffer.spec_buffer(),
                elements,
                BufferMode::Immutable,
            ),
            spec_array_size::<DrawCommandIndices>(elements as nat) is None ==> r == Err::<
                DrawCommandsIndicesBuffer,
                _,
            >(BufferCreationError::OutOfMemory),
    {
        Self::from_view(
            BufferView::empty_array(
                facade,
                BufferType::DrawIndirectBuffer,
                elements,
                BufferMode::Immutable,
            ),
        )
    }

    /// Builds an indices source from this buffer and an index buffer. The
    /// source borrows all the records of this buffer and all the indices of
    /// `index_buffer`, and takes the type of the indices and the primitives
    /// type from `index_buffer`. It can be passed to a draw.
    pub fn with_index_buffer<'a, T: Index>(&'a self, index_buffer: &'a IndexBuffer<T>) -> (r:
        IndicesSource<'a>)
        ensures
            r matches IndicesSource::MultidrawElement { commands, indices, data_type, primitives }
                && {
                &&& commands@ == self@
                &&& indices.spec_index_type() == T::spec_index_type()
                &&& indices.spec_values() == index_buffer@.map_values(|i: T| i.spec_value())
                &&& data_type == T::spec_index_type()
                &&& primitives == index_buffer.spec_primitives_type()
            },
    {
        IndicesSource::MultidrawElement {
            commands: self.buffer.as_slice(),
            indices: index_buffer.as_slice_any(),
            data_type: index_buffer.get_indices_type(),
            primitives: index_buffer.get_primitives_type(),
        }
    }
}

impl Deref for DrawCommandsIndicesBuffer {
    type Target = BufferView<DrawCommandIndices>;

    /// The view that holds the records.
    fn deref(&self) -> (r: &BufferView<DrawCommandIndices>)
        ensures
            *r == self.spec_buffer(),
    {
        &self.buffer
    }
}

impl DerefMut for DrawCommandsIndicesBuffer {
    /// The view that holds the records, to change them.
    fn deref_mut(&mut self) -> (r: &mut BufferView<DrawCommandIndices>)
        ensures
            *r == old(self).spec_buffer(),
            final(self).spec_buffer() == *final(r),
    {
        &mut self.buffer
    }
}

} // verus!

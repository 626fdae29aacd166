//! Memory views: arrays of elements that the device can see.
//!
//! A view is created with a number of elements that never changes. The
//! device decides whether storage is granted; the view keeps the elements on
//! the host side and says which bytes the device reads for them.

use vstd::prelude::*;
use crate::content::{array_bytes, lemma_array_bytes_len, Content};

verus! {

/// What the device uses a buffer for.
#[derive(Debug, Copy, Clone, PartialEq, Eq, Structural)]
pub enum BufferType {
    /// The buffer holds the indices of an indexed draw.
    ElementArrayBuffer,
    /// The buffer holds the commands of an indirect draw.
    DrawIndirectBuffer,
}

/// How a buffer is going to be used.
#[derive(Debug, Copy, Clone, PartialEq, Eq, Structural)]
pub enum BufferMode {
    /// No assumption on how the buffer is used.
    Default,
    /// The buffer is written often.
    Dynamic,
    /// The buffer stays mapped in the memory of the host as long as it lives.
    Persistent,
    /// The content of the buffer is not meant to change once written.
    Immutable,
}

/// Why a buffer could not be created.
#[derive(Debug, Copy, Clone, PartialEq, Eq, Structural)]
pub enum BufferCreationError {
    /// There is not enough memory for the buffer, or the device cannot
    /// address a buffer of this size.
    OutOfMemory,
    /// The device does not support this type of buffer.
    BufferTypeNotSupported,
}

/// The device, as far as buffers need it.
pub trait Facade {
    /// Asks the device for `size` bytes of storage for a buffer of type `ty`
    /// that is used as `mode` says. The device grants the storage or says why
    /// it does not.
    fn reserve(&self, ty: BufferType, size: usize, mode: BufferMode) -> Result<
        (),
        BufferCreationError,
    >;
}

/// The number of bytes that `elements` elements of type `T` take, unless it
/// is more than a `usize` holds.
pub open spec fn spec_array_size<T: Content>(elements: nat) -> Option<usize> {
    if elements * T::spec_size() <= usize::MAX {
        Some((elements * T::spec_size()) as usize)
    } else {
        None
    }
}

/// The number of bytes that `elements` elements of type `T` take, unless it
/// is more than a `usize` holds.
pub fn array_size<T: Content>(elements: usize) -> (r: Option<usize>)
    ensures
        r == spec_array_size::<T>(elements as nat),
{
    elements.checked_mul(T::size())
}

/// What the device is asked for the storage of `elements` elements of type
/// `T`: the type of buffer and the mode as they are given, and the size of
/// the array in bytes. Nothing is asked where no `usize` holds that size.
pub fn allocation_request<T: Content>(ty: BufferType, elements: usize, mode: BufferMode) -> (r:
    Option<(BufferType, usize, BufferMode)>)
    ensures
        r == match spec_array_size::<T>(elements as nat) {
            Some(size) => Some((ty, size, mode)),
            None => None::<(BufferType, usize, BufferMode)>,
        },
{
    match array_size::<T>(elements) {
        Some(size) => Some((ty, size, mode)),
        None => None,
    }
}

/// What fresh storage for `elements` elements holds.
pub open spec fn zeroed_array<T: Content>(elements: nat) -> Seq<T> {
    Seq::new(elements, |i: int| T::spec_zeroed())
}

/// An array of elements of type `T` that the device can see. No operation of
/// a view changes the number of its elements, its type or its mode.
pub struct BufferView<T: Content> {
    content: Vec<T>,
    ty: BufferType,
    mode: BufferMode,
}

impl<T: Content> View for BufferView<T> {
    type V = Seq<T>;

    /// The elements, in their order.
    closed spec fn view(&self) -> Seq<T> {
        self.content@
    }
}

impl<T: Content> BufferView<T> {
    #[verifier::type_invariant]
    spec fn size_fits(self) -> bool {
        self.content@.len() * T::spec_size() <= usize::MAX
    }

    /// What the device uses the buffer for.
    pub closed spec fn spec_buffer_type(&self) -> BufferType {
        self.ty
    }

    /// How the buffer is used.
    pub closed spec fn spec_mode(&self) -> BufferMode {
        self.mode
    }

    /// The bytes that the device reads: those of each element in turn.
    pub open spec fn spec_bytes(&self) -> Seq<u8> {
        array_bytes(self@)
    }

    /// Builds a view of `elements` zeroed elements, after asking `facade` for
    /// their storage. The device is asked once, for what `allocation_request`
    /// gives, and `from_reply` makes the result of its reply. Where no
    /// `usize` holds the size in bytes the device is not asked, and the
    /// result is out of memory.
    pub fn empty_array<F: Facade>(
        facade: &F,
        ty: BufferType,
        elements: usize,
        mode: BufferMode,
    ) -> (r: Result<BufferView<T>, BufferCreationError>)
        ensures
            r matches Ok(view) ==> {
                &&& view@ == zeroed_array::<T>(elements as nat)
                &&& view.spec_buffer_type() == ty
                &&& view.spec_mode() == mode
                &&& spec_array_size::<T>(elements as nat) is Some
            },
            spec_array_size::<T>(elements as nat) is None ==> r == Err::<BufferView<T>, _>(
                BufferCreationError::OutOfMemory,
            ),
    {
        match allocation_request::<T>(ty, elements, mode) {
            None => Err(BufferCreationError::OutOfMemory),
            Some(request) => {
                let reply = facade.reserve(request.0, request.1, request.2);
                Self::from_reply(request.0, elements, request.2, reply)
            },
        }
    }

    /// Builds a view of `elements` zeroed elements from what the device
    /// replied when asked for their storage. A size in bytes that no `usize`
    /// holds is out of memory whatever the reply; otherwise a refusal is
    /// handed on, and a grant gives the view.
    pub fn from_reply(
        ty: BufferType,
        elements: usize,
        mode: BufferMode,
        reply: Result<(), BufferCreationError>,
    ) -> (r: Result<BufferView<T>, BufferCreationError>)
        ensures
            match (spec_array_size::<T>(elements as nat), reply) {
                (None, _) => r == Err::<BufferView<T>, _>(BufferCreationError::OutOfMemory),
                (Some(_), Err(e)) => r == Err::<BufferView<T>, _>(e),
                (Some(_), Ok(_)) => {
                    &&& r matches Ok(view)
                    &&& view@ == zeroed_array::<T>(elements as nat)
                    &&& view.spec_buffer_type() == ty
                    &&& view.spec_mode() == mode
                },
            },
    {
        if array_size::<T>(elements).is_none() {
            return Err(BufferCreationError::OutOfMemory);
        }
        match reply {
            Err(e) => Err(e),
            Ok(_) => {
                let mut content: Vec<T> = Vec::new();
                let mut i: usize = 0;
                while i < elements
                    invariant
                        i <= elements,
                        content@ == zeroed_array::<T>(i as nat),
                    decreases elements - i,
                {
                    content.push(T::zeroed());
                    i += 1;
                    assert(content@ =~= zeroed_array::<T>(i as nat));
                }
                Ok(BufferView { content, ty, mode })
            },
        }
    }

    /// The number of elements.
    pub fn len(&self) -> (r: usize)
        ensures
            r == self@.len(),
    {
        self.content.len()
    }

    /// The number of bytes of the buffer.
    pub fn get_size(&self) -> (r: usize)
        ensures
            r == self@.len() * T::spec_size(),
            r == self.spec_bytes().len(),
    {
        proof {
            use_type_invariant(self);
            lemma_array_bytes_len(self@);
        }
        self.content.len() * T::size()
    }

    /// What the device uses the buffer for.
    #[verifier::when_used_as_spec(spec_buffer_type)]
    pub fn get_buffer_type(&self) -> (r: BufferType)
        ensures
            r == self.spec_buffer_type(),
    {
        self.ty
    }

    /// How the buffer is used.
    #[verifier::when_used_as_spec(spec_mode)]
    pub fn get_mode(&self) -> (r: BufferMode)
        ensures
            r == self.spec_mode(),
    {
        self.mode
    }

    /// Whether the buffer stays mapped as long as it lives.
    pub fn is_persistent(&self) -> (r: bool)
        ensures
            r == (self.spec_mode() == BufferMode::Persistent),
    {
        match self.mode {
            BufferMode::Persistent => true,
            _ => false,
        }
    }

    /// A copy of the elements.
    pub fn read(&self) -> (r: Vec<T>)
        ensures
            r@ == self@,
    {
        let n: usize = self.content.len();
        let mut r: Vec<T> = Vec::new();
        let mut i: usize = 0;
        while i < n
            invariant
                n == self.content@.len(),
                i <= n,
                r@ == self.content@.subrange(0, i as int),
            decreases n - i,
        {
            r.push(self.content[i]);
            i += 1;
            assert(r@ =~= self.content@.subrange(0, i as int));
        }
        assert(r@ =~= self.content@);
        r
    }

    /// Replaces all the elements by those of `data`, which holds as many.
    pub fn write(&mut self, data: &[T])
        requires
            data@.len() == old(self)@.len(),
        ensures
            final(self)@ == data@,
            final(self)@.len() == old(self)@.len(),
            final(self).spec_buffer_type() == old(self).spec_buffer_type(),
            final(self).spec_mode() == old(self).spec_mode(),
    {
        proof {
            use_type_invariant(&*self);
        }
        let n: usize = self.content.len();
        let mut i: usize = 0;
        while i < n
            invariant
                n == data@.len(),
                n == self.content@.len(),
                n * T::spec_size() <= usize::MAX,
                i <= n,
                self.ty == old(self).ty,
                self.mode == old(self).mode,
                forall|j: int| 0 <= j < i ==> self.content@[j] == data@[j],
            decreases n - i,
        {
            self.content[i] = data[i];
            i += 1;
        }
        assert(self.content@ =~= data@);
    }

    /// The element at `index`.
    pub fn get(&self, index: usize) -> (r: T)
        requires
            index < self@.len(),
        ensures
            r == self@[index as int],
    {
        self.content[index]
    }

    /// Replaces the element at `index` by `value`. The other elements stay.
    pub fn set(&mut self, index: usize, value: T)
        requires
            index < old(self)@.len(),
        ensures
            final(self)@ == old(self)@.update(index as int, value),
            final(self)@.len() == old(self)@.len(),
            final(self).spec_buffer_type() == old(self).spec_buffer_type(),
            final(self).spec_mode() == old(self).spec_mode(),
    {
        proof {
            use_type_invariant(&*self);
        }
        self.content[index] = value;
    }

    /// The elements, borrowed from the view.
    pub fn as_slice(&self) -> (r: &[T])
        ensures
            r@ == self@,
    {
        self.content.as_slice()
    }

    /// The bytes that the device reads.
    pub fn to_bytes(&self) -> (r: Vec<u8>)
        ensures
            r@ == self.spec_bytes(),
            r@.len() == self@.len() * T::spec_size(),
    {
        proof {
            lemma_array_bytes_len(self@);
        }
        let n: usize = self.content.len();
        let mut r: Vec<u8> = Vec::new();
        let mut i: usize = 0;
        while i < n
            invariant
                n == self.content@.len(),
                i <= n,
                r@ == array_bytes(self.content@.subrange(0, i as int)),
            decreases n - i,
        {
            self.content[i].extend_bytes(&mut r);
            i += 1;
            assert(self.content@.subrange(0, i as int).drop_last() =~= self.content@.subrange(
                0,
                i - 1,
            ));
        }
        assert(self.content@.subrange(0, n as int) =~= self.content@);
        r
    }
}

} // verus!

//! What a buffer can hold: elements with a fixed layout in bytes.
//!
//! The device reads a buffer as bytes. Every element type therefore says how
//! many bytes an element takes and which bytes they are. Integers are laid
//! out least significant byte first.

use vstd::prelude::*;

verus! {

/// The four bytes of a 32-bit word, least significant first.
pub open spec fn word_bytes(x: u32) -> Seq<u8> {
    seq![
        (x % 256) as u8,
        (x / 256 % 256) as u8,
        (x / 65536 % 256) as u8,
        (x / 16777216) as u8,
    ]
}

/// The 32-bit word whose bytes, least significant first, are the four bytes
/// of `bytes` that start at `at`.
pub open spec fn word_at(bytes: Seq<u8>, at: int) -> u32 {
    (bytes[at] + 256 * bytes[at + 1] + 65536 * bytes[at + 2] + 16777216 * bytes[at + 3]) as u32
}

/// Reading back the bytes of a word gives the word, wherever they stand.
pub proof fn lemma_word_round_trip(x: u32, before: Seq<u8>, after: Seq<u8>)
    ensures
        word_bytes(x).len() == 4,
        word_at(before + word_bytes(x) + after, before.len() as int) == x,
{
    let all = before + word_bytes(x) + after;
    let at = before.len() as int;
    assert(all[at] == word_bytes(x)[0]);
    assert(all[at + 1] == word_bytes(x)[1]);
    assert(all[at + 2] == word_bytes(x)[2]);
    assert(all[at + 3] == word_bytes(x)[3]);
}

/// Four bytes are the bytes of the word they stand for.
pub proof fn lemma_bytes_round_trip(bytes: Seq<u8>, at: int)
    requires
        0 <= at,
        at + 4 <= bytes.len(),
    ensures
        word_bytes(word_at(bytes, at)) == bytes.subrange(at, at + 4),
{
    assert(word_bytes(word_at(bytes, at)) =~= bytes.subrange(at, at + 4));
}

/// The bytes of `x`, least significant first.
pub fn word_to_bytes(x: u32) -> (r: [u8; 4])
    ensures
        r@ == word_bytes(x),
{
    let r: [u8; 4] = [
        (x % 256) as u8,
        (x / 256 % 256) as u8,
        (x / 65536 % 256) as u8,
        (x / 16777216) as u8,
    ];
    assert(r@ =~= word_bytes(x));
    r
}

/// The word that the four bytes of `bytes` from `at` on stand for.
pub fn word_from_bytes(bytes: &[u8], at: usize) -> (r: u32)
    requires
        at + 4 <= bytes@.len(),
    ensures
        r == word_at(bytes@, at as int),
{
    let b0: u32 = bytes[at] as u32;
    let b1: u32 = bytes[at + 1] as u32;
    let b2: u32 = bytes[at + 2] as u32;
    let b3: u32 = bytes[at + 3] as u32;
    b0 + 256 * b1 + 65536 * b2 + 16777216 * b3
}

/// A type of element that a buffer can hold.
pub trait Content: Copy {
    /// The number of bytes that one element takes.
    spec fn spec_size() -> nat;

    /// The bytes of the element, in the order in which the device reads them.
    spec fn spec_bytes(self) -> Seq<u8>;

    /// The element that fresh storage holds.
    spec fn spec_zeroed() -> Self;

    /// An element takes at least one byte, and `spec_bytes` gives as many
    /// bytes as `spec_size` says. The bytes of the zeroed element are zero.
    proof fn lemma_layout(self)
        ensures
            0 < Self::spec_size(),
            self.spec_bytes().len() == Self::spec_size(),
            Self::spec_zeroed().spec_bytes() == Seq::new(Self::spec_size(), |i: int| 0u8),
    ;

    /// The number of bytes that one element takes.
    fn size() -> (r: usize)
        ensures
            r == Self::spec_size(),
    ;

    /// The element that fresh storage holds.
    fn zeroed() -> (r: Self)
        ensures
            r == Self::spec_zeroed(),
    ;

    /// Appends the bytes of the element to `out`.
    fn extend_bytes(&self, out: &mut Vec<u8>)
        ensures
            final(out)@ == old(out)@ + self.spec_bytes(),
    ;
}

impl Content for u8 {
    open spec fn spec_size() -> nat {
        1
    }

    open spec fn spec_bytes(self) -> Seq<u8> {
        seq![self]
    }

    open spec fn spec_zeroed() -> Self {
        0
    }

    proof fn lemma_layout(self) {
        assert(Self::spec_zeroed().spec_bytes() =~= Seq::new(1, |i: int| 0u8));
    }

    fn size() -> (r: usize) {
        1
    }

    fn zeroed() -> (r: Self) {
        0
    }

    fn extend_bytes(&self, out: &mut Vec<u8>) {
        out.push(*self);
        assert(out@ =~= old(out)@ + self.spec_bytes());
    }
}

impl Content for u16 {
    open spec fn spec_size() -> nat {
        2
    }

    open spec fn spec_bytes(self) -> Seq<u8> {
        seq![(self % 256) as u8, (self / 256) as u8]
    }

    open spec fn spec_zeroed() -> Self {
        0
    }

    proof fn lemma_layout(self) {
        assert(Self::spec_zeroed().spec_bytes() =~= Seq::new(2, |i: int| 0u8));
    }

    fn size() -> (r: usize) {
        2
    }

    fn zeroed() -> (r: Self) {
        0
    }

    fn extend_bytes(&self, out: &mut Vec<u8>) {
        out.push((*self % 256) as u8);
        out.push((*self / 256) as u8);
        assert(out@ =~= old(out)@ + self.spec_bytes());
    }
}

impl Content for u32 {
    open spec fn spec_size() -> nat {
        4
    }

    open spec fn spec_bytes(self) -> Seq<u8> {
        word_bytes(self)
    }

    open spec fn spec_zeroed() -> Self {
        0
    }

    proof fn lemma_layout(self) {
        assert(Self::spec_zeroed().spec_bytes() =~= Seq::new(4, |i: int| 0u8));
    }

    fn size() -> (r: usize) {
        4
    }

    fn zeroed() -> (r: Self) {
        0
    }

    fn extend_bytes(&self, out: &mut Vec<u8>) {
        let bytes: [u8; 4] = word_to_bytes(*self);
        out.push(bytes[0]);
        out.push(bytes[1]);
        out.push(bytes[2]);
        out.push(bytes[3]);
        assert(out@ =~= old(out)@ + self.spec_bytes());
    }
}

/// The bytes of an array of elements: those of each element in turn, with
/// nothing between them.
pub open spec fn array_bytes<T: Content>(elements: Seq<T>) -> Seq<u8>
    decreases elements.len(),
{
    if elements.len() == 0 {
        Seq::empty()
    } else {
        array_bytes(elements.drop_last()) + elements.last().spec_bytes()
    }
}

/// An array of `n` elements takes `n` times the size of one.
pub proof fn lemma_array_bytes_len<T: Content>(elements: Seq<T>)
    ensures
        array_bytes(elements).len() == elements.len() * T::spec_size(),
    decreases elements.len(),
{
    if elements.len() > 0 {
        lemma_array_bytes_len(elements.drop_last());
        elements.last().lemma_layout();
        assert(elements.len() * T::spec_size() == (elements.len() - 1) * T::spec_size()
            + T::spec_size()) by (nonlinear_arith);
    }
}

/// Element `i` of an array stands at offset `i` times the size of one
/// element, whatever the other elements hold.
pub proof fn lemma_array_bytes_element<T: Content>(elements: Seq<T>, i: int)
    requires
        0 <= i < elements.len(),
    ensures
        0 <= i * T::spec_size(),
        (i + 1) * T::spec_size() <= array_bytes(elements).len(),
        array_bytes(elements).subrange(i * T::spec_size(), (i + 1) * T::spec_size())
            == elements[i].spec_bytes(),
    decreases elements.len(),
{
    let size = T::spec_size() as int;
    let front = elements.drop_last();
    lemma_array_bytes_len(elements);
    lemma_array_bytes_len(front);
    elements.last().lemma_layout();
    assert(0 <= i * size && (i + 1) * size <= elements.len() * size && (i + 1) * size == i * size
        + size && front.len() * size == elements.len() * size - size) by (nonlinear_arith)
        requires
            0 <= i < elements.len(),
            front.len() == elements.len() - 1,
            0 < size,
    ;
    if i == elements.len() - 1 {
        assert(array_bytes(elements).subrange(i * size, (i + 1) * size)
            =~= elements[i].spec_bytes());
    } else {
        lemma_array_bytes_element(front, i);
        assert((i + 1) * size <= front.len() * size) by (nonlinear_arith)
            requires
                i + 1 <= front.len(),
                0 < size,
        ;
        assert(array_bytes(elements).subrange(i * size, (i + 1) * size) =~= array_bytes(
            front,
        ).subrange(i * size, (i + 1) * size));
    }
}

} // verus!

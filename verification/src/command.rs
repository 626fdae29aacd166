//! The two kinds of draw-command record and their layout.
//!
//! A record is a run of 32-bit words with nothing between or after them, in
//! the order of the fields. The device reads a non-indexed record as 16
//! bytes and an indexed record as 20.

use vstd::prelude::*;
use crate::content::{array_bytes, word_at, word_bytes, word_from_bytes, word_to_bytes, Content};
use crate::content::{lemma_array_bytes_element, lemma_bytes_round_trip, lemma_word_round_trip};

verus! {

/// One entry of a list of draw commands without indices.
#[derive(Debug, Copy, Clone, PartialEq, Eq, Structural)]
pub struct DrawCommandNoIndices {
    /// Number of vertices to draw.
    pub count: libc::c_uint,
    /// Number of instances to draw. If it is `0`, nothing is drawn.
    pub instance_count: libc::c_uint,
    /// First vertex to draw in the vertices source.
    pub first_index: libc::c_uint,
    /// Number of the first instance to draw.
    pub base_instance: libc::c_uint,
}

/// One entry of a list of draw commands with indices.
#[derive(Debug, Copy, Clone, PartialEq, Eq, Structural)]
pub struct DrawCommandIndices {
    /// Number of indices to use in the index buffer.
    pub count: libc::c_uint,
    /// Number of instances to draw. If it is `0`, nothing is drawn.
    pub instance_count: libc::c_uint,
    /// First index to draw in the index buffer.
    pub first_index: libc::c_uint,
    /// Value to add to each index.
    pub base_vertex: libc::c_uint,
    /// Number of the first instance to draw.
    pub base_instance: libc::c_uint,
}

impl DrawCommandNoIndices {
    /// The record that 16 bytes stand for: `count` at offset 0,
    /// `instance_count` at 4, `first_index` at 8 and `base_instance` at 12.
    pub open spec fn spec_from_bytes(bytes: Seq<u8>) -> Self {
        DrawCommandNoIndices {
            count: word_at(bytes, 0),
            instance_count: word_at(bytes, 4),
            first_index: word_at(bytes, 8),
            base_instance: word_at(bytes, 12),
        }
    }

    /// Whether the device draws nothing for this record, which is the case
    /// when it asks for no instance. Such a record is as good as any other:
    /// it can be stored, laid out and read back.
    pub fn draws_nothing(&self) -> (r: bool)
        ensures
            r == (self.instance_count == 0),
    {
        self.instance_count == 0
    }

    /// The record as the device reads it.
    pub fn to_bytes(&self) -> (r: [u8; 16])
        ensures
            r@ == self.spec_bytes(),
    {
        let a: [u8; 4] = word_to_bytes(self.count);
        let b: [u8; 4] = word_to_bytes(self.instance_count);
        let c: [u8; 4] = word_to_bytes(self.first_index);
        let d: [u8; 4] = word_to_bytes(self.base_instance);
        let r: [u8; 16] = [
            a[0], a[1], a[2], a[3],
            b[0], b[1], b[2], b[3],
            c[0], c[1], c[2], c[3],
            d[0], d[1], d[2], d[3],
        ];
        assert(r@ =~= self.spec_bytes());
        r
    }

    /// The record that the device reads from `bytes`.
    pub fn from_bytes(bytes: &[u8; 16]) -> (r: Self)
        ensures
            r == Self::spec_from_bytes(bytes@),
    {
        let all: &[u8] = bytes.as_slice();
        DrawCommandNoIndices {
            count: word_from_bytes(all, 0),
            instance_count: word_from_bytes(all, 4),
            first_index: word_from_bytes(all, 8),
            base_instance: word_from_bytes(all, 12),
        }
    }
}

impl Content for DrawCommandNoIndices {
    open spec fn spec_size() -> nat {
        16
    }

    open spec fn spec_bytes(self) -> Seq<u8> {
        word_bytes(self.count) + word_bytes(self.instance_count) + word_bytes(self.first_index)
            + word_bytes(self.base_instance)
    }

    open spec fn spec_zeroed() -> Self {
        DrawCommandNoIndices { count: 0, instance_count: 0, first_index: 0, base_instance: 0 }
    }

    proof fn lemma_layout(self) {
        assert(Self::spec_zeroed().spec_bytes() =~= Seq::new(16, |i: int| 0u8));
    }

    fn size() -> (r: usize) {
        16
    }

    fn zeroed() -> (r: Self) {
        DrawCommandNoIndices { count: 0, instance_count: 0, first_index: 0, base_instance: 0 }
    }

    fn extend_bytes(&self, out: &mut Vec<u8>) {
        self.count.extend_bytes(out);
        self.instance_count.extend_bytes(out);
        self.first_index.extend_bytes(out);
        self.base_instance.extend_bytes(out);
        assert(out@ =~= old(out)@ + self.spec_bytes());
    }
}

impl DrawCommandIndices {
    /// The record that 20 bytes stand for: `count` at offset 0,
    /// `instance_count` at 4, `first_index` at 8, `base_vertex` at 12 and
    /// `base_instance` at 16.
    pub open spec fn spec_from_bytes(bytes: Seq<u8>) -> Self {
        DrawCommandIndices {
            count: word_at(bytes, 0),
            instance_count: word_at(bytes, 4),
            first_index: word_at(bytes, 8),
            base_vertex: word_at(bytes, 12),
            base_instance: word_at(bytes, 16),
        }
    }

    /// Whether the device draws nothing for this record, which is the case
    /// when it asks for no instance. Such a record is as good as any other:
    /// it can be stored, laid out and read back.
    pub fn draws_nothing(&self) -> (r: bool)
        ensures
            r == (self.instance_count == 0),
    {
        self.instance_count == 0
    }

    /// The record as the device reads it.
    pub fn to_bytes(&self) -> (r: [u8; 20])
        ensures
            r@ == self.spec_bytes(),
    {
        let a: [u8; 4] = word_to_bytes(self.count);
        let b: [u8; 4] = word_to_bytes(self.instance_count);
        let c: [u8; 4] = word_to_bytes(self.first_index);
        let d: [u8; 4] = word_to_bytes(self.base_vertex);
        let e: [u8; 4] = word_to_bytes(self.base_instance);
        let r: [u8; 20] = [
            a[0], a[1], a[2], a[3],
            b[0], b[1], b[2], b[3],
            c[0], c[1], c[2], c[3],
            d[0], d[1], d[2], d[3],
            e[0], e[1], e[2], e[3],
        ];
        assert(r@ =~= self.spec_bytes());
        r
    }

    /// The record that the device reads from `bytes`.
    pub fn from_bytes(bytes: &[u8; 20]) -> (r: Self)
        ensures
            r == Self::spec_from_bytes(bytes@),
    {
        let all: &[u8] = bytes.as_slice();
        DrawCommandIndices {
            count: word_from_bytes(all, 0),
            instance_count: word_from_bytes(all, 4),
            first_index: word_from_bytes(all, 8),
            base_vertex: word_from_bytes(all, 12),
            base_instance: word_from_bytes(all, 16),
        }
    }
}

impl Content for DrawCommandIndices {
    open spec fn spec_size() -> nat {
        20
    }

    open spec fn spec_bytes(self) -> Seq<u8> {
        word_bytes(self.count) + word_bytes(self.instance_count) + word_bytes(self.first_index)
            + word_bytes(self.base_vertex) + word_bytes(self.base_instance)
    }

    open spec fn spec_zeroed() -> Self {
        DrawCommandIndices {
            count: 0,
            instance_count: 0,
            first_index: 0,
            base_vertex: 0,
            base_instance: 0,
        }
    }

    proof fn lemma_layout(self) {
        assert(Self::spec_zeroed().spec_bytes() =~= Seq::new(20, |i: int| 0u8));
    }

    fn size() -> (r: usize) {
        20
    }

    fn zeroed() -> (r: Self) {
        DrawCommandIndices {
            count: 0,
            instance_count: 0,
            first_index: 0,
            base_vertex: 0,
            base_instance: 0,
        }
    }

    fn extend_bytes(&self, out: &mut Vec<u8>) {
        self.count.extend_bytes(out);
        self.instance_count.extend_bytes(out);
        self.first_index.extend_bytes(out);
        self.base_vertex.extend_bytes(out);
        self.base_instance.extend_bytes(out);
        assert(out@ =~= old(out)@ + self.spec_bytes());
    }
}

/// A non-indexed record takes exactly 16 bytes, and reading back the bytes
/// it was laid out as gives the same record, whatever its fields hold.
pub proof fn lemma_no_indices_round_trip(command: DrawCommandNoIndices)
    ensures
        command.spec_bytes().len() == 16,
        DrawCommandNoIndices::spec_from_bytes(command.spec_bytes()) == command,
{
    let empty = Seq::<u8>::empty();
    let a = word_bytes(command.count);
    let b = word_bytes(command.instance_count);
    let c = word_bytes(command.first_index);
    let d = word_bytes(command.base_instance);
    let all = command.spec_bytes();
    lemma_word_round_trip(command.count, empty, b + c + d);
    lemma_word_round_trip(command.instance_count, a, c + d);
    lemma_word_round_trip(command.first_index, a + b, d);
    lemma_word_round_trip(command.base_instance, a + b + c, empty);
    assert(all =~= empty + a + (b + c + d));
    assert(all =~= a + b + (c + d));
    assert(all =~= a + b + c + d);
    assert(all =~= a + b + c + d + empty);
}

/// Every run of 16 bytes is the layout of the non-indexed record it stands
/// for: no byte of a record is padding.
pub proof fn lemma_no_indices_bytes_round_trip(bytes: Seq<u8>)
    requires
        bytes.len() == 16,
    ensures
        DrawCommandNoIndices::spec_from_bytes(bytes).spec_bytes() == bytes,
{
    lemma_bytes_round_trip(bytes, 0);
    lemma_bytes_round_trip(bytes, 4);
    lemma_bytes_round_trip(bytes, 8);
    lemma_bytes_round_trip(bytes, 12);
    assert(DrawCommandNoIndices::spec_from_bytes(bytes).spec_bytes() =~= bytes);
}

/// In an array of non-indexed records, the device reads record `index` from
/// the 16 bytes at offset 16 times `index`, and reads it as it was written.
pub proof fn lemma_no_indices_read_back(records: Seq<DrawCommandNoIndices>, index: int)
    requires
        0 <= index < records.len(),
    ensures
        16 * index + 16 <= array_bytes(records).len(),
        DrawCommandNoIndices::spec_from_bytes(
            array_bytes(records).subrange(16 * index, 16 * index + 16),
        ) == records[index],
{
    lemma_array_bytes_element(records, index);
    lemma_no_indices_round_trip(records[index]);
}

/// A non-indexed record that asks for no instance is a record like any
/// other: the device reads it back as it was laid out, finds zero at the
/// offset of the number of instances, and so draws nothing for it.
pub proof fn lemma_no_indices_without_instances(command: DrawCommandNoIndices)
    requires
        command.instance_count == 0,
    ensures
        command.spec_bytes().subrange(4, 8) == seq![0u8, 0u8, 0u8, 0u8],
        DrawCommandNoIndices::spec_from_bytes(command.spec_bytes()) == command,
{
    lemma_no_indices_round_trip(command);
    assert(command.spec_bytes().subrange(4, 8) =~= seq![0u8, 0u8, 0u8, 0u8]);
}

/// An indexed record takes exactly 20 bytes, and reading back the bytes it
/// was laid out as gives the same record, whatever its fields hold.
pub proof fn lemma_indices_round_trip(command: DrawCommandIndices)
    ensures
        command.spec_bytes().len() == 20,
        DrawCommandIndices::spec_from_bytes(command.spec_bytes()) == command,
{
    let empty = Seq::<u8>::empty();
    let a = word_bytes(command.count);
    let b = word_bytes(command.instance_count);
    let c = word_bytes(command.first_index);
    let d = word_bytes(command.base_vertex);
    let e = word_bytes(command.base_instance);
    let all = command.spec_bytes();
    lemma_word_round_trip(command.count, empty, b + c + d + e);
    lemma_word_round_trip(command.instance_count, a, c + d + e);
    lemma_word_round_trip(command.first_index, a + b, d + e);
    lemma_word_round_trip(command.base_vertex, a + b + c, e);
    lemma_word_round_trip(command.base_instance, a + b + c + d, empty);
    assert(all =~= empty + a + (b + c + d + e));
    assert(all =~= a + b + (c + d + e));
    assert(all =~= a + b + c + (d + e));
    assert(all =~= a + b + c + d + e);
    assert(all =~= a + b + c + d + e + empty);
}

/// Every run of 20 bytes is the layout of the indexed record it stands for:
/// no byte of a record is padding.
pub proof fn lemma_indices_bytes_round_trip(bytes: Seq<u8>)
    requires
        bytes.len() == 20,
    ensures
        DrawCommandIndices::spec_from_bytes(bytes).spec_bytes() == bytes,
{
    lemma_bytes_round_trip(bytes, 0);
    lemma_bytes_round_trip(bytes, 4);
    lemma_bytes_round_trip(bytes, 8);
    lemma_bytes_round_trip(bytes, 12);
    lemma_bytes_round_trip(bytes, 16);
    assert(DrawCommandIndices::spec_from_bytes(bytes).spec_bytes() =~= bytes);
}

/// In an array of indexed records, the device reads record `index` from the
/// 20 bytes at offset 20 times `index`, and reads it as it was written.
pub proof fn lemma_indices_read_back(records: Seq<DrawCommandIndices>, index: int)
    requires
        0 <= index < records.len(),
    ensures
        20 * index + 20 <= array_bytes(records).len(),
        DrawCommandIndices::spec_from_bytes(
            array_bytes(records).subrange(20 * index, 20 * index + 20),
        ) == records[index],
{
    lemma_array_bytes_element(records, index);
    lemma_indices_round_trip(records[index]);
}

/// An indexed record that asks for no instance is a record like any other:
/// the device reads it back as it was laid out, finds zero at the offset of
/// the number of instances, and so draws nothing for it.
pub proof fn lemma_indices_without_instances(command: DrawCommandIndices)
    requires
        command.instance_count == 0,
    ensures
        command.spec_bytes().subrange(4, 8) == seq![0u8, 0u8, 0u8, 0u8],
        DrawCommandIndices::spec_from_bytes(command.spec_bytes()) == command,
{
    lemma_indices_round_trip(command);
    assert(command.spec_bytes().subrange(4, 8) =~= seq![0u8, 0u8, 0u8, 0u8]);
}

} // verus!

//! From records to the bytes a buffer holds.
//!
//! Every record that goes to the GPU is a fixed number of 32-bit words. A
//! slice of records is packed word by word, in order, and the words are then
//! viewed as bytes the way they lie in memory.

use vstd::prelude::*;
use crate::scalar::{Mat4, Vec3, Vec4};

verus! {

/// Byte `k` of a word, counted from the least significant one.
pub open spec fn word_byte(word: u32, k: int) -> u8 {
    if k == 0 {
        (word & 0xff) as u8
    } else if k == 1 {
        ((word >> 8) & 0xff) as u8
    } else if k == 2 {
        ((word >> 16) & 0xff) as u8
    } else {
        ((word >> 24) & 0xff) as u8
    }
}

/// The words laid out with the least significant byte first.
pub open spec fn words_le(words: Seq<u32>) -> Seq<u8> {
    Seq::new(4 * words.len(), |i: int| word_byte(words[i / 4], i % 4))
}

/// The words laid out with the most significant byte first.
pub open spec fn words_be(words: Seq<u32>) -> Seq<u8> {
    Seq::new(4 * words.len(), |i: int| word_byte(words[i / 4], 3 - i % 4))
}

/// `bytes` is how `words` lie in memory, in one of the two byte orders a
/// machine can have.
pub open spec fn is_image_of_words(bytes: Seq<u8>, words: Seq<u32>) -> bool {
    bytes == words_le(words) || bytes == words_be(words)
}

/// Byte `k` of a 16-bit index, counted from the least significant one.
pub open spec fn index_byte(index: u16, k: int) -> u8 {
    if k == 0 {
        (index & 0xff) as u8
    } else {
        ((index >> 8) & 0xff) as u8
    }
}

/// The indices laid out with the least significant byte first.
pub open spec fn indices_le(indices: Seq<u16>) -> Seq<u8> {
    Seq::new(2 * indices.len(), |i: int| index_byte(indices[i / 2], i % 2))
}

/// The indices laid out with the most significant byte first.
pub open spec fn indices_be(indices: Seq<u16>) -> Seq<u8> {
    Seq::new(2 * indices.len(), |i: int| index_byte(indices[i / 2], 1 - i % 2))
}

/// `bytes` is how `indices` lie in memory, in one of the two byte orders a
/// machine can have.
pub open spec fn is_image_of_indices(bytes: Seq<u8>, indices: Seq<u16>) -> bool {
    bytes == indices_le(indices) || bytes == indices_be(indices)
}

/// The memory image of a slice of words, through `bytemuck::cast_slice` from
/// `u32` to `u8`. That function reinterprets the slice's memory without
/// copying or converting; it cannot fail towards `u8`, which has alignment 1
/// and size 1. Trusted: the result holds four bytes per word, each word's
/// bytes in the machine's byte order.
#[verifier::external_body]
fn words_to_bytes(words: &[u32]) -> (bytes: Vec<u8>)
    ensures
        is_image_of_words(bytes@, words@),
{
    bytemuck::cast_slice::<u32, u8>(words).to_vec()
}

/// The memory image of a slice of 16-bit indices, through
/// `bytemuck::cast_slice` from `u16` to `u8`. Trusted: the result holds two
/// bytes per index, each index's bytes in the machine's byte order.
#[verifier::external_body]
fn indices_to_bytes(indices: &[u16]) -> (bytes: Vec<u8>)
    ensures
        is_image_of_indices(bytes@, indices@),
{
    bytemuck::cast_slice::<u16, u8>(indices).to_vec()
}

/// A record with a fixed layout of 32-bit words.
pub trait GpuData: Sized {
    /// Number of words in a record.
    spec fn word_count() -> nat;

    /// The record's words, in buffer order.
    spec fn words(&self) -> Seq<u32>;

    /// Every record has `word_count()` words.
    proof fn lemma_word_count(&self)
        ensures
            self.words().len() == Self::word_count(),
    ;

    /// Appends the record's words to `out`.
    fn write_words(&self, out: &mut Vec<u32>)
        ensures
            final(out)@ == old(out)@ + self.words(),
    ;
}

/// The sixteen entries of a matrix, column after column.
pub open spec fn mat4_words(m: Mat4) -> Seq<u32> {
    m[0]@ + m[1]@ + m[2]@ + m[3]@
}

/// Appends three numbers to `out`.
pub fn push_vec3(out: &mut Vec<u32>, v: &Vec3)
    ensures
        final(out)@ == old(out)@ + v@,
{
    out.push(v[0]);
    out.push(v[1]);
    out.push(v[2]);
    assert(out@ =~= old(out)@ + v@);
}

/// Appends four numbers to `out`.
pub fn push_vec4(out: &mut Vec<u32>, v: &Vec4)
    ensures
        final(out)@ == old(out)@ + v@,
{
    out.push(v[0]);
    out.push(v[1]);
    out.push(v[2]);
    out.push(v[3]);
    assert(out@ =~= old(out)@ + v@);
}

/// Appends a matrix to `out`, column after column.
pub fn push_mat4(out: &mut Vec<u32>, m: &Mat4)
    ensures
        final(out)@ == old(out)@ + mat4_words(*m),
{
    push_vec4(out, &m[0]);
    push_vec4(out, &m[1]);
    push_vec4(out, &m[2]);
    push_vec4(out, &m[3]);
    assert(out@ =~= old(out)@ + mat4_words(*m));
}

/// The words of a sequence of records, one record after another.
pub open spec fn packed<T: GpuData>(items: Seq<T>) -> Seq<u32>
    decreases items.len(),
{
    if items.len() == 0 {
        Seq::empty()
    } else {
        packed(items.drop_last()) + items.last().words()
    }
}

/// Packing takes `word_count()` words per record.
pub proof fn lemma_packed_len<T: GpuData>(items: Seq<T>)
    ensures
        packed(items).len() == items.len() * T::word_count(),
    decreases items.len(),
{
    if items.len() == 0 {
        assert(items.len() * T::word_count() == 0);
    } else {
        let front = items.drop_last();
        lemma_packed_len(front);
        items.last().lemma_word_count();
        assert(items.len() * T::word_count() == front.len() * T::word_count() + T::word_count())
            by (nonlinear_arith)
            requires
                items.len() == front.len() + 1,
        ;
    }
}

/// Word `j` of record `i` stands at `i * word_count() + j` of the packing.
pub proof fn lemma_packed_index<T: GpuData>(items: Seq<T>, i: int, j: int)
    requires
        0 <= i < items.len(),
        0 <= j < T::word_count(),
    ensures
        0 <= i * T::word_count() + j < packed(items).len(),
        packed(items)[i * T::word_count() + j] == items[i].words()[j],
    decreases items.len(),
{
    let front = items.drop_last();
    lemma_packed_len(items);
    lemma_packed_len(front);
    items.last().lemma_word_count();
    assert(0 <= i * T::word_count() && i * T::word_count() + T::word_count() <= items.len()
        * T::word_count()) by (nonlinear_arith)
        requires
            0 <= i < items.len(),
    ;
    if i < front.len() {
        lemma_packed_index(front, i, j);
        assert(front[i] == items[i]);
    } else {
        assert(i * T::word_count() == front.len() * T::word_count());
        assert(items[i] == items.last());
    }
}

/// Packs records into words.
pub fn pack<T: GpuData>(items: &[T]) -> (words: Vec<u32>)
    ensures
        words@ == packed(items@),
{
    let mut words: Vec<u32> = Vec::new();
    let mut i: usize = 0;
    while i < items.len()
        invariant
            i <= items.len(),
            words@ == packed(items@.take(i as int)),
        decreases items.len() - i,
    {
        items[i].write_words(&mut words);
        proof {
            assert(items@.take(i + 1).drop_last() =~= items@.take(i as int));
            assert(items@.take(i + 1).last() == items@[i as int]);
        }
        i = i + 1;
    }
    proof {
        assert(items@.take(i as int) =~= items@);
    }
    words
}

/// The bytes that a buffer holding `items` holds.
pub fn to_bytes<T: GpuData>(items: &[T]) -> (bytes: Vec<u8>)
    ensures
        is_image_of_words(bytes@, packed(items@)),
        bytes@.len() == 4 * items@.len() * T::word_count(),
{
    let words = pack(items);
    proof {
        lemma_packed_len(items@);
        assert(4 * (items@.len() * T::word_count()) == 4 * items@.len() * T::word_count())
            by (nonlinear_arith);
    }
    words_to_bytes(words.as_slice())
}

/// The bytes that an index buffer holding `indices` holds.
pub fn index_bytes(indices: &[u16]) -> (bytes: Vec<u8>)
    ensures
        is_image_of_indices(bytes@, indices@),
        bytes@.len() == 2 * indices@.len(),
{
    indices_to_bytes(indices)
}

} // verus!

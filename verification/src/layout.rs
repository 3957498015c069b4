//! The byte layout of values written into a shader storage block.
//!
//! A storage block is read by the shader under a rule that places every
//! aggregate, and every three-component vector, on a 16-byte boundary. A
//! [`GpuRecord`] states its encoding byte by byte, so the offsets the shader
//! reads at are part of each record's contract.

use vstd::prelude::*;

verus! {

/// The boundary on which every record, and every padded vector in it, starts.
pub const BLOCK_ALIGNMENT: usize = 16;

/// The four bytes of a word, least significant first.
pub open spec fn word_bytes(w: u32) -> Seq<u8> {
    seq![
        (w as int % 256) as u8,
        (w as int / 256 % 256) as u8,
        (w as int / 65536 % 256) as u8,
        (w as int / 16777216) as u8,
    ]
}

/// The word whose four bytes stand at `at`, least significant first.
pub open spec fn word_at(bytes: Seq<u8>, at: int) -> int
    recommends
        0 <= at,
        at + 4 <= bytes.len(),
{
    bytes[at] as int + 256 * (bytes[at + 1] as int) + 65536 * (bytes[at + 2] as int) + 16777216 * (
    bytes[at + 3] as int)
}

/// `n` zero bytes.
pub open spec fn padding(n: nat) -> Seq<u8> {
    Seq::new(n, |i: int| 0u8)
}

/// A value with a fixed encoding in a storage block.
pub trait GpuRecord: Sized {
    /// Bytes that one value occupies, padding included.
    spec fn stride() -> nat;

    /// The bytes of this value as the shader reads them.
    spec fn encoding(&self) -> Seq<u8>;

    /// Strides keep consecutive records on the block's alignment.
    proof fn lemma_stride()
        ensures
            Self::stride() > 0,
            Self::stride() % (BLOCK_ALIGNMENT as nat) == 0,
    ;

    /// Every encoding fills its stride.
    proof fn lemma_layout(&self)
        ensures
            self.encoding().len() == Self::stride(),
    ;

    /// The stride as a number to allocate with.
    fn byte_size() -> (n: usize)
        ensures
            n == Self::stride(),
    ;

    /// Appends this value's encoding to `out`.
    fn encode(&self, out: &mut Vec<u8>)
        ensures
            final(out)@ == old(out)@ + self.encoding(),
    ;
}

/// The encodings of `records`, one after the other.
pub open spec fn encode_all<T: GpuRecord>(records: Seq<T>) -> Seq<u8>
    decreases records.len(),
{
    if records.len() == 0 {
        Seq::<u8>::empty()
    } else {
        encode_all(records.drop_last()) + records.last().encoding()
    }
}

/// An array of records is as long as its count times the stride.
pub proof fn lemma_encode_all_len<T: GpuRecord>(records: Seq<T>)
    ensures
        encode_all(records).len() == records.len() * T::stride(),
    decreases records.len(),
{
    if records.len() > 0 {
        lemma_encode_all_len(records.drop_last());
        records.last().lemma_layout();
        assert((records.len() - 1) * T::stride() + T::stride() == records.len() * T::stride())
            by (nonlinear_arith);
    }
}

/// Record `i` of an encoded array stands at byte `i * stride`.
pub proof fn lemma_encode_all_record<T: GpuRecord>(records: Seq<T>, i: int)
    requires
        0 <= i < records.len(),
    ensures
        (i + 1) * T::stride() <= encode_all(records).len(),
        encode_all(records).subrange(i * T::stride(), (i + 1) * T::stride())
            == records[i].encoding(),
    decreases records.len(),
{
    let head = records.drop_last();
    let s: int = T::stride() as int;
    lemma_encode_all_len(records);
    lemma_encode_all_len(head);
    records.last().lemma_layout();
    records[i].lemma_layout();
    T::lemma_stride();
    assert((i + 1) * s == i * s + s) by (nonlinear_arith);
    assert(head.len() * s + s == records.len() * s) by (nonlinear_arith)
        requires
            head.len() + 1 == records.len(),
    ;
    if i == records.len() - 1 {
        assert(encode_all(records).subrange(i * s, (i + 1) * s) =~= records[i].encoding());
    } else {
        lemma_encode_all_record(head, i);
        assert((i + 1) * s <= head.len() * s) by (nonlinear_arith)
            requires
                i + 1 <= head.len(),
                s >= 0,
        ;
        assert(encode_all(records).subrange(i * s, (i + 1) * s) =~= encode_all(head).subrange(
            i * s,
            (i + 1) * s,
        ));
    }
}

/// Appending is associative.
pub proof fn lemma_append_assoc(a: Seq<u8>, b: Seq<u8>, c: Seq<u8>)
    ensures
        (a + b) + c == a + (b + c),
{
    assert((a + b) + c =~= a + (b + c));
}

/// A word is recovered from its four bytes.
pub proof fn lemma_word_round_trip(w: u32)
    ensures
        word_bytes(w).len() == 4,
        word_at(word_bytes(w), 0) == w,
{
}

/// Appends the four bytes of `w`, least significant first.
pub fn push_word(out: &mut Vec<u8>, w: u32)
    ensures
        final(out)@ == old(out)@ + word_bytes(w),
{
    out.push((w % 256) as u8);
    out.push((w / 256 % 256) as u8);
    out.push((w / 65536 % 256) as u8);
    out.push((w / 16777216) as u8);
    assert(out@ =~= old(out)@ + word_bytes(w));
}

/// Appends `n` zero bytes.
pub fn push_padding(out: &mut Vec<u8>, n: usize)
    ensures
        final(out)@ == old(out)@ + padding(n as nat),
{
    let mut i: usize = 0;
    while i < n
        invariant
            i <= n,
            out@ == old(out)@ + padding(i as nat),
        decreases n - i,
    {
        out.push(0u8);
        i = i + 1;
        assert(out@ =~= old(out)@ + padding(i as nat));
    }
}

/// Reads the word whose bytes stand at `at`.
pub fn read_word(bytes: &Vec<u8>, at: usize) -> (w: u32)
    requires
        at + 4 <= bytes.len(),
    ensures
        w == word_at(bytes@, at as int),
{
    let b0: u32 = bytes[at] as u32;
    let b1: u32 = bytes[at + 1] as u32;
    let b2: u32 = bytes[at + 2] as u32;
    let b3: u32 = bytes[at + 3] as u32;
    b0 + 256 * b1 + 65536 * b2 + 16777216 * b3
}

/// Appends the encodings of `records`, in order.
pub fn encode_records<T: GpuRecord>(records: &Vec<T>, out: &mut Vec<u8>)
    ensures
        final(out)@ == old(out)@ + encode_all(records@),
{
    let mut i: usize = 0;
    assert(records@.take(0) =~= Seq::<T>::empty());
    while i < records.len()
        invariant
            i <= records@.len(),
            out@ == old(out)@ + encode_all(records@.take(i as int)),
        decreases records@.len() - i,
    {
        records[i].encode(out);
        proof {
            let next = records@.take(i as int + 1);
            assert(next.drop_last() =~= records@.take(i as int));
            assert(next.last() == records@[i as int]);
            assert(out@ =~= old(out)@ + encode_all(next));
        }
        i = i + 1;
    }
    assert(records@.take(i as int) =~= records@);
}

} // verus!

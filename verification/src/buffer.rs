//! Byte sources made of several ranges, and the single payload they are
//! joined into for transmission.

use vstd::prelude::*;
use vstd::seq_lib::lemma_flatten_concat;

verus! {

/// A byte source whose content may lie in several ranges.
///
/// The model of a source is the sequence of the bytes that remain in it, in
/// order. How these are cut into ranges is up to the source.
pub trait WriteBuf {
    /// The bytes between the current position and the end of the source.
    spec fn remaining_bytes(&self) -> Seq<u8>;

    /// The number of bytes that remain.
    fn remaining(&self) -> (n: usize)
        ensures
            n == self.remaining_bytes().len(),
    ;

    /// The first `size` remaining bytes, as a list of ranges in order.
    /// `size` is at most the number of bytes that remain.
    fn vectored_bytes(&self, size: usize) -> (ranges: Vec<Vec<u8>>)
        requires
            size <= self.remaining_bytes().len(),
        ensures
            ranges.deep_view().flatten() == self.remaining_bytes().take(size as int),
    ;
}

/// Cutting a list of ranges after `i` whole ranges and `k` more bytes gives
/// the first bytes of the joined list.
pub proof fn lemma_flatten_prefix(ranges: Seq<Seq<u8>>, i: int, k: int)
    requires
        0 <= i < ranges.len(),
        0 <= k <= ranges[i].len(),
    ensures
        ranges.take(i).flatten().len() + ranges[i].len() <= ranges.flatten().len(),
        ranges.flatten().take(ranges.take(i).flatten().len() + k) == ranges.take(i).flatten()
            + ranges[i].take(k),
{
    let head = ranges.take(i);
    let upto = ranges.take(i + 1);
    let rest = ranges.skip(i + 1);
    assert(upto =~= head.push(ranges[i]));
    assert(ranges =~= upto + rest);
    head.lemma_flatten_push(ranges[i]);
    lemma_flatten_concat(upto, rest);
    assert(ranges.flatten() =~= head.flatten() + ranges[i] + rest.flatten());
    assert(ranges.flatten().take(head.flatten().len() + k) =~= head.flatten() + ranges[i].take(k));
}

/// Joining ranges keeps every byte at its place, and adds none. The ranges
/// lie end to end in the joined sequence: range `i` begins where the ranges
/// before it end, and its byte at offset `k` is found `k` places further on.
pub proof fn law_joined_keeps_bytes(ranges: Seq<Seq<u8>>, i: int, k: int)
    requires
        0 <= i < ranges.len(),
        0 <= k < ranges[i].len(),
    ensures
        ranges.take(i + 1).flatten().len() == ranges.take(i).flatten().len() + ranges[i].len(),
        ranges.take(ranges.len() as int).flatten() == ranges.flatten(),
        ranges.take(i).flatten().len() + k < ranges.flatten().len(),
        ranges.flatten()[ranges.take(i).flatten().len() + k] == ranges[i][k],
{
    let start = ranges.take(i).flatten().len() as int;
    lemma_flatten_prefix(ranges, i, k + 1);
    assert(ranges.take(i + 1) =~= ranges.take(i).push(ranges[i]));
    ranges.take(i).lemma_flatten_push(ranges[i]);
    assert(ranges.take(ranges.len() as int) =~= ranges);
    assert(ranges.flatten().take(start + k + 1)[start + k] == (ranges.take(i).flatten()
        + ranges[i].take(k + 1))[start + k]);
}

/// A copy of the first `n` bytes of `src`.
fn copy_prefix(src: &Vec<u8>, n: usize) -> (out: Vec<u8>)
    requires
        n <= src@.len(),
    ensures
        out@ == src@.take(n as int),
{
    let mut out: Vec<u8> = Vec::new();
    let mut i: usize = 0;
    while i < n
        invariant
            i <= n <= src@.len(),
            out@ == src@.take(i as int),
        decreases n - i,
    {
        out.push(src[i]);
        i += 1;
        assert(src@.take(i as int) =~= src@.take(i - 1).push(src@[i - 1]));
    }
    out
}

/// An in-memory byte source: an ordered list of byte ranges, each in a buffer
/// of its own, together with the total number of bytes in them.
#[derive(Debug, PartialEq, Eq)]
pub struct VectoredBytes {
    ranges: Vec<Vec<u8>>,
    total: usize,
}

impl VectoredBytes {
    #[verifier::type_invariant]
    spec fn well_formed(&self) -> bool {
        self.total == self.ranges.deep_view().flatten().len()
    }

    /// The ranges of this source, in order.
    pub closed spec fn ranges(&self) -> Seq<Seq<u8>> {
        self.ranges.deep_view()
    }

    /// A source over `ranges`. There is none when the ranges together hold
    /// more bytes than a `usize` can count.
    pub fn new(ranges: Vec<Vec<u8>>) -> (source: Option<VectoredBytes>)
        ensures
            source is Some <==> ranges.deep_view().flatten().len() <= usize::MAX,
            source matches Some(s) ==> s.ranges() == ranges.deep_view(),
    {
        let ghost all = ranges.deep_view();
        let mut total: usize = 0;
        let mut i: usize = 0;
        while i < ranges.len()
            invariant
                i <= ranges@.len(),
                all == ranges.deep_view(),
                total == all.take(i as int).flatten().len(),
            decreases ranges@.len() - i,
        {
            proof {
                lemma_flatten_prefix(all, i as int, all[i as int].len() as int);
                assert(all[i as int].take(all[i as int].len() as int) =~= all[i as int]);
                assert(all.take(i + 1) =~= all.take(i as int).push(all[i as int]));
                all.take(i as int).lemma_flatten_push(all[i as int]);
            }
            match total.checked_add(ranges[i].len()) {
                Some(sum) => {
                    total = sum;
                },
                None => {
                    return None;
                },
            }
            i += 1;
        }
        assert(all.take(i as int) =~= all);
        Some(VectoredBytes { ranges, total })
    }

    /// The number of ranges.
    pub fn range_count(&self) -> (n: usize)
        ensures
            n == self.ranges().len(),
    {
        self.ranges.len()
    }
}

impl WriteBuf for VectoredBytes {
    open spec fn remaining_bytes(&self) -> Seq<u8> {
        self.ranges().flatten()
    }

    fn remaining(&self) -> (n: usize) {
        proof {
            use_type_invariant(self);
        }
        self.total
    }

    fn vectored_bytes(&self, size: usize) -> (ranges: Vec<Vec<u8>>) {
        let ghost all = self.ranges.deep_view();
        let mut out: Vec<Vec<u8>> = Vec::new();
        let mut left: usize = size;
        let mut i: usize = 0;
        assert(out.deep_view() =~= Seq::<Seq<u8>>::empty());
        assert(all.take(0).flatten() =~= Seq::<u8>::empty());
        while i < self.ranges.len() && left > 0
            invariant
                i <= self.ranges@.len(),
                all == self.ranges.deep_view(),
                left <= size <= all.flatten().len(),
                size - left == all.take(i as int).flatten().len(),
                out.deep_view().flatten() == all.take(i as int).flatten(),
                all.flatten().take(size - left) == all.take(i as int).flatten(),
            decreases self.ranges@.len() - i,
        {
            let range = &self.ranges[i];
            let ghost before = out.deep_view();
            if range.len() <= left {
                let piece = copy_prefix(range, range.len());
                assert(piece.deep_view() =~= all[i as int]);
                out.push(piece);
                left -= range.len();
                proof {
                    lemma_flatten_prefix(all, i as int, all[i as int].len() as int);
                    assert(all[i as int].take(all[i as int].len() as int) =~= all[i as int]);
                    assert(all.take(i + 1) =~= all.take(i as int).push(all[i as int]));
                    all.take(i as int).lemma_flatten_push(all[i as int]);
                    assert(out.deep_view() =~= before.push(all[i as int]));
                    before.lemma_flatten_push(all[i as int]);
                }
                i += 1;
            } else {
                let piece = copy_prefix(range, left);
                assert(piece.deep_view() =~= all[i as int].take(left as int));
                out.push(piece);
                proof {
                    lemma_flatten_prefix(all, i as int, left as int);
                    assert(out.deep_view() =~= before.push(all[i as int].take(left as int)));
                    before.lemma_flatten_push(all[i as int].take(left as int));
                }
                return out;
            }
        }
        proof {
            if left > 0 {
                assert(all.take(i as int) =~= all);
            }
        }
        out
    }
}

/// The payload of one request: the bytes of a list of ranges, joined in
/// order into one buffer.
#[derive(Debug, PartialEq, Eq)]
pub struct ChunkedBytes {
    bytes: Vec<u8>,
}

impl View for ChunkedBytes {
    type V = Seq<u8>;

    closed spec fn view(&self) -> Seq<u8> {
        self.bytes@
    }
}

impl ChunkedBytes {
    /// Joins `ranges` end to end: no byte is dropped, repeated or moved.
    pub fn from_vec(ranges: Vec<Vec<u8>>) -> (body: ChunkedBytes)
        ensures
            body@ == ranges.deep_view().flatten(),
    {
        let ghost all = ranges.deep_view();
        let mut bytes: Vec<u8> = Vec::new();
        let mut i: usize = 0;
        assert(all.take(0).flatten() =~= Seq::<u8>::empty());
        while i < ranges.len()
            invariant
                i <= ranges@.len(),
                all == ranges.deep_view(),
                bytes@ == all.take(i as int).flatten(),
            decreases ranges@.len() - i,
        {
            let range = &ranges[i];
            let ghost done = bytes@;
            let mut j: usize = 0;
            while j < range.len()
                invariant
                    j <= range@.len(),
                    bytes@ == done + range@.take(j as int),
                decreases range@.len() - j,
            {
                bytes.push(range[j]);
                j += 1;
                assert(range@.take(j as int) =~= range@.take(j - 1).push(range@[j - 1]));
            }
            proof {
                assert(range@.take(j as int) =~= range@);
                assert(all.take(i + 1) =~= all.take(i as int).push(all[i as int]));
                all.take(i as int).lemma_flatten_push(all[i as int]);
            }
            i += 1;
        }
        assert(all.take(i as int) =~= all);
        ChunkedBytes { bytes }
    }

    /// The number of bytes in the payload.
    pub fn len(&self) -> (n: usize)
        ensures
            n == self@.len(),
    {
        self.bytes.len()
    }

    /// Whether the payload holds no byte.
    pub fn is_empty(&self) -> (empty: bool)
        ensures
            empty == (self@.len() == 0),
    {
        self.bytes.len() == 0
    }

    /// The bytes of the payload.
    pub fn as_slice(&self) -> (bytes: &[u8])
        ensures
            bytes@ == self@,
    {
        self.bytes.as_slice()
    }
}

/// The whole remaining content of `source` as one payload, in the source's
/// order and of the source's reported length.
pub fn aggregate<B: WriteBuf>(source: &B) -> (body: ChunkedBytes)
    ensures
        body@ == source.remaining_bytes(),
        body@.len() == source.remaining_bytes().len(),
{
    let size = source.remaining();
    let ranges = source.vectored_bytes(size);
    assert(source.remaining_bytes().take(size as int) =~= source.remaining_bytes());
    ChunkedBytes::from_vec(ranges)
}

} // verus!

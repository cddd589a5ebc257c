//! The multipart chunker: where a payload is cut into the parts of a
//! multipart upload.

use vstd::prelude::*;
use vstd::slice::slice_subrange;

verus! {

/// One part of a payload: the bytes from `start` up to, not including, `end`.
#[derive(Clone, Copy, Debug, PartialEq, Eq, Structural)]
pub struct PartRange {
    pub start: usize,
    pub end: usize,
}

impl PartRange {
    /// The number of bytes in the part.
    pub open spec fn size(self) -> int {
        self.end - self.start
    }

    /// The number of bytes in the part.
    pub fn len(&self) -> (n: usize)
        requires
            self.start <= self.end,
        ensures
            n == self.size(),
    {
        self.end - self.start
    }
}

/// Whether a payload of `len` bytes goes up in parts: only when it is
/// strictly longer than the threshold.
pub open spec fn needs_multipart(len: usize, threshold: usize) -> bool {
    len > threshold
}

/// Where the part that begins at `pos` ends. The tentative cut lies one
/// threshold further; where fewer than `minimum` bytes would be left behind
/// it, the part takes the rest of the payload instead.
pub open spec fn part_end(len: usize, pos: usize, threshold: usize, minimum: usize) -> usize {
    if pos + threshold + minimum <= len {
        (pos + threshold) as usize
    } else {
        len
    }
}

/// The parts of the payload from `pos` on, in upload order. A walk that
/// cannot advance (a zero threshold with at least `minimum` bytes left) has
/// no parts.
pub open spec fn parts_from(len: usize, pos: usize, threshold: usize, minimum: usize) -> Seq<
    PartRange,
>
    decreases len - pos,
{
    let end = part_end(len, pos, threshold, minimum);
    if pos >= len || end <= pos {
        Seq::empty()
    } else {
        seq![PartRange { start: pos, end }] + parts_from(len, end, threshold, minimum)
    }
}

/// The parts of a whole payload of `len` bytes.
pub open spec fn parts_of(len: usize, threshold: usize, minimum: usize) -> Seq<PartRange> {
    parts_from(len, 0, threshold, minimum)
}

/// Whether the walk over a payload of `len` bytes advances at every step.
pub open spec fn walk_advances(len: usize, threshold: usize, minimum: usize) -> bool {
    threshold > 0 || len < minimum
}

/// The bytes of `data` that the parts hold, joined in order.
pub open spec fn joined(data: Seq<u8>, parts: Seq<PartRange>) -> Seq<u8>
    decreases parts.len(),
{
    if parts.len() == 0 {
        Seq::empty()
    } else {
        data.subrange(parts[0].start as int, parts[0].end as int) + joined(
            data,
            parts.subrange(1, parts.len() as int),
        )
    }
}

/// Whether a payload of `len` bytes goes up in parts.
pub fn use_multipart(len: usize, threshold: usize) -> (multipart: bool)
    ensures
        multipart == needs_multipart(len, threshold),
        len <= threshold ==> !multipart,
{
    len > threshold
}

/// Cuts a payload of `len` bytes into the parts of a multipart upload.
pub fn split_parts(len: usize, threshold: usize, minimum: usize) -> (parts: Vec<PartRange>)
    requires
        walk_advances(len, threshold, minimum),
    ensures
        parts@ == parts_of(len, threshold, minimum),
{
    let mut parts: Vec<PartRange> = Vec::new();
    let mut pos: usize = 0;
    while pos < len
        invariant
            pos <= len,
            walk_advances(len, threshold, minimum),
            parts@ + parts_from(len, pos, threshold, minimum) == parts_of(len, threshold, minimum),
        decreases len - pos,
    {
        let rest = len - pos;
        let end = if rest >= threshold && rest - threshold >= minimum {
            pos + threshold
        } else {
            len
        };
        assert(end == part_end(len, pos, threshold, minimum));
        assert(end > pos);
        proof {
            let tail = parts_from(len, end, threshold, minimum);
            let part = PartRange { start: pos, end };
            assert(parts_from(len, pos, threshold, minimum) == seq![part] + tail);
            assert(parts@.push(part) + tail =~= parts@ + (seq![part] + tail));
        }
        parts.push(PartRange { start: pos, end });
        pos = end;
    }
    assert(parts@ + Seq::<PartRange>::empty() =~= parts@);
    parts
}

/// The shape of a walk from `pos`: the parts are non-empty, lie in the
/// payload, follow one another without gap or overlap from `pos` to the end,
/// and every part but the last is one threshold long and leaves at least
/// `minimum` bytes behind it.
pub proof fn lemma_parts_shape(len: usize, pos: usize, threshold: usize, minimum: usize)
    requires
        pos <= len,
        walk_advances(len, threshold, minimum),
    ensures
        ({
            let ps = parts_from(len, pos, threshold, minimum);
            &&& (pos == len <==> ps.len() == 0)
            &&& pos < len ==> ps[0].start == pos && ps.last().end == len
            &&& forall|k: int|
                0 <= k < ps.len() ==> pos <= (#[trigger] ps[k]).start < ps[k].end <= len
            &&& forall|k: int|
                0 <= k && k + 1 < ps.len() ==> {
                    &&& (#[trigger] ps[k]).end == ps[k + 1].start
                    &&& ps[k].size() == threshold
                    &&& ps[k].end + minimum <= len
                }
        }),
    decreases len - pos,
{
    let ps = parts_from(len, pos, threshold, minimum);
    if pos < len {
        let end = part_end(len, pos, threshold, minimum);
        let tail = parts_from(len, end, threshold, minimum);
        let part = PartRange { start: pos, end };
        assert(ps == seq![part] + tail);
        lemma_parts_shape(len, end, threshold, minimum);
        assert(ps[0] == part);
        assert forall|k: int| 1 <= k < ps.len() implies ps[k] == tail[k - 1] by {}
        if tail.len() == 0 {
            assert(ps.last() == part);
        } else {
            assert(ps.last() == tail.last());
            assert(ps[1] == tail[0]);
        }
        assert forall|k: int| 0 <= k < ps.len() implies pos <= (#[trigger] ps[k]).start < ps[k].end
            <= len by {
            if k > 0 {
                assert(ps[k] == tail[k - 1]);
            }
        }
        assert forall|k: int| 0 <= k && k + 1 < ps.len() implies {
            &&& (#[trigger] ps[k]).end == ps[k + 1].start
            &&& ps[k].size() == threshold
            &&& ps[k].end + minimum <= len
        } by {
            assert(ps[k + 1] == tail[k]);
            if k > 0 {
                assert(ps[k] == tail[k - 1]);
            }
        }
    }
}

/// The parts of a payload, joined in upload order, are the payload: nothing
/// is lost, repeated or reordered.
pub proof fn lemma_parts_round_trip(data: Seq<u8>, threshold: usize, minimum: usize)
    requires
        data.len() <= usize::MAX,
        walk_advances(data.len() as usize, threshold, minimum),
    ensures
        joined(data, parts_of(data.len() as usize, threshold, minimum)) == data,
{
    lemma_joined_from(data, 0, threshold, minimum);
    assert(data.subrange(0, data.len() as int) =~= data);
}

/// The parts of a walk from `pos`, joined, are the payload from `pos` on.
pub proof fn lemma_joined_from(data: Seq<u8>, pos: usize, threshold: usize, minimum: usize)
    requires
        pos <= data.len() <= usize::MAX,
        walk_advances(data.len() as usize, threshold, minimum),
    ensures
        joined(data, parts_from(data.len() as usize, pos, threshold, minimum)) == data.subrange(
            pos as int,
            data.len() as int,
        ),
    decreases data.len() - pos,
{
    let len = data.len() as usize;
    let ps = parts_from(len, pos, threshold, minimum);
    if pos < len {
        let end = part_end(len, pos, threshold, minimum);
        let tail = parts_from(len, end, threshold, minimum);
        let part = PartRange { start: pos, end };
        assert(ps == seq![part] + tail);
        assert(ps.subrange(1, ps.len() as int) =~= tail);
        lemma_joined_from(data, end, threshold, minimum);
        assert(data.subrange(pos as int, end as int) + data.subrange(end as int, len as int)
            =~= data.subrange(pos as int, len as int));
    } else {
        assert(data.subrange(pos as int, len as int) =~= Seq::<u8>::empty());
    }
}

/// Every part but the last is exactly one threshold long, and the last part,
/// unless it is the only one, has at least `minimum` bytes: the walk leaves
/// no undersized trailing part.
pub proof fn lemma_part_sizes(len: usize, threshold: usize, minimum: usize, k: int)
    requires
        walk_advances(len, threshold, minimum),
        0 <= k < parts_of(len, threshold, minimum).len(),
    ensures
        ({
            let ps = parts_of(len, threshold, minimum);
            &&& k + 1 < ps.len() ==> ps[k].size() == threshold
            &&& k + 1 == ps.len() && k > 0 ==> ps[k].size() >= minimum
            &&& k + 1 == ps.len() ==> ps[k].end == len
        }),
{
    let ps = parts_of(len, threshold, minimum);
    lemma_parts_shape(len, 0, threshold, minimum);
    if k + 1 == ps.len() && k > 0 {
        assert(ps[k - 1].end == ps[k].start);
        assert(ps[k - 1].end + minimum <= len);
    }
}

/// Where the threshold is no smaller than the minimum part size, every part
/// of a multipart upload has at least `minimum` bytes.
pub proof fn lemma_parts_meet_minimum(len: usize, threshold: usize, minimum: usize, k: int)
    requires
        needs_multipart(len, threshold),
        threshold >= minimum,
        threshold > 0,
        0 <= k < parts_of(len, threshold, minimum).len(),
    ensures
        parts_of(len, threshold, minimum)[k].size() >= minimum,
{
    let ps = parts_of(len, threshold, minimum);
    lemma_parts_shape(len, 0, threshold, minimum);
    lemma_part_sizes(len, threshold, minimum, k);
    if k == 0 && ps.len() == 1 {
        assert(ps[0].start == 0 && ps[0].end == len);
    }
}

/// Every part after the first has at least `minimum` bytes, where the
/// threshold is no smaller than the minimum or the upload has at most two
/// parts. With a smaller threshold and three parts or more, the parts
/// between the first and the last are one threshold long, and so too short.
pub proof fn lemma_later_parts_meet_minimum(len: usize, threshold: usize, minimum: usize, k: int)
    requires
        walk_advances(len, threshold, minimum),
        threshold >= minimum || parts_of(len, threshold, minimum).len() <= 2,
        0 < k < parts_of(len, threshold, minimum).len(),
    ensures
        parts_of(len, threshold, minimum)[k].size() >= minimum,
{
    lemma_part_sizes(len, threshold, minimum, k);
}

/// Cuts a payload into the chunks of a multipart upload, in upload order:
/// chunk `k` holds the bytes of part `k`.
pub fn split_payload<'a>(data: &'a [u8], threshold: usize, minimum: usize) -> (chunks: Vec<
    &'a [u8],
>)
    requires
        walk_advances(data@.len() as usize, threshold, minimum),
    ensures
        chunks@.len() == parts_of(data@.len() as usize, threshold, minimum).len(),
        forall|k: int|
            0 <= k < chunks@.len() ==> (#[trigger] chunks@[k])@ == data@.subrange(
                parts_of(data@.len() as usize, threshold, minimum)[k].start as int,
                parts_of(data@.len() as usize, threshold, minimum)[k].end as int,
            ),
{
    let len = data.len();
    let parts = split_parts(len, threshold, minimum);
    let mut chunks: Vec<&'a [u8]> = Vec::new();
    let mut k: usize = 0;
    proof {
        lemma_parts_shape(len, 0, threshold, minimum);
    }
    while k < parts.len()
        invariant
            len == data@.len(),
            k <= parts@.len(),
            parts@ == parts_of(len, threshold, minimum),
            chunks@.len() == k,
            forall|j: int|
                0 <= j < parts@.len() ==> (#[trigger] parts@[j]).start < parts@[j].end <= len,
            forall|j: int|
                0 <= j < k ==> (#[trigger] chunks@[j])@ == data@.subrange(
                    parts@[j].start as int,
                    parts@[j].end as int,
                ),
        decreases parts@.len() - k,
    {
        let part = parts[k];
        let chunk = slice_subrange(data, part.start, part.end);
        chunks.push(chunk);
        k = k + 1;
    }
    chunks
}

} // verus!

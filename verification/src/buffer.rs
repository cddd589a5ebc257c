//! The buffer provider: one pseudo-random byte buffer per worker, from which
//! every write takes its payload as a sliding window.

use vstd::prelude::*;
use vstd::slice::slice_subrange;
use rand::rngs::OsRng;
use rand::rngs::SmallRng;
use rand::RngCore;
use rand::SeedableRng;

verus! {

/// `rand::rngs::SmallRng`, the fast non-cryptographic generator that fills
/// the buffers. Nothing is known of its state.
#[verifier::external_type_specification]
#[verifier::external_body]
pub struct ExSmallRng(SmallRng);

/// Calls `SmallRng::from_rng` on `rand::rngs::OsRng`: a generator seeded
/// from the operating system, or none where the system has no entropy to
/// give. Nothing is claimed of the generator, and nothing of when there is
/// one: that depends on the machine.
#[verifier::external_body]
fn entropy_rng() -> (rng: Option<SmallRng>) {
    SmallRng::from_rng(OsRng).ok()
}

/// Calls `RngCore::fill_bytes` on the generator: every byte of `buf` is
/// overwritten with generated data. The claim is only that the buffer keeps
/// its length; the bytes themselves may be anything.
#[verifier::external_body]
fn fill_random(rng: &mut SmallRng, buf: &mut Vec<u8>)
    ensures
        final(buf)@.len() == old(buf)@.len(),
{
    rng.fill_bytes(buf.as_mut_slice());
}

/// The length of a worker's buffer: one object, and one more byte for every
/// further key of the working set, so that each key has a window of its own.
pub open spec fn buffer_len(object_size: usize, step: usize) -> int {
    object_size + step
}

/// Whether the window of `index` lies inside a buffer of `len` bytes.
pub open spec fn window_fits(len: int, object_size: usize, index: usize) -> bool {
    index + object_size <= len
}

/// A worker's buffer, filled by `rng`: `object_size + step` bytes, whatever
/// the generator gives.
pub fn fill_buffer(rng: SmallRng, object_size: usize, step: usize) -> (buf: Vec<u8>)
    requires
        object_size + step <= usize::MAX,
    ensures
        buf@.len() == buffer_len(object_size, step),
{
    let mut rng = rng;
    let mut buf: Vec<u8> = vec![0u8; object_size + step];
    fill_random(&mut rng, &mut buf);
    buf
}

/// A worker's buffer, filled with pseudo-random bytes by a generator that
/// the operating system has seeded; none where the system gives no seed.
/// The bytes differ from call to call; the length does not.
pub fn new_buffer(object_size: usize, step: usize) -> (buf: Option<Vec<u8>>)
    requires
        object_size + step <= usize::MAX,
    ensures
        buf matches Some(b) ==> b@.len() == buffer_len(object_size, step),
{
    match entropy_rng() {
        Some(rng) => Some(fill_buffer(rng, object_size, step)),
        None => None,
    }
}

/// The payload of the write at `index`: the `object_size` bytes of the buffer
/// that begin at `index`.
pub fn payload<'a>(buf: &'a [u8], object_size: usize, index: usize) -> (window: &'a [u8])
    requires
        window_fits(buf@.len() as int, object_size, index),
    ensures
        window@ == buf@.subrange(index as int, index + object_size),
{
    let len = buf.len();
    assert(index + object_size <= len);
    slice_subrange(buf, index, index + object_size)
}

/// Every key of the working set has its window: an index below `step` fits
/// in a buffer made for `object_size` and `step`.
pub proof fn lemma_window_fits(object_size: usize, step: usize, index: usize)
    requires
        index < step,
    ensures
        window_fits(buffer_len(object_size, step), object_size, index),
{
}

/// The windows of neighbouring keys overlap in all but one byte: the window
/// of `index + 1` is that of `index` moved on by one.
pub proof fn lemma_windows_slide(buf: Seq<u8>, object_size: usize, index: usize, k: int)
    requires
        index + 1 + object_size <= buf.len(),
        0 <= k,
        k + 1 < object_size,
    ensures
        buf.subrange(index + 1, index + 1 + object_size)[k] == buf.subrange(
            index as int,
            index + object_size,
        )[k + 1],
{
}

} // verus!

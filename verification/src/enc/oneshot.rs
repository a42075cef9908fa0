use vstd::prelude::*;
use brotli_decompressor::{BrotliDecompressStream, BrotliState, StandardAlloc};

verus! {

/// How a call of the stream decoder ended.
#[derive(Debug, Clone, Copy, PartialEq, Eq, Structural)]
pub enum BrotliResult {
    ResultSuccess,
    NeedsMoreInput,
    NeedsMoreOutput,
    ResultFailure,
}

/// What one call of the stream decoder, on a fresh decoder state, gives for
/// the compressed bytes `input` and the output buffer `output` (its length is
/// the room for output, its contents what stands where nothing is written):
/// how the call ended, the input bytes consumed, the output bytes produced,
/// and the output buffer afterwards.
pub uninterp spec fn brotli_decompress_stream_outcome(input: Seq<u8>, output: Seq<u8>) -> (BrotliResult, usize, usize, Seq<u8>);

/// Calls `brotli_decompressor::BrotliDecompressStream` once, on a fresh
/// `BrotliState` backed by the standard allocator, with all of `input` and all
/// of `output` available. Trusted: the decoder's result, the consumed and the
/// produced byte counts, and the output buffer afterwards are taken to be
/// `brotli_decompress_stream_outcome` of the input and of the output buffer
/// before the call. Beyond that name, it claims what the decoder's source
/// shows of its writes: they go only through the output offset, which starts
/// at 0 and moves past each write within the buffer, so the produced count
/// fits the buffer, the buffer keeps its length, and the bytes past the
/// produced count are left as they were. Of the consumed count it claims
/// only that it does not pass the end of the input: the decoder's input
/// offset is its bit reader's read position, which its range checks keep
/// within the input.
#[verifier::external_body]
fn decompress_stream(input: &[u8], output: &mut [u8]) -> (r: (BrotliResult, usize, usize))
    ensures
        (r.0, r.1, r.2, final(output)@) == brotli_decompress_stream_outcome(input@, old(output)@),
        r.1 <= input@.len(),
        r.2 <= old(output)@.len(),
        final(output)@.len() == old(output)@.len(),
        final(output)@.subrange(r.2 as int, old(output)@.len() as int)
            == old(output)@.subrange(r.2 as int, old(output)@.len() as int),
{
    let mut state = BrotliState::new(StandardAlloc::default(), StandardAlloc::default(), StandardAlloc::default());
    let (mut avail_in, mut in_off, mut avail_out, mut out_off, mut total) = (input.len(), 0, output.len(), 0, 0);
    let res = BrotliDecompressStream(&mut avail_in, &mut in_off, input, &mut avail_out, &mut out_off, output, &mut total, &mut state);
    let res = match res {
        brotli_decompressor::BrotliResult::ResultSuccess => BrotliResult::ResultSuccess,
        brotli_decompressor::BrotliResult::NeedsMoreInput => BrotliResult::NeedsMoreInput,
        brotli_decompressor::BrotliResult::NeedsMoreOutput => BrotliResult::NeedsMoreOutput,
        brotli_decompressor::BrotliResult::ResultFailure => BrotliResult::ResultFailure,
    };
    (res, in_off, out_off)
}

/// Compresses `input` into `output` in one call. The encoder is not wired in:
/// nothing is written, and the call reports failure, `(0, 0)`.
pub fn oneshot_compress(input: &mut [u8], output: &mut [u8]) -> (r: (i32, usize))
    ensures
        r == (0i32, 0usize),
        final(input)@ == old(input)@,
        final(output)@ == old(output)@,
{
    let _available_out: usize = output.len();
    (0, 0)
}

/// Decompresses `compressed` into `output` in one call of the stream decoder.
/// Returns how the decoder ended, the compressed bytes consumed and the
/// output bytes produced.
pub fn oneshot_decompress(compressed: &mut [u8], output: &mut [u8]) -> (r: (BrotliResult, usize, usize))
    ensures
        (r.0, r.1, r.2, final(output)@) == brotli_decompress_stream_outcome(old(compressed)@, old(output)@),
        r.1 <= old(compressed)@.len(),
        r.2 <= old(output)@.len(),
        final(output)@.len() == old(output)@.len(),
        final(output)@.subrange(r.2 as int, old(output)@.len() as int)
            == old(output)@.subrange(r.2 as int, old(output)@.len() as int),
        final(compressed)@ == old(compressed)@,
{
    decompress_stream(&*compressed, output)
}

/// Compresses `input` into `compressed`, then decompresses into `output`.
/// When compression fails, `compressed` is taken to hold a compressed stream
/// already, and all of it is decompressed.
pub fn oneshot(input: &mut [u8], compressed: &mut [u8], output: &mut [u8]) -> (r: (BrotliResult, usize, usize))
    ensures
        (r.0, r.1, r.2, final(output)@) == brotli_decompress_stream_outcome(old(compressed)@, old(output)@),
        r.1 <= old(compressed)@.len(),
        r.2 <= old(output)@.len(),
        final(output)@.len() == old(output)@.len(),
        final(output)@.subrange(r.2 as int, old(output)@.len() as int)
            == old(output)@.subrange(r.2 as int, old(output)@.len() as int),
        final(input)@ == old(input)@,
        final(compressed)@ == old(compressed)@,
{
    let (success, mut available_in) = oneshot_compress(input, compressed);
    if success == 0 {
        available_in = compressed.len();
    }
    let ghost before = compressed@;
    let (head, _) = compressed.split_at_mut(available_in);
    assert(head@ =~= before);
    oneshot_decompress(head, output)
}

} // verus!

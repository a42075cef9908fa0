use vstd::prelude::*;

verus! {

#[allow(non_camel_case_types)]
/// The encoder parameters that can be set before compression starts.
pub enum BrotliEncoderParameter {
    BROTLI_PARAM_MODE,
    BROTLI_PARAM_QUALITY,
    BROTLI_PARAM_LGWIN,
    BROTLI_PARAM_LGBLOCK,
    BROTLI_PARAM_DISABLE_LITERAL_CONTEXT_MODELING,
    BROTLI_PARAM_SIZE_HINT,
}

#[allow(non_camel_case_types)]
/// The kind of data the encoder is tuned for.
pub enum BrotliEncoderMode {
    BROTLI_MODE_GENERIC,
    BROTLI_MODE_TEXT,
    BROTLI_MODE_FONT,
}

/// The sliding window of input bytes that the encoder keeps.
pub struct RingBuffer {
    pub size_: u32,
    pub mask_: u32,
    pub tail_size_: u32,
    pub total_size_: u32,
    pub cur_size_: u32,
    pub pos_: u32,
    pub data_: Vec<u8>,
    pub buffer_index: usize,
}

#[allow(non_camel_case_types)]
/// Where a streaming encoder stands.
pub enum BrotliEncoderStreamState {
    BROTLI_STREAM_PROCESSING,
    BROTLI_STREAM_FLUSH_REQUESTED,
    BROTLI_STREAM_FINISHED,
    BROTLI_STREAM_METADATA_HEAD,
    BROTLI_STREAM_METADATA_BODY,
}

} // verus!

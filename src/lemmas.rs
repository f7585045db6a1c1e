use vstd::prelude::*;
use crate::decode::{inspect_spec, prepare_spec};
use crate::error::{DecodeError, HEADER_SIZE_MISMATCH, HEADER_WRONG_PARAM};
use crate::header::{BlobInfo, N_INFO_FIELDS, info_of};

verus! {

/// A header accepted for a buffer states that buffer's length as its blob size.
pub proof fn lemma_blob_size_is_buffer_len(buf_len: usize, status: u32, fields: Seq<u32>)
    requires
        inspect_spec(buf_len, status, fields) is Ok,
    ensures
        inspect_spec(buf_len, status, fields)->Ok_0.blob_size == buf_len,
{
}

/// Whenever a decode is planned, the value buffer holds exactly
/// `n_cols * n_rows * n_bands` entries and the mask `n_cols * n_rows * n_masks`
/// bytes of the inspected header.
pub proof fn lemma_planned_sizes(buf_len: usize, status: u32, fields: Seq<u32>)
    requires
        prepare_spec(buf_len, status, fields) is Ok,
    ensures
        inspect_spec(buf_len, status, fields) is Ok,
        ({
            let info = inspect_spec(buf_len, status, fields)->Ok_0;
            let plan = prepare_spec(buf_len, status, fields)->Ok_0;
            &&& plan.info == info
            &&& plan.data_len == info.n_cols * info.n_rows * info.n_bands
            &&& plan.mask_len == info.n_cols * info.n_rows * info.n_masks
        }),
{
}

/// Inspecting the same buffer twice, with the same native report, gives the
/// same header or the same error.
pub proof fn lemma_inspect_repeatable(
    buf_len: usize,
    status: u32,
    fields: Seq<u32>,
    first: Result<BlobInfo, DecodeError>,
    second: Result<BlobInfo, DecodeError>,
)
    requires
        first == inspect_spec(buf_len, status, fields),
        second == inspect_spec(buf_len, status, fields),
    ensures
        first == second,
{
}

/// An empty buffer, or one shorter than the blob size its header claims, is
/// refused with a header parse error and never planned for decoding.
pub proof fn lemma_truncated_refused(buf_len: usize, status: u32, fields: Seq<u32>)
    requires
        buf_len == 0 || (fields.len() == N_INFO_FIELDS && buf_len < info_of(fields).blob_size),
    ensures
        inspect_spec(buf_len, status, fields) is Err,
        prepare_spec(buf_len, status, fields) is Err,
        inspect_spec(buf_len, status, fields)->Err_0 is HeaderParse,
        prepare_spec(buf_len, status, fields)->Err_0 is HeaderParse,
        buf_len == 0 ==> inspect_spec(buf_len, status, fields) == Err::<BlobInfo, DecodeError>(
            DecodeError::HeaderParse(HEADER_WRONG_PARAM),
        ),
        buf_len > 0 && status == 0 ==> inspect_spec(buf_len, status, fields) == Err::<
            BlobInfo,
            DecodeError,
        >(DecodeError::HeaderParse(HEADER_SIZE_MISMATCH)),
{
}

} // verus!

use vstd::prelude::*;
use crate::error::{DecodeError, HEADER_SIZE_MISMATCH, HEADER_WRONG_PARAM};
use crate::header::{BlobInfo, N_INFO_FIELDS, info_of};

verus! {

/// Largest count that the native interface takes, as an `i32`.
pub const I32_MAX: u32 = 0x7fff_ffff;

/// Sizes of the output buffers for one blob, derived from its header.
#[derive(Debug, Clone, Copy, PartialEq, Eq, Structural)]
pub struct DecodePlan {
    pub info: BlobInfo,
    /// Number of mask bytes: `n_cols * n_rows * n_masks`.
    pub mask_len: usize,
    /// Number of decoded values: `n_cols * n_rows * n_bands`.
    pub data_len: usize,
}

/// Outcome of a header inspection of a buffer of `buf_len` bytes, where the
/// native parser returned `status` and the integer fields `fields`.
pub open spec fn inspect_spec(buf_len: usize, status: u32, fields: Seq<u32>) -> Result<
    BlobInfo,
    DecodeError,
> {
    if buf_len == 0 || buf_len > u32::MAX {
        Err(DecodeError::HeaderParse(HEADER_WRONG_PARAM))
    } else if status != 0 {
        Err(DecodeError::HeaderParse(status))
    } else if fields.len() != N_INFO_FIELDS {
        Err(DecodeError::FieldCount(fields.len() as usize))
    } else if info_of(fields).blob_size != buf_len {
        Err(DecodeError::HeaderParse(HEADER_SIZE_MISMATCH))
    } else {
        Ok(info_of(fields))
    }
}

/// The counts that the native pixel decoder takes as `i32` all fit in one.
pub open spec fn fits_native(info: BlobInfo) -> bool {
    info.n_masks <= i32::MAX && info.n_values_per_pixel <= i32::MAX && info.n_cols <= i32::MAX
        && info.n_rows <= i32::MAX && info.n_bands <= i32::MAX
}

/// The buffer sizes for `info`, or `SizeOverflow` when one exceeds `usize` or
/// a count does not fit the native decoder's `i32` parameters.
pub open spec fn plan_spec(info: BlobInfo) -> Result<DecodePlan, DecodeError> {
    if !fits_native(info) || info.mask_len_spec() > usize::MAX || info.data_len_spec()
        > usize::MAX {
        Err(DecodeError::SizeOverflow)
    } else {
        Ok(
            DecodePlan {
                info,
                mask_len: info.mask_len_spec() as usize,
                data_len: info.data_len_spec() as usize,
            },
        )
    }
}

/// Header inspection followed by buffer planning.
pub open spec fn prepare_spec(buf_len: usize, status: u32, fields: Seq<u32>) -> Result<
    DecodePlan,
    DecodeError,
> {
    match inspect_spec(buf_len, status, fields) {
        Ok(info) => plan_spec(info),
        Err(e) => Err(e),
    }
}

/// `a * b * c`, or `None` when it exceeds `usize`.
pub(crate) fn product3(a: u32, b: u32, c: u32) -> (r: Option<usize>)
    ensures
        r == (if a * b * c > usize::MAX {
            None::<usize>
        } else {
            Some((a * b * c) as usize)
        }),
{
    if c == 0 {
        assert(a * b * c == 0) by (nonlinear_arith)
            requires
                c == 0,
        ;
        return Some(0);
    }
    let ab: Option<usize> = (a as usize).checked_mul(b as usize);
    match ab {
        Some(ab) => {
            let abc: Option<usize> = ab.checked_mul(c as usize);
            abc
        },
        None => {
            assert(a * b * c > usize::MAX) by (nonlinear_arith)
                requires
                    a * b > usize::MAX,
                    c >= 1,
            ;
            None
        },
    }
}

/// Checks a buffer's length before it is handed to the native header parser:
/// it must be non-empty and fit a `u32`, which is returned as the blob size to
/// pass along.
pub fn check_buffer_len(buf_len: usize) -> (r: Result<u32, DecodeError>)
    ensures
        r == (if buf_len == 0 || buf_len > u32::MAX {
            Err::<u32, DecodeError>(DecodeError::HeaderParse(HEADER_WRONG_PARAM))
        } else {
            Ok(buf_len as u32)
        }),
{
    if buf_len == 0 || buf_len > u32::MAX as usize {
        Err(DecodeError::HeaderParse(HEADER_WRONG_PARAM))
    } else {
        Ok(buf_len as u32)
    }
}

/// Turns what the native header parser reported for a buffer of `buf_len`
/// bytes into a header. Each failure is a `HeaderParse`: an empty or
/// oversized buffer, a non-zero native `status`, or a header whose `blob_size`
/// differs from the buffer length.
pub fn inspect(buf_len: usize, status: u32, fields: &Vec<u32>) -> (r: Result<BlobInfo, DecodeError>)
    ensures
        r == inspect_spec(buf_len, status, fields@),
        r is Ok ==> r->Ok_0.blob_size == buf_len,
{
    if let Err(e) = check_buffer_len(buf_len) {
        return Err(e);
    }
    if status != 0 {
        return Err(DecodeError::HeaderParse(status));
    }
    match BlobInfo::from_fields(fields) {
        None => Err(DecodeError::FieldCount(fields.len())),
        Some(info) => {
            if info.blob_size as usize != buf_len {
                Err(DecodeError::HeaderParse(HEADER_SIZE_MISMATCH))
            } else {
                Ok(info)
            }
        },
    }
}

impl DecodePlan {
    /// Computes the exact output buffer sizes for a blob with header `info`.
    pub fn for_info(info: BlobInfo) -> (r: Result<DecodePlan, DecodeError>)
        ensures
            r == plan_spec(info),
    {
        if info.n_masks > I32_MAX || info.n_values_per_pixel > I32_MAX || info.n_cols > I32_MAX
            || info.n_rows > I32_MAX || info.n_bands > I32_MAX {
            return Err(DecodeError::SizeOverflow);
        }
        let mask_len = product3(info.n_cols, info.n_rows, info.n_masks);
        let data_len = product3(info.n_cols, info.n_rows, info.n_bands);
        match (mask_len, data_len) {
            (Some(mask_len), Some(data_len)) => Ok(DecodePlan { info, mask_len, data_len }),
            _ => Err(DecodeError::SizeOverflow),
        }
    }

    /// A zeroed validity mask of exactly `mask_len` bytes.
    pub fn alloc_mask(&self) -> (r: Vec<u8>)
        ensures
            r@ == Seq::new(self.mask_len as nat, |i: int| 0u8),
    {
        filled(0u8, self.mask_len)
    }

    /// A value buffer of exactly `data_len` copies of `zero`.
    pub fn alloc_data<T: Copy>(&self, zero: T) -> (r: Vec<T>)
        ensures
            r@ == Seq::new(self.data_len as nat, |i: int| zero),
    {
        filled(zero, self.data_len)
    }
}

/// First phase of a decode: inspects the header and plans the output buffers.
pub fn prepare_decode(buf_len: usize, status: u32, fields: &Vec<u32>) -> (r: Result<
    DecodePlan,
    DecodeError,
>)
    ensures
        r == prepare_spec(buf_len, status, fields@),
{
    match inspect(buf_len, status, fields) {
        Ok(info) => DecodePlan::for_info(info),
        Err(e) => Err(e),
    }
}

/// Second phase of a decode: a non-zero native pixel decoder `status` fails.
pub fn check_pixel_status(status: u32) -> (r: Result<(), DecodeError>)
    ensures
        r == (if status == 0 {
            Ok::<(), DecodeError>(())
        } else {
            Err(DecodeError::PixelDecode(status))
        }),
{
    if status == 0 {
        Ok(())
    } else {
        Err(DecodeError::PixelDecode(status))
    }
}

/// A vector of `n` copies of `value`.
pub fn filled<T: Copy>(value: T, n: usize) -> (r: Vec<T>)
    ensures
        r@ == Seq::new(n as nat, |i: int| value),
{
    let mut v: Vec<T> = Vec::with_capacity(n);
    let mut k: usize = 0;
    while k < n
        invariant
            k <= n,
            v@ == Seq::new(k as nat, |i: int| value),
        decreases n - k,
    {
        v.push(value);
        k += 1;
        assert(v@ =~= Seq::new(k as nat, |i: int| value));
    }
    v
}

} // verus!

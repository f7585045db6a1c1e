use vstd::prelude::*;
use crate::decode::{I32_MAX, product3};
use crate::error::EncodeError;

verus! {

/// Element type code of 32-bit floats, the type every grid is encoded as.
pub const FLOAT_DATA_TYPE: u32 = 6;

/// Parameters handed to the native size estimator and encoder.
#[derive(Debug, Clone, Copy, PartialEq, Eq, Structural)]
pub struct EncodeParams {
    pub data_type: u32,
    pub n_values_per_pixel: i32,
    pub n_cols: i32,
    pub n_rows: i32,
    pub n_bands: i32,
    /// Always 0: no validity mask, so every pixel is valid.
    pub n_masks: i32,
}

/// The parameters for a grid of `data_len` values with the given dimensions:
/// the length must be `n_rows * n_cols * n_bands`, and each dimension must fit
/// the native encoder's `i32` parameters.
pub open spec fn encode_params_spec(data_len: usize, n_rows: u32, n_cols: u32, n_bands: u32) -> Result<
    EncodeParams,
    EncodeError,
> {
    if n_rows * n_cols * n_bands != data_len {
        Err(EncodeError::DataLength(data_len))
    } else if n_rows > i32::MAX || n_cols > i32::MAX || n_bands > i32::MAX {
        Err(EncodeError::SizeOverflow)
    } else {
        Ok(
            EncodeParams {
                data_type: FLOAT_DATA_TYPE,
                n_values_per_pixel: 1,
                n_cols: n_cols as i32,
                n_rows: n_rows as i32,
                n_bands: n_bands as i32,
                n_masks: 0,
            },
        )
    }
}

impl EncodeParams {
    /// Checks the grid's shape and fixes the parameters of both native calls.
    pub fn for_grid(data_len: usize, n_rows: u32, n_cols: u32, n_bands: u32) -> (r: Result<
        EncodeParams,
        EncodeError,
    >)
        ensures
            r == encode_params_spec(data_len, n_rows, n_cols, n_bands),
    {
        match product3(n_rows, n_cols, n_bands) {
            Some(n) => {
                if n != data_len {
                    return Err(EncodeError::DataLength(data_len));
                }
            },
            None => {
                return Err(EncodeError::DataLength(data_len));
            },
        }
        if n_rows > I32_MAX || n_cols > I32_MAX || n_bands > I32_MAX {
            return Err(EncodeError::SizeOverflow);
        }
        Ok(
            EncodeParams {
                data_type: FLOAT_DATA_TYPE,
                n_values_per_pixel: 1,
                n_cols: n_cols as i32,
                n_rows: n_rows as i32,
                n_bands: n_bands as i32,
                n_masks: 0,
            },
        )
    }
}

/// First phase of an encode: the native size estimator returned `status` and
/// `n_bytes`; on success the capacity to allocate is `n_bytes`.
pub fn check_size_probe(status: u32, n_bytes: u32) -> (r: Result<usize, EncodeError>)
    ensures
        r == (if status == 0 {
            Ok::<usize, EncodeError>(n_bytes as usize)
        } else {
            Err(EncodeError::SizeProbe(status))
        }),
{
    if status == 0 {
        Ok(n_bytes as usize)
    } else {
        Err(EncodeError::SizeProbe(status))
    }
}

/// Second phase of an encode: the native encoder filled `buf`, returned
/// `status` and reported `written` bytes. On success the blob is the first
/// `written` bytes of `buf`.
pub fn finish_encode(status: u32, buf: Vec<u8>, written: u32) -> (r: Result<Vec<u8>, EncodeError>)
    ensures
        status != 0 ==> r == Err::<Vec<u8>, EncodeError>(EncodeError::Encode(status)),
        status == 0 && written > buf@.len() ==> r == Err::<Vec<u8>, EncodeError>(
            EncodeError::Overrun { written, capacity: buf@.len() as usize },
        ),
        status == 0 && written <= buf@.len() ==> r is Ok && r->Ok_0@ == buf@.subrange(
            0,
            written as int,
        ),
{
    if status != 0 {
        return Err(EncodeError::Encode(status));
    }
    let capacity = buf.len();
    if written as usize > capacity {
        return Err(EncodeError::Overrun { written, capacity });
    }
    let mut out = buf;
    out.truncate(written as usize);
    Ok(out)
}

} // verus!

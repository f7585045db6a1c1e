use vstd::prelude::*;

verus! {

/// `HeaderParse` code for a buffer that cannot be handed to the header parser:
/// it is empty, or longer than a `u32` blob size can state. The native codec
/// reports an invalid parameter with the same code.
pub const HEADER_WRONG_PARAM: u32 = 2;

/// `HeaderParse` code for a buffer whose length is not the blob size that its
/// header states, as when a blob was cut short. The native codec reports a
/// buffer that is too small with the same code.
pub const HEADER_SIZE_MISMATCH: u32 = 3;

/// Why a blob could not be inspected or decoded.
#[derive(Debug, Clone, Copy, PartialEq, Eq, Structural)]
pub enum DecodeError {
    /// The header could not be read: the native header parser returned this
    /// non-zero status, or the buffer was refused with `HEADER_WRONG_PARAM`
    /// or `HEADER_SIZE_MISMATCH`.
    HeaderParse(u32),
    /// The header parser handed back this many integer fields instead of nine.
    FieldCount(usize),
    /// An output buffer size does not fit in `usize`.
    SizeOverflow,
    /// The native pixel decoder returned this non-zero status.
    PixelDecode(u32),
}

/// Why a grid could not be encoded.
#[derive(Debug, Clone, Copy, PartialEq, Eq, Structural)]
pub enum EncodeError {
    /// The grid holds this many values, not `rows * cols * bands`.
    DataLength(usize),
    /// The grid dimensions do not fit the native interface.
    SizeOverflow,
    /// The native size estimator returned this non-zero status.
    SizeProbe(u32),
    /// The native encoder returned this non-zero status.
    Encode(u32),
    /// The native encoder reports `written` bytes for a buffer of `capacity`.
    Overrun { written: u32, capacity: usize },
}

} // verus!

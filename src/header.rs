use vstd::prelude::*;

verus! {

/// Number of integer fields in a blob header, in the order of `BlobInfo`.
pub const N_INFO_FIELDS: usize = 9;

/// Integer header of a blob, as reported by the native header parser.
#[derive(Debug, Clone, Copy, PartialEq, Eq, Structural)]
pub struct BlobInfo {
    pub version: u32,
    pub data_type: u32,
    pub n_values_per_pixel: u32,
    pub n_cols: u32,
    pub n_rows: u32,
    pub n_bands: u32,
    pub n_valid_pixels: u32,
    pub blob_size: u32,
    pub n_masks: u32,
}

/// The header whose fields are the first nine entries of `s`, in order.
pub open spec fn info_of(s: Seq<u32>) -> BlobInfo
    recommends
        s.len() >= 9,
{
    BlobInfo {
        version: s[0],
        data_type: s[1],
        n_values_per_pixel: s[2],
        n_cols: s[3],
        n_rows: s[4],
        n_bands: s[5],
        n_valid_pixels: s[6],
        blob_size: s[7],
        n_masks: s[8],
    }
}

impl BlobInfo {
    /// Reads the nine header fields by position.
    pub fn new(vec: &Vec<u32>) -> (r: BlobInfo)
        requires
            vec@.len() == N_INFO_FIELDS,
        ensures
            r == info_of(vec@),
    {
        BlobInfo {
            version: vec[0],
            data_type: vec[1],
            n_values_per_pixel: vec[2],
            n_cols: vec[3],
            n_rows: vec[4],
            n_bands: vec[5],
            n_valid_pixels: vec[6],
            blob_size: vec[7],
            n_masks: vec[8],
        }
    }

    /// Reads the header fields, or `None` when there are not exactly nine.
    pub fn from_fields(fields: &Vec<u32>) -> (r: Option<BlobInfo>)
        ensures
            r == (if fields@.len() == N_INFO_FIELDS {
                Some(info_of(fields@))
            } else {
                None
            }),
    {
        if fields.len() == N_INFO_FIELDS {
            Some(BlobInfo::new(fields))
        } else {
            None
        }
    }

    /// Number of decoded values: one per pixel and band.
    pub open spec fn data_len_spec(self) -> int {
        self.n_cols * self.n_rows * self.n_bands
    }

    /// Number of mask bytes: one per pixel and mask.
    pub open spec fn mask_len_spec(self) -> int {
        self.n_cols * self.n_rows * self.n_masks
    }
}

} // verus!

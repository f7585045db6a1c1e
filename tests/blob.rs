use lerc::decode::{DecodePlan, check_buffer_len, check_pixel_status, filled, inspect, prepare_decode};
use lerc::encode::{EncodeParams, FLOAT_DATA_TYPE, check_size_probe, finish_encode};
use lerc::error::{DecodeError, EncodeError, HEADER_SIZE_MISMATCH, HEADER_WRONG_PARAM};
use lerc::header::BlobInfo;

fn fields(n_cols: u32, n_rows: u32, n_bands: u32, blob_size: u32, n_masks: u32) -> Vec<u32> {
    vec![3, 1, 1, n_cols, n_rows, n_bands, n_cols * n_rows, blob_size, n_masks]
}

#[test]
fn blob_info_reads_fields_in_order() {
    let info = BlobInfo::new(&vec![1, 2, 3, 4, 5, 6, 7, 8, 9]);
    assert_eq!(info.version, 1);
    assert_eq!(info.data_type, 2);
    assert_eq!(info.n_values_per_pixel, 3);
    assert_eq!(info.n_cols, 4);
    assert_eq!(info.n_rows, 5);
    assert_eq!(info.n_bands, 6);
    assert_eq!(info.n_valid_pixels, 7);
    assert_eq!(info.blob_size, 8);
    assert_eq!(info.n_masks, 9);
}

#[test]
fn blob_info_from_fields_checks_count() {
    assert!(BlobInfo::from_fields(&vec![1, 2, 3, 4, 5, 6, 7, 8]).is_none());
    assert!(BlobInfo::from_fields(&vec![1, 2, 3, 4, 5, 6, 7, 8, 9, 10]).is_none());
    let info = BlobInfo::from_fields(&vec![1, 2, 3, 4, 5, 6, 7, 8, 9]).unwrap();
    assert_eq!(info, BlobInfo::new(&vec![1, 2, 3, 4, 5, 6, 7, 8, 9]));
}

#[test]
fn inspect_reports_header() {
    let info = inspect(1000, 0, &fields(256, 256, 3, 1000, 1)).unwrap();
    assert_eq!(info.n_cols, 256);
    assert_eq!(info.n_rows, 256);
    assert_eq!(info.n_bands, 3);
    assert_eq!(info.blob_size, 1000);
}

#[test]
fn inspect_twice_gives_same_header() {
    let f = fields(400, 400, 1, 5000, 1);
    assert_eq!(inspect(5000, 0, &f), inspect(5000, 0, &f));
    assert_eq!(inspect(4000, 0, &f), inspect(4000, 0, &f));
}

#[test]
fn inspect_header_parse_error_keeps_code() {
    assert_eq!(inspect(100, 2, &fields(2, 2, 1, 100, 0)), Err(DecodeError::HeaderParse(2)));
}

#[test]
fn inspect_empty_buffer() {
    assert_eq!(HEADER_WRONG_PARAM, 2);
    assert_eq!(check_buffer_len(0), Err(DecodeError::HeaderParse(HEADER_WRONG_PARAM)));
    assert_eq!(check_buffer_len(1), Ok(1));
    assert_eq!(check_buffer_len(0xffff_ffff), Ok(0xffff_ffff));
    assert_eq!(inspect(0, 0, &fields(2, 2, 1, 0, 0)), Err(DecodeError::HeaderParse(2)));
    assert_eq!(inspect(0, 1, &vec![]), Err(DecodeError::HeaderParse(2)));
    assert!(prepare_decode(0, 0, &fields(2, 2, 1, 0, 0)).is_err());
}

#[test]
fn inspect_truncated_buffer() {
    assert_eq!(
        inspect(99, 0, &fields(2, 2, 1, 100, 0)),
        Err(DecodeError::HeaderParse(HEADER_SIZE_MISMATCH))
    );
    assert_eq!(HEADER_SIZE_MISMATCH, 3);
    assert_eq!(inspect(101, 0, &fields(2, 2, 1, 100, 0)), Err(DecodeError::HeaderParse(3)));
    assert_eq!(
        prepare_decode(99, 0, &fields(2, 2, 1, 100, 0)),
        Err(DecodeError::HeaderParse(3))
    );
}

#[test]
fn inspect_wrong_field_count() {
    assert_eq!(inspect(100, 0, &vec![1, 2, 3]), Err(DecodeError::FieldCount(3)));
}

#[test]
fn plan_for_byte_fixture_dimensions() {
    let plan = prepare_decode(1000, 0, &fields(256, 256, 3, 1000, 1)).unwrap();
    assert_eq!(plan.data_len, 196608);
    assert_eq!(plan.mask_len, 65536);
    assert_eq!(plan.info.n_bands, 3);
}

#[test]
fn plan_for_float_fixture_dimensions() {
    let plan = prepare_decode(2000, 0, &fields(400, 400, 1, 2000, 0)).unwrap();
    assert_eq!(plan.data_len, 160000);
    assert_eq!(plan.mask_len, 0);
}

#[test]
fn plan_zero_factor_is_empty() {
    let info = BlobInfo::new(&vec![3, 1, 1, 0x7fff_ffff, 0x7fff_ffff, 0, 0, 10, 0]);
    let plan = DecodePlan::for_info(info).unwrap();
    assert_eq!(plan.data_len, 0);
    assert_eq!(plan.mask_len, 0);
}

#[test]
fn plan_overflow() {
    let huge = BlobInfo::new(&vec![3, 1, 1, 0x7fff_ffff, 0x7fff_ffff, 0x7fff_ffff, 0, 10, 1]);
    assert_eq!(DecodePlan::for_info(huge), Err(DecodeError::SizeOverflow));
    let wide = BlobInfo::new(&vec![3, 1, 1, 0x8000_0000, 1, 1, 0, 10, 1]);
    assert_eq!(DecodePlan::for_info(wide), Err(DecodeError::SizeOverflow));
}

#[test]
fn plan_allocates_exact_buffers() {
    let plan = prepare_decode(50, 0, &fields(3, 2, 2, 50, 1)).unwrap();
    let mask = plan.alloc_mask();
    let data = plan.alloc_data(0.0f64);
    assert_eq!(mask, vec![0u8; 6]);
    assert_eq!(data.len(), 12);
    assert!(data.iter().all(|v| *v == 0.0));
}

#[test]
fn filled_repeats_value() {
    assert_eq!(filled(7u16, 3), vec![7u16, 7, 7]);
    assert!(filled(1u8, 0).is_empty());
}

#[test]
fn pixel_status() {
    assert_eq!(check_pixel_status(0), Ok(()));
    assert_eq!(check_pixel_status(5), Err(DecodeError::PixelDecode(5)));
}

#[test]
fn encode_params_for_small_grid() {
    let p = EncodeParams::for_grid(4, 2, 2, 1).unwrap();
    assert_eq!(p.data_type, FLOAT_DATA_TYPE);
    assert_eq!(p.data_type, 6);
    assert_eq!(p.n_values_per_pixel, 1);
    assert_eq!(p.n_rows, 2);
    assert_eq!(p.n_cols, 2);
    assert_eq!(p.n_bands, 1);
    assert_eq!(p.n_masks, 0);
}

#[test]
fn encode_params_wrong_length() {
    assert_eq!(EncodeParams::for_grid(5, 2, 2, 1), Err(EncodeError::DataLength(5)));
    assert_eq!(
        EncodeParams::for_grid(0, 0xffff_ffff, 0xffff_ffff, 0xffff_ffff),
        Err(EncodeError::DataLength(0))
    );
}

#[test]
fn encode_params_dimension_too_large() {
    assert_eq!(EncodeParams::for_grid(0, 0x8000_0000, 1, 0), Err(EncodeError::SizeOverflow));
}

#[test]
fn size_probe_status() {
    assert_eq!(check_size_probe(0, 128), Ok(128));
    assert_eq!(check_size_probe(3, 128), Err(EncodeError::SizeProbe(3)));
}

#[test]
fn finish_encode_truncates_to_written() {
    let out = finish_encode(0, vec![1, 2, 3, 4, 5], 3).unwrap();
    assert_eq!(out, vec![1, 2, 3]);
    let full = finish_encode(0, vec![1, 2], 2).unwrap();
    assert_eq!(full, vec![1, 2]);
}

#[test]
fn finish_encode_errors() {
    assert_eq!(finish_encode(4, vec![1, 2], 1), Err(EncodeError::Encode(4)));
    assert_eq!(
        finish_encode(0, vec![1, 2], 3),
        Err(EncodeError::Overrun { written: 3, capacity: 2 })
    );
}

use dicom_tools::error::PipelineError;
use dicom_tools::export::{export_frame, export_frames, frame_file_name, VoiStep};
use dicom_tools::metadata::pixel_format_from_decoded;
use dicom_tools::options::{
    build_convert_options, parse_window, ConversionOptions, Depth, ImageExportOptions, ModalityLut,
    OutputWidth, VoiLut,
};
use dicom_tools::sample::{PixelBuffer, Rescale, Signedness, Window, INTENSITY_UNIT};
use dicom_tools::stats::{histogram_of_values, histogram_from_decoded, pixel_statistics_from_decoded, statistics_of_values};
use dicom_tools::transcode::{
    transcode, PixelVr, TransferSyntax, UncompressedTransferSyntax, DEFAULT_SOP_CLASS_UID,
    DEFAULT_SOP_INSTANCE_UID,
};

const U: i64 = INTENSITY_UNIT;

fn buffer(rows: u32, columns: u32, frames: u32, samples: Vec<i64>) -> PixelBuffer {
    PixelBuffer {
        rows,
        columns,
        frame_count: frames,
        samples_per_pixel: 1,
        bits_allocated: 8,
        bits_stored: 8,
        high_bit: 7,
        signedness: Signedness::Unsigned,
        photometric_interpretation: "MONOCHROME2".to_string(),
        planar_configuration: None,
        rescale: None,
        frame_rescales: vec![],
        window: None,
        frame_windows: vec![],
        samples,
    }
}

/// The 2x2 secondary capture image with rescale 2 / -1024 and window 50 / 150.
fn sample_buffer() -> PixelBuffer {
    let mut b = buffer(2, 2, 1, vec![0, 64, 128, 255]);
    b.rescale = Some(Rescale { slope: 2 * U, intercept: -1024 * U });
    b.window = Some(Window { center: 50 * U, width: 150 * U });
    b.validated().expect("well formed")
}

fn unpack_u8(bytes: &[u8]) -> Vec<i64> {
    bytes.iter().map(|b| *b as i64).collect()
}

fn unpack_u16(bytes: &[u8]) -> Vec<i64> {
    bytes.chunks(2).map(|w| w[0] as i64 + 256 * w[1] as i64).collect()
}

#[test]
fn pixel_stats_and_image_preview_work() {
    let b = sample_buffer();
    let stats = pixel_statistics_from_decoded(&b);
    assert_eq!(stats.total_pixels, 4);
    assert_eq!(stats.min, -1024 * U);
    assert_eq!(stats.max, -514 * U);
    let mean = stats.sum as f64 / stats.total_pixels as f64 / U as f64;
    assert!((mean - -800.5).abs() < 0.1);
    let m = stats.median.expect("median");
    let median = (m.low as f64 + m.high as f64) / 2.0 / U as f64;
    assert!(median < -830.0 && median > -834.0);

    let img = export_frame(&b, 0, ConversionOptions::defaults()).expect("render");
    assert_eq!(img.pixels.len(), 4);
    assert_eq!(img.depth, Depth::Eight);
}

#[test]
fn histogram_counts_align_with_pixels() {
    let b = sample_buffer();
    let h = histogram_from_decoded(&b, 8).expect("histogram");
    let total: u64 = h.bins.iter().sum();
    assert_eq!(total, 4);
    assert!(h.max >= h.min);
    assert_eq!(h.bins, vec![1, 0, 1, 0, 1, 0, 0, 1]);
}

#[test]
fn transcode_keeps_pixel_data_intact() {
    let b = sample_buffer();
    let plan = transcode(
        &b,
        UncompressedTransferSyntax::ExplicitVRLittleEndian,
        OutputWidth::Auto,
        Some("1.2.840.10008.5.1.4.1.1.7".to_string()),
        Some("1.2.826.0.1.3680043.2.1125.1".to_string()),
    )
    .expect("transcode");
    assert_eq!(plan.pixel_vr, PixelVr::OB);
    let mut back = sample_buffer();
    back.samples = unpack_u8(&plan.pixel_bytes);
    let back = back.validated().expect("well formed");
    let baseline = pixel_statistics_from_decoded(&b);
    let transcoded = pixel_statistics_from_decoded(&back);
    assert_eq!(baseline.total_pixels, transcoded.total_pixels);
    assert_eq!(baseline.min, transcoded.min);
    assert_eq!(baseline.max, transcoded.max);
}

#[test]
fn transcode_to_implicit_vr_le_changes_meta() {
    let b = sample_buffer();
    let plan = transcode(
        &b,
        UncompressedTransferSyntax::ImplicitVRLittleEndian,
        OutputWidth::Auto,
        None,
        None,
    )
    .expect("transcode implicit");
    assert_eq!(plan.transfer_syntax_uid, "1.2.840.10008.1.2");
    assert_eq!(plan.sop_class_uid, DEFAULT_SOP_CLASS_UID);
    assert_eq!(plan.sop_instance_uid, DEFAULT_SOP_INSTANCE_UID);
}

#[test]
fn pixel_format_summary_includes_window_and_rescale() {
    let b = sample_buffer();
    let details = pixel_format_from_decoded(&b);
    assert_eq!(details.samples_per_pixel, 1);
    assert_eq!(details.bits_allocated, 8);
    assert_eq!(details.bits_stored, 8);
    assert_eq!(details.pixel_representation, Signedness::Unsigned);
    assert_eq!(details.rescale, Some(Rescale { slope: 2 * U, intercept: -1024 * U }));
    assert_eq!(details.window, Some(Window { center: 50 * U, width: 150 * U }));
    assert_eq!(details.planar_configuration, None);
}

#[test]
fn median_of_even_and_odd_counts() {
    let even = statistics_of_values(&vec![4, 2, 1, 3], vec![4]);
    let m = even.median.expect("median");
    assert_eq!((m.low, m.high), (2, 3));
    assert_eq!((m.low + m.high) as f64 / 2.0, 2.5);
    let odd = statistics_of_values(&vec![3, 1, 2], vec![3]);
    let m = odd.median.expect("median");
    assert_eq!((m.low, m.high), (2, 2));
}

#[test]
fn sum_of_squares_is_exact_or_absent() {
    let s = statistics_of_values(&vec![1, -2, 3], vec![3]);
    assert_eq!(s.sum_squares, Some(14));
    let big = statistics_of_values(&vec![i64::MIN; 4], vec![4]);
    assert_eq!(big.sum_squares, None);
    assert_eq!(big.sum, 4 * i64::MIN as i128);
}

#[test]
fn statistics_of_empty_buffer() {
    let b = buffer(0, 0, 1, vec![]).validated().expect("well formed");
    let s = pixel_statistics_from_decoded(&b);
    assert_eq!((s.min, s.max, s.sum, s.total_pixels), (0, 0, 0, 0));
    assert!(s.median.is_none());
    assert_eq!(s.shape, vec![1, 0, 0, 1]);
}

#[test]
fn mean_lies_between_min_and_max() {
    let s = statistics_of_values(&vec![-7, 100, 3, 3, 42], vec![5]);
    assert_eq!((s.min, s.max, s.sum), (-7, 100, 141));
    let n = s.total_pixels as i128;
    assert!(s.min as i128 * n <= s.sum && s.sum <= s.max as i128 * n);
}

#[test]
fn histogram_of_constant_values_fills_first_bin() {
    let h = histogram_of_values(&vec![10, 10, 10, 10, 10], 4).expect("histogram");
    assert_eq!(h.bins, vec![5, 0, 0, 0]);
    assert_eq!((h.min, h.max), (10, 10));
}

#[test]
fn histogram_rejects_zero_bins() {
    let b = sample_buffer();
    assert!(matches!(histogram_from_decoded(&b, 0), Err(PipelineError::InvalidArgument)));
    assert!(matches!(histogram_of_values(&vec![], 0), Err(PipelineError::InvalidArgument)));
}

#[test]
fn histogram_bins_sum_to_count() {
    let values: Vec<i64> = (0..1000).map(|i| (i * 37) % 101 - 50).collect();
    let h = histogram_of_values(&values, 7).expect("histogram");
    assert_eq!(h.bins.len(), 7);
    assert_eq!(h.bins.iter().sum::<u64>(), 1000);
    let empty = histogram_of_values(&vec![], 3).expect("histogram");
    assert_eq!(empty.bins, vec![0, 0, 0]);
}

#[test]
fn histogram_top_edge_goes_to_last_bin() {
    let h = histogram_of_values(&vec![0, 1, 2, 3, 4], 4).expect("histogram");
    assert_eq!(h.bins, vec![1, 1, 1, 2]);
}

#[test]
fn rescale_is_applied() {
    let b = sample_buffer();
    let v = b.modality_intensities();
    assert_eq!(v, vec![-1024 * U, -896 * U, -768 * U, -514 * U]);
    let s = pixel_statistics_from_decoded(&b);
    assert_eq!((s.min, s.max), (-1024 * U, -514 * U));
}

#[test]
fn frame_specific_rescale_overrides_buffer_rescale() {
    let mut b = buffer(1, 2, 2, vec![1, 2, 3, 4]);
    b.rescale = Some(Rescale { slope: U, intercept: 0 });
    b.frame_rescales = vec![None, Some(Rescale { slope: 10 * U, intercept: 5 * U })];
    let b = b.validated().expect("well formed");
    assert_eq!(b.modality_intensities(), vec![U, 2 * U, 35 * U, 45 * U]);
}

#[test]
fn round_trip_through_both_targets() {
    for target in [
        UncompressedTransferSyntax::ExplicitVRLittleEndian,
        UncompressedTransferSyntax::ImplicitVRLittleEndian,
    ] {
        let b = buffer(2, 2, 1, vec![0, 64, 128, 255]).validated().expect("well formed");
        let plan = transcode(&b, target, OutputWidth::Auto, None, None).expect("transcode");
        assert_eq!(plan.pixel_bytes, vec![0, 64, 128, 255]);
        let mut back = buffer(2, 2, 1, unpack_u8(&plan.pixel_bytes));
        back.samples = unpack_u8(&plan.pixel_bytes);
        let back = back.validated().expect("well formed");
        let s = pixel_statistics_from_decoded(&back);
        assert_eq!((s.min, s.max), (0, 255 * U));
        assert_eq!(pixel_statistics_from_decoded(&b).min, s.min);
        assert_eq!(pixel_statistics_from_decoded(&b).max, s.max);
    }
}

#[test]
fn sixteen_bit_packing_is_little_endian() {
    let mut b = buffer(1, 3, 1, vec![0x1234, -2, 300]);
    b.bits_allocated = 16;
    b.bits_stored = 16;
    b.high_bit = 15;
    b.signedness = Signedness::Signed;
    let b = b.validated().expect("well formed");
    let plan = transcode(&b, UncompressedTransferSyntax::ExplicitVRLittleEndian, OutputWidth::Auto, None, None)
        .expect("transcode");
    assert_eq!(plan.pixel_vr, PixelVr::OW);
    assert_eq!(plan.pixel_bytes, vec![0x34, 0x12, 0xfe, 0xff, 0x2c, 0x01]);
    let words = unpack_u16(&plan.pixel_bytes);
    assert_eq!(words, vec![0x1234, 0xfffe, 300]);
    let forced = transcode(&b, UncompressedTransferSyntax::ExplicitVRLittleEndian, OutputWidth::Force8, None, None);
    assert!(matches!(forced, Err(PipelineError::InvalidArgument)));
    let small = buffer_16_signed(vec![100, -2, 3]);
    let plan = transcode(&small, UncompressedTransferSyntax::ExplicitVRLittleEndian, OutputWidth::Force8, None, None)
        .expect("transcode");
    assert_eq!(plan.pixel_vr, PixelVr::OB);
    assert_eq!(plan.pixel_bytes, vec![100, 0xfe, 3]);
}

fn buffer_16_signed(samples: Vec<i64>) -> PixelBuffer {
    let mut b = buffer(1, samples.len() as u32, 1, samples);
    b.bits_allocated = 16;
    b.bits_stored = 16;
    b.high_bit = 15;
    b.signedness = Signedness::Signed;
    b.validated().expect("well formed")
}

#[test]
fn transcode_refuses_samples_the_depth_cannot_hold() {
    let mut b = buffer(1, 2, 1, vec![70000, 1]);
    b.bits_allocated = 32;
    b.bits_stored = 32;
    b.high_bit = 31;
    let b = b.validated().expect("well formed");
    let r = transcode(&b, UncompressedTransferSyntax::ExplicitVRLittleEndian, OutputWidth::Auto, None, None);
    assert!(matches!(r, Err(PipelineError::InvalidArgument)));
    let mut ok = buffer(1, 2, 1, vec![65535, 1]);
    ok.bits_allocated = 32;
    ok.bits_stored = 32;
    ok.high_bit = 31;
    let ok = ok.validated().expect("well formed");
    let plan = transcode(&ok, UncompressedTransferSyntax::ExplicitVRLittleEndian, OutputWidth::Auto, None, None)
        .expect("transcode");
    assert_eq!(plan.pixel_bytes, vec![0xff, 0xff, 1, 0]);
}

#[test]
fn transfer_syntax_uids() {
    assert_eq!(UncompressedTransferSyntax::ExplicitVRLittleEndian.uid(), "1.2.840.10008.1.2.1");
    assert_eq!(UncompressedTransferSyntax::ImplicitVRLittleEndian.uid(), "1.2.840.10008.1.2");
    assert_eq!(
        UncompressedTransferSyntax::from_uid("1.2.840.10008.1.2"),
        Ok(UncompressedTransferSyntax::ImplicitVRLittleEndian)
    );
    assert_eq!(
        UncompressedTransferSyntax::from_uid("1.2.840.10008.1.2.4.50"),
        Err(PipelineError::UnsupportedTarget)
    );
    assert_eq!(
        UncompressedTransferSyntax::from(TransferSyntax::ExplicitVrLittleEndian),
        UncompressedTransferSyntax::ExplicitVRLittleEndian
    );
}

#[test]
fn export_rejects_frame_out_of_range() {
    let b = sample_buffer();
    assert!(matches!(export_frame(&b, 1, ConversionOptions::defaults()), Err(PipelineError::FrameOutOfRange)));
    assert!(matches!(
        export_frames(&b, Some(5), ConversionOptions::defaults()),
        Err(PipelineError::FrameOutOfRange)
    ));
}

#[test]
fn export_all_frames_in_order() {
    let b = buffer(1, 2, 3, vec![1, 2, 3, 4, 5, 6]).validated().expect("well formed");
    let opts = ConversionOptions::new(ModalityLut::Default, VoiLut::Identity, false, false).unwrap();
    let imgs = export_frames(&b, None, opts).expect("export");
    assert_eq!(imgs.len(), 3);
    for (i, img) in imgs.iter().enumerate() {
        assert_eq!(img.frame, i as u32);
    }
    assert_eq!(imgs[2].pixels, vec![5, 6]);
}

#[test]
fn export_quantizes_and_windows() {
    let b = buffer(1, 4, 1, vec![0, 10, 200, 255]).validated().expect("well formed");
    let custom = ConversionOptions::new(
        ModalityLut::Default,
        VoiLut::Custom(Window { center: 100 * U, width: 100 * U }),
        false,
        false,
    )
    .unwrap();
    let img = export_frame(&b, 0, custom).expect("export");
    assert_eq!(img.pixels, vec![50, 50, 150, 150]);
    let norm = ConversionOptions::new(ModalityLut::Default, VoiLut::Normalize, false, true).unwrap();
    let img = export_frame(&b, 0, norm).expect("export");
    assert_eq!(img.depth, Depth::Sixteen);
    assert_eq!(img.transform.voi, VoiStep::Normalize { lo: 0, hi: 255 * U });
    assert_eq!(img.pixels, vec![0, 0, 1, 1]);
    let mut neg = buffer(1, 2, 1, vec![0, 3]);
    neg.rescale = Some(Rescale { slope: U / 2, intercept: -U });
    let neg = neg.validated().expect("well formed");
    let img = export_frame(&neg, 0, ConversionOptions::defaults()).expect("export");
    assert_eq!(img.pixels, vec![0, 1]);
}

#[test]
fn zero_width_window_is_identity_with_advisory() {
    let mut b = buffer(1, 2, 1, vec![7, 9]);
    b.window = Some(Window { center: 8 * U, width: 0 });
    let b = b.validated().expect("well formed");
    let img = export_frame(&b, 0, ConversionOptions::defaults()).expect("export");
    assert!(img.transform.advisory);
    assert_eq!(img.transform.voi, VoiStep::Identity);
    assert_eq!(img.pixels, vec![7, 9]);
}

#[test]
fn conflicting_widths_and_negative_window_are_rejected() {
    assert_eq!(
        ConversionOptions::new(ModalityLut::Default, VoiLut::Default, true, true),
        Err(PipelineError::InvalidArgument)
    );
    assert_eq!(
        ConversionOptions::new(
            ModalityLut::Default,
            VoiLut::Custom(Window { center: 0, width: -1 }),
            false,
            false
        ),
        Err(PipelineError::InvalidArgument)
    );
    let flags = ImageExportOptions {
        frame: None,
        window: Some(Window { center: 1, width: 2 }),
        normalize: true,
        disable_modality_lut: true,
        disable_voi_lut: false,
        force_8bit: true,
        force_16bit: false,
    };
    let o = build_convert_options(&flags).unwrap();
    assert_eq!(o.modality, ModalityLut::Disabled);
    assert_eq!(o.voi, VoiLut::Custom(Window { center: 1, width: 2 }));
    assert_eq!(o.width, OutputWidth::Force8);
}

#[test]
fn window_needs_center_and_width() {
    assert_eq!(parse_window(Some(1), Some(2)), Ok(Some(Window { center: 1, width: 2 })));
    assert_eq!(parse_window(None, None), Ok(None));
    assert_eq!(parse_window(Some(1), None), Err(PipelineError::InvalidArgument));
}

#[test]
fn malformed_buffers_are_rejected() {
    assert!(buffer(2, 2, 1, vec![0, 1, 2]).validated().is_err());
    assert!(buffer(1, 1, 1, vec![256]).validated().is_err());
    let mut b = buffer(1, 1, 1, vec![255]);
    b.high_bit = 3;
    assert!(b.validated().is_err());
    let mut b = buffer(1, 1, 1, vec![255]);
    b.rescale = Some(Rescale { slope: i64::MAX, intercept: 0 });
    assert!(matches!(b.validated(), Err(PipelineError::InvalidArgument)));
}

#[test]
fn frame_names_are_zero_padded() {
    assert_eq!(frame_file_name("scan", 7, "png"), "scan_frame007.png");
    assert_eq!(frame_file_name("scan", 1234, "jpg"), "scan_frame1234.jpg");
}

use h264_reader::pps::ParamSetId;
use h264_reader::sps::ChromaFormat;
use h264_reader::sps::ChromaInfo;
use h264_reader::sps::ConstraintFlags;
use h264_reader::sps::FrameCropping;
use h264_reader::sps::FrameMbsFlags;
use h264_reader::sps::PicOrderCntType;
use h264_reader::sps::ProfileIdc;
use h264_reader::sps::SeqParameterSet;
use h264_reader::sps::AspectRatioInfo;
use h264_reader::sps::Level;
use h264_reader::sps::Profile;
use h264_reader::sps::SeqScalingMatrix;
use h264_reader::sps::SpsError;
use h264_reader::sps::VideoFormat;

#[test]
fn test_it() {
    let data: [u8; 22] = [
        0x64, 0x00, 0x0A, 0xAC, 0x72, 0x84, 0x44, 0x26, 0x84, 0x00, 0x00, 0x00, 0x04, 0x00, 0x00,
        0x00, 0xCA, 0x3C, 0x48, 0x96, 0x11, 0x80,
    ];
    let sps = SeqParameterSet::from_bytes(&data[..]).unwrap();
    println!("sps: {:#?}", sps);
    assert_eq!(100, sps.profile_idc.0);
    assert_eq!(0, sps.constraint_flags.reserved_zero_two_bits());
    assert_eq!(Ok((64, 64)), sps.pixel_dimensions());
}

#[test]
fn test_dahua() {
    // From a Dahua IPC-HDW5231R-Z's sub stream, which is anamorphic.
    let data: [u8; 48] = [
        0x64, 0x00, 0x16, 0xAC, 0x1B, 0x1A, 0x80, 0xB0, 0x3D, 0xFF, 0xFF, 0x00, 0x28, 0x00, 0x21,
        0x6E, 0x0C, 0x0C, 0x0C, 0x80, 0x00, 0x01, 0xF4, 0x00, 0x00, 0x27, 0x10, 0x74, 0x30, 0x07,
        0xD0, 0x00, 0x07, 0xA1, 0x25, 0xDE, 0x5C, 0x68, 0x60, 0x0F, 0xA0, 0x00, 0x0F, 0x42, 0x4B,
        0xBC, 0xB8, 0x50,
    ];
    let sps = SeqParameterSet::from_bytes(&data[..]).unwrap();
    println!("sps: {:#?}", sps);
    assert_eq!(
        sps.vui_parameters.unwrap().aspect_ratio_info.unwrap().get(),
        Some((40, 33))
    );
}

#[test]
fn crop_removes_all_pixels() {
    let sps = SeqParameterSet {
        profile_idc: ProfileIdc(0),
        constraint_flags: ConstraintFlags(0),
        level_idc: 0,
        seq_parameter_set_id: ParamSetId::from_u32(0).unwrap(),
        chroma_info: ChromaInfo {
            chroma_format: ChromaFormat::Monochrome,
            separate_colour_plane_flag: false,
            bit_depth_luma_minus8: 0,
            bit_depth_chroma_minus8: 0,
            qpprime_y_zero_transform_bypass_flag: false,
            scaling_matrix: SeqScalingMatrix {},
        },
        log2_max_frame_num_minus4: 0,
        pic_order_cnt: PicOrderCntType::TypeTwo,
        max_num_ref_frames: 0,
        frame_cropping: Some(FrameCropping {
            bottom_offset: 20,
            left_offset: 20,
            right_offset: 20,
            top_offset: 20,
        }),
        pic_width_in_mbs_minus1: 1,
        pic_height_in_map_units_minus1: 1,
        frame_mbs_flags: FrameMbsFlags::Frames,
        gaps_in_frame_num_value_allowed_flag: false,
        direct_8x8_inference_flag: false,
        vui_parameters: None,
    };
    // Must report an error rather than underflow or panic.
    let dim = sps.pixel_dimensions();
    assert!(matches!(dim, Err(SpsError::CroppingError(_))));
}

#[test]
fn bit_depth_out_of_range_fails_decode() {
    // profile 100 (signals chroma info), constraints 0, level 10, then
    // ue(seq_parameter_set_id = 0) = '1', ue(chroma_format_idc = 1) = '010',
    // ue(bit_depth_luma_minus8 = 7) = '0001000': bits 1 010 0001000 -> A1 00.
    let data: [u8; 5] = [0x64, 0x00, 0x0A, 0xA1, 0x00];
    let res = SeqParameterSet::from_bytes(&data[..]);
    assert_eq!(res, Err(SpsError::BitDepthOutOfRange(7)));
}

#[test]
fn sps_id_out_of_range_fails_decode() {
    // profile 66, constraints 0, level 10, then ue(32) = '00000 1 00001'.
    let data: [u8; 5] = [0x42, 0x00, 0x0A, 0x04, 0x20];
    let res = SeqParameterSet::from_bytes(&data[..]);
    assert!(matches!(res, Err(SpsError::BadSeqParamSetId(_))));
}

#[test]
fn log2_max_frame_num_out_of_range_fails_decode() {
    // profile 66 (no chroma info), constraints 0, level 10, then
    // ue(id = 0) = '1', ue(log2_max_frame_num_minus4 = 13) = '0001110':
    // bits 1 0001110 -> 0x8E.
    let data: [u8; 4] = [0x42, 0x00, 0x0A, 0x8E];
    let res = SeqParameterSet::from_bytes(&data[..]);
    assert_eq!(res, Err(SpsError::Log2MaxFrameNumMinus4OutOfRange(13)));
}

#[test]
fn truncated_sps_reports_reader_error() {
    let data: [u8; 2] = [0x64, 0x00];
    let res = SeqParameterSet::from_bytes(&data[..]);
    assert!(matches!(res, Err(SpsError::ReaderError(_))));
}

#[test]
fn invalid_pic_order_cnt_type_fails_decode() {
    // profile 66, constraints 0, level 10, ue(id=0)='1',
    // ue(log2_max_frame_num_minus4=0)='1', ue(pic_order_cnt_type=3)='00100':
    // bits 1 1 00100 0 -> 0xC8.
    let data: [u8; 4] = [0x42, 0x00, 0x0A, 0xC8];
    let res = SeqParameterSet::from_bytes(&data[..]);
    assert!(matches!(
        res,
        Err(SpsError::PicOrderCnt(
            h264_reader::sps::PicOrderCntError::InvalidPicOrderCountType(3)
        ))
    ));
}

#[test]
fn width_overflow_reports_field_value_too_large() {
    let sps = SeqParameterSet {
        profile_idc: ProfileIdc(0),
        constraint_flags: ConstraintFlags(0),
        level_idc: 0,
        seq_parameter_set_id: ParamSetId::from_u32(0).unwrap(),
        chroma_info: ChromaInfo {
            chroma_format: ChromaFormat::Monochrome,
            separate_colour_plane_flag: false,
            bit_depth_luma_minus8: 0,
            bit_depth_chroma_minus8: 0,
            qpprime_y_zero_transform_bypass_flag: false,
            scaling_matrix: SeqScalingMatrix {},
        },
        log2_max_frame_num_minus4: 0,
        pic_order_cnt: PicOrderCntType::TypeTwo,
        max_num_ref_frames: 0,
        frame_cropping: None,
        pic_width_in_mbs_minus1: 0xFFFF_FFFE,
        pic_height_in_map_units_minus1: 0,
        frame_mbs_flags: FrameMbsFlags::Frames,
        gaps_in_frame_num_value_allowed_flag: false,
        direct_8x8_inference_flag: false,
        vui_parameters: None,
    };
    assert!(matches!(
        sps.pixel_dimensions(),
        Err(SpsError::FieldValueTooLarge {
            name: "pic_width_in_mbs_minus1",
            ..
        })
    ));
}

#[test]
fn field_coding_doubles_height() {
    // Same stream shape as test_it but with an SPS built by hand: a 2x2
    // macroblock grid coded as fields is 32 pixels wide and 64 tall.
    let sps = SeqParameterSet {
        profile_idc: ProfileIdc(0),
        constraint_flags: ConstraintFlags(0),
        level_idc: 0,
        seq_parameter_set_id: ParamSetId::from_u32(0).unwrap(),
        chroma_info: ChromaInfo {
            chroma_format: ChromaFormat::Monochrome,
            separate_colour_plane_flag: false,
            bit_depth_luma_minus8: 0,
            bit_depth_chroma_minus8: 0,
            qpprime_y_zero_transform_bypass_flag: false,
            scaling_matrix: SeqScalingMatrix {},
        },
        log2_max_frame_num_minus4: 0,
        pic_order_cnt: PicOrderCntType::TypeTwo,
        max_num_ref_frames: 0,
        frame_cropping: None,
        pic_width_in_mbs_minus1: 1,
        pic_height_in_map_units_minus1: 1,
        frame_mbs_flags: FrameMbsFlags::Fields {
            mb_adaptive_frame_field_flag: false,
        },
        gaps_in_frame_num_value_allowed_flag: false,
        direct_8x8_inference_flag: false,
        vui_parameters: None,
    };
    assert_eq!(Ok((32, 64)), sps.pixel_dimensions());
}

#[test]
fn profile_and_level_lookups() {
    assert!(matches!(
        Profile::from_profile_idc(ProfileIdc(66)),
        Profile::Baseline
    ));
    assert_eq!(Profile::from_profile_idc(ProfileIdc(66)).profile_idc(), 66);
    assert!(matches!(
        Profile::from_profile_idc(ProfileIdc(42)),
        Profile::Unknown(42)
    ));
    assert_eq!(Profile::from_profile_idc(ProfileIdc(42)).profile_idc(), 42);
    // Level code 11 is 1b or 1.1 according to constraint flag 3.
    assert!(matches!(
        Level::from_constraint_flags_and_level_idc(ConstraintFlags(0b0001_0000), 11),
        Level::L1_b
    ));
    assert!(matches!(
        Level::from_constraint_flags_and_level_idc(ConstraintFlags(0), 11),
        Level::L1_1
    ));
    assert_eq!(
        Level::from_constraint_flags_and_level_idc(ConstraintFlags(0), 31).level_idc(),
        31
    );
}

#[test]
fn aspect_ratio_get_values() {
    assert_eq!(AspectRatioInfo::Ratio40_33.get(), Some((40, 33)));
    assert_eq!(AspectRatioInfo::Unspecified.get(), None);
    assert_eq!(AspectRatioInfo::Reserved(200).get(), None);
    assert_eq!(AspectRatioInfo::Extended(16, 9).get(), Some((16, 9)));
    // A zero width or height means the ratio is unspecified.
    assert_eq!(AspectRatioInfo::Extended(0, 9).get(), None);
    assert_eq!(AspectRatioInfo::Extended(16, 0).get(), None);
}

#[test]
fn constraint_flags_bits() {
    let cf = ConstraintFlags(0b1010_0110);
    assert!(cf.flag0());
    assert!(!cf.flag1());
    assert!(cf.flag2());
    assert!(!cf.flag3());
    assert!(!cf.flag4());
    assert!(cf.flag5());
    assert_eq!(cf.reserved_zero_two_bits(), 0b10);
}

#[test]
fn video_format_reserved_codes_are_preserved() {
    assert!(matches!(VideoFormat::from(1), VideoFormat::PAL));
    assert!(matches!(VideoFormat::from(6), VideoFormat::Reserved(6)));
    assert!(matches!(VideoFormat::from(7), VideoFormat::Reserved(7)));
}

#[test]
fn pic_order_cnt_lsb_width_out_of_range_fails_decode() {
    // profile 66, constraints 0, level 10, ue(id=0)='1',
    // ue(log2_max_frame_num_minus4=0)='1', ue(pic_order_cnt_type=0)='1',
    // ue(log2_max_pic_order_cnt_lsb_minus4=13)='0001110'.
    let data: [u8; 5] = [0x42, 0x00, 0x0A, 0xE3, 0x80];
    let res = SeqParameterSet::from_bytes(&data[..]);
    assert_eq!(
        res,
        Err(SpsError::PicOrderCnt(
            h264_reader::sps::PicOrderCntError::Log2MaxPicOrderCntLsbMinus4OutOfRange(13)
        ))
    );
}

#[test]
fn scaling_list_bits_keep_the_reader_aligned() {
    // profile 100, then: ue(id=0), ue(chroma_format_idc=1), two zero bit
    // depths, qpprime flag 0, scaling-matrix present, list 0 present with one
    // delta of -8 (which ends the list), the seven other lists absent, then
    // ue(log2_max_frame_num_minus4=0), pic-order-cnt type 2, and a 1x1
    // macroblock grid.  A misaligned scaling list would derail every later
    // field.
    let data: [u8; 8] = [0x64, 0x00, 0x0A, 0xAD, 0x84, 0x40, 0x5D, 0xC0];
    let sps = SeqParameterSet::from_bytes(&data[..]).unwrap();
    assert_eq!(sps.chroma_info.chroma_format, ChromaFormat::YUV420);
    assert!(matches!(sps.pic_order_cnt, PicOrderCntType::TypeTwo));
    assert_eq!(Ok((16, 16)), sps.pixel_dimensions());
}

#[test]
fn pic_order_cnt_type_one_reads_offset_list() {
    // profile 66, then: ue(id=0), ue(log2_max_frame_num_minus4=0),
    // ue(pic_order_cnt_type=1), zero-delta flag 0, se(1), se(-1),
    // ue(count=2), se(1), se(-1), then the remaining fields of a 1x1 grid.
    let data: [u8; 7] = [0x42, 0x00, 0x0A, 0xD1, 0x36, 0x9D, 0xC0];
    let sps = SeqParameterSet::from_bytes(&data[..]).unwrap();
    match &sps.pic_order_cnt {
        PicOrderCntType::TypeOne {
            delta_pic_order_always_zero_flag,
            offset_for_non_ref_pic,
            offset_for_top_to_bottom_field,
            offsets_for_ref_frame,
        } => {
            assert!(!delta_pic_order_always_zero_flag);
            assert_eq!(*offset_for_non_ref_pic, 1);
            assert_eq!(*offset_for_top_to_bottom_field, -1);
            assert_eq!(offsets_for_ref_frame, &vec![1, -1]);
        }
        other => panic!("expected type one, got {:?}", other),
    }
}

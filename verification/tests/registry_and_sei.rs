use h264_reader::context::Context;
use h264_reader::nal::NalHeader;
use h264_reader::pps::ParamSetId;
use h264_reader::pps::ParamSetIdError;
use h264_reader::sei::BufferingPeriod;
use h264_reader::sei::BufferingPeriodError;
use h264_reader::sei::BufferingPeriodPayloadReader;
use h264_reader::sei::HeaderType;
use h264_reader::sps::ChromaFormat;
use h264_reader::sps::ChromaInfo;
use h264_reader::sps::ConstraintFlags;
use h264_reader::sps::FrameMbsFlags;
use h264_reader::sps::PicOrderCntType;
use h264_reader::sps::ProfileIdc;
use h264_reader::sps::SeqParameterSet;
use h264_reader::sps::SeqParameterSetNalHandler;
use h264_reader::sps::SeqScalingMatrix;

fn plain_sps(id: u32, level_idc: u8) -> SeqParameterSet {
    SeqParameterSet {
        profile_idc: ProfileIdc(66),
        constraint_flags: ConstraintFlags(0),
        level_idc,
        seq_parameter_set_id: ParamSetId::from_u32(id).unwrap(),
        chroma_info: ChromaInfo {
            chroma_format: ChromaFormat::YUV420,
            separate_colour_plane_flag: false,
            bit_depth_luma_minus8: 0,
            bit_depth_chroma_minus8: 0,
            qpprime_y_zero_transform_bypass_flag: false,
            scaling_matrix: SeqScalingMatrix {},
        },
        log2_max_frame_num_minus4: 0,
        pic_order_cnt: PicOrderCntType::TypeTwo,
        max_num_ref_frames: 0,
        gaps_in_frame_num_value_allowed_flag: false,
        pic_width_in_mbs_minus1: 1,
        pic_height_in_map_units_minus1: 1,
        frame_mbs_flags: FrameMbsFlags::Frames,
        direct_8x8_inference_flag: false,
        frame_cropping: None,
        vui_parameters: None,
    }
}

#[test]
fn registry_last_write_wins() {
    let mut ctx = Context::new();
    ctx.put_seq_param_set(plain_sps(3, 10));
    ctx.put_seq_param_set(plain_sps(3, 31));
    let got = ctx.sps_by_id(ParamSetId::from_u32(3).unwrap()).unwrap();
    assert_eq!(got.level_idc, 31);
    assert_eq!(got.seq_parameter_set_id, ParamSetId::from_u32(3).unwrap());
}

#[test]
fn registry_lookup_of_absent_or_illegal_id_returns_nothing() {
    let ctx = Context::new();
    // No entry was ever committed for a legal id.
    assert!(ctx.sps_by_id(ParamSetId::from_u32(31).unwrap()).is_none());
    // An id like 99 cannot even be constructed through validation...
    assert_eq!(
        ParamSetId::from_u32(99),
        Err(ParamSetIdError::IdTooLarge(99))
    );
    // ...and a raw out-of-range id finds nothing rather than panicking.
    assert!(ctx.sps_by_id(ParamSetId(99)).is_none());
}

#[test]
fn registry_entries_are_independent() {
    let mut ctx = Context::new();
    ctx.put_seq_param_set(plain_sps(0, 10));
    ctx.put_seq_param_set(plain_sps(5, 40));
    assert_eq!(
        ctx.sps_by_id(ParamSetId::from_u32(0).unwrap()).unwrap().level_idc,
        10
    );
    assert_eq!(
        ctx.sps_by_id(ParamSetId::from_u32(5).unwrap()).unwrap().level_idc,
        40
    );
    assert!(ctx.sps_by_id(ParamSetId::from_u32(1).unwrap()).is_none());
}

#[test]
fn nal_handler_commits_decoded_sps() {
    let data: [u8; 22] = [
        0x64, 0x00, 0x0A, 0xAC, 0x72, 0x84, 0x44, 0x26, 0x84, 0x00, 0x00, 0x00, 0x04, 0x00, 0x00,
        0x00, 0xCA, 0x3C, 0x48, 0x96, 0x11, 0x80,
    ];
    let mut ctx = Context::new();
    let mut handler = SeqParameterSetNalHandler::default();
    // 0x67: nal_ref_idc 3, unit type 7 (sequence parameter set).
    handler.start(&mut ctx, NalHeader(0x67));
    // Fragmented delivery: the shell accumulates across pushes.
    handler.push(&mut ctx, &data[..10]);
    handler.push(&mut ctx, &data[10..]);
    handler.end(&mut ctx);
    let sps = ctx.sps_by_id(ParamSetId::from_u32(0).unwrap()).unwrap();
    assert_eq!(sps.profile_idc.0, 100);
    assert_eq!(Ok((64, 64)), sps.pixel_dimensions());
}

#[test]
fn nal_handler_discards_malformed_unit_and_recovers() {
    let mut ctx = Context::new();
    let mut handler = SeqParameterSetNalHandler::default();
    handler.start(&mut ctx, NalHeader(0x67));
    handler.push(&mut ctx, &[0x64, 0x00]);
    handler.end(&mut ctx);
    // The malformed unit was discarded; nothing was committed.
    assert!(ctx.sps_by_id(ParamSetId::from_u32(0).unwrap()).is_none());
    // The same shell then handles a good unit of the same type.
    let data: [u8; 22] = [
        0x64, 0x00, 0x0A, 0xAC, 0x72, 0x84, 0x44, 0x26, 0x84, 0x00, 0x00, 0x00, 0x04, 0x00, 0x00,
        0x00, 0xCA, 0x3C, 0x48, 0x96, 0x11, 0x80,
    ];
    handler.start(&mut ctx, NalHeader(0x67));
    handler.push(&mut ctx, &data[..]);
    handler.end(&mut ctx);
    assert!(ctx.sps_by_id(ParamSetId::from_u32(0).unwrap()).is_some());
}

#[test]
fn buffering_period_with_absent_sps_fails_and_stream_continues() {
    let mut ctx = Context::new();
    let mut reader = BufferingPeriodPayloadReader::default();
    // ue(seq_parameter_set_id = 3) = '00100'; no SPS with id 3 is registered.
    let res = reader.header(&ctx, HeaderType::BufferingPeriod, &[0x20]);
    assert_eq!(
        res,
        Err(BufferingPeriodError::UndefinedSeqParamSetId(
            ParamSetId::from_u32(3).unwrap()
        ))
    );
    // The failure is local: the session still processes later units.
    let data: [u8; 22] = [
        0x64, 0x00, 0x0A, 0xAC, 0x72, 0x84, 0x44, 0x26, 0x84, 0x00, 0x00, 0x00, 0x04, 0x00, 0x00,
        0x00, 0xCA, 0x3C, 0x48, 0x96, 0x11, 0x80,
    ];
    let mut handler = SeqParameterSetNalHandler::default();
    handler.start(&mut ctx, NalHeader(0x67));
    handler.push(&mut ctx, &data[..]);
    handler.end(&mut ctx);
    // That SPS has id 0 and no HRD blocks, so a buffering period citing it
    // decodes to two absent lists.
    let bp = reader
        .header(&ctx, HeaderType::BufferingPeriod, &[0x80])
        .unwrap();
    assert!(bp.nal_hrd_bp.is_none());
    assert!(bp.vcl_hrd_bp.is_none());
}

#[test]
fn buffering_period_reads_removal_list_from_cited_hrd() {
    // An SPS with id 3 whose VUI carries a NAL HRD block: one CPB, and
    // removal-delay fields 8 bits wide.
    let sps_data: [u8; 11] = [
        0x42, 0x00, 0x0A, 0x25, 0xDC, 0x83, 0x00, 0xC7, 0x38, 0x00, 0x00,
    ];
    let sps = SeqParameterSet::from_bytes(&sps_data[..]).unwrap();
    let vui = sps.vui_parameters.clone().unwrap();
    let hrd = vui.nal_hrd_parameters.unwrap();
    assert_eq!(hrd.cpb_specs.len(), 1);
    assert_eq!(hrd.cpb_removal_delay_length_minus1, 7);
    assert!(vui.vcl_hrd_parameters.is_none());
    assert_eq!(vui.low_delay_hrd_flag, Some(false));

    let mut ctx = Context::new();
    ctx.put_seq_param_set(sps);
    // Payload: ue(3), then one (delay, offset) pair of 8-bit fields.
    let bp = BufferingPeriod::read(&ctx, &[0x25, 0x5E, 0x68]).unwrap();
    let list = bp.nal_hrd_bp.unwrap();
    assert_eq!(list.len(), 1);
    assert_eq!(list[0].initial_cpb_removal_delay, 0xAB);
    assert_eq!(list[0].initial_cpb_removal_delay_offset, 0xCD);
    assert!(bp.vcl_hrd_bp.is_none());
}

#[test]
fn buffering_period_with_illegal_id_is_a_distinct_error() {
    let ctx = Context::new();
    // ue = 32, codeword '00000 1 00001', cites an id outside [0, 31].
    let res = BufferingPeriod::read(&ctx, &[0x04, 0x20]);
    assert_eq!(
        res,
        Err(BufferingPeriodError::InvalidSeqParamSetId(
            ParamSetIdError::IdTooLarge(32)
        ))
    );
}

#[test]
fn buffering_period_truncated_list_is_a_reader_error() {
    let sps_data: [u8; 11] = [
        0x42, 0x00, 0x0A, 0x25, 0xDC, 0x83, 0x00, 0xC7, 0x38, 0x00, 0x00,
    ];
    let sps = SeqParameterSet::from_bytes(&sps_data[..]).unwrap();
    let mut ctx = Context::new();
    ctx.put_seq_param_set(sps);
    // The cited HRD asks for two 8-bit fields, but only one fits.
    let res = BufferingPeriod::read(&ctx, &[0x25, 0x5E]);
    assert!(matches!(res, Err(BufferingPeriodError::ReaderError(_))));
}

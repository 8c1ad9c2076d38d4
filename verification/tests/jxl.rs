use gecko_core::jxl::api::{
    jxl_decoder_get_basic_info, jxl_decoder_get_frame_info, jxl_decoder_is_frame_ready,
    jxl_decoder_new, jxl_decoder_process_data, JxlBasicInfo, JxlDecoderStatus, JxlFrameInfo,
};
use gecko_core::jxl::decoder::{
    BasicInfo, Error, ExtraChannelInfo, JxlApiDecoder, NextStep, ProcessingResult, Progress,
    StreamInfo,
};

fn still(extra_channels: Vec<ExtraChannelInfo>) -> StreamInfo {
    StreamInfo { width: 640, height: 480, extra_channels, animation_loops: None }
}

fn animation(loops: u32) -> StreamInfo {
    StreamInfo { width: 32, height: 16, extra_channels: Vec::new(), animation_loops: Some(loops) }
}

fn complete(
    basic_info: Option<StreamInfo>,
    frame_header: Option<Option<i32>>,
) -> Progress<&'static str> {
    Progress { result: Ok(ProcessingResult::Complete), basic_info, frame_header }
}

#[test]
fn new_driver_has_seen_nothing() {
    let decoder = JxlApiDecoder::new(true, false);
    assert!(decoder.metadata_only());
    assert!(!decoder.premultiply());
    assert!(!decoder.frame_ready());
    assert_eq!(decoder.frame_duration(), None);
    let decoder = jxl_decoder_new(false, true);
    assert!(!decoder.metadata_only());
    assert!(decoder.premultiply());
    assert!(!jxl_decoder_is_frame_ready(&decoder));
}

#[test]
fn decoder_error_is_wrapped() {
    let mut decoder = JxlApiDecoder::new(false, false);
    let progress = Progress { result: Err("bad stream"), basic_info: None, frame_header: None };
    assert_eq!(decoder.process_data(progress, true), NextStep::Return(Err(Error::JXL("bad stream"))));
    assert_eq!(Error::from(7u8), Error::JXL(7u8));
}

#[test]
fn more_input_is_asked_for() {
    let mut decoder = JxlApiDecoder::new(false, false);
    let progress: Progress<()> = Progress {
        result: Ok(ProcessingResult::NeedsMoreInput),
        basic_info: Some(still(Vec::new())),
        frame_header: Some(Some(5)),
    };
    assert_eq!(decoder.process_data(progress, false), NextStep::Return(Ok(false)));
    assert!(!decoder.frame_ready());
}

#[test]
fn metadata_of_a_still_image_is_enough() {
    let mut decoder = JxlApiDecoder::new(true, false);
    let next = decoder.process_data(complete(Some(still(Vec::new())), None), false);
    assert_eq!(next, NextStep::Return(Ok(true)));
    assert!(!decoder.frame_ready());
    assert_eq!(decoder.frame_duration(), None);
}

#[test]
fn metadata_of_an_animation_goes_on_to_the_first_frame() {
    let mut decoder = JxlApiDecoder::new(true, false);
    let next = decoder.process_data(complete(Some(animation(0)), None), false);
    assert_eq!(next, NextStep::SetPixelFormat { extra_channels: 0 });
    let next = decoder.process_data(complete(Some(animation(0)), Some(Some(40))), false);
    assert_eq!(next, NextStep::Return(Ok(true)));
    assert!(decoder.frame_ready());
    assert_eq!(decoder.frame_duration(), Some(40));
}

#[test]
fn pixel_format_is_fixed_once() {
    let mut decoder = JxlApiDecoder::new(false, true);
    let channels = vec![
        ExtraChannelInfo { is_alpha: false, alpha_associated: false },
        ExtraChannelInfo { is_alpha: true, alpha_associated: true },
        ExtraChannelInfo { is_alpha: false, alpha_associated: false },
    ];
    let next = decoder.process_data(complete(Some(still(channels)), Some(None)), false);
    assert_eq!(next, NextStep::SetPixelFormat { extra_channels: 3 });
    assert!(!decoder.frame_ready());
    let next = decoder.process_data(complete(Some(still(Vec::new())), None), true);
    assert_eq!(next, NextStep::Return(Ok(false)));
}

#[test]
fn nothing_is_ready_before_the_basic_information() {
    let mut decoder = JxlApiDecoder::new(false, false);
    assert_eq!(decoder.process_data(complete(None, None), false), NextStep::Return(Ok(false)));
    let mut decoder = JxlApiDecoder::new(true, false);
    assert_eq!(decoder.process_data(complete(None, None), false), NextStep::Return(Ok(false)));
}

#[test]
fn frame_header_without_duration_counts_as_zero() {
    let mut decoder = JxlApiDecoder::new(false, false);
    decoder.process_data(complete(Some(still(Vec::new())), None), false);
    let next = decoder.process_data(complete(Some(still(Vec::new())), Some(None)), false);
    assert_eq!(next, NextStep::Return(Ok(true)));
    assert!(decoder.frame_ready());
    assert_eq!(decoder.frame_duration(), Some(0));
    assert_eq!(
        jxl_decoder_get_frame_info(&decoder),
        JxlFrameInfo { duration_ms: 0, frame_duration_valid: true }
    );
}

#[test]
fn rendered_frame_is_reported_once() {
    let mut decoder = JxlApiDecoder::new(false, false);
    decoder.process_data(complete(Some(animation(3)), None), false);
    decoder.process_data(complete(Some(animation(3)), Some(Some(100))), false);
    assert!(jxl_decoder_is_frame_ready(&decoder));
    let next = decoder.process_data(complete(Some(animation(3)), None), true);
    assert_eq!(next, NextStep::Return(Ok(true)));
    assert!(!decoder.frame_ready());
    assert_eq!(decoder.frame_duration(), Some(100));
    let next = decoder.process_data(complete(Some(animation(3)), None), true);
    assert_eq!(next, NextStep::Return(Ok(false)));
}

#[test]
fn basic_info_reads_the_first_alpha_channel() {
    let decoder = JxlApiDecoder::new(false, false);
    let stream = StreamInfo {
        width: 1920,
        height: 1080,
        extra_channels: vec![
            ExtraChannelInfo { is_alpha: false, alpha_associated: true },
            ExtraChannelInfo { is_alpha: true, alpha_associated: false },
            ExtraChannelInfo { is_alpha: true, alpha_associated: true },
        ],
        animation_loops: Some(4),
    };
    assert_eq!(
        decoder.get_basic_info(Some(&stream)),
        Some(BasicInfo {
            width: 1920,
            height: 1080,
            has_alpha: true,
            alpha_premultiplied: false,
            is_animated: true,
            num_loops: 4,
        })
    );
    let stream = still(vec![ExtraChannelInfo { is_alpha: true, alpha_associated: true }]);
    let info = decoder.get_basic_info(Some(&stream)).expect("information");
    assert!(info.has_alpha && info.alpha_premultiplied);
    assert!(!info.is_animated);
    assert_eq!(info.num_loops, 0);
}

#[test]
fn basic_info_without_alpha() {
    let decoder = JxlApiDecoder::new(false, false);
    let stream = still(vec![ExtraChannelInfo { is_alpha: false, alpha_associated: true }]);
    let info = decoder.get_basic_info(Some(&stream)).expect("information");
    assert!(!info.has_alpha);
    assert!(!info.alpha_premultiplied);
    assert_eq!(decoder.get_basic_info(None), None);
}

#[test]
fn basic_info_cuts_the_size_to_32_bits() {
    let decoder = JxlApiDecoder::new(false, false);
    let stream = StreamInfo {
        width: (1usize << 32) + 5,
        height: u32::MAX as usize,
        extra_channels: Vec::new(),
        animation_loops: None,
    };
    let info = decoder.get_basic_info(Some(&stream)).expect("information");
    assert_eq!(info.width, 5);
    assert_eq!(info.height, u32::MAX);
}

#[test]
fn output_rows_take_four_bytes_for_each_pixel() {
    let decoder = JxlApiDecoder::new(false, false);
    assert_eq!(decoder.output_layout::<()>(Some((640, 480))), Ok((480, 2560)));
    assert_eq!(decoder.output_layout::<()>(None), Ok((0, 0)));
    assert_eq!(decoder.output_layout::<()>(Some((usize::MAX / 4, 1))), Ok((1, usize::MAX - 3)));
}

#[test]
fn row_too_long_to_count_overflows() {
    let decoder = JxlApiDecoder::new(false, false);
    assert_eq!(decoder.output_layout::<()>(Some((usize::MAX / 4 + 1, 1))), Err(Error::Overflow));
    assert_eq!(decoder.output_layout::<()>(Some((usize::MAX, 0))), Err(Error::Overflow));
}

#[test]
fn status_stands_for_the_result() {
    assert_eq!(jxl_decoder_process_data::<()>(&Ok(true)), JxlDecoderStatus::Success);
    assert_eq!(jxl_decoder_process_data::<()>(&Ok(false)), JxlDecoderStatus::NeedMoreData);
    assert_eq!(jxl_decoder_process_data(&Err(Error::JXL(1))), JxlDecoderStatus::Error);
    assert_eq!(jxl_decoder_process_data::<()>(&Err(Error::Overflow)), JxlDecoderStatus::Error);
}

#[test]
fn plain_basic_info_is_valid_once_known() {
    let decoder = JxlApiDecoder::new(false, false);
    assert_eq!(jxl_decoder_get_basic_info(&decoder, None), JxlBasicInfo::default());
    assert!(!JxlBasicInfo::default().valid);
    let stream = animation(2);
    assert_eq!(
        jxl_decoder_get_basic_info(&decoder, Some(&stream)),
        JxlBasicInfo {
            width: 32,
            height: 16,
            has_alpha: false,
            alpha_premultiplied: false,
            is_animated: true,
            num_loops: 2,
            valid: true,
        }
    );
}

#[test]
fn frame_info_is_not_valid_before_a_frame_header() {
    let decoder = JxlApiDecoder::new(false, false);
    assert_eq!(
        jxl_decoder_get_frame_info(&decoder),
        JxlFrameInfo { duration_ms: 0, frame_duration_valid: false }
    );
    assert_eq!(jxl_decoder_get_frame_info(&decoder), JxlFrameInfo::default());
}

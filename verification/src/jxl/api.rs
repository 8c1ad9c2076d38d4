//! The plain records with which the driver answers its caller.

use crate::jxl::decoder::{
    spec_basic_info, spec_new, BasicInfo, Error, JxlApiDecoder, StreamInfo,
};
use vstd::prelude::*;

verus! {

/// How a call to process data ended.
#[derive(Debug, Clone, Copy, PartialEq, Eq, Structural)]
pub enum JxlDecoderStatus {
    Success,
    NeedMoreData,
    Error,
}

/// The basic information of an image, with a mark that says whether it is
/// there at all.
#[derive(Debug, Clone, Copy, PartialEq, Eq, Structural)]
pub struct JxlBasicInfo {
    pub width: u32,
    pub height: u32,
    pub has_alpha: bool,
    pub alpha_premultiplied: bool,
    pub is_animated: bool,
    pub num_loops: u32,
    pub valid: bool,
}

/// How long the current frame is shown, with a mark that says whether that
/// is known.
#[derive(Debug, Clone, Copy, PartialEq, Eq, Structural)]
pub struct JxlFrameInfo {
    pub duration_ms: i32,
    pub frame_duration_valid: bool,
}

impl JxlBasicInfo {
    /// The record that says nothing: all zero, and not valid.
    pub open spec fn spec_default() -> JxlBasicInfo {
        JxlBasicInfo {
            width: 0,
            height: 0,
            has_alpha: false,
            alpha_premultiplied: false,
            is_animated: false,
            num_loops: 0,
            valid: false,
        }
    }
}

impl Default for JxlBasicInfo {
    fn default() -> (info: JxlBasicInfo)
        ensures
            info == JxlBasicInfo::spec_default(),
    {
        JxlBasicInfo {
            width: 0,
            height: 0,
            has_alpha: false,
            alpha_premultiplied: false,
            is_animated: false,
            num_loops: 0,
            valid: false,
        }
    }
}

impl Default for JxlFrameInfo {
    fn default() -> (info: JxlFrameInfo)
        ensures
            info == (JxlFrameInfo { duration_ms: 0, frame_duration_valid: false }),
    {
        JxlFrameInfo { duration_ms: 0, frame_duration_valid: false }
    }
}

/// A driver for a new stream, on the heap, where its caller keeps it.
pub fn jxl_decoder_new(metadata_only: bool, premultiply: bool) -> (decoder: Box<JxlApiDecoder>)
    ensures
        decoder@ == spec_new(metadata_only, premultiply),
{
    Box::new(JxlApiDecoder::new(metadata_only, premultiply))
}

/// The status that stands for what the driver returned: `Success` where something
/// is ready, `NeedMoreData` where nothing is yet, `Error` where decoding
/// stopped.
pub fn jxl_decoder_process_data<E>(result: &Result<bool, Error<E>>) -> (status: JxlDecoderStatus)
    ensures
        status == match *result {
            Ok(true) => JxlDecoderStatus::Success,
            Ok(false) => JxlDecoderStatus::NeedMoreData,
            Err(_) => JxlDecoderStatus::Error,
        },
{
    match result {
        Ok(true) => JxlDecoderStatus::Success,
        Ok(false) => JxlDecoderStatus::NeedMoreData,
        Err(_) => JxlDecoderStatus::Error,
    }
}

/// The basic information as a plain record: valid, with what the stream
/// information says, once that is there; the default before.
pub fn jxl_decoder_get_basic_info(decoder: &JxlApiDecoder, stream: Option<&StreamInfo>) -> (info:
    JxlBasicInfo)
    ensures
        match stream {
            Some(stream) => info.valid && spec_basic_info(
                *stream,
                BasicInfo {
                    width: info.width,
                    height: info.height,
                    has_alpha: info.has_alpha,
                    alpha_premultiplied: info.alpha_premultiplied,
                    is_animated: info.is_animated,
                    num_loops: info.num_loops,
                },
            ),
            None => info == JxlBasicInfo::spec_default(),
        },
{
    match decoder.get_basic_info(stream) {
        Some(info) => JxlBasicInfo {
            width: info.width,
            height: info.height,
            has_alpha: info.has_alpha,
            alpha_premultiplied: info.alpha_premultiplied,
            is_animated: info.is_animated,
            num_loops: info.num_loops,
            valid: true,
        },
        None => JxlBasicInfo::default(),
    }
}

/// How long the current frame is shown, as a plain record: the duration and
/// valid once a frame header was read; zero and not valid before.
pub fn jxl_decoder_get_frame_info(decoder: &JxlApiDecoder) -> (info: JxlFrameInfo)
    ensures
        info == match decoder@.frame_duration {
            Some(duration) => JxlFrameInfo { duration_ms: duration, frame_duration_valid: true },
            None => JxlFrameInfo { duration_ms: 0, frame_duration_valid: false },
        },
{
    match decoder.frame_duration() {
        Some(duration) => JxlFrameInfo { duration_ms: duration, frame_duration_valid: true },
        None => JxlFrameInfo { duration_ms: 0, frame_duration_valid: false },
    }
}

/// Whether a frame header was read whose frame is not rendered yet.
pub fn jxl_decoder_is_frame_ready(decoder: &JxlApiDecoder) -> (ready: bool)
    ensures
        ready == decoder@.frame_ready,
{
    decoder.frame_ready()
}

} // verus!

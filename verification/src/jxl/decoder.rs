//! The decisions of the decoder driver.
//!
//! The decoder proper is fed by the caller. After each feeding the caller
//! shows the driver what the decoder reported, and the driver says whether
//! to return, and what, or to fix the pixel format and feed again.

use vstd::prelude::*;

verus! {

/// What is known of an image once its first headers are read.
#[derive(Debug, Clone, Copy, PartialEq, Eq, Structural)]
pub struct BasicInfo {
    pub width: u32,
    pub height: u32,
    pub has_alpha: bool,
    pub alpha_premultiplied: bool,
    pub is_animated: bool,
    pub num_loops: u32,
}

/// Why decoding stopped.
#[derive(Debug, PartialEq, Eq)]
pub enum Error<E> {
    /// The decoder refused the stream, with its own error.
    JXL(E),
    /// A row of the image takes more bytes than can be counted.
    Overflow,
}

impl<E> Error<E> {
    /// Wraps an error of the decoder.
    pub fn from(err: E) -> (wrapped: Error<E>)
        ensures
            wrapped == Error::JXL(err),
    {
        Error::JXL(err)
    }
}

/// One extra channel of an image, as far as the driver looks at it.
#[derive(Debug, Clone, Copy, PartialEq, Eq, Structural)]
pub struct ExtraChannelInfo {
    /// Whether the channel holds alpha.
    pub is_alpha: bool,
    /// Whether the colours are already multiplied by this alpha.
    pub alpha_associated: bool,
}

/// What the decoder knows of the stream after its first headers.
#[derive(Debug, PartialEq, Eq)]
pub struct StreamInfo {
    /// Width in pixels.
    pub width: usize,
    /// Height in pixels.
    pub height: usize,
    /// The extra channels, in the order of the stream.
    pub extra_channels: Vec<ExtraChannelInfo>,
    /// For an animation, how often it loops.
    pub animation_loops: Option<u32>,
}

/// How one feeding of the decoder ended.
#[derive(Debug, Clone, Copy, PartialEq, Eq, Structural)]
pub enum ProcessingResult {
    /// The decoder went as far as it could on its own.
    Complete,
    /// The decoder needs more bytes.
    NeedsMoreInput,
}

/// What the decoder shows after one feeding.
pub struct Progress<E> {
    /// How the feeding ended.
    pub result: Result<ProcessingResult, E>,
    /// The basic information, once the decoder has it.
    pub basic_info: Option<StreamInfo>,
    /// Whether a frame header is waiting and, if so, how long the frame is
    /// shown, in milliseconds, where the header says.
    pub frame_header: Option<Option<i32>>,
}

/// What the caller does after the driver has seen the decoder's progress.
#[derive(Debug, PartialEq, Eq)]
pub enum NextStep<E> {
    /// Ask the decoder for 8-bit RGBA with this many extra channels left
    /// out, then feed it again.
    SetPixelFormat { extra_channels: usize },
    /// Return this: whether something is ready, or why decoding stopped.
    Return(Result<bool, Error<E>>),
}

/// The state of the driver as contracts see it.
pub struct DecoderState {
    pub metadata_only: bool,
    pub premultiply: bool,
    pub pixel_format_set: bool,
    pub frame_ready: bool,
    pub frame_duration: Option<i32>,
}

/// The driver's state between two feedings of the decoder.
pub struct JxlApiDecoder {
    metadata_only: bool,
    premultiply: bool,
    pixel_format_set: bool,
    frame_ready: bool,
    frame_duration: Option<i32>,
}

impl View for JxlApiDecoder {
    type V = DecoderState;

    closed spec fn view(&self) -> DecoderState {
        DecoderState {
            metadata_only: self.metadata_only,
            premultiply: self.premultiply,
            pixel_format_set: self.pixel_format_set,
            frame_ready: self.frame_ready,
            frame_duration: self.frame_duration,
        }
    }
}

/// Whether some extra channel holds alpha.
pub open spec fn spec_has_alpha(channels: Seq<ExtraChannelInfo>) -> bool {
    exists|i: int| 0 <= i < channels.len() && #[trigger] channels[i].is_alpha
}

/// Whether `i` is the place of the first extra channel that holds alpha.
pub open spec fn spec_is_first_alpha(channels: Seq<ExtraChannelInfo>, i: int) -> bool {
    &&& 0 <= i < channels.len()
    &&& channels[i].is_alpha
    &&& forall|j: int| 0 <= j < i ==> !(#[trigger] channels[j]).is_alpha
}

/// What the stream information says of the image: its size, cut to 32 bits;
/// whether it has alpha, and whether the first alpha channel is already
/// multiplied in; whether it is an animation, and how often that loops.
pub open spec fn spec_basic_info(stream: StreamInfo, info: BasicInfo) -> bool {
    &&& info.width == stream.width as u32
    &&& info.height == stream.height as u32
    &&& info.has_alpha == spec_has_alpha(stream.extra_channels@)
    &&& info.alpha_premultiplied == (exists|i: int|
        spec_is_first_alpha(stream.extra_channels@, i)
            && #[trigger] stream.extra_channels@[i].alpha_associated)
    &&& info.is_animated == stream.animation_loops.is_some()
    &&& info.num_loops == match stream.animation_loops {
        Some(loops) => loops,
        None => 0,
    }
}

/// Whether a driver that is after metadata only has all it wants: the basic
/// information of a still image.
pub open spec fn spec_returns_metadata(state: DecoderState, basic_info: Option<StreamInfo>) -> bool {
    &&& state.metadata_only
    &&& basic_info matches Some(stream)
    &&& stream.animation_loops is None
}

/// Whether the driver, having seen this progress, reads the frame header.
/// It does so when the feeding is complete and neither the early return for
/// metadata nor the fixing of the pixel format comes first.
pub open spec fn spec_reads_frame_header<E>(state: DecoderState, progress: Progress<E>) -> bool {
    &&& progress.result == Ok::<ProcessingResult, E>(ProcessingResult::Complete)
    &&& !spec_returns_metadata(state, progress.basic_info)
    &&& !(progress.basic_info is Some && !state.pixel_format_set)
}

/// What the driver makes of the decoder's progress: its state afterwards and
/// what the caller does next.
///
/// - An error of the decoder is returned, wrapped.
/// - A decoder that needs more input makes the driver return `false`.
/// - After a complete feeding, a driver that is after metadata only returns
///   `true` as soon as the basic information of a still image is there.
/// - Otherwise, once the basic information is there, the pixel format is
///   fixed, one time, and the decoder is fed again.
/// - Otherwise a waiting frame header makes a frame ready, with its duration
///   or zero, and `true` is returned.
/// - Otherwise a frame that was ready has now been rendered: `true` again.
/// - Otherwise nothing is ready: `false`.
pub open spec fn spec_process_data<E>(state: DecoderState, progress: Progress<E>) -> (
    DecoderState,
    NextStep<E>,
) {
    match progress.result {
        Err(error) => (state, NextStep::Return(Err(Error::JXL(error)))),
        Ok(ProcessingResult::NeedsMoreInput) => (state, NextStep::Return(Ok(false))),
        Ok(ProcessingResult::Complete) => {
            if spec_returns_metadata(state, progress.basic_info) {
                (state, NextStep::Return(Ok(true)))
            } else if progress.basic_info is Some && !state.pixel_format_set {
                (
                    DecoderState { pixel_format_set: true, ..state },
                    NextStep::SetPixelFormat {
                        extra_channels: progress.basic_info.unwrap().extra_channels@.len() as usize,
                    },
                )
            } else if progress.frame_header is Some {
                (
                    DecoderState {
                        frame_ready: true,
                        frame_duration: Some(
                            match progress.frame_header.unwrap() {
                                Some(milliseconds) => milliseconds,
                                None => 0,
                            },
                        ),
                        ..state
                    },
                    NextStep::Return(Ok(true)),
                )
            } else if state.frame_ready {
                (DecoderState { frame_ready: false, ..state }, NextStep::Return(Ok(true)))
            } else {
                (state, NextStep::Return(Ok(false)))
            }
        },
    }
}

/// The state of a driver that has seen nothing yet.
pub open spec fn spec_new(metadata_only: bool, premultiply: bool) -> DecoderState {
    DecoderState {
        metadata_only,
        premultiply,
        pixel_format_set: false,
        frame_ready: false,
        frame_duration: None,
    }
}

impl JxlApiDecoder {
    /// A driver that has seen nothing yet.
    pub fn new(metadata_only: bool, premultiply: bool) -> (decoder: Self)
        ensures
            decoder@ == spec_new(metadata_only, premultiply),
    {
        JxlApiDecoder {
            metadata_only,
            premultiply,
            pixel_format_set: false,
            frame_ready: false,
            frame_duration: None,
        }
    }

    /// Whether the driver is after the metadata only.
    pub fn metadata_only(&self) -> (metadata_only: bool)
        ensures
            metadata_only == self@.metadata_only,
    {
        self.metadata_only
    }

    /// Whether the decoder is to multiply the colours by alpha.
    pub fn premultiply(&self) -> (premultiply: bool)
        ensures
            premultiply == self@.premultiply,
    {
        self.premultiply
    }

    /// Whether a frame header was read whose frame is not rendered yet.
    pub fn frame_ready(&self) -> (frame_ready: bool)
        ensures
            frame_ready == self@.frame_ready,
    {
        self.frame_ready
    }

    /// How long the current frame is shown, in milliseconds, once a frame
    /// header was read.
    pub fn frame_duration(&self) -> (frame_duration: Option<i32>)
        ensures
            frame_duration == self@.frame_duration,
    {
        self.frame_duration
    }

    /// What the stream information says of the image, once there is any.
    pub fn get_basic_info(&self, stream: Option<&StreamInfo>) -> (info: Option<BasicInfo>)
        ensures
            match (stream, info) {
                (Some(stream), Some(info)) => spec_basic_info(*stream, info),
                (None, None) => true,
                _ => false,
            },
    {
        let stream = match stream {
            Some(stream) => stream,
            None => return None,
        };
        let mut alpha: Option<ExtraChannelInfo> = None;
        let mut at: usize = 0;
        while at < stream.extra_channels.len() && alpha.is_none()
            invariant
                at <= stream.extra_channels@.len(),
                forall|j: int|
                    0 <= j < at - (if alpha is Some { 1int } else { 0int })
                        ==> !(#[trigger] stream.extra_channels@[j]).is_alpha,
                alpha matches Some(found) ==> at >= 1 && found == stream.extra_channels@[at - 1]
                    && found.is_alpha,
            decreases stream.extra_channels@.len() - at + (if alpha is None { 1int } else { 0int }),
        {
            if stream.extra_channels[at].is_alpha {
                alpha = Some(stream.extra_channels[at]);
            }
            at = at + 1;
        }
        proof {
            if alpha is Some {
                assert(spec_is_first_alpha(stream.extra_channels@, at - 1));
            }
        }
        let (is_animated, num_loops): (bool, u32) = match stream.animation_loops {
            Some(loops) => (true, loops),
            None => (false, 0),
        };
        Some(
            BasicInfo {
                width: #[verifier::truncate] (stream.width as u32),
                height: #[verifier::truncate] (stream.height as u32),
                has_alpha: alpha.is_some(),
                alpha_premultiplied: match alpha {
                    Some(channel) => channel.alpha_associated,
                    None => false,
                },
                is_animated,
                num_loops,
            },
        )
    }

    /// The shape of the buffer that pixels are written to: the number of rows
    /// and the bytes in a row, four for each pixel. Before the size of the
    /// image is known both are zero. A row too long to count is an
    /// `Overflow`.
    pub fn output_layout<E>(&self, size: Option<(usize, usize)>) -> (layout: Result<
        (usize, usize),
        Error<E>,
    >)
        ensures
            ({
                let (width, height) = match size {
                    Some(size) => size,
                    None => (0usize, 0usize),
                };
                match layout {
                    Ok((rows, bytes_per_row)) => rows == height && bytes_per_row == width * 4,
                    Err(error) => width * 4 > usize::MAX && error == Error::<E>::Overflow,
                }
            }),
    {
        let (width, height): (usize, usize) = match size {
            Some(size) => size,
            None => (0, 0),
        };
        match width.checked_mul(4) {
            Some(bytes_per_row) => Ok((height, bytes_per_row)),
            None => Err(Error::Overflow),
        }
    }

    /// Whether the driver, having seen this progress, reads the frame
    /// header. A caller that fed the decoder with a buffer asks this before
    /// it shows the progress.
    pub fn reads_frame_header<E>(&self, progress: &Progress<E>) -> (reads: bool)
        ensures
            reads == spec_reads_frame_header(self@, *progress),
    {
        match &progress.result {
            Ok(ProcessingResult::Complete) => match &progress.basic_info {
                Some(stream) => !(self.metadata_only && stream.animation_loops.is_none())
                    && self.pixel_format_set,
                None => true,
            },
            _ => false,
        }
    }

    /// Takes what the decoder showed after one feeding and says what to do
    /// next; `has_output_buffer` tells whether the feeding had a buffer to
    /// write pixels to.
    ///
    /// A feeding with a buffer consumes the frame header, so the driver must
    /// not come to read one after it.
    pub fn process_data<E>(&mut self, progress: Progress<E>, has_output_buffer: bool) -> (next:
        NextStep<E>)
        requires
            spec_reads_frame_header(old(self)@, progress) && progress.frame_header is Some
                ==> !has_output_buffer,
        ensures
            (final(self)@, next) == spec_process_data(old(self)@, progress),
    {
        match progress.result {
            Err(error) => NextStep::Return(Err(Error::JXL(error))),
            Ok(ProcessingResult::NeedsMoreInput) => NextStep::Return(Ok(false)),
            Ok(ProcessingResult::Complete) => {
                if self.metadata_only {
                    if let Some(stream) = &progress.basic_info {
                        if stream.animation_loops.is_none() {
                            return NextStep::Return(Ok(true));
                        }
                    }
                }
                if !self.pixel_format_set {
                    if let Some(stream) = &progress.basic_info {
                        self.pixel_format_set = true;
                        return NextStep::SetPixelFormat {
                            extra_channels: stream.extra_channels.len(),
                        };
                    }
                }
                if let Some(duration) = progress.frame_header {
                    self.frame_duration = Some(
                        match duration {
                            Some(milliseconds) => milliseconds,
                            None => 0,
                        },
                    );
                    self.frame_ready = true;
                    return NextStep::Return(Ok(true));
                } else if self.frame_ready {
                    self.frame_ready = false;
                    return NextStep::Return(Ok(true));
                }
                NextStep::Return(Ok(false))
            },
        }
    }
}

} // verus!

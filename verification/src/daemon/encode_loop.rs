//! The loop between capture and sending: which pictures are encoded, when a pipeline is built,
//! and what becomes of the encoder's output.

use crate::bytes::append;
use crate::daemon::capture::CaptureEvent;
use crate::daemon::encoder::EncoderConfig;
use crate::daemon::resize::{target_of, ResizeState};
use crate::time::{after, elapsed, later, since};
use vstd::prelude::*;
use vstd::slice::slice_subrange;

verus! {

/// A frame on its way to the viewer. The duration is in milliseconds, the time of capture in
/// nanoseconds.
#[derive(Debug)]
pub struct EncodedFrame {
    pub data: Vec<u8>,
    pub duration_ms: u64,
    pub captured_at: u64,
}

/// The oldest picture that is still encoded, in nanoseconds.
pub const MAX_FRAME_AGE: u64 = 80_000_000;

/// How long to wait after a pipeline could not be built, in nanoseconds.
pub const BUILD_RETRY: u64 = 2_000_000_000;

/// How long to wait for a picture before the encoder is drained, in milliseconds.
pub const POLL_MS: u64 = 5;

/// The frame rate, and one where none is set.
pub open spec fn rate_of(fps: u32) -> int {
    if fps == 0 {
        1
    } else {
        fps as int
    }
}

/// The time of a frame in units of 100 nanoseconds.
pub open spec fn ticks_of(fps: u32) -> int {
    10_000_000int / rate_of(fps)
}

/// The time of a frame in milliseconds, at least one.
pub open spec fn frame_ms_of(fps: u32) -> u64 {
    let ms: int = 1000int / rate_of(fps);
    if ms < 1 {
        1
    } else {
        ms as u64
    }
}

fn rate(fps: u32) -> (r: u32)
    ensures
        r == rate_of(fps),
{
    if fps == 0 {
        1
    } else {
        fps
    }
}

/// The time of a frame in units of 100 nanoseconds.
pub fn frame_ticks(fps: u32) -> (r: i64)
    ensures
        r == ticks_of(fps),
        0 <= r <= 10_000_000,
{
    (10_000_000 / rate(fps)) as i64
}

/// The time of a frame in milliseconds, at least one.
pub fn frame_ms(fps: u32) -> (r: u64)
    ensures
        r == frame_ms_of(fps),
{
    let ms: u32 = 1000 / rate(fps);
    if ms < 1 {
        1
    } else {
        ms as u64
    }
}

/// The device that the last announcement among the events speaks of, with its size.
pub open spec fn last_device<D, T>(events: Seq<CaptureEvent<D, T>>) -> Option<(D, u32, u32)>
    decreases events.len(),
{
    if events.len() == 0 {
        None
    } else {
        match events.last() {
            CaptureEvent::NewDevice(device, w, h) => Some((device, w, h)),
            _ => last_device(events.drop_last()),
        }
    }
}

/// The last picture among the events.
pub open spec fn last_picture<D, T>(events: Seq<CaptureEvent<D, T>>) -> Option<CaptureEvent<D, T>>
    decreases events.len(),
{
    if events.len() == 0 {
        None
    } else {
        match events.last() {
            CaptureEvent::NewDevice(_, _, _) => last_picture(events.drop_last()),
            picture => Some(picture),
        }
    }
}

/// Of the events that have come in, keeps the last device and the last picture.
pub fn latest<D, T>(events: Vec<CaptureEvent<D, T>>) -> (r: (
    Option<(D, u32, u32)>,
    Option<CaptureEvent<D, T>>,
))
    ensures
        r.0 == last_device(events@),
        r.1 == last_picture(events@),
{
    let ghost all = events@;
    let mut device: Option<(D, u32, u32)> = None;
    let mut picture: Option<CaptureEvent<D, T>> = None;
    for event in it: events
        invariant
            it.seq() == all,
            device == last_device(all.take(it.index() as int)),
            picture == last_picture(all.take(it.index() as int)),
    {
        proof {
            let n = it.index() as int;
            assert(all.take(n + 1).drop_last() =~= all.take(n));
            assert(all.take(n + 1).last() == event);
        }
        match event {
            CaptureEvent::NewDevice(d, w, h) => {
                device = Some((d, w, h));
            },
            other => {
                picture = Some(other);
            },
        }
    }
    assert(all.take(all.len() as int) =~= all);
    (device, picture)
}

/// What came of seeing to the pipeline.
#[derive(Clone, Copy, Debug, PartialEq, Eq, Structural)]
pub enum PipelineResult {
    /// The one that is there fits.
    Unchanged,
    /// One was built, for pictures of this size.
    Built { width: u32, height: u32 },
    /// None could be built.
    Failed,
}

/// What to do with a picture.
#[derive(Clone, Copy, Debug, PartialEq, Eq, Structural)]
pub enum FrameStart {
    /// Drop it.
    Skip,
    /// Encode it, as a key frame where one is due.
    Encode { force_idr: bool },
}

/// Where pictures come from: their size, and the height that goes with a width of 1920.
#[derive(Clone, Copy, Debug, PartialEq, Eq, Structural)]
pub struct Source {
    pub width: u32,
    pub height: u32,
    pub capped_h: u32,
}

/// A picture that has come in.
#[derive(Clone, Copy, Debug, PartialEq, Eq, Structural)]
pub struct Picture {
    pub source: Source,
    pub captured_at: u64,
}

/// What is known between two turns of the loop.
#[derive(Clone, Copy, Debug, PartialEq, Eq)]
pub struct EncoderLoop {
    pub config: EncoderConfig,
    pub ready: bool,
    pub locked: Option<(u32, u32)>,
    pub next_timestamp: i64,
    pub frame_count: u32,
    pub retry_at: u64,
}

/// The frames that are sent for the encoder's output.
pub open spec fn frames_of(data: Seq<Vec<u8>>, duration_ms: u64, captured_at: u64) -> Seq<
    EncodedFrame,
> {
    data.map_values(|d: Vec<u8>| EncodedFrame { data: d, duration_ms, captured_at })
}

impl EncoderLoop {
    /// A key frame is due with the given picture.
    pub open spec fn key_frame_due(self, count: int) -> bool {
        count % rate_of(self.config.fps) == 0
    }

    /// The size that pictures of a source are to be encoded in.
    pub open spec fn wanted_size(self, resize: ResizeState, source: Source) -> (u32, u32) {
        match self.locked {
            Some(size) => size,
            None => target_of(
                source.width,
                source.height,
                resize.wanted_width(),
                resize.wanted_height(),
                source.capped_h,
            ),
        }
    }

    /// The size to build a pipeline for, or none where the pipeline that is there fits.
    pub open spec fn build_size(self, resize: ResizeState, source: Source) -> Option<(u32, u32)> {
        if self.ready && (self.config.width, self.config.height) == self.wanted_size(
            resize,
            source,
        ) {
            None
        } else {
            Some(self.wanted_size(resize, source))
        }
    }

    /// What is known once the pipeline has been seen to.
    pub open spec fn after_pipeline(self, result: PipelineResult, now: u64) -> EncoderLoop {
        match result {
            PipelineResult::Unchanged => EncoderLoop { retry_at: now, ..self },
            PipelineResult::Built { width, height } => EncoderLoop {
                config: EncoderConfig { width, height, ..self.config },
                ready: true,
                locked: Some((width, height)),
                retry_at: now,
                ..self
            },
            PipelineResult::Failed => EncoderLoop {
                ready: false,
                retry_at: later(now, BUILD_RETRY),
                ..self
            },
        }
    }

    /// What is known once so many frames have been sent.
    pub open spec fn after_frames(self, frames: int) -> EncoderLoop {
        EncoderLoop {
            next_timestamp: (self.next_timestamp + frames * ticks_of(self.config.fps)) as i64,
            ..self
        }
    }

    /// What is done with the next picture.
    pub open spec fn frame_start(self, captured_at: u64, now: u64) -> FrameStart {
        if elapsed(captured_at, now) > MAX_FRAME_AGE || (!self.ready && now < self.retry_at) {
            FrameStart::Skip
        } else {
            FrameStart::Encode { force_idr: self.key_frame_due(self.frame_count + 1) }
        }
    }

    /// A loop that has not begun.
    pub fn new(config: EncoderConfig, now: u64) -> (r: EncoderLoop)
        ensures
            r == (EncoderLoop {
                config,
                ready: false,
                locked: None,
                next_timestamp: 0,
                frame_count: 0,
                retry_at: now,
            }),
    {
        EncoderLoop {
            config,
            ready: false,
            locked: None,
            next_timestamp: 0,
            frame_count: 0,
            retry_at: now,
        }
    }

    /// The size to build a pipeline for, or none where the pipeline that is there fits. Once a
    /// pipeline was built its size stays, whatever is asked for later.
    pub fn reinitialize_pipeline(&self, resize: &ResizeState, source: Source) -> (r: Option<
        (u32, u32),
    >)
        ensures
            r == self.build_size(*resize, source),
    {
        let size: (u32, u32) = match self.locked {
            Some(size) => size,
            None => resize.target_size(source.width, source.height, source.capped_h),
        };
        if self.ready && self.config.width == size.0 && self.config.height == size.1 {
            None
        } else {
            Some(size)
        }
    }

    /// Takes what came of seeing to the pipeline.
    pub fn on_pipeline(&mut self, result: PipelineResult, now: u64)
        ensures
            *final(self) == old(self).after_pipeline(result, now),
    {
        match result {
            PipelineResult::Unchanged => {
                self.retry_at = now;
            },
            PipelineResult::Built { width, height } => {
                self.config.width = width;
                self.config.height = height;
                self.ready = true;
                self.locked = Some((width, height));
                self.retry_at = now;
            },
            PipelineResult::Failed => {
                self.ready = false;
                self.retry_at = after(now, BUILD_RETRY);
            },
        }
    }

    /// Takes a picture, and says what to do with it. Every picture counts towards the next key
    /// frame. One that is too old is dropped, and so is one that would need a pipeline before
    /// the time to try again.
    pub fn on_frame(&mut self, captured_at: u64, now: u64) -> (r: FrameStart)
        requires
            old(self).frame_count < u32::MAX,
        ensures
            *final(self) == (EncoderLoop {
                frame_count: (old(self).frame_count + 1) as u32,
                ..*old(self)
            }),
            r == old(self).frame_start(captured_at, now),
    {
        self.frame_count = self.frame_count + 1;
        let force_idr: bool = self.frame_count % rate(self.config.fps) == 0;
        if since(captured_at, now) > MAX_FRAME_AGE {
            return FrameStart::Skip;
        }
        if !self.ready && now < self.retry_at {
            return FrameStart::Skip;
        }
        FrameStart::Encode { force_idr }
    }

    /// Takes the encoder's output, and makes the frames to send. The clock of the stream goes on
    /// by one frame for each of them.
    pub fn emit(&mut self, output: Vec<Vec<u8>>, captured_at: u64) -> (r: Vec<EncodedFrame>)
        requires
            old(self).next_timestamp + output@.len() * ticks_of(old(self).config.fps) <= i64::MAX,
        ensures
            r@ == frames_of(output@, frame_ms_of(old(self).config.fps), captured_at),
            *final(self) == old(self).after_frames(output@.len() as int),
    {
        let ticks: i64 = frame_ticks(self.config.fps);
        let duration_ms: u64 = frame_ms(self.config.fps);
        let ghost before = *self;
        let ghost all = output@;
        let mut frames: Vec<EncodedFrame> = Vec::new();
        assert(0 * ticks == 0);
        for data in it: output
            invariant
                it.seq() == all,
                ticks == ticks_of(before.config.fps),
                0 <= ticks,
                duration_ms == frame_ms_of(before.config.fps),
                before == *old(self),
                before.next_timestamp + all.len() * ticks <= i64::MAX,
                frames@ == frames_of(all.take(it.index() as int), duration_ms, captured_at),
                *self == (EncoderLoop {
                    next_timestamp: (before.next_timestamp + it.index() * ticks) as i64,
                    ..before
                }),
                i64::MIN <= before.next_timestamp + it.index() * ticks <= i64::MAX,
        {
            proof {
                let n = it.index() as int;
                assert(all.take(n + 1) =~= all.take(n).push(data));
                assert((n + 1) * ticks == n * ticks + ticks) by (nonlinear_arith);
                assert((n + 1) * ticks <= all.len() * ticks) by (nonlinear_arith)
                    requires
                        n + 1 <= all.len(),
                        0 <= ticks,
                ;
                assert(0 <= n * ticks) by (nonlinear_arith)
                    requires
                        0 <= n,
                        0 <= ticks,
                ;
            }
            frames.push(EncodedFrame { data, duration_ms, captured_at });
            self.next_timestamp = self.next_timestamp + ticks;
            assert(frames@ =~= frames_of(
                all.take(it.index() as int + 1),
                duration_ms,
                captured_at,
            ));
        }
        assert(all.take(all.len() as int) =~= all);
        frames
    }
}

/// What the loop does next.
#[derive(Clone, Copy, Debug, PartialEq, Eq, Structural)]
pub enum LoopStage {
    /// Wait for events.
    Receive,
    /// Take the output that is pending.
    Drain,
    /// Build a pipeline of this size, for a device that was announced.
    BuildForDevice { width: u32, height: u32, picture: Option<Picture> },
    /// Get hold of the device that the picture is on.
    OpenDevice { picture: Picture, force_idr: bool },
    /// Build a pipeline of this size, for the picture.
    BuildForPicture { width: u32, height: u32, picture: Picture, force_idr: bool },
    /// Encode the picture.
    Encode { picture: Picture, force_idr: bool },
    /// End.
    Exit,
}

/// The loop: what is known, and what it does next.
#[derive(Clone, Copy, Debug, PartialEq, Eq)]
pub struct EncoderRun {
    pub state: EncoderLoop,
    pub stage: LoopStage,
}

/// What is asked of the encoder for a picture. Times are in units of 100 nanoseconds.
#[derive(Clone, Copy, Debug, PartialEq, Eq, Structural)]
pub struct EncodeRequest {
    pub timestamp: i64,
    pub duration: i64,
    pub config: EncoderConfig,
    pub force_idr: bool,
}

/// The loop once it has turned to a picture, if there is one.
pub open spec fn turned_to_picture(state: EncoderLoop, picture: Option<Picture>, now: u64) -> EncoderRun {
    match picture {
        None => EncoderRun { state, stage: LoopStage::Receive },
        Some(p) => EncoderRun {
            state: EncoderLoop { frame_count: (state.frame_count + 1) as u32, ..state },
            stage: match state.frame_start(p.captured_at, now) {
                FrameStart::Skip => LoopStage::Receive,
                FrameStart::Encode { force_idr } => LoopStage::OpenDevice { picture: p, force_idr },
            },
        },
    }
}

/// The loop once it has turned to a device that was announced, if there is one that has a
/// picture, and then to the picture that came in.
pub open spec fn turned_to_device(
    state: EncoderLoop,
    device: Option<Source>,
    picture: Option<Picture>,
    resize: ResizeState,
    now: u64,
) -> EncoderRun {
    if device is Some && device->0.width != 0 && device->0.height != 0 {
        match state.build_size(resize, device->0) {
            None => turned_to_picture(
                state.after_pipeline(PipelineResult::Unchanged, now),
                picture,
                now,
            ),
            Some(size) => EncoderRun {
                state,
                stage: LoopStage::BuildForDevice { width: size.0, height: size.1, picture },
            },
        }
    } else {
        turned_to_picture(state, picture, now)
    }
}

/// The outcome of building a pipeline, from the size that it has come to have.
pub open spec fn build_result(built: Option<(u32, u32)>) -> PipelineResult {
    match built {
        Some(size) => PipelineResult::Built { width: size.0, height: size.1 },
        None => PipelineResult::Failed,
    }
}

impl EncoderRun {
    /// A picture can still be counted.
    pub open spec fn can_count(self) -> bool {
        self.state.frame_count < u32::MAX
    }

    /// The clock of the stream can go on by so many frames.
    pub open spec fn can_emit(self, frames: int) -> bool {
        self.state.next_timestamp + frames * ticks_of(self.state.config.fps) <= i64::MAX
    }

    /// A loop that waits for its first events.
    pub fn new(config: EncoderConfig, now: u64) -> (r: EncoderRun)
        ensures
            r.stage == LoopStage::Receive,
            r.state == (EncoderLoop {
                config,
                ready: false,
                locked: None,
                next_timestamp: 0,
                frame_count: 0,
                retry_at: now,
            }),
    {
        EncoderRun { state: EncoderLoop::new(config, now), stage: LoopStage::Receive }
    }

    /// The loop is to stop, or no more events will come.
    pub fn on_stop(&mut self)
        ensures
            *final(self) == (EncoderRun { stage: LoopStage::Exit, ..*old(self) }),
    {
        self.stage = LoopStage::Exit;
    }

    /// No event came in time.
    pub fn on_timeout(&mut self)
        requires
            old(self).stage is Receive,
        ensures
            *final(self) == (EncoderRun {
                stage: if old(self).state.ready {
                    LoopStage::Drain
                } else {
                    LoopStage::Receive
                },
                ..*old(self)
            }),
    {
        if self.state.ready {
            self.stage = LoopStage::Drain;
        }
    }

    fn turn_to_picture(&mut self, picture: Option<Picture>, now: u64)
        requires
            picture is Some ==> old(self).can_count(),
        ensures
            *final(self) == turned_to_picture(old(self).state, picture, now),
    {
        self.stage = LoopStage::Receive;
        if let Some(p) = picture {
            match self.state.on_frame(p.captured_at, now) {
                FrameStart::Skip => {},
                FrameStart::Encode { force_idr } => {
                    self.stage = LoopStage::OpenDevice { picture: p, force_idr };
                },
            }
        }
    }

    /// Events came: the last device that was announced, and the last picture, if any.
    pub fn on_events(
        &mut self,
        device: Option<Source>,
        picture: Option<Picture>,
        resize: &ResizeState,
        now: u64,
    )
        requires
            old(self).stage is Receive,
            picture is Some ==> old(self).can_count(),
        ensures
            *final(self) == turned_to_device(old(self).state, device, picture, *resize, now),
    {
        if let Some(source) = device {
            if source.width != 0 && source.height != 0 {
                match self.state.reinitialize_pipeline(resize, source) {
                    None => {
                        self.state.on_pipeline(PipelineResult::Unchanged, now);
                    },
                    Some(size) => {
                        self.stage = LoopStage::BuildForDevice {
                            width: size.0,
                            height: size.1,
                            picture,
                        };
                        return;
                    },
                }
            }
        }
        self.turn_to_picture(picture, now);
    }

    /// A pipeline was built, and has come to have this size, or none could be built. For a
    /// device that was announced the loop goes on with the picture either way; without a
    /// pipeline a picture is dropped.
    pub fn on_built(&mut self, built: Option<(u32, u32)>, now: u64)
        requires
            old(self).stage is BuildForDevice || old(self).stage is BuildForPicture,
            old(self).stage matches LoopStage::BuildForDevice { picture: Some(_), .. }
                ==> old(self).can_count(),
        ensures
            ({
                let state = old(self).state.after_pipeline(build_result(built), now);
                match old(self).stage {
                    LoopStage::BuildForDevice { width, height, picture } => *final(self)
                        == turned_to_picture(state, picture, now),
                    LoopStage::BuildForPicture { width, height, picture, force_idr } => *final(self)
                        == (EncoderRun {
                        state,
                        stage: if built is Some {
                            LoopStage::Encode { picture, force_idr }
                        } else {
                            LoopStage::Receive
                        },
                    }),
                    _ => true,
                }
            }),
    {
        let result: PipelineResult = match built {
            Some(size) => PipelineResult::Built { width: size.0, height: size.1 },
            None => PipelineResult::Failed,
        };
        self.state.on_pipeline(result, now);
        match self.stage {
            LoopStage::BuildForDevice { width: _, height: _, picture } => {
                self.turn_to_picture(picture, now);
            },
            LoopStage::BuildForPicture { width: _, height: _, picture, force_idr } => {
                self.stage = if built.is_some() {
                    LoopStage::Encode { picture, force_idr }
                } else {
                    LoopStage::Receive
                };
            },
            _ => {},
        }
    }

    /// The device that the picture is on was got hold of, or it was not, and then the picture is
    /// dropped.
    pub fn on_device(&mut self, opened: bool, resize: &ResizeState, now: u64)
        requires
            old(self).stage is OpenDevice,
        ensures
            match old(self).stage {
                LoopStage::OpenDevice { picture, force_idr } => *final(self) == (if !opened {
                    EncoderRun { stage: LoopStage::Receive, ..*old(self) }
                } else {
                    match old(self).state.build_size(*resize, picture.source) {
                        None => EncoderRun {
                            state: old(self).state.after_pipeline(PipelineResult::Unchanged, now),
                            stage: LoopStage::Encode { picture, force_idr },
                        },
                        Some(size) => EncoderRun {
                            stage: LoopStage::BuildForPicture {
                                width: size.0,
                                height: size.1,
                                picture,
                                force_idr,
                            },
                            ..*old(self)
                        },
                    }
                }),
                _ => true,
            },
    {
        if let LoopStage::OpenDevice { picture, force_idr } = self.stage {
            if !opened {
                self.stage = LoopStage::Receive;
                return;
            }
            match self.state.reinitialize_pipeline(resize, picture.source) {
                None => {
                    self.state.on_pipeline(PipelineResult::Unchanged, now);
                    self.stage = LoopStage::Encode { picture, force_idr };
                },
                Some(size) => {
                    self.stage = LoopStage::BuildForPicture {
                        width: size.0,
                        height: size.1,
                        picture,
                        force_idr,
                    };
                },
            }
        }
    }

    /// What is asked of the encoder for the picture.
    pub fn request(&self) -> (r: EncodeRequest)
        requires
            self.stage is Encode,
        ensures
            r == (EncodeRequest {
                timestamp: self.state.next_timestamp,
                duration: ticks_of(self.state.config.fps) as i64,
                config: self.state.config,
                force_idr: self.stage->Encode_force_idr,
            }),
    {
        let force_idr: bool = match self.stage {
            LoopStage::Encode { picture: _, force_idr } => force_idr,
            _ => false,
        };
        EncodeRequest {
            timestamp: self.state.next_timestamp,
            duration: frame_ticks(self.state.config.fps),
            config: self.state.config,
            force_idr,
        }
    }

    /// The encoder has dealt with the picture: makes the frames to send of its output, which
    /// there is none of where it failed. They carry the time at which the picture was captured.
    pub fn on_encoded(&mut self, output: Option<Vec<Vec<u8>>>) -> (r: Vec<EncodedFrame>)
        requires
            old(self).stage is Encode,
            output is Some ==> old(self).can_emit(output->0@.len() as int),
        ensures
            final(self).stage is Receive,
            final(self).state == old(self).state.after_frames(output_count(output)),
            r@ == frames_of(
                output_frames(output),
                frame_ms_of(old(self).state.config.fps),
                old(self).stage->Encode_picture.captured_at,
            ),
    {
        let captured_at: u64 = match self.stage {
            LoopStage::Encode { picture, force_idr: _ } => picture.captured_at,
            _ => 0,
        };
        self.stage = LoopStage::Receive;
        self.send(output, captured_at)
    }

    /// The pending output was taken: makes the frames to send of it. They carry the time at which
    /// it was taken.
    pub fn on_drained(&mut self, output: Option<Vec<Vec<u8>>>, now: u64) -> (r: Vec<EncodedFrame>)
        requires
            old(self).stage is Drain,
            output is Some ==> old(self).can_emit(output->0@.len() as int),
        ensures
            final(self).stage is Receive,
            final(self).state == old(self).state.after_frames(output_count(output)),
            r@ == frames_of(
                output_frames(output),
                frame_ms_of(old(self).state.config.fps),
                now,
            ),
    {
        self.stage = LoopStage::Receive;
        self.send(output, now)
    }

    fn send(&mut self, output: Option<Vec<Vec<u8>>>, captured_at: u64) -> (r: Vec<EncodedFrame>)
        requires
            output is Some ==> old(self).can_emit(output->0@.len() as int),
        ensures
            final(self).stage == old(self).stage,
            final(self).state == old(self).state.after_frames(output_count(output)),
            r@ == frames_of(
                output_frames(output),
                frame_ms_of(old(self).state.config.fps),
                captured_at,
            ),
    {
        match output {
            Some(frames) => self.state.emit(frames, captured_at),
            None => {
                let none: Vec<EncodedFrame> = Vec::new();
                assert(0 * ticks_of(self.state.config.fps) == 0);
                assert(none@ =~= frames_of(
                    Seq::empty(),
                    frame_ms_of(self.state.config.fps),
                    captured_at,
                ));
                none
            },
        }
    }
}

/// The number of outputs: none where the encoder failed.
pub open spec fn output_count(output: Option<Vec<Vec<u8>>>) -> int {
    output_frames(output).len() as int
}

/// The outputs: none where the encoder failed.
pub open spec fn output_frames(output: Option<Vec<Vec<u8>>>) -> Seq<Vec<u8>> {
    match output {
        Some(frames) => frames@,
        None => Seq::empty(),
    }
}

/// The clock of the stream counts the frames: to send some and then others is to send all of
/// them at once, and a stream that began at zero stands at the time of a frame for each one sent.
pub proof fn clock_counts_the_frames(state: EncoderLoop, a: int, b: int)
    requires
        0 <= a,
        0 <= b,
        0 <= state.next_timestamp,
        state.next_timestamp + (a + b) * ticks_of(state.config.fps) <= i64::MAX,
    ensures
        state.after_frames(a).after_frames(b) == state.after_frames(a + b),
        state.next_timestamp == 0 ==> state.after_frames(a).next_timestamp == a * ticks_of(
            state.config.fps,
        ),
{
    let t = ticks_of(state.config.fps);
    assert(t >= 0);
    assert((a + b) * t == a * t + b * t) by (nonlinear_arith);
    assert(0 <= a * t) by (nonlinear_arith)
        requires
            0 <= a,
            0 <= t,
    ;
    assert(0 <= b * t) by (nonlinear_arith)
        requires
            0 <= b,
            0 <= t,
    ;
}

/// A picture is encoded only with a pipeline, and within its time: whatever leads the loop to
/// encode one, the pipeline is there and the picture was not too old when it was turned to.
pub proof fn pictures_are_encoded_in_time(
    state: EncoderLoop,
    picture: Picture,
    resize: ResizeState,
    turned: u64,
)
    requires
        turned_to_picture(state, Some(picture), turned).stage is OpenDevice,
    ensures
        elapsed(picture.captured_at, turned) <= MAX_FRAME_AGE,
        state.build_size(resize, picture.source) is None ==> state.ready,
        state.ready || state.retry_at <= turned,
{
}

/// Among as many pictures in a row as come in a second, exactly one is due to be a key frame.
pub proof fn one_key_frame_a_second(state: EncoderLoop, from: int)
    ensures
        exists|k: int|
            #![trigger state.key_frame_due(k)]
            from <= k < from + rate_of(state.config.fps) && state.key_frame_due(k) && forall|j: int|

                from <= j < from + rate_of(state.config.fps) && #[trigger] state.key_frame_due(j)
                    ==> j == k,
{
    let n = rate_of(state.config.fps);
    let k = from + (-from) % n;
    assert(k % n == 0) by {
        vstd::arithmetic::div_mod::lemma_fundamental_div_mod(-from, n);
        assert(k == n * (-((-from) / n))) by (nonlinear_arith)
            requires
                k == from + (-from) % n,
                -from == n * ((-from) / n) + (-from) % n,
        ;
        vstd::arithmetic::div_mod::lemma_mod_multiples_basic(-((-from) / n), n);
        assert(n * (-((-from) / n)) == (-((-from) / n)) * n) by (nonlinear_arith);
    }
    vstd::arithmetic::div_mod::lemma_mod_bound(-from, n);
    assert(state.key_frame_due(k));
    assert forall|j: int| from <= j < from + n && #[trigger] state.key_frame_due(j) implies j
        == k by {
        vstd::arithmetic::div_mod::lemma_fundamental_div_mod(j, n);
        vstd::arithmetic::div_mod::lemma_fundamental_div_mod(k, n);
        let a = j / n;
        let b = k / n;
        assert(j == n * a && k == n * b);
        if j < k {
            assert(k - j >= n) by (nonlinear_arith)
                requires
                    j == n * a,
                    k == n * b,
                    j < k,
                    n > 0,
            ;
        } else if j > k {
            assert(j - k >= n) by (nonlinear_arith)
                requires
                    j == n * a,
                    k == n * b,
                    j > k,
                    n > 0,
            ;
        }
    }
}

/// Once a pipeline was built, every later one is built for the same size: no request to resize
/// and no change of the source brings another.
pub proof fn size_stays_locked(state: EncoderLoop, resize: ResizeState, source: Source)
    requires
        state.locked is Some,
    ensures
        state.build_size(resize, source) is Some ==> state.build_size(resize, source)
            == state.locked,
{
}

/// After a pipeline could not be built, pictures are dropped until it is time to try again.
pub proof fn pictures_wait_for_the_retry(
    state: EncoderLoop,
    failed_at: u64,
    captured_at: u64,
    now: u64,
)
    requires
        now < failed_at + BUILD_RETRY <= u64::MAX,
    ensures
        state.after_pipeline(PipelineResult::Failed, failed_at).frame_start(captured_at, now)
            == FrameStart::Skip,
{
}

/// A texture that is kept for pictures of one size.
#[derive(Debug)]
pub struct TextureCache<T> {
    pub tex: Option<T>,
    pub width: u32,
    pub height: u32,
}

impl<T> TextureCache<T> {
    /// The texture can be used for pictures of the given size.
    pub open spec fn fits_size(self, width: u32, height: u32) -> bool {
        self.tex is Some && self.width == width && self.height == height
    }

    /// A cache with nothing in it.
    pub fn new() -> (r: TextureCache<T>)
        ensures
            r == (TextureCache::<T> { tex: None, width: 0, height: 0 }),
    {
        TextureCache { tex: None, width: 0, height: 0 }
    }

    /// Says whether the texture can be used for pictures of the given size.
    pub fn fits(&self, width: u32, height: u32) -> (r: bool)
        ensures
            r == self.fits_size(width, height),
    {
        self.tex.is_some() && self.width == width && self.height == height
    }

    /// Keeps a texture for pictures of the given size.
    pub fn store(&mut self, tex: T, width: u32, height: u32)
        ensures
            *final(self) == (TextureCache { tex: Some(tex), width, height }),
            final(self).fits_size(width, height),
    {
        self.tex = Some(tex);
        self.width = width;
        self.height = height;
    }

    /// Lets go of the texture.
    pub fn clear(&mut self)
        ensures
            *final(self) == (TextureCache::<T> { tex: None, width: 0, height: 0 }),
    {
        self.tex = None;
        self.width = 0;
        self.height = 0;
    }
}

/// The byte at `k` of a picture whose rows of `row` bytes stand `pitch` bytes apart in `src`.
pub open spec fn unpadded_byte(src: Seq<u8>, pitch: int, row: int, k: int) -> u8 {
    src[k / row * pitch + k % row]
}

/// A picture whose rows stand `pitch` bytes apart in `src`, without what lies between them.
pub open spec fn unpadded(src: Seq<u8>, pitch: int, width: int, height: int) -> Seq<u8> {
    Seq::new((width * 4 * height) as nat, |k: int| unpadded_byte(src, pitch, width * 4, k))
}

/// Takes the rows of a BGRA picture out of a buffer in which they stand `pitch` bytes apart.
pub fn unpad_rows(src: &[u8], pitch: usize, width: u32, height: u32) -> (out: Vec<u8>)
    requires
        width * 4 <= u32::MAX,
        width * 4 * height <= usize::MAX,
        height > 0 ==> (height - 1) * pitch + width * 4 <= src@.len(),
    ensures
        out@ == unpadded(src@, pitch as int, width as int, height as int),
{
    let row: usize = (width * 4) as usize;
    let mut out: Vec<u8> = Vec::new();
    let mut y: u32 = 0;
    while y < height
        invariant
            y <= height,
            row == width * 4,
            height > 0 ==> (height - 1) * pitch + row <= src@.len(),
            out@.len() == y * row,
            forall|k: int|
                0 <= k < y * row ==> #[trigger] out@[k] == unpadded_byte(
                    src@,
                    pitch as int,
                    row as int,
                    k,
                ),
        decreases height - y,
    {
        assert(src@.len() == src.len());
        assert(y * pitch + row <= src@.len()) by (nonlinear_arith)
            requires
                0 <= y < height,
                0 <= pitch,
                (height - 1) * pitch + row <= src@.len(),
        ;
        assert(0 <= y * pitch) by (nonlinear_arith)
            requires
                0 <= y,
                0 <= pitch,
        ;
        let start: usize = y as usize * pitch;
        let line = slice_subrange(src, start, start + row);
        let ghost before = out@;
        append(&mut out, line);
        proof {
            assert((y + 1) * row == y * row + row) by (nonlinear_arith);
            assert forall|k: int| 0 <= k < (y + 1) * row implies #[trigger] out@[k]
                == unpadded_byte(src@, pitch as int, row as int, k) by {
                if k < y * row {
                    assert(out@[k] == before[k]);
                } else {
                    let j = k - y * row;
                    assert(k == row * y + j) by (nonlinear_arith)
                        requires
                            j == k - y * row,
                    ;
                    vstd::arithmetic::div_mod::lemma_fundamental_div_mod_converse(
                        k,
                        row as int,
                        y as int,
                        j,
                    );
                    assert(out@[k] == line@[j]);
                }
            }
        }
        y = y + 1;
    }
    assert(height * row == row * height) by (nonlinear_arith);
    assert(out@ =~= unpadded(src@, pitch as int, width as int, height as int));
    out
}

/// The time of a frame is the longest one, in whole units, of which as many as come in a second go
/// into it: ten million units of 100 nanoseconds, or a thousand milliseconds, of which it is given
/// at least one.
pub proof fn frames_fill_a_second(fps: u32)
    requires
        fps > 0,
    ensures
        fps * ticks_of(fps) <= 10_000_000 < fps * (ticks_of(fps) + 1),
        fps <= 1000 ==> fps * frame_ms_of(fps) <= 1000 < fps * (frame_ms_of(fps) + 1),
        fps > 1000 ==> frame_ms_of(fps) == 1,
        ticks_of(0) == 10_000_000,
        frame_ms_of(0) == 1000,
{
    let n = fps as int;
    let ticks = 10_000_000int / n;
    let ms = 1000int / n;
    vstd::arithmetic::div_mod::lemma_fundamental_div_mod(10_000_000, n);
    vstd::arithmetic::div_mod::lemma_fundamental_div_mod(1000, n);
    assert(n * (ticks + 1) == n * ticks + n) by (nonlinear_arith);
    assert(n * (ms + 1) == n * ms + n) by (nonlinear_arith);
    if fps <= 1000 {
        assert(ms >= 1) by (nonlinear_arith)
            requires
                1000 == n * ms + 1000int % n,
                0 <= 1000int % n < n,
                n <= 1000,
        ;
    } else {
        assert(ms < 1) by (nonlinear_arith)
            requires
                1000 == n * ms + 1000int % n,
                0 <= 1000int % n < n,
                n > 1000,
        ;
    }
}

/// The pictures whose number is a multiple of the frame rate are due to be key frames, and no
/// others are.
pub proof fn key_frames_come_every_second(state: EncoderLoop, second: int, more: int)
    requires
        state.config.fps > 0,
        0 <= more < state.config.fps,
    ensures
        state.key_frame_due(second * state.config.fps + more) <==> more == 0,
{
    let n = state.config.fps as int;
    assert(second * n + more == n * second + more) by (nonlinear_arith);
    vstd::arithmetic::div_mod::lemma_fundamental_div_mod_converse(
        second * n + more,
        n,
        second,
        more,
    );
}

/// A picture is encoded exactly where it is no older than 80 milliseconds and a pipeline is there,
/// or the time has come to build one; it is asked for as a key frame where its number, counted
/// from one, is due.
pub proof fn fresh_pictures_are_encoded(state: EncoderLoop, captured_at: u64, now: u64)
    requires
        captured_at <= now,
    ensures
        state.frame_start(captured_at, now) is Encode <==> now - captured_at <= 80_000_000 && (
        state.ready || state.retry_at <= now),
        state.frame_start(captured_at, now) is Encode ==> state.frame_start(
            captured_at,
            now,
        )->force_idr == state.key_frame_due(state.frame_count + 1),
{
}

/// Every picture that comes in is counted, whether it is encoded or not, and nothing else changes
/// with it; the one that is turned to is the one that came in.
pub proof fn pictures_are_counted(state: EncoderLoop, picture: Picture, now: u64)
    requires
        state.frame_count < u32::MAX,
    ensures
        ({
            let run = turned_to_picture(state, Some(picture), now);
            &&& run.state == (EncoderLoop { frame_count: (state.frame_count + 1) as u32, ..state })
            &&& run.stage is OpenDevice <==> state.frame_start(picture.captured_at, now) is Encode
            &&& run.stage is OpenDevice ==> run.stage->OpenDevice_picture == picture
                && run.stage->OpenDevice_force_idr == state.frame_start(
                picture.captured_at,
                now,
            )->force_idr
            &&& run.stage is OpenDevice || run.stage is Receive
        }),
        turned_to_picture(state, None, now) == (EncoderRun { state, stage: LoopStage::Receive }),
{
}

/// A pipeline is built where there is none, or where the one that is there has another size than
/// the one that is wanted; the size of the first one that was built is wanted ever after, and
/// before that the one that is worked out for the source.
pub proof fn pipelines_are_built_when_they_do_not_fit(
    state: EncoderLoop,
    resize: ResizeState,
    source: Source,
)
    ensures
        ({
            let wanted = if state.locked is Some {
                state.locked->0
            } else {
                target_of(
                    source.width,
                    source.height,
                    resize.wanted_width(),
                    resize.wanted_height(),
                    source.capped_h,
                )
            };
            let size = state.build_size(resize, source);
            &&& size is None <==> state.ready && state.config.width == wanted.0
                && state.config.height == wanted.1
            &&& size is Some ==> size->0 == wanted
        }),
{
}

/// A pipeline that was built is there, has its size in the settings, and locks it; one that could
/// not be built is not there, and the next try waits for two seconds; one that fits is left alone.
pub proof fn pipelines_come_and_go(state: EncoderLoop, width: u32, height: u32, now: u64)
    requires
        now + 2_000_000_000 <= u64::MAX,
    ensures
        ({
            let built = state.after_pipeline(PipelineResult::Built { width, height }, now);
            &&& built.ready && built.locked == Some((width, height)) && built.retry_at == now
            &&& built.config.width == width && built.config.height == height
            &&& built.config.fps == state.config.fps && built.config.bitrate_kbps
                == state.config.bitrate_kbps
            &&& built.frame_count == state.frame_count && built.next_timestamp
                == state.next_timestamp
        }),
        ({
            let failed = state.after_pipeline(PipelineResult::Failed, now);
            &&& !failed.ready && failed.retry_at == now + 2_000_000_000
            &&& failed.locked == state.locked && failed.config == state.config
            &&& failed.frame_count == state.frame_count && failed.next_timestamp
                == state.next_timestamp
        }),
        state.after_pipeline(PipelineResult::Unchanged, now) == (EncoderLoop {
            retry_at: now,
            ..state
        }),
{
}

/// A device without a picture is passed over. One with a picture has a pipeline built for it where
/// none fits, and the picture that came with it waits for that.
pub proof fn devices_come_before_pictures(
    state: EncoderLoop,
    device: Source,
    picture: Option<Picture>,
    resize: ResizeState,
    now: u64,
)
    ensures
        device.width == 0 || device.height == 0 ==> turned_to_device(
            state,
            Some(device),
            picture,
            resize,
            now,
        ) == turned_to_picture(state, picture, now),
        turned_to_device(state, None, picture, resize, now) == turned_to_picture(
            state,
            picture,
            now,
        ),
        device.width != 0 && device.height != 0 && state.build_size(resize, device) is Some ==> ({
            let run = turned_to_device(state, Some(device), picture, resize, now);
            &&& run.state == state
            &&& run.stage == (LoopStage::BuildForDevice {
                width: (state.build_size(resize, device)->0).0,
                height: (state.build_size(resize, device)->0).1,
                picture,
            })
        }),
        device.width != 0 && device.height != 0 && state.build_size(resize, device) is None
            ==> turned_to_device(state, Some(device), picture, resize, now) == turned_to_picture(
            EncoderLoop { retry_at: now, ..state },
            picture,
            now,
        ),
{
}

/// Of the events the last picture counts: the one behind which only devices come; and of the devices
/// the last one, behind which only pictures come.
pub proof fn last_events_count<D, T>(events: Seq<CaptureEvent<D, T>>, i: int)
    requires
        0 <= i < events.len(),
    ensures
        events[i] !is NewDevice && (forall|j: int|
            i < j < events.len() ==> (#[trigger] events[j]) is NewDevice) ==> last_picture(events)
            == Some(events[i]),
        events[i] is NewDevice && (forall|j: int|
            i < j < events.len() ==> (#[trigger] events[j]) !is NewDevice) ==> last_device(events)
            == Some((events[i]->NewDevice_0, events[i]->NewDevice_1, events[i]->NewDevice_2)),
    decreases events.len(),
{
    let front = events.drop_last();
    if i < events.len() - 1 {
        assert(events.last() == events[events.len() - 1]);
        assert(front[i] == events[i]);
        last_events_count(front, i);
        assert forall|j: int| i < j < front.len() implies front[j] == events[j] by {}
    }
}

/// The encoder's outputs are sent one by one, in order and unchanged, each with the same duration
/// and the same time of capture.
pub proof fn outputs_become_frames(
    data: Seq<Vec<u8>>,
    duration_ms: u64,
    captured_at: u64,
    i: int,
)
    requires
        0 <= i < data.len(),
    ensures
        frames_of(data, duration_ms, captured_at).len() == data.len(),
        frames_of(data, duration_ms, captured_at)[i].data == data[i],
        frames_of(data, duration_ms, captured_at)[i].duration_ms == duration_ms,
        frames_of(data, duration_ms, captured_at)[i].captured_at == captured_at,
{
}

/// The clock of the stream goes on by the time of a frame for each one that is sent, and nothing
/// else changes with it.
pub proof fn clock_goes_on_with_the_frames(state: EncoderLoop, frames: int)
    requires
        i64::MIN <= state.next_timestamp + frames * ticks_of(state.config.fps) <= i64::MAX,
    ensures
        state.after_frames(frames).next_timestamp == state.next_timestamp + frames * ticks_of(
            state.config.fps,
        ),
        state.after_frames(frames) == (EncoderLoop {
            next_timestamp: state.after_frames(frames).next_timestamp,
            ..state
        }),
{
}

/// A byte of a picture is the one at the same place of the same row, wherever in the buffer the row
/// begins; a row has four bytes to a pixel.
pub proof fn rows_are_taken_as_they_are(
    src: Seq<u8>,
    pitch: int,
    width: int,
    height: int,
    x: int,
    y: int,
)
    requires
        0 <= x < width * 4,
        0 <= y < height,
    ensures
        unpadded(src, pitch, width, height).len() == width * 4 * height,
        0 <= y * (width * 4) + x < width * 4 * height,
        unpadded(src, pitch, width, height)[y * (width * 4) + x] == src[y * pitch + x],
{
    let row = width * 4;
    assert(0 <= y * row + x < row * height) by (nonlinear_arith)
        requires
            0 <= x < row,
            0 <= y < height,
    ;
    assert(y * row + x == row * y + x) by (nonlinear_arith);
    vstd::arithmetic::div_mod::lemma_fundamental_div_mod_converse(y * row + x, row, y, x);
}

/// A texture is kept for pictures of just its own width and height, and none is kept where there
/// is no texture.
pub proof fn textures_fit_pictures_of_their_size<T>(tex: T, w: u32, h: u32, width: u32, height: u32)
    ensures
        (TextureCache { tex: Some(tex), width: w, height: h }).fits_size(width, height) <==> (w, h)
            == (width, height),
        !(TextureCache::<T> { tex: None, width: w, height: h }).fits_size(width, height),
{
}

} // verus!

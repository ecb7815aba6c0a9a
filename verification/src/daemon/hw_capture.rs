//! Capture and encoding in one loop: sizes, rebuilds, and the meaning of the encoder's answers.

use crate::daemon::encode_loop::{frame_ticks, ticks_of};
use crate::daemon::encoder::{pack_u64, packed, BASELINE_PROFILE};
use crate::time::{after, elapsed, later, since};
use vstd::prelude::*;

verus! {

/// The next multiple of 16.
pub open spec fn aligned(v: int) -> int {
    (v + 15) / 16 * 16
}

/// Rounds up to a multiple of 16.
pub fn align_to_16(val: u32) -> (r: u32)
    requires
        val + 15 <= u32::MAX,
    ensures
        r == aligned(val as int),
{
    (val + 15) / 16 * 16
}

/// A rounded size is a multiple of 16, no smaller than the size and less than 16 larger; to
/// round it again changes nothing.
pub proof fn alignment_is_the_least_multiple(v: int)
    ensures
        aligned(v) % 16 == 0,
        v <= aligned(v) < v + 16,
        aligned(aligned(v)) == aligned(v),
{
}

/// How long to wait after the pipeline could not be set up, in milliseconds.
pub const REBUILD_RETRY_MS: u64 = 2000;

/// How long to wait after a picture could not be had, in milliseconds.
pub const ACQUIRE_RETRY_MS: u64 = 100;

/// How often a screen that does not change is reported, in nanoseconds.
pub const STATIC_REPORT: u64 = 10_000_000_000;

/// The size that is asked for, where one is, and otherwise that of the source.
pub open spec fn asked_size(asked: (Option<u32>, Option<u32>), source: (u32, u32)) -> (u32, u32) {
    (
        match asked.0 {
            Some(w) => w,
            None => source.0,
        },
        match asked.1 {
            Some(h) => h,
            None => source.1,
        },
    )
}

/// The size can be rounded up.
pub open spec fn alignable(size: (u32, u32)) -> bool {
    size.0 + 15 <= u32::MAX && size.1 + 15 <= u32::MAX
}

/// The size that is encoded: the one asked for, or that of the source, rounded up.
pub open spec fn pipeline_size_of(asked: (Option<u32>, Option<u32>), source: (u32, u32)) -> (
    int,
    int,
) {
    let size = asked_size(asked, source);
    (aligned(size.0 as int), aligned(size.1 as int))
}

/// Works out the size that is encoded.
pub fn pipeline_size(asked: (Option<u32>, Option<u32>), source: (u32, u32)) -> (r: (u32, u32))
    requires
        alignable(asked_size(asked, source)),
    ensures
        (r.0 as int, r.1 as int) == pipeline_size_of(asked, source),
{
    let w: u32 = match asked.0 {
        Some(w) => w,
        None => source.0,
    };
    let h: u32 = match asked.1 {
        Some(h) => h,
        None => source.1,
    };
    (align_to_16(w), align_to_16(h))
}

/// Of the requests to resize that have come in the last one, where it asks for another size than
/// the one that is encoded.
pub open spec fn rebuild_for(
    requests: Seq<(Option<u32>, Option<u32>)>,
    source: (u32, u32),
    target: (u32, u32),
) -> Option<(Option<u32>, Option<u32>)> {
    if requests.len() > 0 && pipeline_size_of(requests.last(), source) != (
        target.0 as int,
        target.1 as int,
    ) {
        Some(requests.last())
    } else {
        None
    }
}

/// Of the requests to resize that have come in, the last one counts. Gives it where it asks for
/// another size than the one that is encoded.
pub fn pending_rebuild(
    requests: &[(Option<u32>, Option<u32>)],
    source: (u32, u32),
    target: (u32, u32),
) -> (r: Option<(Option<u32>, Option<u32>)>)
    requires
        requests@.len() > 0 ==> alignable(asked_size(requests@.last(), source)),
    ensures
        r == rebuild_for(requests@, source, target),
{
    if requests.len() == 0 {
        return None;
    }
    let last: (Option<u32>, Option<u32>) = requests[requests.len() - 1];
    let size: (u32, u32) = pipeline_size(last, source);
    if size.0 != target.0 || size.1 != target.1 {
        Some(last)
    } else {
        None
    }
}

/// What came of asking for a picture.
#[derive(Clone, Copy, Debug, PartialEq, Eq, Structural)]
pub enum Acquisition {
    Picture,
    AccessLost,
    TimedOut,
    Failed,
}

/// What to do next.
#[derive(Clone, Copy, Debug, PartialEq, Eq, Structural)]
pub enum CaptureNext {
    /// Encode the picture.
    Encode,
    /// Give the picture back unused.
    Release,
    /// Ask again.
    Again,
    /// Say that the screen does not change, after so many tries, and ask again.
    Report { timeouts: u32 },
    /// Set everything up anew.
    Rebuild,
    /// Wait, and ask again.
    Pause { ms: u64 },
}

/// The clock of a pipeline that was just set up.
pub open spec fn started_clock(fps: u32, timeouts: u32, reported_at: u64, now: u64) -> CaptureClock {
    CaptureClock {
        interval: (1_000_000int / (fps as int) * 1000) as u64,
        due_at: now,
        first: true,
        timeouts,
        reported_at,
    }
}

/// What is known while pictures are taken.
#[derive(Clone, Copy, Debug, PartialEq, Eq, Structural)]
pub struct CaptureClock {
    pub interval: u64,
    pub due_at: u64,
    pub first: bool,
    pub timeouts: u32,
    pub reported_at: u64,
}

impl CaptureClock {
    /// The clock of a pipeline that was just set up. The count of tries without a picture, and
    /// the time of the last report, go on from the one before.
    pub fn start(fps: u32, timeouts: u32, reported_at: u64, now: u64) -> (r: CaptureClock)
        requires
            fps > 0,
        ensures
            r == started_clock(fps, timeouts, reported_at, now),
    {
        CaptureClock {
            interval: (1_000_000 / fps) as u64 * 1000,
            due_at: now,
            first: true,
            timeouts,
            reported_at,
        }
    }

    /// What a clock makes of an outcome, and what is done.
    pub open spec fn step(self, outcome: Acquisition, now: u64) -> (CaptureClock, CaptureNext) {
        match outcome {
            Acquisition::Picture => if now < self.due_at && !self.first {
                (CaptureClock { timeouts: 0, ..self }, CaptureNext::Release)
            } else {
                (
                    CaptureClock {
                        timeouts: 0,
                        first: false,
                        due_at: later(now, self.interval),
                        ..self
                    },
                    CaptureNext::Encode,
                )
            },
            Acquisition::AccessLost => (self, CaptureNext::Rebuild),
            Acquisition::TimedOut => if elapsed(self.reported_at, now) > STATIC_REPORT {
                (
                    CaptureClock {
                        timeouts: (self.timeouts + 1) as u32,
                        reported_at: now,
                        ..self
                    },
                    CaptureNext::Report { timeouts: (self.timeouts + 1) as u32 },
                )
            } else {
                (
                    CaptureClock { timeouts: (self.timeouts + 1) as u32, ..self },
                    CaptureNext::Again,
                )
            },
            Acquisition::Failed => (self, CaptureNext::Pause { ms: ACQUIRE_RETRY_MS }),
        }
    }

    /// Takes what came of asking for a picture, and says what to do.
    pub fn on_acquire(&mut self, outcome: Acquisition, now: u64) -> (r: CaptureNext)
        requires
            outcome is TimedOut ==> old(self).timeouts < u32::MAX,
        ensures
            (*final(self), r) == old(self).step(outcome, now),
    {
        match outcome {
            Acquisition::Picture => {
                self.timeouts = 0;
                if now < self.due_at && !self.first {
                    return CaptureNext::Release;
                }
                self.first = false;
                self.due_at = after(now, self.interval);
                CaptureNext::Encode
            },
            Acquisition::AccessLost => CaptureNext::Rebuild,
            Acquisition::TimedOut => {
                self.timeouts = self.timeouts + 1;
                if since(self.reported_at, now) > STATIC_REPORT {
                    self.reported_at = now;
                    CaptureNext::Report { timeouts: self.timeouts }
                } else {
                    CaptureNext::Again
                }
            },
            Acquisition::Failed => CaptureNext::Pause { ms: ACQUIRE_RETRY_MS },
        }
    }
}

/// The first picture of a pipeline is encoded whenever it comes; after that, two encoded pictures
/// are never closer to each other than the interval.
pub proof fn encoded_pictures_keep_the_pace(clock: CaptureClock, first: u64, now: u64)
    requires
        first + clock.interval <= u64::MAX,
        first <= now,
    ensures
        clock.first ==> clock.step(Acquisition::Picture, first).1 == CaptureNext::Encode,
        clock.step(Acquisition::Picture, first).1 == CaptureNext::Encode ==> (
        clock.step(Acquisition::Picture, first).0.step(Acquisition::Picture, now).1
            == CaptureNext::Encode <==> now >= first + clock.interval),
{
}

/// What the loop does next.
#[derive(Clone, Copy, Debug, PartialEq, Eq)]
pub enum HardwareStage {
    /// Look for a screen that can be captured.
    SetUp,
    /// Set up an encoder for pictures of the target size.
    BuildEncoder { source: (u32, u32), target: (u32, u32) },
    /// Take pictures.
    Frames { source: (u32, u32), target: (u32, u32) },
    /// Wait, and set up again.
    Wait { ms: u64 },
    /// End.
    Exit,
}

/// The loop: the size that is asked for, the clock, and what it does next.
#[derive(Clone, Copy, Debug, PartialEq, Eq)]
pub struct HardwareLoop {
    pub asked: (Option<u32>, Option<u32>),
    pub fps: u32,
    pub clock: CaptureClock,
    pub stage: HardwareStage,
}

impl HardwareLoop {
    /// The loop does something else next.
    pub open spec fn at(self, stage: HardwareStage) -> HardwareLoop {
        HardwareLoop { stage, ..self }
    }

    /// A loop that begins, with no size asked for.
    pub fn new(fps: u32, now: u64) -> (r: HardwareLoop)
        requires
            fps > 0,
        ensures
            r == (HardwareLoop {
                asked: (None, None),
                fps,
                clock: started_clock(fps, 0, now, now),
                stage: HardwareStage::SetUp,
            }),
    {
        HardwareLoop {
            asked: (None, None),
            fps,
            clock: CaptureClock::start(fps, 0, now, now),
            stage: HardwareStage::SetUp,
        }
    }

    /// The loop is to stop.
    pub fn on_stop(&mut self)
        ensures
            *final(self) == old(self).at(HardwareStage::Exit),
    {
        self.stage = HardwareStage::Exit;
    }

    /// A screen of this size was found, or none.
    pub fn on_set_up(&mut self, found: Option<(u32, u32)>)
        requires
            old(self).stage is SetUp,
            found is Some ==> alignable(asked_size(old(self).asked, found->0)),
        ensures
            match found {
                Some(source) => {
                    &&& final(self).stage is BuildEncoder
                    &&& final(self).stage->BuildEncoder_source == source
                    &&& (
                        final(self).stage->BuildEncoder_target.0 as int,
                        final(self).stage->BuildEncoder_target.1 as int,
                    ) == pipeline_size_of(old(self).asked, source)
                    &&& *final(self) == old(self).at(final(self).stage)
                },
                None => *final(self) == old(self).at(HardwareStage::Wait { ms: REBUILD_RETRY_MS }),
            },
    {
        self.stage = match found {
            Some(source) => HardwareStage::BuildEncoder {
                source,
                target: pipeline_size(self.asked, source),
            },
            None => HardwareStage::Wait { ms: REBUILD_RETRY_MS },
        };
    }

    /// The encoder is set up, or it could not be.
    pub fn on_encoder(&mut self, ready: bool, now: u64)
        requires
            old(self).stage is BuildEncoder,
            old(self).fps > 0,
        ensures
            !ready ==> *final(self) == old(self).at(HardwareStage::Wait { ms: REBUILD_RETRY_MS }),
            ready ==> *final(self) == (HardwareLoop {
                clock: started_clock(
                    old(self).fps,
                    old(self).clock.timeouts,
                    old(self).clock.reported_at,
                    now,
                ),
                stage: HardwareStage::Frames {
                    source: old(self).stage->BuildEncoder_source,
                    target: old(self).stage->BuildEncoder_target,
                },
                ..*old(self)
            }),
    {
        if let HardwareStage::BuildEncoder { source, target } = self.stage {
            if ready {
                self.clock = CaptureClock::start(
                    self.fps,
                    self.clock.timeouts,
                    self.clock.reported_at,
                    now,
                );
                self.stage = HardwareStage::Frames { source, target };
            } else {
                self.stage = HardwareStage::Wait { ms: REBUILD_RETRY_MS };
            }
        }
    }

    /// The wait is over.
    pub fn on_waited(&mut self)
        requires
            old(self).stage is Wait,
        ensures
            *final(self) == old(self).at(HardwareStage::SetUp),
    {
        self.stage = HardwareStage::SetUp;
    }

    /// Takes the requests to resize that have come in. Says whether everything is set up anew.
    pub fn on_requests(&mut self, requests: &[(Option<u32>, Option<u32>)]) -> (r: bool)
        requires
            old(self).stage is Frames,
            requests@.len() > 0 ==> alignable(
                asked_size(requests@.last(), old(self).stage->Frames_source),
            ),
        ensures
            match rebuild_for(
                requests@,
                old(self).stage->Frames_source,
                old(self).stage->Frames_target,
            ) {
                Some(asked) => r && *final(self) == (HardwareLoop {
                    asked,
                    stage: HardwareStage::SetUp,
                    ..*old(self)
                }),
                None => !r && *final(self) == *old(self),
            },
    {
        if let HardwareStage::Frames { source, target } = self.stage {
            if let Some(asked) = pending_rebuild(requests, source, target) {
                self.asked = asked;
                self.stage = HardwareStage::SetUp;
                return true;
            }
        }
        false
    }

    /// Takes what came of asking for a picture, and says what to do.
    pub fn on_acquire(&mut self, outcome: Acquisition, now: u64) -> (r: CaptureNext)
        requires
            old(self).stage is Frames,
            outcome is TimedOut ==> old(self).clock.timeouts < u32::MAX,
        ensures
            ({
                let step = old(self).clock.step(outcome, now);
                &&& r == step.1
                &&& *final(self) == (HardwareLoop {
                    clock: step.0,
                    stage: if step.1 is Rebuild {
                        HardwareStage::SetUp
                    } else {
                        old(self).stage
                    },
                    ..*old(self)
                })
            }),
    {
        let next: CaptureNext = self.clock.on_acquire(outcome, now);
        if let CaptureNext::Rebuild = next {
            self.stage = HardwareStage::SetUp;
        }
        next
    }

    /// The picture could not be encoded: everything is set up anew.
    pub fn on_encode_failed(&mut self)
        requires
            old(self).stage is Frames,
        ensures
            *final(self) == old(self).at(HardwareStage::SetUp),
    {
        self.stage = HardwareStage::SetUp;
    }
}

/// Once a request to resize has been carried out, the same request brings no further rebuild: the
/// size that is then encoded is the one that it asks for.
pub proof fn resize_is_carried_out_once(
    asked: (Option<u32>, Option<u32>),
    source: (u32, u32),
    target: (u32, u32),
)
    requires
        (target.0 as int, target.1 as int) == pipeline_size_of(asked, source),
    ensures
        rebuild_for(seq![asked], source, target) is None,
{
}

/// The values of an encoder's output format.
#[derive(Clone, Copy, Debug, PartialEq, Eq, Structural)]
pub struct OutputFormat {
    pub bits_per_second: u32,
    pub frame_rate: u64,
    pub frame_size: u64,
    pub pixel_aspect: u64,
    pub all_independent: u32,
    pub profile: u32,
    pub level: u32,
}

/// Level 4.0, as the encoder wants it.
pub const LEVEL: u32 = 0x28;

/// The width to fall back to.
pub const FALLBACK_WIDTH: u32 = 1280;

/// The height to fall back to.
pub const FALLBACK_HEIGHT: u32 = 720;

/// The output format to try after so many were rejected: first the size asked for, then the
/// fallback, then none.
pub open spec fn format_of(w: u32, h: u32, fps: u32, kbps: u32, rejected: nat) -> Option<
    OutputFormat,
> {
    let size = if rejected == 0 {
        packed(aligned(w as int) as u32, aligned(h as int) as u32)
    } else {
        packed(FALLBACK_WIDTH, FALLBACK_HEIGHT)
    };
    if rejected < 2 {
        Some(
            OutputFormat {
                bits_per_second: (kbps * 1024) as u32,
                frame_rate: packed(fps, 1) as u64,
                frame_size: size as u64,
                pixel_aspect: packed(1, 1) as u64,
                all_independent: 1,
                profile: BASELINE_PROFILE,
                level: LEVEL,
            },
        )
    } else {
        None
    }
}

/// The output format to try after so many were rejected.
pub fn output_format(w: u32, h: u32, fps: u32, kbps: u32, rejected: usize) -> (r: Option<
    OutputFormat,
>)
    requires
        alignable((w, h)),
        kbps * 1024 <= u32::MAX,
    ensures
        r == format_of(w, h, fps, kbps, rejected as nat),
{
    if rejected >= 2 {
        return None;
    }
    let frame_size: u64 = if rejected == 0 {
        pack_u64(align_to_16(w), align_to_16(h))
    } else {
        pack_u64(align_to_16(FALLBACK_WIDTH), align_to_16(FALLBACK_HEIGHT))
    };
    Some(
        OutputFormat {
            bits_per_second: kbps * 1024,
            frame_rate: pack_u64(fps, 1),
            frame_size,
            pixel_aspect: pack_u64(1, 1),
            all_independent: 1,
            profile: BASELINE_PROFILE,
            level: LEVEL,
        },
    )
}

/// Error code 0xC00D36B0: more input is needed first.
pub const NEED_MORE_INPUT: i32 = -1072875856;

/// Error code 0xC00D36B1: the output format has changed.
pub const STREAM_CHANGE: i32 = -1072875855;

/// Error code 0xC00D6D72: nothing can be taken out now.
pub const BACKPRESSURE: i32 = -1072861838;

/// What to do when output could not be had.
#[derive(Clone, Copy, Debug, PartialEq, Eq, Structural)]
pub enum OutputError {
    /// Go on with the next picture.
    Done,
    /// Ask again.
    Again,
    /// Give up on the picture.
    Fail,
}

/// Says what an error that asking for output gave means.
pub fn on_output_error(code: i32) -> (r: OutputError)
    ensures
        r == (if code == NEED_MORE_INPUT || code == BACKPRESSURE {
            OutputError::Done
        } else if code == STREAM_CHANGE {
            OutputError::Again
        } else {
            OutputError::Fail
        }),
{
    if code == NEED_MORE_INPUT || code == BACKPRESSURE {
        OutputError::Done
    } else if code == STREAM_CHANGE {
        OutputError::Again
    } else {
        OutputError::Fail
    }
}

/// How many frames lie between two signs of life.
pub const HEARTBEAT: u64 = 60;

/// The least size of an output buffer, in bytes.
pub const LEAST_BUFFER: u32 = 4_194_304;

/// The size of an output buffer: what the encoder asks for, and no less than the least.
pub fn buffer_size(asked: u32) -> (r: u32)
    ensures
        r == (if asked < LEAST_BUFFER {
            LEAST_BUFFER
        } else {
            asked
        }),
{
    if asked < LEAST_BUFFER {
        LEAST_BUFFER
    } else {
        asked
    }
}

/// The clock and the count of a stream.
#[derive(Clone, Copy, Debug, PartialEq, Eq, Structural)]
pub struct StreamClock {
    pub timestamp: i64,
    pub frames: u64,
}

impl StreamClock {
    /// A stream that has not begun.
    pub fn new() -> (r: StreamClock)
        ensures
            r == (StreamClock { timestamp: 0, frames: 0 }),
    {
        StreamClock { timestamp: 0, frames: 0 }
    }

    /// The time and the duration of the next picture, in units of 100 nanoseconds. The clock
    /// goes on by one picture.
    pub fn next_picture(&mut self, fps: u32) -> (r: (i64, i64))
        requires
            old(self).timestamp + ticks_of(fps) <= i64::MAX,
        ensures
            r == (old(self).timestamp, ticks_of(fps) as i64),
            *final(self) == (StreamClock {
                timestamp: (old(self).timestamp + ticks_of(fps)) as i64,
                ..*old(self)
            }),
    {
        let ticks: i64 = frame_ticks(fps);
        let at: i64 = self.timestamp;
        self.timestamp = at + ticks;
        (at, ticks)
    }

    /// Counts an output, and says whether a sign of life is due.
    pub fn count_output(&mut self) -> (r: bool)
        requires
            old(self).frames < u64::MAX,
        ensures
            *final(self) == (StreamClock {
                frames: (old(self).frames + 1) as u64,
                ..*old(self)
            }),
            r == ((old(self).frames + 1) % 60 == 0),
    {
        self.frames = self.frames + 1;
        self.frames % HEARTBEAT == 0
    }
}

/// The size that is encoded is the least one in multiples of 16 that holds what is asked for, or
/// what the source has where nothing is asked for, in either dimension by itself.
pub proof fn encoded_sizes_hold_what_is_asked_for(
    asked: (Option<u32>, Option<u32>),
    source: (u32, u32),
)
    ensures
        ({
            let size = pipeline_size_of(asked, source);
            let w = if asked.0 is Some {
                asked.0->0
            } else {
                source.0
            };
            let h = if asked.1 is Some {
                asked.1->0
            } else {
                source.1
            };
            &&& size.0 % 16 == 0 && w <= size.0 < w + 16
            &&& size.1 % 16 == 0 && h <= size.1 < h + 16
        }),
{
}

/// Of the requests to resize only the last one counts: everything is set up anew for it exactly
/// where it asks for another size than the one that is encoded.
pub proof fn last_request_counts(
    requests: Seq<(Option<u32>, Option<u32>)>,
    asked: (Option<u32>, Option<u32>),
    source: (u32, u32),
    target: (u32, u32),
)
    ensures
        ({
            let size = pipeline_size_of(asked, source);
            rebuild_for(requests.push(asked), source, target) == (if size.0 == target.0 && size.1
                == target.1 {
                None
            } else {
                Some(asked)
            })
        }),
        rebuild_for(Seq::empty(), source, target) is None,
{
    assert(requests.push(asked).last() == asked);
}

/// Tries without a picture are counted until one comes, and told of once more than ten seconds have
/// gone by since the last time; a screen that can no longer be read has everything set up anew, and
/// a failure is waited out for 100 milliseconds.
pub proof fn screens_that_do_not_change_are_told_of(clock: CaptureClock, now: u64)
    requires
        clock.reported_at <= now,
        clock.timeouts < u32::MAX,
    ensures
        ({
            let step = clock.step(Acquisition::TimedOut, now);
            &&& step.0.timeouts == clock.timeouts + 1
            &&& now - clock.reported_at > 10_000_000_000 ==> step.1 == (CaptureNext::Report {
                timeouts: (clock.timeouts + 1) as u32,
            }) && step.0.reported_at == now
            &&& now - clock.reported_at <= 10_000_000_000 ==> step.1 == CaptureNext::Again
                && step.0.reported_at == clock.reported_at
            &&& step.0.first == clock.first && step.0.due_at == clock.due_at && step.0.interval
                == clock.interval
        }),
        clock.step(Acquisition::Picture, now).0.timeouts == 0,
        clock.step(Acquisition::Picture, now).0.reported_at == clock.reported_at,
        clock.step(Acquisition::AccessLost, now) == (clock, CaptureNext::Rebuild),
        clock.step(Acquisition::Failed, now) == (clock, CaptureNext::Pause { ms: 100 }),
        REBUILD_RETRY_MS == 2000,
{
}

/// The clock of a new pipeline waits for the first picture, whenever it comes, and then takes as
/// many in a second as asked for.
pub proof fn new_clocks_keep_the_frame_rate(fps: u32, timeouts: u32, reported_at: u64, now: u64)
    requires
        fps > 0,
    ensures
        ({
            let clock = started_clock(fps, timeouts, reported_at, now);
            &&& clock.first && clock.due_at == now
            &&& clock.timeouts == timeouts && clock.reported_at == reported_at
            &&& clock.interval % 1000 == 0
            &&& fps * clock.interval <= 1_000_000_000 < fps * (clock.interval + 1000)
        }),
{
    crate::daemon::capture::pictures_fill_a_second(fps);
    assert(started_clock(fps, timeouts, reported_at, now).interval
        == crate::daemon::capture::interval_of(fps));
}

/// The first output format that is tried has the size that is asked for, in multiples of 16, the
/// second one 1280 by 720, and a third there is not; both have 1024 bits a second for each kilobit,
/// the frame rate, square pixels, and the baseline profile at level 4.0.
pub proof fn formats_are_tried_in_turn(w: u32, h: u32, fps: u32, kbps: u32, rejected: nat)
    requires
        alignable((w, h)),
        kbps * 1024 <= u32::MAX,
    ensures
        format_of(w, h, fps, kbps, rejected) is Some <==> rejected == 0 || rejected == 1,
        rejected <= 1 ==> ({
            let format = format_of(w, h, fps, kbps, rejected)->0;
            &&& format.bits_per_second == 1024 * kbps
            &&& format.frame_rate == fps * 0x1_0000_0000 + 1
            &&& format.pixel_aspect == 0x1_0000_0001
            &&& format.all_independent == 1
            &&& format.profile == 66
            &&& format.level == 40
            &&& rejected == 1 ==> format.frame_size == 1280 * 0x1_0000_0000 + 720
            &&& rejected == 0 ==> ({
                let width = format.frame_size / 0x1_0000_0000;
                let height = format.frame_size % 0x1_0000_0000;
                &&& width % 16 == 0 && w <= width < w + 16
                &&& height % 16 == 0 && h <= height < h + 16
            })
        }),
{
}

/// The codes that end the taking of output, and the one that tells of a new format, as numbers
/// without a sign.
pub proof fn codes_are_those_of_the_media_foundation()
    ensures
        NEED_MORE_INPUT + 0x1_0000_0000 == 0xC00D_36B0,
        STREAM_CHANGE + 0x1_0000_0000 == 0xC00D_36B1,
        BACKPRESSURE + 0x1_0000_0000 == 0xC00D_6D72,
        LEAST_BUFFER == 4 * 1024 * 1024,
        HEARTBEAT == 60,
{
}

} // verus!

//! The active stage of a bridged session: what changed on the host's desktop, and when the
//! browser is shown it.

use crate::broker::fast_path::{build_fast_path_input, events_of, pdu_bytes, EncodeFailed};
use crate::broker::frame::{can_encode_pointer, encode_pointer, grown, pointer_message, Rect};
use crate::broker::input::RdpInput;
use crate::text::{append_decimal, decimal, views};
use crate::time::{elapsed, since, MILLISECOND};
use vstd::prelude::*;

verus! {

/// The least time between two frames, in milliseconds.
pub const FRAME_MS: u64 = 16;

/// How long an acknowledgement is waited for, in milliseconds.
pub const ACK_TIMEOUT_MS: u64 = 200;

/// How long to wait for data from the host, and between two tries, in milliseconds.
pub const READ_TIMEOUT_MS: u64 = 5;

/// The whole milliseconds between two points in time.
pub open spec fn ms_between(then: u64, now: u64) -> int {
    elapsed(then, now) / 1_000_000
}

fn ms_since(then: u64, now: u64) -> (r: u64)
    ensures
        r == ms_between(then, now),
{
    since(then, now) / MILLISECOND
}

/// A part of what the host answers.
#[derive(Debug)]
pub enum StageOutput {
    /// Bytes that go back to the host.
    Response(Vec<u8>),
    /// A rectangle has changed.
    Update(Rect),
    /// The pointer has a new picture.
    Pointer { width: u16, height: u16, hotspot_x: u16, hotspot_y: u16, rgba: Vec<u8> },
    /// The session is over.
    Terminate,
    /// Anything else.
    Other,
}

/// What to do with a part of what the host answers.
#[derive(Debug)]
pub enum StageAction {
    /// Write the bytes to the host.
    Write(Vec<u8>),
    /// Send the frame to the browser.
    Send(Vec<u8>),
    /// End the session.
    Stop,
    /// Do nothing.
    Nothing,
}

/// What is known of the desktop and of the browser.
#[derive(Clone, Copy, Debug, PartialEq, Eq)]
pub struct Stage {
    pub last_flush: u64,
    pub dirty: Option<Rect>,
    pub awaiting_ack: bool,
}

impl Stage {
    /// Enough time has gone by for another frame.
    pub open spec fn frame_due(self, now: u64) -> bool {
        ms_between(self.last_flush, now) >= FRAME_MS
    }

    /// The stage once everything that changed has been shown.
    pub open spec fn flushed(self, now: u64) -> Stage {
        Stage { last_flush: now, dirty: None, ..self }
    }

    /// A stage on which nothing has changed yet.
    pub fn new(now: u64) -> (r: Stage)
        ensures
            r == (Stage { last_flush: now, dirty: None, awaiting_ack: false }),
    {
        Stage { last_flush: now, dirty: None, awaiting_ack: false }
    }

    /// Takes an input event: gives the bytes to write to the host. An acknowledgement is for
    /// the stage itself.
    pub fn on_input(&mut self, ev: RdpInput) -> (r: Result<Option<Vec<u8>>, EncodeFailed>)
        ensures
            ev is FrameAck ==> *final(self) == (Stage { awaiting_ack: false, ..*old(self) }) && r
                == Ok::<Option<Vec<u8>>, EncodeFailed>(None),
            ev !is FrameAck ==> *final(self) == *old(self) && r is Ok && r->Ok_0 is Some
                && r->Ok_0->0@ == pdu_bytes(events_of(ev)),
    {
        match ev {
            RdpInput::FrameAck => {
                self.awaiting_ack = false;
                Ok(None)
            },
            other => build_fast_path_input(other),
        }
    }

    /// The stage once it has given up on an acknowledgement that does not come.
    pub open spec fn ack_checked(self, now: u64) -> Stage {
        Stage {
            awaiting_ack: self.awaiting_ack && ms_between(self.last_flush, now) <= ACK_TIMEOUT_MS,
            ..self
        }
    }

    /// Stops waiting for an acknowledgement that does not come.
    pub fn check_ack(&mut self, now: u64)
        ensures
            *final(self) == old(self).ack_checked(now),
    {
        if self.awaiting_ack && ms_since(self.last_flush, now) > ACK_TIMEOUT_MS {
            self.awaiting_ack = false;
        }
    }

    /// The stage once the host has had nothing new: what changed is shown where a frame is due.
    pub open spec fn idled(self, now: u64) -> Stage {
        if self.dirty is Some && self.frame_due(now) {
            self.flushed(now)
        } else {
            self
        }
    }

    /// The host has nothing new: gives the rectangle to show, where one has changed and a frame
    /// is due.
    pub fn on_idle(&mut self, now: u64) -> (r: Option<Rect>)
        ensures
            old(self).frame_due(now) ==> r == old(self).dirty,
            !old(self).frame_due(now) ==> r is None,
            *final(self) == old(self).idled(now),
    {
        if let Some(rect) = self.dirty {
            if ms_since(self.last_flush, now) >= FRAME_MS {
                self.dirty = None;
                self.last_flush = now;
                return Some(rect);
            }
        }
        None
    }

    /// The host has changed a rectangle.
    pub fn on_update(&mut self, rect: Rect)
        ensures
            *final(self) == (Stage { dirty: Some(grown(old(self).dirty, rect)), ..*old(self) }),
    {
        self.dirty = Some(
            match self.dirty {
                Some(existing) => existing.union(rect),
                None => rect,
            },
        );
    }

    /// What a part of the host's answer does to the stage.
    pub open spec fn after_output(self, output: StageOutput) -> Stage {
        match output {
            StageOutput::Update(rect) => Stage { dirty: Some(grown(self.dirty, rect)), ..self },
            _ => self,
        }
    }

    /// Takes a part of the host's answer, and says what to do.
    pub fn on_output(&mut self, output: StageOutput) -> (r: StageAction)
        requires
            output matches StageOutput::Pointer { width, height, rgba, .. } ==> can_encode_pointer(
                width,
                height,
                rgba@.len(),
            ),
        ensures
            *final(self) == old(self).after_output(output),
            match output {
                StageOutput::Response(bytes) => r == StageAction::Write(bytes),
                StageOutput::Update(_) => r == StageAction::Nothing,
                StageOutput::Pointer { width, height, hotspot_x, hotspot_y, rgba } =>
                match pointer_message(width, height, hotspot_x, hotspot_y, rgba@) {
                    Some(message) => r is Send && r->Send_0@ == message,
                    None => r == StageAction::Nothing,
                },
                StageOutput::Terminate => r == StageAction::Stop,
                StageOutput::Other => r == StageAction::Nothing,
            },
    {
        match output {
            StageOutput::Response(bytes) => StageAction::Write(bytes),
            StageOutput::Update(rect) => {
                self.on_update(rect);
                StageAction::Nothing
            },
            StageOutput::Pointer { width, height, hotspot_x, hotspot_y, rgba } => {
                match encode_pointer(width, height, hotspot_x, hotspot_y, rgba.as_slice()) {
                    Some(frame) => StageAction::Send(frame),
                    None => StageAction::Nothing,
                }
            },
            StageOutput::Terminate => StageAction::Stop,
            StageOutput::Other => StageAction::Nothing,
        }
    }

    /// The video has something to show: something changed, a frame is due, and the browser has
    /// acknowledged the last one.
    pub open spec fn video_due(self, now: u64) -> bool {
        self.dirty is Some && !self.awaiting_ack && self.frame_due(now)
    }

    /// Everything that the host sent has been taken in: says whether the whole desktop goes to
    /// the video encoder.
    pub fn flush_video(&mut self, now: u64) -> (r: bool)
        ensures
            r == old(self).video_due(now),
            r ==> *final(self) == (Stage { awaiting_ack: true, ..old(self).flushed(now) }),
            !r ==> *final(self) == *old(self),
    {
        if self.dirty.is_some() && !self.awaiting_ack && ms_since(self.last_flush, now)
            >= FRAME_MS {
            self.awaiting_ack = true;
            self.dirty = None;
            self.last_flush = now;
            true
        } else {
            false
        }
    }
}

/// What changed since the last frame, update by update.
pub open spec fn dirty_after(dirty: Option<Rect>, updates: Seq<Rect>) -> Option<Rect>
    decreases updates.len(),
{
    if updates.len() == 0 {
        dirty
    } else {
        Some(grown(dirty_after(dirty, updates.drop_last()), updates.last()))
    }
}

/// Nothing that changed since the last frame is forgotten: every point of every update lies in
/// the rectangle that will be shown.
pub proof fn no_update_is_lost(dirty: Option<Rect>, updates: Seq<Rect>, i: int, x: int, y: int)
    requires
        0 <= i < updates.len(),
        updates[i].holds(x, y),
    ensures
        dirty_after(dirty, updates) is Some,
        dirty_after(dirty, updates)->0.holds(x, y),
    decreases updates.len(),
{
    let front = updates.drop_last();
    if i < front.len() {
        assert(front[i] == updates[i]);
        no_update_is_lost(dirty, front, i, x, y);
    }
}

/// What happens on a stage between two frames for the video encoder.
pub enum StageEvent {
    /// The browser acknowledges a frame.
    Ack,
    /// The host answers.
    Output(StageOutput),
    /// The host has nothing new, at the given time.
    Idle(u64),
    /// The wait for an acknowledgement is looked at, at the given time.
    Check(u64),
}

/// The stage once something has happened on it.
pub open spec fn stage_after_one(stage: Stage, event: StageEvent) -> Stage {
    match event {
        StageEvent::Ack => Stage { awaiting_ack: false, ..stage },
        StageEvent::Output(output) => stage.after_output(output),
        StageEvent::Idle(at) => stage.idled(at),
        StageEvent::Check(at) => stage.ack_checked(at),
    }
}

/// The stage once a run of things has happened on it.
pub open spec fn stage_after(stage: Stage, events: Seq<StageEvent>) -> Stage
    decreases events.len(),
{
    if events.len() == 0 {
        stage
    } else {
        stage_after_one(stage_after(stage, events.drop_last()), events.last())
    }
}

/// The event does not happen before the one time, nor after the other.
pub open spec fn happens_within(event: StageEvent, from: u64, to: u64) -> bool {
    match event {
        StageEvent::Idle(at) => from <= at <= to,
        StageEvent::Check(at) => from <= at <= to,
        _ => true,
    }
}

/// Once a frame has gone to the video encoder, and whatever happens then, no other one follows
/// within the least time; and none follows before the browser has acknowledged it, unless the
/// wait has become too long.
pub proof fn video_waits_for_the_browser(
    stage: Stage,
    sent: u64,
    events: Seq<StageEvent>,
    now: u64,
)
    requires
        stage.video_due(sent),
        sent <= now,
        forall|i: int|
            0 <= i < events.len() ==> happens_within(#[trigger] events[i], sent, now),
    ensures
        ({
            let after = stage_after(Stage { awaiting_ack: true, ..stage.flushed(sent) }, events);
            let acked = exists|i: int| 0 <= i < events.len() && #[trigger] events[i] is Ack;
            &&& after.video_due(now) ==> ms_between(sent, now) >= FRAME_MS
            &&& after.video_due(now) && !acked ==> ms_between(sent, now) > ACK_TIMEOUT_MS
        }),
{
    let started = Stage { awaiting_ack: true, ..stage.flushed(sent) };
    wait_goes_on(started, sent, events, now);
    let after = stage_after(started, events);
    assert(ms_between(after.last_flush, now) <= ms_between(sent, now));
}

proof fn wait_goes_on(started: Stage, sent: u64, events: Seq<StageEvent>, now: u64)
    requires
        started.awaiting_ack,
        started.last_flush == sent,
        sent <= now,
        forall|i: int|
            0 <= i < events.len() ==> happens_within(#[trigger] events[i], sent, now),
    ensures
        sent <= stage_after(started, events).last_flush <= now,
        stage_after(started, events).awaiting_ack || ms_between(sent, now) > ACK_TIMEOUT_MS
            || exists|i: int| 0 <= i < events.len() && #[trigger] events[i] is Ack,
    decreases events.len(),
{
    if events.len() > 0 {
        let front = events.drop_last();
        let last = events.last();
        assert(last == events[events.len() - 1]);
        assert forall|i: int| 0 <= i < front.len() implies happens_within(
            #[trigger] front[i],
            sent,
            now,
        ) by {
            assert(front[i] == events[i]);
        }
        wait_goes_on(started, sent, front, now);
        if exists|i: int| 0 <= i < front.len() && #[trigger] front[i] is Ack {
            let i = choose|i: int| 0 <= i < front.len() && #[trigger] front[i] is Ack;
            assert(events[i] is Ack);
        }
        assert(happens_within(last, sent, now));
    }
}

/// The picture that is fed to the video encoder, and whether it is running.
#[derive(Clone, Copy, Debug, PartialEq, Eq, Structural)]
pub struct VideoFeed {
    pub width: u16,
    pub height: u16,
    pub running: bool,
}

impl VideoFeed {
    /// A feed that has not begun.
    pub fn new() -> (r: VideoFeed)
        ensures
            r == (VideoFeed { width: 0, height: 0, running: false }),
    {
        VideoFeed { width: 0, height: 0, running: false }
    }

    /// Says whether a video encoder is to be started: the picture has another size than the one
    /// that the last encoder was started for.
    pub fn wants_encoder(&self, width: u16, height: u16) -> (r: bool)
        ensures
            r == (width != self.width || height != self.height),
    {
        width != self.width || height != self.height
    }

    /// A video encoder was started.
    pub fn on_started(&mut self, width: u16, height: u16)
        ensures
            *final(self) == (VideoFeed { width, height, running: true }),
    {
        self.width = width;
        self.height = height;
        self.running = true;
    }

    /// The video encoder no longer takes pictures.
    pub fn on_broken(&mut self)
        ensures
            *final(self) == (VideoFeed { running: false, ..*old(self) }),
    {
        self.running = false;
    }
}

/// A picture size, as the video encoder is told it.
pub open spec fn size_text(w: u16, h: u16) -> Seq<char> {
    decimal(w as nat) + "x"@ + decimal(h as nat)
}

/// The arguments of the video encoder: raw pictures in, an H.264 stream out.
pub open spec fn ffmpeg_arguments(w: u16, h: u16) -> Seq<Seq<char>> {
    seq![
        "-f"@,
        "rawvideo"@,
        "-pixel_format"@,
        "rgba"@,
        "-video_size"@,
        size_text(w, h),
        "-i"@,
        "-"@,
        "-c:v"@,
        "libx264"@,
        "-preset"@,
        "ultrafast"@,
        "-tune"@,
        "zerolatency"@,
        "-f"@,
        "h264"@,
        "-an"@,
        "-"@,
    ]
}

/// The arguments that the video encoder is started with.
pub fn spawn_ffmpeg(w: u16, h: u16) -> (r: Vec<String>)
    ensures
        views(r@) == ffmpeg_arguments(w, h),
{
    let mut size: String = String::new();
    append_decimal(&mut size, w as u64);
    size.append("x");
    append_decimal(&mut size, h as u64);
    assert(size@ =~= size_text(w, h));
    let mut args: Vec<String> = Vec::new();
    args.push("-f".to_owned());
    args.push("rawvideo".to_owned());
    args.push("-pixel_format".to_owned());
    args.push("rgba".to_owned());
    args.push("-video_size".to_owned());
    args.push(size);
    args.push("-i".to_owned());
    args.push("-".to_owned());
    args.push("-c:v".to_owned());
    args.push("libx264".to_owned());
    args.push("-preset".to_owned());
    args.push("ultrafast".to_owned());
    args.push("-tune".to_owned());
    args.push("zerolatency".to_owned());
    args.push("-f".to_owned());
    args.push("h264".to_owned());
    args.push("-an".to_owned());
    args.push("-".to_owned());
    assert(views(args@) =~= ffmpeg_arguments(w, h));
    args
}

/// Whole milliseconds are counted: so many have gone by once a million times as many nanoseconds
/// have.
pub proof fn milliseconds_are_counted(then: u64, now: u64, ms: u64)
    requires
        then <= now,
    ensures
        ms_between(then, now) >= ms <==> now - then >= ms * 1_000_000,
{
}

/// The desktop goes to the video encoder exactly when something has changed, no acknowledgement is
/// waited for, and 16 milliseconds have gone by; without the wait for the browser what has changed
/// is shown as soon as they have.
pub proof fn changes_are_shown_after_16_milliseconds(stage: Stage, now: u64)
    requires
        stage.last_flush <= now,
    ensures
        stage.video_due(now) <==> stage.dirty is Some && !stage.awaiting_ack && now
            - stage.last_flush >= 16_000_000,
        stage.dirty is Some && now - stage.last_flush >= 16_000_000 ==> stage.idled(now).dirty is None
            && stage.idled(now).last_flush == now,
        stage.dirty is None || now - stage.last_flush < 16_000_000 ==> stage.idled(now) == stage,
        stage.idled(now).awaiting_ack == stage.awaiting_ack,
{
}

/// An acknowledgement is given up on once more than 200 whole milliseconds have gone by since the
/// last frame, and not before; nothing else changes by it.
pub proof fn acknowledgements_are_given_up_on(stage: Stage, now: u64)
    requires
        stage.last_flush <= now,
    ensures
        stage.awaiting_ack ==> (stage.ack_checked(now).awaiting_ack <==> now - stage.last_flush
            < 201_000_000),
        !stage.awaiting_ack ==> stage.ack_checked(now) == stage,
        stage.ack_checked(now).dirty == stage.dirty,
        stage.ack_checked(now).last_flush == stage.last_flush,
{
}

/// What changes is added to what has changed before, and nothing else that a host answers makes a
/// difference to it.
pub proof fn only_updates_change_the_stage(stage: Stage, output: StageOutput, x: int, y: int)
    ensures
        output !is Update ==> stage.after_output(output) == stage,
        output is Update ==> ({
            let after = stage.after_output(output);
            &&& after.dirty is Some
            &&& output->Update_0.holds(x, y) ==> after.dirty->0.holds(x, y)
            &&& stage.dirty is Some && stage.dirty->0.holds(x, y) ==> after.dirty->0.holds(x, y)
            &&& stage.dirty is None ==> after.dirty->0 == output->Update_0
            &&& after.awaiting_ack == stage.awaiting_ack && after.last_flush == stage.last_flush
        }),
{
}

/// The video encoder reads raw pictures of four bytes to a pixel from its input, of the width and
/// then the height that it is told, and writes an H.264 stream to its output.
pub proof fn video_encoder_is_told_the_size(w: u16, h: u16)
    ensures
        ({
            let args = ffmpeg_arguments(w, h);
            &&& args.len() == 18
            &&& args[0] == "-f"@ && args[1] == "rawvideo"@
            &&& args[2] == "-pixel_format"@ && args[3] == "rgba"@
            &&& args[4] == "-video_size"@ && args[5] == decimal(w as nat) + seq!['x'] + decimal(
                h as nat,
            )
            &&& args[6] == "-i"@ && args[7] == "-"@
            &&& args[8] == "-c:v"@ && args[9] == "libx264"@
            &&& args[10] == "-preset"@ && args[11] == "ultrafast"@
            &&& args[12] == "-tune"@ && args[13] == "zerolatency"@
            &&& args[14] == "-f"@ && args[15] == "h264"@
            &&& args[16] == "-an"@ && args[17] == "-"@
        }),
{
    reveal_strlit("x");
    assert("x"@ =~= seq!['x']);
}

/// An acknowledgement ends the wait for it, and changes nothing else of the stage.
pub proof fn acknowledgements_end_the_wait(stage: Stage)
    ensures
        !stage_after_one(stage, StageEvent::Ack).awaiting_ack,
        stage_after_one(stage, StageEvent::Ack).dirty == stage.dirty,
        stage_after_one(stage, StageEvent::Ack).last_flush == stage.last_flush,
{
}

} // verus!

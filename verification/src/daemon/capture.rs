//! Screen capture: which picture goes out when, on the hardware path and on the software path.

use crate::daemon::pixels::{can_scale, downscale_bgra, scaled};
use crate::daemon::resize::{target_of, ResizeState};
use crate::time::{after, later};
use vstd::prelude::*;

verus! {

/// What the capture side hands to the encoder: a device to encode with, of type `D`, or a
/// picture, in a texture of type `T` or in memory. Times are in nanoseconds.
#[derive(Debug)]
pub enum CaptureEvent<D, T> {
    NewDevice(D, u32, u32),
    HardwareFrame { texture: T, width: u32, height: u32, captured_at: u64 },
    SoftwareFrame { data: Vec<u8>, width: u32, height: u32, captured_at: u64 },
}

/// How long the last picture stands before it is sent again, in nanoseconds.
pub const REPEAT_AFTER: u64 = 90_000_000;

/// The textures that captured pictures are copied into, in turn.
pub const POOL_SIZE: usize = 3;

/// How long to wait after a failure to acquire a picture, in milliseconds.
pub const ACQUIRE_RETRY_MS: u64 = 100;

/// How long to wait after a failure of the software path, in milliseconds.
pub const SOFTWARE_RETRY_MS: u64 = 500;

/// The time between two pictures, in nanoseconds: whole microseconds.
pub open spec fn interval_of(fps: u32) -> u64 {
    let rate: int = if fps == 0 {
        1
    } else {
        fps as int
    };
    (1_000_000int / rate * 1000) as u64
}

/// Keeps pictures from going out faster than asked.
#[derive(Clone, Copy, Debug, PartialEq, Eq, Structural)]
pub struct Pace {
    pub interval: u64,
    pub due_at: u64,
}

impl Pace {
    /// The next picture may go out.
    pub open spec fn due(self, now: u64) -> bool {
        self.due_at <= now
    }

    /// The pace once a picture has gone out.
    pub open spec fn marked(self, now: u64) -> Pace {
        Pace { interval: self.interval, due_at: later(now, self.interval) }
    }

    /// A pace at which the first picture is due at once.
    pub fn new(fps: u32, now: u64) -> (r: Pace)
        ensures
            r == (Pace { interval: interval_of(fps), due_at: now }),
    {
        let rate: u32 = if fps == 0 {
            1
        } else {
            fps
        };
        Pace { interval: (1_000_000 / rate) as u64 * 1000, due_at: now }
    }

    /// Says whether the next picture may go out.
    pub fn is_due(&self, now: u64) -> (r: bool)
        ensures
            r == self.due(now),
    {
        self.due_at <= now
    }

    /// Notes that a picture has gone out.
    pub fn mark(&mut self, now: u64)
        ensures
            *final(self) == old(self).marked(now),
    {
        self.due_at = after(now, self.interval);
    }
}

/// What came of asking the hardware for a picture.
#[derive(Clone, Copy, Debug, PartialEq, Eq, Structural)]
pub enum Acquired {
    /// A new picture.
    Picture,
    /// A frame without a picture.
    Empty,
    /// The screen can no longer be read this way.
    AccessLost,
    /// Nothing has changed on the screen.
    TimedOut,
    /// Anything else that went wrong.
    Failed,
}

/// What to do next on the hardware path.
#[derive(Clone, Copy, Debug, PartialEq, Eq, Structural)]
pub enum CaptureAction {
    /// Copy the new picture into a texture of the pool, and send it.
    Send { slot: usize },
    /// Send a texture again.
    Repeat { slot: usize },
    /// Send nothing.
    Skip,
    /// Go over to the software path.
    FallBack,
    /// Send nothing, and wait.
    Pause { ms: u64 },
}

/// A run of the hardware path.
#[derive(Clone, Copy, Debug, PartialEq, Eq, Structural)]
pub struct HardwareRun {
    pub slots: usize,
    pub next: usize,
    pub last_sent: Option<usize>,
    pub repeat_at: u64,
}

impl HardwareRun {
    /// Every slot that is spoken of is in the pool.
    pub open spec fn wf(self) -> bool {
        &&& self.next < self.slots
        &&& self.last_sent is Some ==> self.last_sent->0 < self.slots
    }

    /// The run once a new picture went out.
    pub open spec fn after_send(self, now: u64) -> HardwareRun {
        HardwareRun {
            slots: self.slots,
            next: next_slot(self.next, self.slots),
            last_sent: Some(self.next),
            repeat_at: later(now, REPEAT_AFTER),
        }
    }

    /// Starts a run with the textures that could be made. Without one there is none.
    pub fn start(textures: usize, now: u64) -> (r: Option<HardwareRun>)
        ensures
            textures == 0 <==> r is None,
            r is Some ==> r->0.wf() && r->0 == (HardwareRun {
                slots: textures,
                next: 0,
                last_sent: None,
                repeat_at: now,
            }),
    {
        if textures == 0 {
            None
        } else {
            Some(HardwareRun { slots: textures, next: 0, last_sent: None, repeat_at: now })
        }
    }

    /// Takes what came of asking for a picture, and says what to do.
    pub fn on_acquire(&mut self, pace: &mut Pace, outcome: Acquired, now: u64) -> (r: CaptureAction)
        requires
            old(self).wf(),
        ensures
            final(self).wf(),
            (*final(self), *final(pace), r) == hardware_step(*old(self), *old(pace), outcome, now),
    {
        match outcome {
            Acquired::Picture => {
                if pace.is_due(now) {
                    let slot: usize = self.next;
                    self.last_sent = Some(slot);
                    self.repeat_at = after(now, REPEAT_AFTER);
                    self.next = following(slot, self.slots);
                    pace.mark(now);
                    CaptureAction::Send { slot }
                } else {
                    CaptureAction::Skip
                }
            },
            Acquired::Empty => {
                if pace.is_due(now) {
                    pace.mark(now);
                }
                CaptureAction::Skip
            },
            Acquired::TimedOut => {
                if pace.is_due(now) && self.repeat_at <= now {
                    if let Some(slot) = self.last_sent {
                        pace.mark(now);
                        self.repeat_at = after(now, REPEAT_AFTER);
                        return CaptureAction::Repeat { slot };
                    }
                }
                CaptureAction::Skip
            },
            Acquired::AccessLost => CaptureAction::FallBack,
            Acquired::Failed => CaptureAction::Pause { ms: ACQUIRE_RETRY_MS },
        }
    }
}

/// The slot behind a slot; behind the last one comes the first.
pub open spec fn next_slot(slot: usize, slots: usize) -> usize {
    if slot + 1 < slots {
        (slot + 1) as usize
    } else {
        0
    }
}

fn following(slot: usize, slots: usize) -> (r: usize)
    requires
        slot < slots,
    ensures
        r == next_slot(slot, slots),
{
    if slot + 1 < slots {
        slot + 1
    } else {
        0
    }
}

/// What the hardware path makes of an outcome: the run and the pace that follow, and what is
/// done.
pub open spec fn hardware_step(run: HardwareRun, pace: Pace, outcome: Acquired, now: u64) -> (
    HardwareRun,
    Pace,
    CaptureAction,
) {
    match outcome {
        Acquired::Picture => if pace.due(now) {
            (run.after_send(now), pace.marked(now), CaptureAction::Send { slot: run.next })
        } else {
            (run, pace, CaptureAction::Skip)
        },
        Acquired::Empty => (
            run,
            if pace.due(now) {
                pace.marked(now)
            } else {
                pace
            },
            CaptureAction::Skip,
        ),
        Acquired::TimedOut => if pace.due(now) && run.repeat_at <= now && run.last_sent is Some {
            (
                HardwareRun { repeat_at: later(now, REPEAT_AFTER), ..run },
                pace.marked(now),
                CaptureAction::Repeat { slot: run.last_sent->0 },
            )
        } else {
            (run, pace, CaptureAction::Skip)
        },
        Acquired::AccessLost => (run, pace, CaptureAction::FallBack),
        Acquired::Failed => (run, pace, CaptureAction::Pause { ms: ACQUIRE_RETRY_MS }),
    }
}

/// A picture goes out.
pub open spec fn goes_out(action: CaptureAction) -> bool {
    action is Send || action is Repeat
}

/// The pictures of a run that the given outcomes lead to: for each that goes out, when.
pub open spec fn sent_at(run: HardwareRun, pace: Pace, outcomes: Seq<(Acquired, u64)>) -> Seq<u64>
    decreases outcomes.len(),
{
    if outcomes.len() == 0 {
        Seq::empty()
    } else {
        let step = hardware_step(run, pace, outcomes[0].0, outcomes[0].1);
        let rest = sent_at(step.0, step.1, outcomes.drop_first());
        if goes_out(step.2) {
            seq![outcomes[0].1] + rest
        } else {
            rest
        }
    }
}

/// The outcomes come in the order of their times, and end before the clock does.
pub open spec fn in_order(outcomes: Seq<(Acquired, u64)>, interval: u64) -> bool {
    &&& forall|i: int, j: int|
        0 <= i <= j < outcomes.len() ==> (#[trigger] outcomes[i]).1 <= (#[trigger] outcomes[j]).1
    &&& forall|i: int|
        0 <= i < outcomes.len() ==> (#[trigger] outcomes[i]).1 + interval <= u64::MAX
}

proof fn rest_is_in_order(outcomes: Seq<(Acquired, u64)>, interval: u64)
    requires
        in_order(outcomes, interval),
        outcomes.len() > 0,
    ensures
        in_order(outcomes.drop_first(), interval),
{
    let tail = outcomes.drop_first();
    assert forall|a: int, b: int| 0 <= a <= b < tail.len() implies (#[trigger] tail[a]).1 <= (
    #[trigger] tail[b]).1 by {
        assert(outcomes[a + 1].1 <= outcomes[b + 1].1);
    }
    assert forall|a: int| 0 <= a < tail.len() implies (#[trigger] tail[a]).1 + interval
        <= u64::MAX by {
        assert(outcomes[a + 1].1 + interval <= u64::MAX);
    }
}

proof fn nothing_goes_out_early(run: HardwareRun, pace: Pace, outcomes: Seq<(Acquired, u64)>, i: int)
    requires
        in_order(outcomes, pace.interval),
        0 <= i < sent_at(run, pace, outcomes).len(),
    ensures
        pace.due_at <= sent_at(run, pace, outcomes)[i],
    decreases outcomes.len(),
{
    let step = hardware_step(run, pace, outcomes[0].0, outcomes[0].1);
    let tail = outcomes.drop_first();
    rest_is_in_order(outcomes, pace.interval);
    assert(outcomes[0].1 + pace.interval <= u64::MAX);
    if goes_out(step.2) {
        if i > 0 {
            nothing_goes_out_early(step.0, step.1, tail, i - 1);
        }
    } else {
        nothing_goes_out_early(step.0, step.1, tail, i);
    }
}

/// However the hardware behaves, two pictures of a run never go out closer to each other than
/// the interval.
pub proof fn pictures_keep_the_pace(
    run: HardwareRun,
    pace: Pace,
    outcomes: Seq<(Acquired, u64)>,
    i: int,
)
    requires
        in_order(outcomes, pace.interval),
        0 <= i,
        i + 1 < sent_at(run, pace, outcomes).len(),
    ensures
        sent_at(run, pace, outcomes)[i] + pace.interval <= sent_at(run, pace, outcomes)[i + 1],
    decreases outcomes.len(),
{
    let step = hardware_step(run, pace, outcomes[0].0, outcomes[0].1);
    let tail = outcomes.drop_first();
    rest_is_in_order(outcomes, pace.interval);
    assert(outcomes[0].1 + pace.interval <= u64::MAX);
    if goes_out(step.2) {
        if i > 0 {
            pictures_keep_the_pace(step.0, step.1, tail, i - 1);
        } else {
            nothing_goes_out_early(step.0, step.1, tail, 0);
        }
    } else {
        pictures_keep_the_pace(step.0, step.1, tail, i);
    }
}

/// A repeated picture is the one that was sent last, and stood long enough; a new picture never
/// overwrites the one that was sent last, where there is more than one texture.
pub proof fn repeats_and_reuse(run: HardwareRun, pace: Pace, sent: u64, outcome: Acquired, now: u64)
    requires
        run.wf(),
        pace.due(sent),
        sent + REPEAT_AFTER <= u64::MAX,
    ensures
        ({
            let first = hardware_step(run, pace, Acquired::Picture, sent);
            let second = hardware_step(first.0, first.1, outcome, now);
            &&& first.2 == CaptureAction::Send { slot: run.next }
            &&& second.2 is Repeat ==> second.2->Repeat_slot == run.next && now >= sent
                + REPEAT_AFTER
            &&& second.2 is Send && run.slots > 1 ==> second.2->Send_slot != run.next
        }),
{
}

/// What to do next on the software path.
#[derive(Clone, Copy, Debug, PartialEq, Eq, Structural)]
pub enum SoftwareTick {
    /// No picture is due.
    Idle,
    /// Make new textures for the size, announce it, and read the screen.
    Rebuild { width: u32, height: u32 },
    /// Read the screen.
    Read,
}

/// A run of the software path.
#[derive(Clone, Copy, Debug, PartialEq, Eq)]
pub struct SoftwareRun {
    pub screen: (u32, u32),
    pub active: (u32, u32),
    pub next: usize,
}

impl SoftwareRun {
    /// The slot is in the pool.
    pub open spec fn wf(self) -> bool {
        self.next < POOL_SIZE
    }

    /// A run for a screen of the given size. Nothing is announced yet.
    pub fn start(screen: (u32, u32)) -> (r: SoftwareRun)
        ensures
            r.wf(),
            r == (SoftwareRun { screen, active: (0, 0), next: 0 }),
    {
        SoftwareRun { screen, active: (0, 0), next: 0 }
    }

    /// Says what to do, for the size that is asked for now.
    pub fn tick(&mut self, pace: &Pace, target: (u32, u32), now: u64) -> (r: SoftwareTick)
        requires
            old(self).wf(),
        ensures
            final(self).wf(),
            !pace.due(now) ==> r == SoftwareTick::Idle && *final(self) == *old(self),
            pace.due(now) ==> *final(self) == (SoftwareRun { active: target, ..*old(self) }),
            pace.due(now) && target != old(self).active ==> r == (SoftwareTick::Rebuild {
                width: target.0,
                height: target.1,
            }),
            pace.due(now) && target == old(self).active ==> r == SoftwareTick::Read,
    {
        if !pace.is_due(now) {
            return SoftwareTick::Idle;
        }
        if target.0 != self.active.0 || target.1 != self.active.1 {
            self.active = target;
            SoftwareTick::Rebuild { width: target.0, height: target.1 }
        } else {
            SoftwareTick::Read
        }
    }

    /// A picture of so many bytes can be brought to the active size.
    pub open spec fn can_send(self, len: nat) -> bool {
        self.active == self.screen || can_scale(
            len,
            self.screen.0,
            self.screen.1,
            self.active.0,
            self.active.1,
        )
    }

    /// The picture as it is sent: brought to the active size where that is another.
    pub open spec fn picture_of(self, raw: Seq<u8>) -> Seq<u8> {
        if self.active == self.screen {
            raw
        } else {
            scaled(
                raw,
                self.screen.0 as int,
                self.screen.1 as int,
                self.active.0 as int,
                self.active.1 as int,
            )
        }
    }

    /// Takes the picture that was read from the screen: gives the slot and the bytes to send.
    pub fn on_picture(&mut self, pace: &mut Pace, raw: Vec<u8>, now: u64) -> (r: (usize, Vec<u8>))
        requires
            old(self).wf(),
            old(self).can_send(raw@.len()),
        ensures
            final(self).wf(),
            *final(self) == (SoftwareRun { next: next_slot(old(self).next, POOL_SIZE), ..*old(self) }),
            *final(pace) == old(pace).marked(now),
            r.0 == old(self).next,
            r.1@ == old(self).picture_of(raw@),
    {
        let data: Vec<u8> = if self.active.0 != self.screen.0 || self.active.1 != self.screen.1 {
            downscale_bgra(
                raw.as_slice(),
                self.screen.0,
                self.screen.1,
                self.active.0,
                self.active.1,
            )
        } else {
            raw
        };
        let slot: usize = self.next;
        self.next = following(slot, POOL_SIZE);
        pace.mark(now);
        (slot, data)
    }
}

/// The size that is used for a screen that does not tell its own.
pub open spec fn usual_screen() -> (u32, u32) {
    (1920u32, 1080u32)
}

/// How long to wait between two looks at the software path, in milliseconds.
pub const SOFTWARE_POLL_MS: u64 = 5;

/// How long to wait for a picture on the hardware path, in milliseconds.
pub const ACQUIRE_TIMEOUT_MS: u32 = 5;

/// What the capture loop does next.
#[derive(Clone, Copy, Debug, PartialEq, Eq)]
pub enum CaptureStage {
    /// Look for a screen that the hardware can capture.
    Probe,
    /// Announce the device, and make the textures.
    Announce { width: u32, height: u32 },
    /// Ask the hardware for a picture.
    Hardware { run: HardwareRun, width: u32, height: u32 },
    /// Find out the size of the screen, and get a device for the software path.
    OpenSoftware,
    /// Take pictures in software.
    Software { run: SoftwareRun },
    /// Wait, and look for a screen again.
    Wait { ms: u64 },
    /// End.
    Exit,
}

/// The capture loop: the hardware path as long as it works, and otherwise the software path.
#[derive(Clone, Copy, Debug, PartialEq, Eq)]
pub struct CaptureLoop {
    pub pace: Pace,
    pub stage: CaptureStage,
}

impl CaptureLoop {
    /// Every slot that is spoken of is in its pool.
    pub open spec fn wf(self) -> bool {
        match self.stage {
            CaptureStage::Hardware { run, .. } => run.wf(),
            CaptureStage::Software { run } => run.wf(),
            _ => true,
        }
    }

    /// A loop that looks for a screen, and whose first picture is due at once.
    pub fn new(fps: u32, now: u64) -> (r: CaptureLoop)
        ensures
            r.wf(),
            r == (CaptureLoop {
                pace: Pace { interval: interval_of(fps), due_at: now },
                stage: CaptureStage::Probe,
            }),
    {
        CaptureLoop { pace: Pace::new(fps, now), stage: CaptureStage::Probe }
    }

    /// The loop is to stop, or nobody takes its pictures any more.
    pub fn on_stop(&mut self)
        ensures
            final(self).wf(),
            *final(self) == (CaptureLoop { stage: CaptureStage::Exit, ..*old(self) }),
    {
        self.stage = CaptureStage::Exit;
    }

    /// A screen of this size was found, or none.
    pub fn on_probe(&mut self, found: Option<(u32, u32)>)
        requires
            old(self).stage is Probe,
        ensures
            final(self).wf(),
            *final(self) == (CaptureLoop {
                stage: match found {
                    Some(size) => CaptureStage::Announce { width: size.0, height: size.1 },
                    None => CaptureStage::OpenSoftware,
                },
                ..*old(self)
            }),
    {
        self.stage = match found {
            Some(size) => CaptureStage::Announce { width: size.0, height: size.1 },
            None => CaptureStage::OpenSoftware,
        };
    }

    /// The device was announced, and so many textures were made. Without one the loop begins
    /// anew.
    pub fn on_announced(&mut self, textures: usize, now: u64)
        requires
            old(self).stage is Announce,
        ensures
            final(self).wf(),
            *final(self) == (CaptureLoop {
                stage: if textures == 0 {
                    CaptureStage::Probe
                } else {
                    CaptureStage::Hardware {
                        run: HardwareRun {
                            slots: textures,
                            next: 0,
                            last_sent: None,
                            repeat_at: now,
                        },
                        width: old(self).stage->Announce_width,
                        height: old(self).stage->Announce_height,
                    }
                },
                ..*old(self)
            }),
    {
        if let CaptureStage::Announce { width, height } = self.stage {
            self.stage = match HardwareRun::start(textures, now) {
                Some(run) => CaptureStage::Hardware { run, width, height },
                None => CaptureStage::Probe,
            };
        }
    }

    /// Takes what came of asking the hardware for a picture, and says what to do.
    pub fn on_acquire(&mut self, outcome: Acquired, now: u64) -> (r: CaptureAction)
        requires
            old(self).wf(),
            old(self).stage is Hardware,
        ensures
            final(self).wf(),
            ({
                let step = hardware_step(
                    old(self).stage->Hardware_run,
                    old(self).pace,
                    outcome,
                    now,
                );
                &&& r == step.2
                &&& *final(self) == (CaptureLoop {
                    pace: step.1,
                    stage: if step.2 is FallBack {
                        CaptureStage::OpenSoftware
                    } else {
                        CaptureStage::Hardware {
                            run: step.0,
                            width: old(self).stage->Hardware_width,
                            height: old(self).stage->Hardware_height,
                        }
                    },
                })
            }),
    {
        match self.stage {
            CaptureStage::Hardware { run, width, height } => {
                let mut run: HardwareRun = run;
                let action: CaptureAction = run.on_acquire(&mut self.pace, outcome, now);
                self.stage = match action {
                    CaptureAction::FallBack => CaptureStage::OpenSoftware,
                    _ => CaptureStage::Hardware { run, width, height },
                };
                action
            },
            _ => CaptureAction::Skip,
        }
    }

    /// The screen has this size, where it tells it, and a device is there, or it is not.
    pub fn on_software(&mut self, screen: Option<(u32, u32)>, device: bool)
        requires
            old(self).stage is OpenSoftware,
        ensures
            final(self).wf(),
            *final(self) == (CaptureLoop {
                stage: if device {
                    CaptureStage::Software {
                        run: SoftwareRun {
                            screen: match screen {
                                Some(size) => size,
                                None => usual_screen(),
                            },
                            active: (0, 0),
                            next: 0,
                        },
                    }
                } else {
                    CaptureStage::Wait { ms: SOFTWARE_RETRY_MS }
                },
                ..*old(self)
            }),
    {
        let size: (u32, u32) = match screen {
            Some(size) => size,
            None => (1920, 1080),
        };
        self.stage = if device {
            CaptureStage::Software { run: SoftwareRun::start(size) }
        } else {
            CaptureStage::Wait { ms: SOFTWARE_RETRY_MS }
        };
    }

    /// The wait is over.
    pub fn on_waited(&mut self)
        requires
            old(self).stage is Wait,
        ensures
            final(self).wf(),
            *final(self) == (CaptureLoop { stage: CaptureStage::Probe, ..*old(self) }),
    {
        self.stage = CaptureStage::Probe;
    }

    /// Says what to do on the software path, for the size that is asked for now. `capped_h` is
    /// the height that goes with a width of 1920 for the screen.
    pub fn on_tick(&mut self, resize: &ResizeState, capped_h: u32, now: u64) -> (r: SoftwareTick)
        requires
            old(self).wf(),
            old(self).stage is Software,
        ensures
            final(self).wf(),
            final(self).pace == old(self).pace,
            ({
                let run = old(self).stage->Software_run;
                let target = target_of(
                    run.screen.0,
                    run.screen.1,
                    resize.wanted_width(),
                    resize.wanted_height(),
                    capped_h,
                );
                if !old(self).pace.due(now) {
                    r == SoftwareTick::Idle && *final(self) == *old(self)
                } else {
                    &&& r == (if target == run.active {
                        SoftwareTick::Read
                    } else {
                        SoftwareTick::Rebuild { width: target.0, height: target.1 }
                    })
                    &&& final(self).stage == (CaptureStage::Software {
                        run: SoftwareRun { active: target, ..run },
                    })
                }
            }),
    {
        match self.stage {
            CaptureStage::Software { run } => {
                let mut run: SoftwareRun = run;
                let target: (u32, u32) = resize.target_size(
                    run.screen.0,
                    run.screen.1,
                    capped_h,
                );
                let tick: SoftwareTick = run.tick(&self.pace, target, now);
                self.stage = CaptureStage::Software { run };
                tick
            },
            _ => SoftwareTick::Idle,
        }
    }

    /// The screen was read, or could not be: gives the slot and the bytes to send. After a
    /// failure the loop waits, and looks for a screen again.
    pub fn on_read(&mut self, raw: Option<Vec<u8>>, now: u64) -> (r: Option<(usize, Vec<u8>)>)
        requires
            old(self).wf(),
            old(self).stage is Software,
            raw is Some ==> old(self).stage->Software_run.can_send(raw->0@.len()),
        ensures
            final(self).wf(),
            match raw {
                Some(raw) => {
                    let run = old(self).stage->Software_run;
                    &&& r is Some
                    &&& (r->0).0 == run.next
                    &&& (r->0).1@ == run.picture_of(raw@)
                    &&& *final(self) == (CaptureLoop {
                        pace: old(self).pace.marked(now),
                        stage: CaptureStage::Software {
                            run: SoftwareRun { next: next_slot(run.next, POOL_SIZE), ..run },
                        },
                    })
                },
                None => r is None && *final(self) == (CaptureLoop {
                    stage: CaptureStage::Wait { ms: SOFTWARE_RETRY_MS },
                    ..*old(self)
                }),
            },
    {
        match (self.stage, raw) {
            (CaptureStage::Software { run }, Some(raw)) => {
                let mut run: SoftwareRun = run;
                let sent: (usize, Vec<u8>) = run.on_picture(&mut self.pace, raw, now);
                self.stage = CaptureStage::Software { run };
                Some(sent)
            },
            _ => {
                self.stage = CaptureStage::Wait { ms: SOFTWARE_RETRY_MS };
                None
            },
        }
    }
}

/// Says whether a picture fills a texture, row by row, with nothing left over.
pub fn upload_fits(len: usize, width: u32, texture_height: u32) -> (r: bool)
    requires
        width * 4 <= u32::MAX,
    ensures
        r == (len == width * 4 * texture_height),
{
    let row: u32 = width * 4;
    assert(0 <= row * texture_height <= 0xFFFF_FFFF * 0xFFFF_FFFF) by (nonlinear_arith)
        requires
            0 <= row <= 0xFFFF_FFFF,
            0 <= texture_height <= 0xFFFF_FFFF,
    ;
    len as u64 == row as u64 * texture_height as u64
}

/// The interval is the longest one, in whole microseconds, at which as many pictures as asked for
/// go into a second.
pub proof fn pictures_fill_a_second(fps: u32)
    requires
        fps > 0,
    ensures
        interval_of(fps) % 1000 == 0,
        fps * interval_of(fps) <= 1_000_000_000 < fps * (interval_of(fps) + 1000),
        interval_of(0) == 1_000_000_000,
{
    let micros = 1_000_000int / (fps as int);
    let n = fps as int;
    vstd::arithmetic::div_mod::lemma_fundamental_div_mod(1_000_000, n);
    assert(0 <= 1_000_000int % n < n);
    assert(0 <= micros <= 1_000_000) by (nonlinear_arith)
        requires
            n > 0,
            micros == 1_000_000int / n,
    ;
    assert(n * (micros * 1000) == n * micros * 1000) by (nonlinear_arith);
    assert(n * (micros * 1000 + 1000) == n * micros * 1000 + n * 1000) by (nonlinear_arith);
}

/// A new picture goes out exactly when the interval has gone by since the last one, and the time
/// until the next one begins with it; a picture that comes earlier is let go, and changes nothing.
pub proof fn pictures_go_out_when_they_are_due(
    run: HardwareRun,
    pace: Pace,
    sent: u64,
    now: u64,
)
    requires
        pace.due_at <= sent,
        sent + pace.interval <= u64::MAX,
    ensures
        ({
            let first = hardware_step(run, pace, Acquired::Picture, sent);
            let second = hardware_step(first.0, first.1, Acquired::Picture, now);
            &&& first.2 is Send
            &&& second.2 is Send <==> now >= sent + pace.interval
            &&& now < sent + pace.interval ==> second.0 == first.0 && second.1 == first.1
                && second.2 is Skip
        }),
{
}

/// The last picture is sent again exactly when the screen has not changed for 90 milliseconds since
/// it was sent and a picture is due; a screen that has sent none yet repeats none.
pub proof fn unchanged_screens_are_repeated(
    run: HardwareRun,
    pace: Pace,
    sent: u64,
    now: u64,
)
    requires
        pace.due_at <= sent,
        sent + pace.interval <= u64::MAX,
        sent + 90_000_000 <= u64::MAX,
    ensures
        ({
            let first = hardware_step(run, pace, Acquired::Picture, sent);
            let second = hardware_step(first.0, first.1, Acquired::TimedOut, now);
            &&& second.2 is Repeat <==> now >= sent + pace.interval && now >= sent + 90_000_000
            &&& second.2 is Repeat ==> first.2 == (CaptureAction::Send {
                slot: second.2->Repeat_slot,
            })
            &&& second.2 is Repeat || second.2 is Skip
        }),
        run.last_sent is None ==> hardware_step(run, pace, Acquired::TimedOut, now).2 is Skip,
{
}

/// A repeated picture counts as one that was sent: the next one waits for the interval, and the
/// next repetition for another 90 milliseconds.
pub proof fn repetitions_count_as_pictures(run: HardwareRun, pace: Pace, at: u64, now: u64)
    requires
        hardware_step(run, pace, Acquired::TimedOut, at).2 is Repeat,
        at + pace.interval <= u64::MAX,
        at + 90_000_000 <= u64::MAX,
    ensures
        ({
            let first = hardware_step(run, pace, Acquired::TimedOut, at);
            &&& hardware_step(first.0, first.1, Acquired::Picture, now).2 is Send <==> now >= at
                + pace.interval
            &&& hardware_step(first.0, first.1, Acquired::TimedOut, now).2 == first.2 <==> now >= at
                + pace.interval && now >= at + 90_000_000
        }),
{
}

/// Textures are used in turn: the one behind the last is the first, and each one is used again only
/// after all the others.
pub proof fn textures_are_used_in_turn(slot: usize, slots: usize)
    requires
        slot < slots,
    ensures
        next_slot(slot, slots) == (slot + 1) % (slots as int),
        next_slot(slot, slots) < slots,
{
    if slot + 1 < slots {
        vstd::arithmetic::div_mod::lemma_small_mod((slot + 1) as nat, slots as nat);
    } else {
        vstd::arithmetic::div_mod::lemma_mod_self_0(slots as int);
    }
}

/// A screen that can no longer be read this way is read in software; a failure is waited out for
/// 100 milliseconds, and neither of them, nor a frame without a picture, sends anything.
pub proof fn failures_send_nothing(run: HardwareRun, pace: Pace, now: u64)
    ensures
        hardware_step(run, pace, Acquired::AccessLost, now) == (run, pace, CaptureAction::FallBack),
        hardware_step(run, pace, Acquired::Failed, now) == (
            run,
            pace,
            CaptureAction::Pause { ms: 100 },
        ),
        hardware_step(run, pace, Acquired::Empty, now).0 == run,
        hardware_step(run, pace, Acquired::Empty, now).2 is Skip,
        pace.due_at > now ==> hardware_step(run, pace, Acquired::Empty, now).1 == pace,
        pace.due_at <= now && now + pace.interval <= u64::MAX ==> hardware_step(
            run,
            pace,
            Acquired::Empty,
            now,
        ).1.due_at == now + pace.interval,
        usual_screen() == (1920u32, 1080u32),
        POOL_SIZE == 3,
        SOFTWARE_RETRY_MS == 500,
{
}

/// A picture that was read in software goes out as it is where the size fits, and otherwise each of
/// its pixels is the one of the screen at the same part of the way along either axis.
pub proof fn software_pictures_are_scaled(
    run: SoftwareRun,
    raw: Seq<u8>,
    x: int,
    y: int,
    from_x: int,
    from_y: int,
    c: int,
)
    requires
        0 <= x < run.active.0,
        0 <= y < run.active.1,
        0 <= c < 4,
        from_x * run.active.0 <= x * run.screen.0 < (from_x + 1) * run.active.0,
        from_y * run.active.1 <= y * run.screen.1 < (from_y + 1) * run.active.1,
    ensures
        run.active == run.screen ==> run.picture_of(raw) == raw,
        run.active != run.screen ==> run.picture_of(raw).len() == run.active.0 as int
            * run.active.1 as int * 4 && run.picture_of(raw)[(y * run.active.0 + x) * 4 + c]
            == raw[(from_y * run.screen.0 + from_x) * 4 + c],
{
    crate::daemon::pixels::scaled_pixels_lie_at_the_same_part(
        raw,
        run.screen.0 as int,
        run.screen.1 as int,
        run.active.0 as int,
        run.active.1 as int,
        x,
        y,
        from_x,
        from_y,
        c,
    );
}

/// Only a picture that is sent and one that is repeated go out.
pub proof fn sent_and_repeated_pictures_go_out(action: CaptureAction)
    ensures
        action is Send ==> goes_out(action),
        action is Repeat ==> goes_out(action),
        goes_out(action) && action !is Send ==> action is Repeat,
{
}

} // verus!

//! The video encoder: how one is chosen and set up, what its answers mean, and how its output
//! becomes frames.
//!
//! The transform itself is driven from outside. Its answers come in as plain values: an error
//! is its 32-bit code.

use crate::bytes::{append, copy};
use crate::daemon::annexb::{
    annexb_of, baselined, contains_idr, ensure_annexb, extract_sps_pps_annexb, has_idr,
    last_of_type, level_for, nal_units, spoof_sps_to_baseline, start_code, strip_sps_pps, stripped,
};
use crate::daemon::resize::{cap_size_preserving_aspect, capped_size};
use crate::text::{append_decimal, decimal, join_reasons, joined, views};
use vstd::prelude::*;

verus! {

/// What an encoder is to make.
#[derive(Clone, Copy, Debug, PartialEq, Eq, Structural)]
pub struct EncoderConfig {
    pub width: u32,
    pub height: u32,
    pub fps: u32,
    pub bitrate_kbps: u32,
}

impl Default for EncoderConfig {
    fn default() -> (r: EncoderConfig)
        ensures
            r == (EncoderConfig { width: 0, height: 0, fps: 0, bitrate_kbps: 0 }),
    {
        EncoderConfig { width: 0, height: 0, fps: 0, bitrate_kbps: 0 }
    }
}

/// How pictures reach the encoder.
#[derive(Clone, Copy, Debug, PartialEq, Eq, Structural)]
pub enum EncoderInputMode {
    DxgiSurface,
    SystemMemory,
}

/// Error code: the call is not implemented.
pub const NOT_IMPLEMENTED: u32 = 0x8000_4001;

/// Error code: something unexpected happened.
pub const UNEXPECTED: u32 = 0x8000_FFFF;

/// Error code: there is no output to drain.
pub const NOTHING_TO_DRAIN: u32 = 0xC00D_36B2;

/// Error code: more input is needed first.
pub const NEED_MORE_INPUT: u32 = 0xC00D_6D72;

/// Error code: the output format has changed.
pub const STREAM_CHANGE: u32 = 0xC00D_36B1;

/// Error code: the stream number is not valid, or the transform takes no input now.
pub const INVALID_STREAM: u32 = 0xC00D_36B5;

/// The H.264 baseline profile.
pub const BASELINE_PROFILE: u32 = 66;

/// Level 4.0 of H.264.
pub const LEVEL_4_0: u32 = 40;

/// The media types that are looked through for one that fits.
pub const TYPES_TRIED: usize = 100;

/// Two numbers of 32 bits as one of 64, the first in the upper half.
pub open spec fn packed(hi: u32, lo: u32) -> int {
    hi as int * 0x1_0000_0000 + lo as int
}

/// Packs two numbers of 32 bits into one of 64, the first into the upper half.
pub fn pack_u64(hi: u32, lo: u32) -> (r: u64)
    ensures
        r == packed(hi, lo),
{
    hi as u64 * 0x1_0000_0000 + lo as u64
}

/// The two halves of a packed number can be told apart.
pub proof fn packing_loses_nothing(hi: u32, lo: u32)
    ensures
        packed(hi, lo) / 0x1_0000_0000 == hi,
        packed(hi, lo) % 0x1_0000_0000 == lo,
{
}

/// How the encoder takes its pictures, from its answer to being handed a graphics device: one
/// that does not implement the call takes them from memory.
pub fn input_mode_for(answer: Result<(), u32>) -> (r: Result<EncoderInputMode, u32>)
    ensures
        answer is Ok ==> r == Ok::<EncoderInputMode, u32>(EncoderInputMode::DxgiSurface),
        answer == Err::<(), u32>(NOT_IMPLEMENTED) ==> r == Ok::<EncoderInputMode, u32>(
            EncoderInputMode::SystemMemory,
        ),
        answer is Err && answer->Err_0 != NOT_IMPLEMENTED ==> r == Err::<EncoderInputMode, u32>(
            answer->Err_0,
        ),
{
    match answer {
        Ok(()) => Ok(EncoderInputMode::DxgiSurface),
        Err(code) => {
            if code == NOT_IMPLEMENTED {
                Ok(EncoderInputMode::SystemMemory)
            } else {
                Err(code)
            }
        },
    }
}

/// Says whether the stream numbers are to be asked for: there are streams on both sides.
pub fn wants_stream_ids(counts: Result<(u32, u32), u32>) -> (r: bool)
    ensures
        r == (counts is Ok && counts->Ok_0.0 > 0 && counts->Ok_0.1 > 0),
{
    match counts {
        Ok(c) => c.0 > 0 && c.1 > 0,
        Err(_) => false,
    }
}

/// The stream numbers to use, from the answer to asking for them. Where they were not asked for,
/// or asking is not implemented, both are 0.
pub fn chosen_streams(ids: Option<Result<(u32, u32), u32>>) -> (r: Result<(u32, u32), u32>)
    ensures
        ids is None ==> r == Ok::<(u32, u32), u32>((0u32, 0u32)),
        ids is Some ==> match ids->0 {
            Ok(pair) => r == Ok::<(u32, u32), u32>(pair),
            Err(code) => r == (if code == NOT_IMPLEMENTED {
                Ok::<(u32, u32), u32>((0u32, 0u32))
            } else {
                Err(code)
            }),
        },
{
    match ids {
        None => Ok((0, 0)),
        Some(Ok(pair)) => Ok(pair),
        Some(Err(code)) => {
            if code == NOT_IMPLEMENTED {
                Ok((0, 0))
            } else {
                Err(code)
            }
        },
    }
}

/// How the search for a media type goes on.
#[derive(Clone, Copy, Debug, PartialEq, Eq, Structural)]
pub enum TypeStep {
    /// The type at hand is the one.
    Take,
    /// Ask for the next one.
    Next,
    /// There is none.
    Missing,
}

/// How the search for a media type goes on from the type at an index, if one is offered there.
pub open spec fn type_step_of(index: int, offered: Option<u128>, wanted: u128) -> TypeStep {
    match offered {
        None => TypeStep::Missing,
        Some(subtype) => if subtype == wanted {
            TypeStep::Take
        } else if index + 1 < TYPES_TRIED {
            TypeStep::Next
        } else {
            TypeStep::Missing
        },
    }
}

/// Says how the search for a media type goes on from the type at an index, if one is offered
/// there.
pub fn type_step(index: usize, offered: Option<u128>, wanted: u128) -> (r: TypeStep)
    ensures
        r == type_step_of(index as int, offered, wanted),
{
    match offered {
        None => TypeStep::Missing,
        Some(subtype) => if subtype == wanted {
            TypeStep::Take
        } else if index < TYPES_TRIED - 1 {
            TypeStep::Next
        } else {
            TypeStep::Missing
        },
    }
}

/// The type that is offered at an index, where there are so many.
pub open spec fn offered_at(offered: Seq<u128>, i: int) -> Option<u128> {
    if i < offered.len() {
        Some(offered[i])
    } else {
        None
    }
}

/// The search takes the first type that is the wanted one, if it is among as many as are looked
/// through, and comes to an end without it otherwise.
pub proof fn first_wanted_type_is_taken(offered: Seq<u128>, wanted: u128, i: int)
    requires
        0 <= i < TYPES_TRIED,
        forall|j: int|
            0 <= j < i ==> #[trigger] type_step_of(j, offered_at(offered, j), wanted)
                == TypeStep::Next,
    ensures
        i <= offered.len(),
        forall|j: int| 0 <= j < i ==> #[trigger] offered[j] != wanted,
        type_step_of(i, offered_at(offered, i), wanted) == TypeStep::Take <==> i < offered.len()
            && offered[i] == wanted,
        type_step_of(i, offered_at(offered, i), wanted) == TypeStep::Missing <==> i
            == offered.len() || (i + 1 == TYPES_TRIED && offered[i] != wanted),
{
    assert forall|j: int| 0 <= j < i implies j < offered.len() && #[trigger] offered[j]
        != wanted by {
        assert(type_step_of(j, offered_at(offered, j), wanted) == TypeStep::Next);
    }
    if i > 0 {
        assert(type_step_of(i - 1, offered_at(offered, i - 1), wanted) == TypeStep::Next);
    }
}

/// The values that an encoder is set to.
#[derive(Clone, Copy, Debug, PartialEq, Eq, Structural)]
pub struct CodecSettings {
    pub rate_control: u32,
    pub bits_per_second: u32,
    pub gop: u32,
    pub b_pictures: u32,
    pub cabac: bool,
    pub profile: u32,
    pub level: u32,
    pub interlace: u32,
    pub frame_rate: u64,
    pub frame_size: u64,
    pub flush_first: bool,
}

/// The values that an encoder is set to, for a picture size, a frame rate and a bit rate.
pub open spec fn settings_of(
    mode: EncoderInputMode,
    width: u32,
    height: u32,
    fps: u32,
    bitrate_kbps: u32,
) -> CodecSettings {
    CodecSettings {
        rate_control: if mode == EncoderInputMode::DxgiSurface {
            3
        } else {
            2
        },
        bits_per_second: (bitrate_kbps * 1000) as u32,
        gop: if fps < 2 {
            1
        } else {
            fps / 2
        },
        b_pictures: 0,
        cabac: false,
        profile: BASELINE_PROFILE,
        level: LEVEL_4_0,
        interlace: 2,
        frame_rate: packed(fps, 1) as u64,
        frame_size: packed(width, height) as u64,
        flush_first: mode == EncoderInputMode::DxgiSurface,
    }
}

/// Works out the values that an encoder is set to.
pub fn codec_settings(
    mode: EncoderInputMode,
    width: u32,
    height: u32,
    fps: u32,
    bitrate_kbps: u32,
) -> (r: CodecSettings)
    requires
        bitrate_kbps * 1000 <= u32::MAX,
    ensures
        r == settings_of(mode, width, height, fps, bitrate_kbps),
{
    CodecSettings {
        rate_control: if mode == EncoderInputMode::DxgiSurface {
            3
        } else {
            2
        },
        bits_per_second: bitrate_kbps * 1000,
        gop: if fps < 2 {
            1
        } else {
            fps / 2
        },
        b_pictures: 0,
        cabac: false,
        profile: BASELINE_PROFILE,
        level: LEVEL_4_0,
        interlace: 2,
        frame_rate: pack_u64(fps, 1),
        frame_size: pack_u64(width, height),
        flush_first: mode == EncoderInputMode::DxgiSurface,
    }
}

/// The widest picture that the software encoder is given.
pub const SOFTWARE_WIDTH: u32 = 1280;

/// The highest picture that the software encoder is given.
pub const SOFTWARE_HEIGHT: u32 = 720;

/// The highest bit rate that the software encoder is given.
pub const SOFTWARE_KBPS: u32 = 2500;

/// What is asked of an encoder when one is looked for.
#[derive(Clone, Copy, Debug, PartialEq, Eq, Structural)]
pub struct Attempt {
    pub hardware: bool,
    pub config: EncoderConfig,
}

/// The attempt to make after those that failed: first a hardware encoder, as configured; then a
/// software encoder, for a smaller picture and a lower bit rate; then none.
pub open spec fn attempt_of(config: EncoderConfig, failed: nat, scaled: (u32, u32)) -> Option<
    Attempt,
> {
    if failed == 0 {
        Some(Attempt { hardware: true, config })
    } else if failed == 1 {
        let size = capped_size(
            config.width,
            config.height,
            SOFTWARE_WIDTH,
            SOFTWARE_HEIGHT,
            scaled,
        );
        Some(
            Attempt {
                hardware: false,
                config: EncoderConfig {
                    width: size.0,
                    height: size.1,
                    fps: config.fps,
                    bitrate_kbps: if config.bitrate_kbps < SOFTWARE_KBPS {
                        config.bitrate_kbps
                    } else {
                        SOFTWARE_KBPS
                    },
                },
            },
        )
    } else {
        None
    }
}

/// The attempt to make after those that failed. `scaled` is the configured size brought down in
/// proportion to the software limit.
pub fn next_attempt(config: EncoderConfig, failed: usize, scaled: (u32, u32)) -> (r: Option<Attempt>)
    ensures
        r == attempt_of(config, failed as nat, scaled),
{
    if failed == 0 {
        Some(Attempt { hardware: true, config })
    } else if failed == 1 {
        let size: (u32, u32) = cap_size_preserving_aspect(
            config.width,
            config.height,
            SOFTWARE_WIDTH,
            SOFTWARE_HEIGHT,
            scaled,
        );
        let kbps: u32 = if config.bitrate_kbps < SOFTWARE_KBPS {
            config.bitrate_kbps
        } else {
            SOFTWARE_KBPS
        };
        Some(
            Attempt {
                hardware: false,
                config: EncoderConfig {
                    width: size.0,
                    height: size.1,
                    fps: config.fps,
                    bitrate_kbps: kbps,
                },
            },
        )
    } else {
        None
    }
}

/// Why an attempt failed, with the kind of encoder in front.
pub fn attempt_reason(hardware: bool, reason: &str) -> (r: String)
    ensures
        r@ == (if hardware {
            "hardware: "@
        } else {
            "sync-software: "@
        }) + reason@,
{
    let mut out: String = if hardware {
        "hardware: ".to_owned()
    } else {
        "sync-software: ".to_owned()
    };
    out.append(reason);
    out
}

/// Why a candidate could not be used, with its place in the list in front.
pub open spec fn candidate_text(index: nat, reason: Seq<char>) -> Seq<char> {
    "candidate "@ + decimal(index) + ": "@ + reason
}

/// Says why a candidate could not be used, with its place in the list in front.
pub fn candidate_reason(index: usize, reason: &str) -> (r: String)
    ensures
        r@ == candidate_text(index as nat, reason@),
{
    let mut out: String = "candidate ".to_owned();
    append_decimal(&mut out, index as u64);
    out.append(": ");
    out.append(reason);
    out
}

/// What is said when no attempt succeeded.
pub fn no_encoder_message(reasons: &Vec<String>) -> (r: String)
    ensures
        r@ == "No usable H264 encoder MFT found. Attempts: "@ + joined(views(reasons@)),
{
    let mut out: String = "No usable H264 encoder MFT found. Attempts: ".to_owned();
    let list: String = join_reasons(reasons);
    out.append(list.as_str());
    out
}

/// What is said when no candidate of an attempt could be used.
pub open spec fn no_candidate_text(reasons: Seq<Seq<char>>) -> Seq<char> {
    "No encoder candidate succeeded: "@ + joined(reasons)
}

/// Says that no candidate of an attempt could be used, and why.
pub fn no_candidate_message(reasons: &Vec<String>) -> (r: String)
    ensures
        r@ == no_candidate_text(views(reasons@)),
{
    let mut out: String = "No encoder candidate succeeded: ".to_owned();
    let list: String = join_reasons(reasons);
    out.append(list.as_str());
    out
}

/// The candidates of an attempt, which are tried in turn: the one at hand, and why those before it
/// could not be used.
#[derive(Debug)]
pub struct Candidates {
    pub index: usize,
    pub reasons: Vec<String>,
}

/// The place of the candidate at hand, and the reasons so far.
#[verifier::ext_equal]
pub struct CandidatesView {
    pub index: nat,
    pub reasons: Seq<Seq<char>>,
}

/// What to do about the candidates of an attempt.
#[derive(Debug, PartialEq, Eq)]
pub enum CandidateStep {
    /// Use the candidate at this place.
    Take(usize),
    /// Try to set up the candidate at this place.
    Try(usize),
    /// Give up, with what is to be said.
    Fail(String),
}

impl CandidatesView {
    /// The candidate at hand has been passed by, for the given reason, if it was there at all.
    pub open spec fn passed(self, reason: Option<Seq<char>>) -> CandidatesView {
        CandidatesView {
            index: self.index + 1,
            reasons: match reason {
                Some(reason) => self.reasons.push(candidate_text(self.index, reason)),
                None => self.reasons,
            },
        }
    }

    /// The step says to try the candidate at hand, or, where no more are offered, to give up and
    /// tell all the reasons.
    pub open spec fn goes_on(self, offered: usize, step: CandidateStep) -> bool {
        if self.index < offered {
            step == CandidateStep::Try(self.index as usize)
        } else {
            step is Fail && step->Fail_0@ == no_candidate_text(self.reasons)
        }
    }
}

impl View for Candidates {
    type V = CandidatesView;

    open spec fn view(&self) -> CandidatesView {
        CandidatesView { index: self.index as nat, reasons: views(self.reasons@) }
    }
}

impl Candidates {
    /// The first candidate, with nothing tried.
    pub fn new() -> (r: Candidates)
        ensures
            r@ == (CandidatesView { index: 0, reasons: Seq::empty() }),
    {
        Candidates { index: 0, reasons: Vec::new() }
    }

    /// The candidate at hand was set up, or could not be, for a reason.
    pub fn on_tried(&mut self, offered: usize, outcome: Result<(), String>) -> (r: CandidateStep)
        requires
            old(self).index < offered,
        ensures
            match outcome {
                Ok(_) => r == CandidateStep::Take(old(self).index) && final(self)@ == old(self)@,
                Err(reason) => {
                    &&& final(self)@ == old(self)@.passed(Some(reason@))
                    &&& final(self)@.goes_on(offered, r)
                },
            },
    {
        match outcome {
            Ok(_) => CandidateStep::Take(self.index),
            Err(reason) => {
                let text: String = candidate_reason(self.index, reason.as_str());
                self.reasons.push(text);
                self.index = self.index + 1;
                assert(self@ =~= old(self)@.passed(Some(reason@)));
                self.step(offered)
            },
        }
    }

    /// There is nothing at the place of the candidate at hand.
    pub fn on_absent(&mut self, offered: usize) -> (r: CandidateStep)
        requires
            old(self).index < offered,
        ensures
            final(self)@ == old(self)@.passed(None),
            final(self)@.goes_on(offered, r),
    {
        self.index = self.index + 1;
        self.step(offered)
    }

    fn step(&self, offered: usize) -> (r: CandidateStep)
        ensures
            self@.goes_on(offered, r),
    {
        if self.index < offered {
            CandidateStep::Try(self.index)
        } else {
            CandidateStep::Fail(no_candidate_message(&self.reasons))
        }
    }
}

/// The candidates once some have been passed by, each for its reason, if it was there.
pub open spec fn candidates_after(passed: Seq<Option<Seq<char>>>) -> CandidatesView
    decreases passed.len(),
{
    if passed.len() == 0 {
        CandidatesView { index: 0, reasons: Seq::empty() }
    } else {
        candidates_after(passed.drop_last()).passed(passed.last())
    }
}

/// The text is the reason of one of the candidates, with its place.
pub open spec fn is_reason_of_one(passed: Seq<Option<Seq<char>>>, text: Seq<char>) -> bool {
    exists|i: int|
        0 <= i < passed.len() && (#[trigger] passed[i]) is Some && text == candidate_text(
            i as nat,
            passed[i]->0,
        )
}

/// The candidates are tried in the order in which they are offered, none twice and none left out,
/// and the reason of every one that was there is kept, with its place, and no other.
pub proof fn every_candidate_is_told_of(passed: Seq<Option<Seq<char>>>)
    ensures
        candidates_after(passed).index == passed.len(),
        forall|i: int|
            0 <= i < passed.len() && (#[trigger] passed[i]) is Some
                ==> candidates_after(passed).reasons.contains(
                candidate_text(i as nat, passed[i]->0),
            ),
        forall|k: int|
            0 <= k < candidates_after(passed).reasons.len() ==> is_reason_of_one(
                passed,
                #[trigger] candidates_after(passed).reasons[k],
            ),
    decreases passed.len(),
{
    if passed.len() > 0 {
        let front = passed.drop_last();
        let before = candidates_after(front).reasons;
        let after = candidates_after(passed).reasons;
        every_candidate_is_told_of(front);
        assert forall|i: int| 0 <= i < passed.len() && (#[trigger] passed[i]) is Some implies
            after.contains(candidate_text(i as nat, passed[i]->0)) by {
            let text = candidate_text(i as nat, passed[i]->0);
            if i < front.len() {
                assert(front[i] == passed[i]);
                assert(before.contains(text));
                let k = choose|k: int| 0 <= k < before.len() && before[k] == text;
                assert(after[k] == text);
            } else {
                assert(after.last() == text);
                assert(after[after.len() - 1] == text);
            }
        }
        assert forall|k: int| 0 <= k < after.len() implies is_reason_of_one(
            passed,
            #[trigger] after[k],
        ) by {
            if k < before.len() {
                assert(is_reason_of_one(front, before[k]));
                let i = choose|i: int|
                    0 <= i < front.len() && (#[trigger] front[i]) is Some && before[k]
                        == candidate_text(i as nat, front[i]->0);
                assert(passed[i] == front[i]);
            } else {
                assert(passed[passed.len() - 1] is Some);
            }
        }
    }
}

/// The parameter sets of a stream as they are sent: in Annex B form, and announcing the
/// constrained baseline profile.
pub open spec fn header_of(raw: Seq<u8>, width: u32, fps: u32) -> Seq<u8> {
    baselined(annexb_of(raw), level_for(width, fps))
}

/// Brings the parameter sets that an encoder gives into the form in which they are sent.
pub fn sequence_header(raw: &[u8], width: u32, fps: u32) -> (r: Vec<u8>)
    ensures
        r@ == header_of(raw@, width, fps),
{
    let mut header: Vec<u8> = ensure_annexb(raw);
    spoof_sps_to_baseline(&mut header, width, fps);
    header
}

/// An event of an asynchronous encoder.
#[derive(Clone, Copy, Debug, PartialEq, Eq, Structural)]
pub enum AsyncEvent {
    NeedInput,
    HaveOutput,
    Other,
}

/// Whether a picture may be handed over.
#[derive(Clone, Copy, Debug, PartialEq, Eq, Structural)]
pub enum InputCheck {
    /// It may, or it may not.
    Answer(bool),
    /// Ask for the status of stream 0.
    RetryFirstStream,
    /// Take in the events, and go by what they told.
    AskEvents,
}

/// Whether output is ready.
#[derive(Clone, Copy, Debug, PartialEq, Eq, Structural)]
pub enum OutputCheck {
    /// It is, or it is not.
    Answer(bool),
    /// Take in the events, and go by what they told.
    AskEvents,
}

/// A step of encoding a picture.
#[derive(Clone, Copy, Debug, PartialEq, Eq, Structural)]
pub enum EncodeStep {
    /// Hand the picture over.
    HandOver,
    /// Take what output there is.
    Drain,
    /// Take what output there is, where the encoder has some ready.
    DrainIfReady,
}

/// How a picture is encoded: whether a key frame is asked for, and then two steps.
#[derive(Clone, Copy, Debug, PartialEq, Eq, Structural)]
pub struct EncodePlan {
    pub force_key_frame: bool,
    pub first: EncodeStep,
    pub second: EncodeStep,
}

/// What to do when output could not be had.
#[derive(Clone, Copy, Debug, PartialEq, Eq, Structural)]
pub enum DrainError {
    /// Stop for now.
    Stop,
    /// Take up the new output format, and ask again.
    Renegotiate,
}

/// An encoder that is set up: what is known of it between calls.
#[derive(Debug)]
pub struct Encoder {
    pub sps_pps: Vec<u8>,
    pub input_stream_id: u32,
    pub output_stream_id: u32,
    pub input_mode: EncoderInputMode,
    pub coded_width: u32,
    pub coded_height: u32,
    pub is_async: bool,
    pub async_need_input: bool,
    pub async_have_output: bool,
    pub rewrite_h264_headers: bool,
}

/// What is known of an encoder.
#[verifier::ext_equal]
pub struct EncoderState {
    pub header: Seq<u8>,
    pub input_stream: u32,
    pub output_stream: u32,
    pub input_mode: EncoderInputMode,
    pub size: (u32, u32),
    pub is_async: bool,
    pub need_input: bool,
    pub have_output: bool,
    pub rewrites: bool,
}

impl View for Encoder {
    type V = EncoderState;

    open spec fn view(&self) -> EncoderState {
        EncoderState {
            header: self.sps_pps@,
            input_stream: self.input_stream_id,
            output_stream: self.output_stream_id,
            input_mode: self.input_mode,
            size: (self.coded_width, self.coded_height),
            is_async: self.is_async,
            need_input: self.async_need_input,
            have_output: self.async_have_output,
            rewrites: self.rewrite_h264_headers,
        }
    }
}

/// The header that goes in front of a key frame: the one that is known, or one made of the
/// parameter sets in the frame itself, or none.
pub open spec fn key_header(header: Seq<u8>, data: Seq<u8>, level: u8) -> Seq<u8> {
    let sps = last_of_type(nal_units(data, 0), 7);
    let pps = last_of_type(nal_units(data, 0), 8);
    if header.len() > 0 {
        header
    } else if sps.len() > 0 && pps.len() > 0 {
        baselined(start_code() + sps + start_code() + pps, level)
    } else {
        Seq::empty()
    }
}

impl EncoderState {
    /// The frame is a key frame whose header is put in its place.
    pub open spec fn gets_header(self, data: Seq<u8>, key_frame: bool) -> bool {
        self.rewrites && (key_frame || has_idr(data))
    }

    /// The header that is known once a frame has come out.
    pub open spec fn header_after(self, data: Seq<u8>, key_frame: bool, level: u8) -> Seq<u8> {
        if self.gets_header(data, key_frame) {
            key_header(self.header, data, level)
        } else {
            self.header
        }
    }

    /// The frame that is sent for encoder output in Annex B form.
    pub open spec fn frame_of(self, data: Seq<u8>, key_frame: bool, level: u8) -> Seq<u8> {
        let header = key_header(self.header, data, level);
        if self.gets_header(data, key_frame) && header.len() > 0 {
            header + stripped(data)
        } else {
            data
        }
    }

    /// What is known once an output has been taken, with its data and its mark for key frames, if
    /// it has any.
    pub open spec fn after_output(self, sample: Option<(Seq<u8>, bool)>, level: u8) -> EncoderState {
        EncoderState {
            header: match sample {
                Some(found) => self.header_after(annexb_of(found.0), found.1, level),
                None => self.header,
            },
            have_output: self.have_output && !self.is_async,
            ..self
        }
    }

    /// What is known once output could not be had.
    pub open spec fn after_error(self, code: u32) -> EncoderState {
        if !self.is_async {
            self
        } else if code == NOTHING_TO_DRAIN || code == NEED_MORE_INPUT {
            EncoderState { have_output: false, need_input: true, ..self }
        } else if code == UNEXPECTED {
            EncoderState { have_output: false, ..self }
        } else {
            self
        }
    }

    /// How a picture is encoded. A key frame is asked for at the start of the stream, and whenever
    /// one is due. An asynchronous encoder gives its output before it takes a picture.
    pub open spec fn plan(self, ts: i64, force_idr: bool) -> EncodePlan {
        EncodePlan {
            force_key_frame: ts == 0 || force_idr,
            first: if self.is_async {
                EncodeStep::DrainIfReady
            } else {
                EncodeStep::HandOver
            },
            second: if self.is_async {
                EncodeStep::HandOver
            } else {
                EncodeStep::Drain
            },
        }
    }

    /// What is known once the events have been taken in.
    pub open spec fn after_events(self, events: Seq<AsyncEvent>) -> EncoderState {
        EncoderState {
            need_input: self.need_input || events.contains(AsyncEvent::NeedInput),
            have_output: self.have_output || events.contains(AsyncEvent::HaveOutput),
            ..self
        }
    }
}

/// An output as its data and its mark for key frames.
pub open spec fn sample_view(sample: Option<(Vec<u8>, bool)>) -> Option<(Seq<u8>, bool)> {
    match sample {
        Some(found) => Some((found.0@, found.1)),
        None => None,
    }
}

/// A status word whose lowest bit is set.
pub open spec fn flagged(status: u32) -> bool {
    status % 2 == 1
}

impl Encoder {
    /// An encoder that has been set up. Where it takes pictures from memory, the parameter sets
    /// in its output are replaced.
    pub fn new(
        input_mode: EncoderInputMode,
        streams: (u32, u32),
        is_async: bool,
        width: u32,
        height: u32,
        header: Vec<u8>,
    ) -> (r: Encoder)
        ensures
            r@ == (EncoderState {
                header: header@,
                input_stream: streams.0,
                output_stream: streams.1,
                input_mode,
                size: (width, height),
                is_async,
                need_input: true,
                have_output: false,
                rewrites: input_mode != EncoderInputMode::DxgiSurface,
            }),
    {
        Encoder {
            sps_pps: header,
            input_stream_id: streams.0,
            output_stream_id: streams.1,
            input_mode,
            coded_width: width,
            coded_height: height,
            is_async,
            async_need_input: true,
            async_have_output: false,
            rewrite_h264_headers: input_mode != EncoderInputMode::DxgiSurface,
        }
    }

    /// Takes in the events of an asynchronous encoder.
    pub fn pump_async_events(&mut self, events: &[AsyncEvent])
        ensures
            final(self)@ == old(self)@.after_events(events@),
    {
        let ghost before = self@;
        let mut i: usize = 0;
        assert(before.after_events(events@.take(0)) =~= before);
        while i < events.len()
            invariant
                i <= events@.len(),
                self@ == before.after_events(events@.take(i as int)),
            decreases events@.len() - i,
        {
            let ghost done = events@.take(i as int);
            let ghost more = events@.take(i + 1);
            proof {
                assert(more =~= done.push(events@[i as int]));
                assert forall|e: AsyncEvent| #[trigger] more.contains(e) == (done.contains(e) || e
                    == events@[i as int]) by {
                    if done.contains(e) {
                        let k = choose|k: int| 0 <= k < done.len() && done[k] == e;
                        assert(more[k] == e);
                    }
                    assert(more[i as int] == events@[i as int]);
                }
            }
            match events[i] {
                AsyncEvent::NeedInput => {
                    self.async_need_input = true;
                },
                AsyncEvent::HaveOutput => {
                    self.async_have_output = true;
                },
                AsyncEvent::Other => {},
            }
            i = i + 1;
        }
        assert(events@.take(events@.len() as int) =~= events@);
    }

    /// Whether a picture may be handed over, from the answer to asking for the input status. An
    /// asynchronous encoder that asked for input takes some. Where the stream number is
    /// rejected, both stream numbers become 0.
    pub fn can_accept_input(&mut self, status: Result<u32, u32>) -> (r: InputCheck)
        ensures
            old(self)@.is_async ==> final(self)@ == old(self)@ && r == InputCheck::Answer(
                old(self)@.need_input || (status is Ok && flagged(status->Ok_0)),
            ),
            !old(self)@.is_async && status is Ok ==> final(self)@ == old(self)@ && r
                == InputCheck::Answer(flagged(status->Ok_0)),
            !old(self)@.is_async && status is Err && status->Err_0 == INVALID_STREAM && old(
                self,
            )@.input_stream != 0 ==> final(self)@ == (EncoderState {
                input_stream: 0,
                output_stream: 0,
                ..old(self)@
            }) && r == InputCheck::RetryFirstStream,
            !old(self)@.is_async && status is Err && (status->Err_0 != INVALID_STREAM || old(
                self,
            )@.input_stream == 0) ==> final(self)@ == old(self)@ && r == InputCheck::AskEvents,
    {
        if self.is_async {
            if self.async_need_input {
                return InputCheck::Answer(true);
            }
            return match status {
                Ok(s) => InputCheck::Answer(s % 2 == 1),
                Err(_) => InputCheck::Answer(false),
            };
        }
        match status {
            Ok(s) => InputCheck::Answer(s % 2 == 1),
            Err(code) => {
                if code == INVALID_STREAM && self.input_stream_id != 0 {
                    self.input_stream_id = 0;
                    self.output_stream_id = 0;
                    InputCheck::RetryFirstStream
                } else {
                    InputCheck::AskEvents
                }
            },
        }
    }

    /// Whether a picture may be handed over, by what the events told.
    pub fn async_ready_for_input(&self) -> (r: bool)
        ensures
            r == (self@.need_input || !self@.have_output),
    {
        self.async_need_input || !self.async_have_output
    }

    /// Whether output is ready, by what the events told.
    pub fn async_has_output(&self) -> (r: bool)
        ensures
            r == self@.have_output,
    {
        self.async_have_output
    }

    /// Whether output is ready, from the answer to asking for the output status.
    pub fn has_output_ready(&self, status: Result<u32, u32>) -> (r: OutputCheck)
        ensures
            self@.is_async ==> r == OutputCheck::Answer(
                self@.have_output || (status is Ok && flagged(status->Ok_0)),
            ),
            !self@.is_async && status is Ok ==> r == OutputCheck::Answer(flagged(status->Ok_0)),
            !self@.is_async && status is Err ==> r == OutputCheck::AskEvents,
    {
        if self.is_async && self.async_have_output {
            return OutputCheck::Answer(true);
        }
        match status {
            Ok(s) => OutputCheck::Answer(s % 2 == 1),
            Err(_) => {
                if self.is_async {
                    OutputCheck::Answer(false)
                } else {
                    OutputCheck::AskEvents
                }
            },
        }
    }

    /// Says whether a picture is handed over: an asynchronous encoder must have room for it.
    pub fn hands_over(&self, accepts: bool) -> (r: bool)
        ensures
            r == (!self@.is_async || accepts),
    {
        !self.is_async || accepts
    }

    /// Takes what came of handing over a picture, and says whether it was taken.
    pub fn process_input_sample(&mut self, answer: Result<(), u32>) -> (r: bool)
        ensures
            r == (answer is Ok),
            final(self)@ == (if !old(self)@.is_async {
                old(self)@
            } else if answer is Ok {
                EncoderState { need_input: false, ..old(self)@ }
            } else if answer->Err_0 == INVALID_STREAM {
                EncoderState { need_input: false, have_output: true, ..old(self)@ }
            } else {
                old(self)@
            }),
    {
        match answer {
            Ok(()) => {
                if self.is_async {
                    self.async_need_input = false;
                }
                true
            },
            Err(code) => {
                if code == INVALID_STREAM && self.is_async {
                    self.async_have_output = true;
                    self.async_need_input = false;
                }
                false
            },
        }
    }

    /// What is done with a picture that is on the graphics device, step by step.
    pub fn encode(&self, ts: i64, force_idr: bool) -> (r: EncodePlan)
        ensures
            r == self@.plan(ts, force_idr),
    {
        EncodePlan {
            force_key_frame: ts == 0 || force_idr,
            first: if self.is_async {
                EncodeStep::DrainIfReady
            } else {
                EncodeStep::HandOver
            },
            second: if self.is_async {
                EncodeStep::HandOver
            } else {
                EncodeStep::Drain
            },
        }
    }

    /// What is done with a picture that is in memory, step by step, and the size of the buffer
    /// that it is copied into.
    pub fn encode_system_memory(&self, nv12: &[u8], ts: i64, force_idr: bool) -> (r: (
        EncodePlan,
        u32,
    ))
        requires
            nv12@.len() <= u32::MAX,
        ensures
            r.0 == self@.plan(ts, force_idr),
            r.1 == nv12@.len(),
    {
        (self.encode(ts, force_idr), nv12.len() as u32)
    }

    /// Begins to take the output that is pending. An asynchronous encoder is first asked whether
    /// it has any.
    pub fn drain_pending(&self, width: u32, fps: u32) -> (r: Drain)
        ensures
            r.stage == (if self@.is_async {
                DrainStage::AskReady
            } else {
                DrainStage::AskInfo
            }),
            frame_views(r.frames@) == Seq::<Seq<u8>>::empty(),
            r.width == width && r.fps == fps,
    {
        let frames: Vec<Vec<u8>> = Vec::new();
        assert(frame_views(frames@) =~= Seq::<Seq<u8>>::empty());
        Drain {
            stage: if self.is_async {
                DrainStage::AskReady
            } else {
                DrainStage::AskInfo
            },
            frames,
            width,
            fps,
        }
    }

    /// Takes the error that asking for the output stream gave, and says whether to ask again,
    /// for stream 0.
    pub fn retries_stream_info(&mut self, code: u32) -> (r: bool)
        ensures
            r == (code == INVALID_STREAM && old(self)@.output_stream != 0),
            final(self)@ == (if r {
                EncoderState { output_stream: 0, ..old(self)@ }
            } else {
                old(self)@
            }),
    {
        if code == INVALID_STREAM && self.output_stream_id != 0 {
            self.output_stream_id = 0;
            true
        } else {
            false
        }
    }

    /// Takes one output of the encoder and makes the frame to send of it. There may be an output
    /// without data.
    pub fn on_output(&mut self, sample: Option<&[u8]>, key_frame: bool, width: u32, fps: u32) -> (r:
        Option<Vec<u8>>)
        ensures
            r is Some <==> sample is Some,
            r is Some ==> r->0@ == old(self)@.frame_of(
                annexb_of(sample->0@),
                key_frame,
                level_for(width, fps),
            ),
            final(self)@ == old(self)@.after_output(
                match sample {
                    Some(raw) => Some((raw@, key_frame)),
                    None => None,
                },
                level_for(width, fps),
            ),
    {
        if self.is_async {
            self.async_have_output = false;
        }
        let raw: &[u8] = match sample {
            Some(raw) => raw,
            None => {
                return None;
            },
        };
        let data: Vec<u8> = ensure_annexb(raw);
        if !self.rewrite_h264_headers || !(key_frame || contains_idr(data.as_slice())) {
            return Some(data);
        }
        if self.sps_pps.len() == 0 {
            let sets: (Vec<u8>, Vec<u8>) = extract_sps_pps_annexb(data.as_slice());
            if sets.0.len() > 0 && sets.1.len() > 0 {
                let mut header: Vec<u8> = Vec::new();
                push_start_code(&mut header);
                append(&mut header, sets.0.as_slice());
                push_start_code(&mut header);
                append(&mut header, sets.1.as_slice());
                assert(header@ =~= start_code() + sets.0@ + start_code() + sets.1@);
                spoof_sps_to_baseline(&mut header, width, fps);
                self.sps_pps = header;
            } else {
                assert(self.sps_pps@ =~= Seq::<u8>::empty());
            }
        }
        if self.sps_pps.len() > 0 {
            let mut frame: Vec<u8> = copy(self.sps_pps.as_slice());
            append(&mut frame, strip_sps_pps(data.as_slice()));
            Some(frame)
        } else {
            Some(data)
        }
    }

    /// Takes the error that asking for output gave, and says what to do.
    pub fn on_output_error(&mut self, code: u32) -> (r: DrainError)
        ensures
            r == (if code == STREAM_CHANGE {
                DrainError::Renegotiate
            } else {
                DrainError::Stop
            }),
            final(self)@ == old(self)@.after_error(code),
    {
        if self.is_async {
            if code == NOTHING_TO_DRAIN || code == NEED_MORE_INPUT {
                self.async_have_output = false;
                self.async_need_input = true;
            } else if code == UNEXPECTED {
                self.async_have_output = false;
            }
        }
        if code == STREAM_CHANGE {
            DrainError::Renegotiate
        } else {
            DrainError::Stop
        }
    }

    /// Takes up the parameter sets of a new output format.
    pub fn on_new_header(&mut self, raw: &[u8], width: u32, fps: u32)
        ensures
            final(self)@ == (EncoderState { header: header_of(raw@, width, fps), ..old(self)@ }),
    {
        self.sps_pps = sequence_header(raw, width, fps);
    }
}

fn push_start_code(out: &mut Vec<u8>)
    ensures
        final(out)@ == old(out)@ + start_code(),
{
    let ghost before = out@;
    out.push(0);
    out.push(0);
    out.push(0);
    out.push(1);
    assert(out@ =~= before + start_code());
}

/// Says whether the encoder brings its own output buffers.
pub fn provides_samples(flags: u32) -> (r: bool)
    ensures
        r == (flags & 0x100 != 0),
{
    flags & 0x100 != 0
}

/// The least size of an output buffer, in bytes.
pub const LEAST_OUTPUT_BUFFER: u32 = 1_048_576;

/// The size of an output buffer: what the encoder asks for, and no less than the least.
pub open spec fn buffer_for(asked: u32) -> u32 {
    if asked < LEAST_OUTPUT_BUFFER {
        LEAST_OUTPUT_BUFFER
    } else {
        asked
    }
}

/// The size of an output buffer.
pub fn output_buffer_size(asked: u32) -> (r: u32)
    ensures
        r == buffer_for(asked),
{
    if asked < LEAST_OUTPUT_BUFFER {
        LEAST_OUTPUT_BUFFER
    } else {
        asked
    }
}

/// Where the taking of output stands: what is asked of the encoder next.
#[derive(Clone, Copy, Debug, PartialEq, Eq, Structural)]
pub enum DrainStage {
    /// Whether it has output ready.
    AskReady,
    /// What its output stream is like.
    AskInfo,
    /// For output, into a buffer of the given size, or into one of its own.
    AskOutput { buffer: Option<u32> },
    /// Whether it has more output ready.
    AskMore { buffer: Option<u32> },
    /// For its new output format.
    AskFormat { buffer: Option<u32> },
    /// Nothing: the output is taken.
    Done,
    /// Nothing: the encoder failed.
    Failed { code: u32 },
}

/// The taking of output: the encoder is asked, and each answer leads to the next question.
#[derive(Debug)]
pub struct Drain {
    pub stage: DrainStage,
    pub frames: Vec<Vec<u8>>,
    pub width: u32,
    pub fps: u32,
}

/// The frames that were taken.
pub open spec fn frame_views(frames: Seq<Vec<u8>>) -> Seq<Seq<u8>> {
    frames.map_values(|f: Vec<u8>| f@)
}

/// What is asked for once the output stream is known.
pub open spec fn output_stage(flags: u32, asked: u32) -> DrainStage {
    DrainStage::AskOutput {
        buffer: if flags & 0x100 != 0 {
            None
        } else {
            Some(buffer_for(asked))
        },
    }
}

impl Drain {
    /// The setting of the output does not change.
    pub open spec fn same_setting(self, other: Drain) -> bool {
        self.width == other.width && self.fps == other.fps
    }

    /// The encoder has output ready, or it has not.
    pub fn on_ready(&mut self, ready: bool)
        requires
            old(self).stage is AskReady || old(self).stage is AskMore,
        ensures
            final(self).stage == (if !ready {
                DrainStage::Done
            } else {
                match old(self).stage {
                    DrainStage::AskMore { buffer } => DrainStage::AskOutput { buffer },
                    _ => DrainStage::AskInfo,
                }
            }),
            final(self).frames == old(self).frames,
            final(self).same_setting(*old(self)),
    {
        self.stage = if !ready {
            DrainStage::Done
        } else {
            match self.stage {
                DrainStage::AskMore { buffer } => DrainStage::AskOutput { buffer },
                _ => DrainStage::AskInfo,
            }
        };
    }

    /// The output stream has these flags and asks for a buffer of this size, or could not be
    /// asked. Where its number was rejected, stream 0 is asked instead.
    pub fn on_info(&mut self, encoder: &mut Encoder, info: Result<(u32, u32), u32>)
        requires
            old(self).stage is AskInfo,
        ensures
            final(self).frames == old(self).frames,
            final(self).same_setting(*old(self)),
            match info {
                Ok(found) => final(self).stage == output_stage(found.0, found.1) && final(encoder)@
                    == old(encoder)@,
                Err(code) => if code == INVALID_STREAM && old(encoder)@.output_stream != 0 {
                    final(self).stage == DrainStage::AskInfo && final(encoder)@ == (EncoderState {
                        output_stream: 0,
                        ..old(encoder)@
                    })
                } else {
                    final(self).stage == (DrainStage::Failed { code }) && final(encoder)@ == old(
                        encoder,
                    )@
                },
            },
    {
        match info {
            Ok(found) => {
                self.stage = DrainStage::AskOutput {
                    buffer: if provides_samples(found.0) {
                        None
                    } else {
                        Some(output_buffer_size(found.1))
                    },
                };
            },
            Err(code) => {
                if !encoder.retries_stream_info(code) {
                    self.stage = DrainStage::Failed { code };
                }
            },
        }
    }

    /// The encoder gave an output, which may hold no data, or an error.
    pub fn on_output(&mut self, encoder: &mut Encoder, output: Result<Option<(Vec<u8>, bool)>, u32>)
        requires
            old(self).stage is AskOutput,
        ensures
            final(self).same_setting(*old(self)),
            match output {
                Ok(sample) => {
                    &&& final(self).stage == (if old(encoder)@.is_async {
                        DrainStage::AskMore { buffer: old(self).stage->AskOutput_buffer }
                    } else {
                        old(self).stage
                    })
                    &&& final(encoder)@ == old(encoder)@.after_output(
                        sample_view(sample),
                        level_for(old(self).width, old(self).fps),
                    )
                    &&& frame_views(final(self).frames@) == (match sample_view(sample) {
                        Some(found) => frame_views(old(self).frames@).push(
                            old(encoder)@.frame_of(
                                annexb_of(found.0),
                                found.1,
                                level_for(old(self).width, old(self).fps),
                            ),
                        ),
                        None => frame_views(old(self).frames@),
                    })
                },
                Err(code) => {
                    &&& final(self).stage == (if code == STREAM_CHANGE {
                        DrainStage::AskFormat { buffer: old(self).stage->AskOutput_buffer }
                    } else {
                        DrainStage::Done
                    })
                    &&& final(encoder)@ == old(encoder)@.after_error(code)
                    &&& final(self).frames == old(self).frames
                },
            },
    {
        let buffer: Option<u32> = match self.stage {
            DrainStage::AskOutput { buffer } => buffer,
            _ => None,
        };
        match output {
            Ok(sample) => {
                let frame: Option<Vec<u8>> = match &sample {
                    Some(found) => encoder.on_output(
                        Some(found.0.as_slice()),
                        found.1,
                        self.width,
                        self.fps,
                    ),
                    None => encoder.on_output(None, false, self.width, self.fps),
                };
                if let Some(frame) = frame {
                    let ghost before = self.frames@;
                    self.frames.push(frame);
                    assert(frame_views(self.frames@) =~= frame_views(before).push(frame@));
                }
                if encoder.is_async {
                    self.stage = DrainStage::AskMore { buffer };
                }
            },
            Err(code) => {
                self.stage = match encoder.on_output_error(code) {
                    DrainError::Renegotiate => DrainStage::AskFormat { buffer },
                    DrainError::Stop => DrainStage::Done,
                };
            },
        }
    }

    /// The encoder's new output format is taken up, with the parameter sets that it brought, if
    /// any; output is asked for again.
    pub fn on_format(&mut self, encoder: &mut Encoder, header: Option<Vec<u8>>)
        requires
            old(self).stage is AskFormat,
        ensures
            final(self).stage == (DrainStage::AskOutput {
                buffer: old(self).stage->AskFormat_buffer,
            }),
            final(self).frames == old(self).frames,
            final(self).same_setting(*old(self)),
            final(encoder)@ == (match header {
                Some(raw) => EncoderState {
                    header: header_of(raw@, old(self).width, old(self).fps),
                    ..old(encoder)@
                },
                None => old(encoder)@,
            }),
    {
        if let DrainStage::AskFormat { buffer } = self.stage {
            self.stage = DrainStage::AskOutput { buffer };
        }
        if let Some(raw) = header {
            encoder.on_new_header(raw.as_slice(), self.width, self.fps);
        }
    }
}

/// A key frame whose header is replaced is the header that is now known and then the picture:
/// what came before the first slice is gone, and the header stays for the frames that follow.
pub proof fn key_frames_carry_the_known_header(
    state: EncoderState,
    data: Seq<u8>,
    key_frame: bool,
    level: u8,
)
    requires
        state.gets_header(data, key_frame),
        state.header_after(data, key_frame, level).len() > 0,
    ensures
        state.frame_of(data, key_frame, level) == state.header_after(data, key_frame, level)
            + stripped(data),
        state.header.len() > 0 ==> state.header_after(data, key_frame, level) == state.header,
{
}

/// A header that is known stays as it is, whatever comes out of the encoder, until the output
/// format changes.
pub proof fn known_header_stays(state: EncoderState, data: Seq<u8>, key_frame: bool, level: u8)
    requires
        state.header.len() > 0,
    ensures
        state.header_after(data, key_frame, level) == state.header,
{
}

/// An encoder that takes pictures from the graphics device has its output sent as it is.
pub proof fn device_output_is_not_rewritten(
    state: EncoderState,
    data: Seq<u8>,
    key_frame: bool,
    level: u8,
)
    requires
        !state.rewrites,
    ensures
        state.frame_of(data, key_frame, level) == data,
        state.header_after(data, key_frame, level) == state.header,
{
}

/// A header made of a frame's own parameter sets announces the constrained baseline profile, at
/// the given level, as soon as its first parameter set is whole.
pub proof fn made_header_is_baseline(data: Seq<u8>, level: u8)
    requires
        last_of_type(nal_units(data, 0), 7).len() >= 4,
        last_of_type(nal_units(data, 0), 8).len() > 0,
    ensures
        ({
            let header = key_header(Seq::empty(), data, level);
            &&& header[5] == 0x42
            &&& header[6] == 0xE0
            &&& header[7] == level
        }),
{
    let sps = last_of_type(nal_units(data, 0), 7);
    let pps = last_of_type(nal_units(data, 0), 8);
    crate::daemon::annexb::extracted_sets_have_their_type(data, 7);
    let plain = start_code() + sps + start_code() + pps;
    assert(crate::daemon::annexb::start4_at(plain, 0));
    assert(plain[4] == sps[0]);
    assert(crate::daemon::annexb::sps_at(plain, 0));
    assert(crate::daemon::annexb::sps_from(plain, 0) == 0);
    crate::daemon::annexb::spoof_keeps_place(plain, level);
}

/// The settings give a thousand bits a second for each kilobit, a key frame twice a second or with
/// every picture, the frame rate and the size with the first number in the upper half, and always
/// the baseline profile at level 4.0, without pictures that look ahead.
pub proof fn settings_follow_the_configuration(
    mode: EncoderInputMode,
    width: u32,
    height: u32,
    fps: u32,
    bitrate_kbps: u32,
)
    requires
        bitrate_kbps * 1000 <= u32::MAX,
    ensures
        ({
            let s = settings_of(mode, width, height, fps, bitrate_kbps);
            &&& s.bits_per_second == 1000 * bitrate_kbps
            &&& fps >= 2 ==> 2 * s.gop <= fps < 2 * s.gop + 2
            &&& fps < 2 ==> s.gop == 1
            &&& s.frame_rate / 0x1_0000_0000 == fps && s.frame_rate % 0x1_0000_0000 == 1
            &&& s.frame_size / 0x1_0000_0000 == width && s.frame_size % 0x1_0000_0000 == height
            &&& s.profile == 66 && s.level == 40 && s.interlace == 2 && s.b_pictures == 0
                && !s.cabac
            &&& mode == EncoderInputMode::DxgiSurface ==> s.rate_control == 3 && s.flush_first
            &&& mode == EncoderInputMode::SystemMemory ==> s.rate_control == 2 && !s.flush_first
        }),
{
}

/// First a hardware encoder is tried with the configuration as it is; then a software encoder, with
/// the same frame rate, a picture within 1280 by 720 and no more than 2500 kilobits a second, nor
/// more than configured; and then none.
pub proof fn software_comes_second(config: EncoderConfig, failed: nat, scaled: (u32, u32))
    requires
        2 <= scaled.0 <= 1280,
        2 <= scaled.1 <= 720,
    ensures
        attempt_of(config, failed, scaled) is Some <==> failed <= 1,
        attempt_of(config, 0, scaled) == Some(Attempt { hardware: true, config }),
        ({
            let second = attempt_of(config, 1, scaled)->0;
            &&& !second.hardware
            &&& second.config.fps == config.fps
            &&& second.config.width <= 1280 && second.config.height <= 720
            &&& config.width <= 1280 && config.height <= 720 ==> second.config.width
                == config.width && second.config.height == config.height
            &&& config.bitrate_kbps <= 2500 ==> second.config.bitrate_kbps == config.bitrate_kbps
            &&& config.bitrate_kbps > 2500 ==> second.config.bitrate_kbps == 2500
            &&& config.width > 1280 || config.height > 720 ==> second.config.width == scaled.0
                - scaled.0 % 2 && second.config.height == scaled.1 - scaled.1 % 2
        }),
{
}

/// A frame gets a header exactly where headers are replaced and it is a key frame, be it by its
/// mark or by a refresh that it holds; any other frame goes out as it is, and so does a key frame
/// as long as no header is known.
pub proof fn only_key_frames_get_a_header(
    state: EncoderState,
    data: Seq<u8>,
    key_frame: bool,
    level: u8,
)
    ensures
        !state.rewrites || (!key_frame && !has_idr(data)) ==> state.frame_of(
            data,
            key_frame,
            level,
        ) == data && state.header_after(data, key_frame, level) == state.header,
        state.rewrites && (key_frame || has_idr(data)) && state.header.len() > 0
            ==> state.frame_of(data, key_frame, level) == state.header + stripped(data),
        state.rewrites && (key_frame || has_idr(data)) && state.header.len() == 0 && (last_of_type(
            nal_units(data, 0),
            7,
        ).len() == 0 || last_of_type(nal_units(data, 0), 8).len() == 0) ==> state.frame_of(
            data,
            key_frame,
            level,
        ) == data && state.header_after(data, key_frame, level).len() == 0,
{
}

/// A sequence parameter set with its profile and level bytes replaced, and then a picture parameter
/// set, each behind three zeros and a one.
pub open spec fn baseline_header(sps: Seq<u8>, pps: Seq<u8>, level: u8) -> Seq<u8> {
    seq![0u8, 0u8, 0u8, 1u8, sps[0], 0x42u8, 0xE0u8, level] + sps.subrange(4, sps.len() as int)
        + seq![0u8, 0u8, 0u8, 1u8] + pps
}

proof fn header_of_two_sets(sps: Seq<u8>, pps: Seq<u8>, level: u8)
    requires
        sps.len() >= 4,
        sps[0] % 32 == 7,
    ensures
        baselined(start_code() + sps + start_code() + pps, level) == baseline_header(
            sps,
            pps,
            level,
        ),
{
    let plain = start_code() + sps + start_code() + pps;
    assert(plain[0] == 0 && plain[1] == 0 && plain[2] == 0 && plain[3] == 1);
    assert(plain[4] == sps[0]);
    assert(crate::daemon::annexb::unit_of_type(plain, 4, 7));
    crate::daemon::annexb::first_parameter_set_is_rewritten(plain, level, 4);
    assert(plain.update(5, 0x42).update(6, 0xE0).update(7, level) =~= baseline_header(
        sps,
        pps,
        level,
    ));
}

/// A key frame that brings its own parameter sets, when no header is known, goes out behind the two
/// of them, of which the first is rewritten to the constrained baseline profile and the given level;
/// and these stay as the header for the frames that follow.
pub proof fn own_parameter_sets_become_the_header(
    state: EncoderState,
    units: Seq<Seq<u8>>,
    long: Seq<bool>,
    level: u8,
    s: int,
    p: int,
)
    requires
        state.rewrites,
        state.header.len() == 0,
        long.len() == units.len(),
        forall|j: int|
            0 <= j < units.len() ==> crate::daemon::annexb::is_unit(#[trigger] units[j]),
        0 <= s < units.len(),
        0 <= p < units.len(),
        units[s][0] % 32 == 7,
        units[s].len() >= 4,
        units[p][0] % 32 == 8,
        forall|j: int| s < j < units.len() ==> (#[trigger] units[j])[0] % 32 != 7,
        forall|j: int| p < j < units.len() ==> (#[trigger] units[j])[0] % 32 != 8,
    ensures
        ({
            let data = crate::daemon::annexb::with_codes(units, long);
            &&& state.header_after(data, true, level) == baseline_header(units[s], units[p], level)
            &&& state.frame_of(data, true, level) == baseline_header(units[s], units[p], level)
                + stripped(data)
        }),
{
    let data = crate::daemon::annexb::with_codes(units, long);
    crate::daemon::annexb::last_unit_of_a_type_is_extracted(units, long, 7, s);
    crate::daemon::annexb::last_unit_of_a_type_is_extracted(units, long, 8, p);
    assert(crate::daemon::annexb::is_unit(units[s]) && crate::daemon::annexb::is_unit(units[p]));
    header_of_two_sets(units[s], units[p], level);
}

/// A header that the encoder gives with lengths is sent behind start codes, with the level that goes
/// with the width and the frame rate.
pub proof fn given_headers_are_brought_into_form(
    sps: Seq<u8>,
    pps: Seq<u8>,
    width: u32,
    fps: u32,
)
    requires
        sps.len() >= 4,
        sps[0] % 32 == 7,
        crate::daemon::annexb::units_fit(seq![sps, pps], false),
        !crate::daemon::annexb::has_start_code(
            crate::daemon::annexb::with_lengths(seq![sps, pps]),
        ),
    ensures
        header_of(crate::daemon::annexb::with_lengths(seq![sps, pps]), width, fps)
            == baseline_header(sps, pps, level_for(width, fps)),
{
    let units = seq![sps, pps];
    crate::daemon::annexb::ensure_annexb_replaces_lengths(units);
    reveal_with_fuel(crate::daemon::annexb::with_start_codes, 3);
    assert(units.drop_first() =~= seq![pps]);
    assert(seq![pps].drop_first() =~= Seq::<Seq<u8>>::empty());
    assert(crate::daemon::annexb::with_start_codes(units) =~= start_code() + sps + start_code()
        + pps);
    header_of_two_sets(sps, pps, level_for(width, fps));
}

/// A key frame is asked for at the start of the stream and wherever one is due. A synchronous encoder
/// is handed the picture and then drained; an asynchronous one is drained first, where it has
/// anything.
pub proof fn pictures_are_encoded_in_two_steps(state: EncoderState, ts: i64, force_idr: bool)
    ensures
        state.plan(ts, force_idr).force_key_frame <==> ts == 0 || force_idr,
        state.is_async ==> state.plan(ts, force_idr).first == EncodeStep::DrainIfReady
            && state.plan(ts, force_idr).second == EncodeStep::HandOver,
        !state.is_async ==> state.plan(ts, force_idr).first == EncodeStep::HandOver
            && state.plan(ts, force_idr).second == EncodeStep::Drain,
{
}

/// What an asynchronous encoder tells of is known from then on, in whatever order and however often
/// it tells it, and nothing else is.
pub proof fn events_are_remembered(state: EncoderState, events: Seq<AsyncEvent>)
    ensures
        state.after_events(events).need_input <==> state.need_input || events.contains(
            AsyncEvent::NeedInput,
        ),
        state.after_events(events).have_output <==> state.have_output || events.contains(
            AsyncEvent::HaveOutput,
        ),
        state.after_events(events).header == state.header,
        state.after_events(events).rewrites == state.rewrites,
        state.after_events(events).is_async == state.is_async,
{
}

/// An output that was taken is no longer waiting with an asynchronous encoder. The codes 0xC00D36B2
/// and 0xC00D6D72 say that it has none and wants input, 0x8000FFFF that it has none; no other code,
/// and nothing that a synchronous encoder says, changes what is known.
pub proof fn errors_tell_what_is_waiting(state: EncoderState, code: u32)
    ensures
        !state.is_async ==> state.after_error(code) == state,
        state.is_async && (code == 0xC00D_36B2 || code == 0xC00D_6D72) ==> !state.after_error(
            code,
        ).have_output && state.after_error(code).need_input,
        state.is_async && code == 0x8000_FFFF ==> !state.after_error(code).have_output
            && state.after_error(code).need_input == state.need_input,
        code != 0xC00D_36B2 && code != 0xC00D_6D72 && code != 0x8000_FFFF ==> state.after_error(
            code,
        ) == state,
        state.after_error(code).header == state.header,
        state.is_async ==> !state.after_output(None, 0).have_output,
        !state.is_async ==> state.after_output(None, 0) == state,
        STREAM_CHANGE == 0xC00D_36B1,
        INVALID_STREAM == 0xC00D_36B5,
        NOT_IMPLEMENTED == 0x8000_4001,
{
}

/// An output buffer is as large as the encoder asks for, and at least a mebibyte; an encoder that
/// sets the flag for it, the ninth bit, brings its own.
pub proof fn buffers_are_large_enough(flags: u32, asked: u32)
    ensures
        buffer_for(asked) >= asked,
        buffer_for(asked) >= 1024 * 1024,
        buffer_for(asked) == asked || buffer_for(asked) == 1024 * 1024,
        (flags / 256) % 2 == 1 ==> output_stage(flags, asked) == (DrainStage::AskOutput {
            buffer: None,
        }),
        (flags / 256) % 2 == 0 ==> output_stage(flags, asked) == (DrainStage::AskOutput {
            buffer: Some(buffer_for(asked)),
        }),
{
    assert((flags & 0x100 != 0) <==> (flags / 256) % 2 == 1) by (bit_vector);
}

/// A status is set where its number is odd: the lowest bit says so, whatever the others say.
pub proof fn lowest_bits_are_flags(status: u32, other: u32)
    requires
        status % 2 == other % 2,
    ensures
        flagged(status) == flagged(other),
        flagged(1),
        !flagged(0),
{
}

/// The search for a media type looks through a hundred of them.
pub proof fn a_hundred_types_are_looked_through(index: int, subtype: u128, wanted: u128)
    requires
        subtype != wanted,
    ensures
        type_step_of(index, Some(subtype), wanted) == TypeStep::Next <==> index < 99,
        type_step_of(index, Some(wanted), wanted) == TypeStep::Take,
{
}

/// A reason begins with the word for a candidate and its place, counted from zero.
pub proof fn reasons_begin_with_the_place(index: nat, reason: Seq<char>)
    ensures
        candidate_text(index, reason) == seq!['c', 'a', 'n', 'd', 'i', 'd', 'a', 't', 'e', ' ']
            + decimal(index) + seq![':', ' '] + reason,
{
    reveal_strlit("candidate ");
    reveal_strlit(": ");
    assert("candidate "@ =~= seq!['c', 'a', 'n', 'd', 'i', 'd', 'a', 't', 'e', ' ']);
    assert(": "@ =~= seq![':', ' ']);
}

/// The setting of a drain is its width and its frame rate: nothing else of it but the stage and the
/// frames can differ where the settings are the same.
pub proof fn settings_are_the_width_and_the_rate(one: Drain, other: Drain)
    ensures
        one.same_setting(other) && one.stage == other.stage && one.frames == other.frames <==> one
            == other,
        one.same_setting(other) <==> (Drain { stage: other.stage, frames: other.frames, ..one })
            == other,
{
}

/// As long as there are candidates, the one at hand is tried; and only when there are none left
/// are the reasons told. There is one way to go on.
pub proof fn candidates_are_tried_before_giving_up(
    view: CandidatesView,
    offered: usize,
    at: usize,
    text: String,
)
    ensures
        view.goes_on(offered, CandidateStep::Try(at)) <==> at == view.index && at < offered,
        view.goes_on(offered, CandidateStep::Fail(text)) <==> offered <= view.index && text@
            == no_candidate_text(view.reasons),
        !view.goes_on(offered, CandidateStep::Take(at)),
{
}

/// What is said when no candidate could be used ends with all the reasons, behind a colon and a
/// blank, and begins with saying so.
pub proof fn reasons_stand_behind_a_colon(reasons: Seq<Seq<char>>)
    ensures
        ({
            let text = no_candidate_text(reasons);
            &&& text.len() == 32 + joined(reasons).len()
            &&& text.subrange(0, 30) == "No encoder candidate succeeded"@
            &&& text[30] == ':' && text[31] == ' '
            &&& text.subrange(32, text.len() as int) == joined(reasons)
        }),
{
    reveal_strlit("No encoder candidate succeeded: ");
    reveal_strlit("No encoder candidate succeeded");
    let text = no_candidate_text(reasons);
    assert(text.subrange(0, 30) =~= "No encoder candidate succeeded"@);
    assert(text.subrange(32, text.len() as int) =~= joined(reasons));
}

} // verus!

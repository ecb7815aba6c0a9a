//! H.264 streams, pixels and the encoder.

use sremote::daemon::annexb::{
    contains_idr, ensure_annexb, extract_sps_pps_annexb, has_annexb, level_idc, normalize_h264, spoof_sps_to_baseline,
    strip_sps_pps,
};
use sremote::daemon::encode_loop::{
    frame_ms, frame_ticks, latest, unpad_rows, EncoderRun, LoopStage, Picture, Source, TextureCache,
};
use sremote::daemon::encoder::{
    attempt_reason, candidate_reason, chosen_streams, codec_settings, input_mode_for, next_attempt,
    no_candidate_message, no_encoder_message, output_buffer_size, pack_u64, provides_samples,
    sequence_header, type_step, wants_stream_ids, AsyncEvent, CandidateStep, Candidates, DrainStage, EncodeStep, Encoder, EncoderConfig, EncoderInputMode,
    InputCheck, OutputCheck, TypeStep,
};
use sremote::daemon::capture::CaptureEvent;
use sremote::daemon::pixels::{bgra_to_nv12, bgra_to_nv12_scale, downscale_bgra, resize_bgra_nearest, Bgr};
use sremote::daemon::resize::ResizeState;

const MS: u64 = 1_000_000;

#[test]
fn lengths_become_start_codes() {
    let avcc = [0, 0, 0, 2, 0x67, 0x42, 0, 0, 0, 3, 0x68, 9, 9];
    assert_eq!(ensure_annexb(&avcc), vec![0, 0, 0, 1, 0x67, 0x42, 0, 0, 0, 1, 0x68, 9, 9]);
    assert_eq!(normalize_h264(&avcc), vec![0, 0, 0, 1, 0x67, 0x42, 0, 0, 0, 1, 0x68, 9, 9]);
}

#[test]
fn streams_with_start_codes_stay() {
    let stream = [9, 0, 0, 1, 0x65, 1];
    assert_eq!(ensure_annexb(&stream), stream.to_vec());
    assert_eq!(ensure_annexb(&ensure_annexb(&stream)), stream.to_vec());
    assert!(!has_annexb(&stream));
    assert!(has_annexb(&[0, 0, 1, 5]));
    assert!(has_annexb(&[0, 0, 0, 1]));
    assert!(!has_annexb(&[0, 0, 1]));
}

#[test]
fn broken_lengths_end_the_stream() {
    assert_eq!(ensure_annexb(&[0, 0, 0, 9, 1]), Vec::<u8>::new());
    assert_eq!(ensure_annexb(&[]), Vec::<u8>::new());
    assert_eq!(normalize_h264(&[]), Vec::<u8>::new());
    assert_eq!(normalize_h264(&[0, 0, 0, 9, 1]), vec![0, 0, 0, 1, 0, 0, 0, 9, 1]);
    assert_eq!(normalize_h264(&[7]), vec![0, 0, 0, 1, 7]);
}

#[test]
fn parameter_sets_are_found() {
    let stream = [0, 0, 0, 1, 0x67, 1, 2, 3, 0, 0, 1, 0x68, 4, 0, 0, 0, 1, 0x65, 8, 8];
    assert_eq!(extract_sps_pps_annexb(&stream), (vec![0x67, 1, 2, 3], vec![0x68, 4]));
    assert_eq!(extract_sps_pps_annexb(&[0, 0, 0, 1, 0x65, 1]), (vec![], vec![]));
}

#[test]
fn levels_follow_size_and_rate() {
    assert_eq!(level_idc(3840, 30), 0x33);
    assert_eq!(level_idc(1280, 61), 0x33);
    assert_eq!(level_idc(1921, 30), 0x2A);
    assert_eq!(level_idc(1920, 60), 0x2A);
    assert_eq!(level_idc(1920, 59), 0x28);
}

#[test]
fn header_is_rewritten_once() {
    let mut data = vec![0, 0, 0, 1, 0x67, 0x64, 0x00, 0x1F, 9, 0, 0, 1, 0x67, 1, 2, 3];
    spoof_sps_to_baseline(&mut data, 1920, 30);
    assert_eq!(data, vec![0, 0, 0, 1, 0x67, 0x42, 0xE0, 0x28, 9, 0, 0, 1, 0x67, 1, 2, 3]);
    let once = data.clone();
    spoof_sps_to_baseline(&mut data, 1920, 30);
    assert_eq!(data, once);
    let mut none = vec![0, 0, 0, 1, 0x65, 1, 2, 3];
    spoof_sps_to_baseline(&mut none, 1920, 30);
    assert_eq!(none, vec![0, 0, 0, 1, 0x65, 1, 2, 3]);
}

#[test]
fn refresh_slices_are_seen() {
    assert!(contains_idr(&[0, 0, 0, 1, 0x65]));
    assert!(contains_idr(&[0, 0, 1, 0x65, 1]));
    assert!(!contains_idr(&[0, 0, 1, 0x65]));
    assert!(!contains_idr(&[0, 0, 0, 1, 0x61, 7]));
}

#[test]
fn stream_is_cut_to_its_first_slice() {
    let stream = [0, 0, 0, 1, 0x67, 1, 0, 0, 1, 0x65, 7];
    assert_eq!(strip_sps_pps(&stream), &[0, 0, 1, 0x65, 7]);
    assert_eq!(strip_sps_pps(strip_sps_pps(&stream)), &[0, 0, 1, 0x65, 7]);
    assert_eq!(strip_sps_pps(&[0, 0, 0, 1, 0x67, 1]), &[0, 0, 0, 1, 0x67, 1]);
}

#[test]
fn pictures_are_scaled_to_the_nearest_pixel() {
    // Two by two pixels to four by one, and back to the same size.
    let src = [1, 1, 1, 1, 2, 2, 2, 2, 3, 3, 3, 3, 4, 4, 4, 4];
    assert_eq!(
        downscale_bgra(&src, 2, 2, 4, 1),
        vec![1, 1, 1, 1, 1, 1, 1, 1, 2, 2, 2, 2, 2, 2, 2, 2]
    );
    assert_eq!(downscale_bgra(&src, 2, 2, 1, 2), vec![1, 1, 1, 1, 3, 3, 3, 3]);
    assert_eq!(downscale_bgra(&src, 2, 2, 2, 2), src.to_vec());
    assert_eq!(resize_bgra_nearest(&src, 2, 2, 2, 2), src.to_vec());
    assert_eq!(resize_bgra_nearest(&src, 2, 2, 1, 1), vec![1, 1, 1, 1]);
}

#[test]
fn planes_of_a_converted_picture() {
    let src: Vec<u8> = (0u8..8).flat_map(|i| [i, 10 + i, 20 + i, 0]).collect();
    let out = bgra_to_nv12(
        &src,
        4,
        2,
        |p: Bgr| p.r,
        |a: Bgr, b: Bgr, c: Bgr, d: Bgr| (a.b + b.b, c.g + d.g),
    );
    assert_eq!(out, vec![20, 21, 22, 23, 24, 25, 26, 27, 1, 29, 5, 33]);
}

#[test]
fn integer_conversion_of_colours() {
    // A white, a black, a red and a blue pixel, side by side, two rows alike.
    let row = [255, 255, 255, 0, 0, 0, 0, 0, 0, 0, 255, 0, 255, 0, 0, 0];
    let src = [row, row].concat();
    let out = bgra_to_nv12_scale(&src, 16, 4, 2, &[0, 1, 2, 3], &[0, 1]);
    assert_eq!(&out[..8], &[235, 16, 82, 41, 235, 16, 82, 41]);
    assert_eq!(&out[8..10], &[128, 128]);
    // The mean of red and blue: 127, 0, 127.
    assert_eq!(&out[10..], &[165, 175]);
    assert_eq!(out.len(), 12);
}

#[test]
fn rows_lose_their_padding() {
    let src = [1, 2, 3, 4, 9, 9, 5, 6, 7, 8];
    assert_eq!(unpad_rows(&src, 6, 1, 2), vec![1, 2, 3, 4, 5, 6, 7, 8]);
    assert_eq!(unpad_rows(&src, 6, 1, 0), Vec::<u8>::new());
}

#[test]
fn numbers_are_packed() {
    assert_eq!(pack_u64(1920, 1080), 0x0000_0780_0000_0438);
    assert_eq!(pack_u64(u32::MAX, 1), 0xFFFF_FFFF_0000_0001);
}

#[test]
fn encoder_is_set_up_by_its_answers() {
    assert_eq!(input_mode_for(Ok(())), Ok(EncoderInputMode::DxgiSurface));
    assert_eq!(input_mode_for(Err(0x8000_4001)), Ok(EncoderInputMode::SystemMemory));
    assert_eq!(input_mode_for(Err(5)), Err(5));
    assert!(wants_stream_ids(Ok((1, 1))));
    assert!(!wants_stream_ids(Ok((0, 1))));
    assert!(!wants_stream_ids(Err(1)));
    assert_eq!(chosen_streams(None), Ok((0, 0)));
    assert_eq!(chosen_streams(Some(Ok((3, 4)))), Ok((3, 4)));
    assert_eq!(chosen_streams(Some(Err(0x8000_4001))), Ok((0, 0)));
    assert_eq!(chosen_streams(Some(Err(9))), Err(9));
    assert_eq!(type_step(0, Some(5), 7), TypeStep::Next);
    assert_eq!(type_step(1, Some(7), 7), TypeStep::Take);
    assert_eq!(type_step(1, None, 7), TypeStep::Missing);
    assert_eq!(type_step(98, Some(5), 7), TypeStep::Next);
    assert_eq!(type_step(99, Some(5), 7), TypeStep::Missing);
    assert_eq!(type_step(99, Some(7), 7), TypeStep::Take);
}

#[test]
fn first_candidate_that_works_is_taken() {
    let mut list = Candidates::new();
    assert_eq!(list.on_tried(4, Err("x".to_string())), CandidateStep::Try(1));
    assert_eq!(list.on_absent(4), CandidateStep::Try(2));
    assert_eq!(list.on_tried(4, Ok(())), CandidateStep::Take(2));
    assert_eq!((list.index, list.reasons), (2, vec!["candidate 0: x".to_string()]));
}

#[test]
fn all_candidates_that_fail_are_told_of() {
    let mut list = Candidates::new();
    assert_eq!(list.on_tried(3, Err("x".to_string())), CandidateStep::Try(1));
    assert_eq!(list.on_absent(3), CandidateStep::Try(2));
    assert_eq!(
        list.on_tried(3, Err("y".to_string())),
        CandidateStep::Fail("No encoder candidate succeeded: candidate 0: x | candidate 2: y".to_string())
    );
}

#[test]
fn codec_settings_for_both_modes() {
    let s = codec_settings(EncoderInputMode::DxgiSurface, 1280, 720, 30, 3000);
    assert_eq!((s.rate_control, s.bits_per_second, s.gop), (3, 3_000_000, 15));
    assert_eq!((s.profile, s.level, s.interlace, s.b_pictures, s.cabac), (66, 40, 2, 0, false));
    assert_eq!((s.frame_rate, s.frame_size), (pack_u64(30, 1), pack_u64(1280, 720)));
    assert!(s.flush_first);
    let m = codec_settings(EncoderInputMode::SystemMemory, 1280, 720, 1, 3000);
    assert_eq!((m.rate_control, m.gop, m.flush_first), (2, 1, false));
}

#[test]
fn software_encoder_comes_second_and_smaller() {
    let config = EncoderConfig { width: 1920, height: 1080, fps: 30, bitrate_kbps: 4000 };
    let first = next_attempt(config, 0, (1281, 721)).unwrap();
    assert!(first.hardware && first.config == config);
    let second = next_attempt(config, 1, (1281, 721)).unwrap();
    assert!(!second.hardware);
    assert_eq!(second.config, EncoderConfig { width: 1280, height: 720, fps: 30, bitrate_kbps: 2500 });
    assert_eq!(next_attempt(config, 2, (1281, 721)), None);
    let small = EncoderConfig { width: 641, height: 480, fps: 30, bitrate_kbps: 900 };
    assert_eq!(next_attempt(small, 1, (0, 0)).unwrap().config, small);
}

#[test]
fn failures_are_told() {
    let reasons = vec![attempt_reason(true, "a"), attempt_reason(false, "b")];
    assert_eq!(
        no_encoder_message(&reasons),
        "No usable H264 encoder MFT found. Attempts: hardware: a | sync-software: b"
    );
    let reasons = vec![candidate_reason(0, "x"), candidate_reason(12, "y")];
    assert_eq!(no_candidate_message(&reasons), "No encoder candidate succeeded: candidate 0: x | candidate 12: y");
    assert_eq!(no_candidate_message(&vec![]), "No encoder candidate succeeded: ");
}

fn encoder(is_async: bool, mode: EncoderInputMode, header: Vec<u8>) -> Encoder {
    Encoder::new(mode, (1, 2), is_async, 1280, 720, header)
}

#[test]
fn plan_of_a_picture() {
    let sync = encoder(false, EncoderInputMode::SystemMemory, vec![]).encode(0, false);
    assert_eq!((sync.force_key_frame, sync.first, sync.second), (true, EncodeStep::HandOver, EncodeStep::Drain));
    let asynchronous = encoder(true, EncoderInputMode::SystemMemory, vec![]);
    let (plan, size) = asynchronous.encode_system_memory(&[1, 2, 3], 5, false);
    assert_eq!((plan.force_key_frame, plan.first, plan.second), (false, EncodeStep::DrainIfReady, EncodeStep::HandOver));
    assert_eq!(size, 3);
    assert!(asynchronous.encode(5, true).force_key_frame);
}

#[test]
fn events_of_an_asynchronous_encoder() {
    let mut e = encoder(true, EncoderInputMode::DxgiSurface, vec![]);
    assert!(e.process_input_sample(Ok(())));
    assert!(!e.async_need_input);
    assert_eq!(e.can_accept_input(Ok(0)), InputCheck::Answer(false));
    assert_eq!(e.can_accept_input(Ok(1)), InputCheck::Answer(true));
    assert_eq!(e.can_accept_input(Err(1)), InputCheck::Answer(false));
    assert_eq!(e.has_output_ready(Err(1)), OutputCheck::Answer(false));
    e.pump_async_events(&[AsyncEvent::Other, AsyncEvent::NeedInput, AsyncEvent::HaveOutput]);
    assert!(e.async_need_input && e.async_has_output());
    assert_eq!(e.can_accept_input(Err(1)), InputCheck::Answer(true));
    assert_eq!(e.has_output_ready(Ok(0)), OutputCheck::Answer(true));
    assert!(!e.process_input_sample(Err(0xC00D_36B5)));
    assert!(e.async_have_output && !e.async_need_input);
    assert!(!e.hands_over(false) && e.hands_over(true));
}

#[test]
fn answers_of_a_synchronous_encoder() {
    let mut e = encoder(false, EncoderInputMode::DxgiSurface, vec![]);
    assert_eq!(e.can_accept_input(Ok(1)), InputCheck::Answer(true));
    assert_eq!(e.can_accept_input(Err(7)), InputCheck::AskEvents);
    assert!(e.async_ready_for_input());
    assert_eq!(e.can_accept_input(Err(0xC00D_36B5)), InputCheck::RetryFirstStream);
    assert_eq!((e.input_stream_id, e.output_stream_id), (0, 0));
    assert_eq!(e.can_accept_input(Err(0xC00D_36B5)), InputCheck::AskEvents);
    assert_eq!(e.has_output_ready(Ok(3)), OutputCheck::Answer(true));
    assert_eq!(e.has_output_ready(Err(3)), OutputCheck::AskEvents);
    assert!(e.hands_over(false));
    assert!(!e.process_input_sample(Err(0xC00D_36B4)));
}

#[test]
fn synchronous_output_is_taken_until_there_is_none() {
    let mut e = encoder(false, EncoderInputMode::DxgiSurface, vec![]);
    let mut drain = e.drain_pending(1280, 30);
    assert_eq!(drain.stage, DrainStage::AskInfo);
    drain.on_info(&mut e, Err(0xC00D_36B5));
    assert_eq!((drain.stage, e.output_stream_id), (DrainStage::AskInfo, 0));
    drain.on_info(&mut e, Ok((0, 5)));
    assert_eq!(drain.stage, DrainStage::AskOutput { buffer: Some(1_048_576) });
    drain.on_output(&mut e, Ok(Some((vec![0, 0, 0, 1, 0x65, 1], true))));
    drain.on_output(&mut e, Ok(None));
    drain.on_output(&mut e, Err(0xC00D_36B1));
    assert_eq!(drain.stage, DrainStage::AskFormat { buffer: Some(1_048_576) });
    drain.on_format(&mut e, Some(vec![0, 0, 0, 1, 0x67, 1, 2, 3]));
    assert_eq!(e.sps_pps, vec![0, 0, 0, 1, 0x67, 0x42, 0xE0, 0x28]);
    drain.on_output(&mut e, Err(0xC00D_6D72));
    assert_eq!(drain.stage, DrainStage::Done);
    assert_eq!(drain.frames, vec![vec![0, 0, 0, 1, 0x65, 1]]);
}

#[test]
fn asynchronous_output_is_taken_while_it_is_ready() {
    let mut e = encoder(true, EncoderInputMode::DxgiSurface, vec![]);
    let mut drain = e.drain_pending(1280, 30);
    assert_eq!(drain.stage, DrainStage::AskReady);
    drain.on_ready(true);
    drain.on_info(&mut e, Ok((0x100, 5)));
    assert_eq!(drain.stage, DrainStage::AskOutput { buffer: None });
    drain.on_output(&mut e, Ok(Some((vec![0, 0, 0, 1, 0x61, 1], false))));
    assert_eq!(drain.stage, DrainStage::AskMore { buffer: None });
    drain.on_ready(true);
    drain.on_output(&mut e, Err(0x8000_FFFF));
    assert_eq!(drain.stage, DrainStage::Done);
    let mut none = e.drain_pending(1280, 30);
    none.on_ready(false);
    assert_eq!((none.stage, none.frames.len()), (DrainStage::Done, 0));
}

#[test]
fn encoder_failures_end_the_taking_of_output() {
    let mut e = encoder(false, EncoderInputMode::DxgiSurface, vec![]);
    let mut drain = e.drain_pending(1280, 30);
    drain.on_info(&mut e, Err(77));
    assert_eq!(drain.stage, DrainStage::Failed { code: 77 });
    assert!(provides_samples(0x101) && !provides_samples(0xFF));
    assert_eq!(output_buffer_size(2_000_000), 2_000_000);
}

#[test]
fn key_frames_get_the_known_header() {
    let header = sequence_header(&[0, 0, 0, 1, 0x67, 1, 2, 3, 0, 0, 0, 1, 0x68, 4], 1280, 30);
    assert_eq!(header, vec![0, 0, 0, 1, 0x67, 0x42, 0xE0, 0x28, 0, 0, 0, 1, 0x68, 4]);
    let mut e = encoder(false, EncoderInputMode::SystemMemory, header.clone());
    let own = [0, 0, 0, 1, 0x67, 9, 9, 9, 0, 0, 0, 1, 0x65, 7, 7];
    let frame = e.on_output(Some(&own), true, 1280, 30).unwrap();
    assert_eq!(frame, [header.clone(), vec![0, 0, 0, 1, 0x65, 7, 7]].concat());
    assert_eq!(e.sps_pps, header);
    let plain = [0, 0, 0, 1, 0x61, 7, 7];
    assert_eq!(e.on_output(Some(&plain), false, 1280, 30).unwrap(), plain.to_vec());
    assert_eq!(e.on_output(None, true, 1280, 30), None);
}

#[test]
fn header_is_made_of_the_first_key_frame() {
    let mut e = encoder(false, EncoderInputMode::SystemMemory, vec![]);
    let own = [0, 0, 0, 1, 0x67, 9, 9, 9, 0, 0, 0, 1, 0x68, 4, 0, 0, 0, 1, 0x65, 7, 7];
    let frame = e.on_output(Some(&own), false, 1280, 30).unwrap();
    assert_eq!(frame, vec![0, 0, 0, 1, 0x67, 0x42, 0xE0, 0x28, 0, 0, 0, 1, 0x68, 4, 0, 0, 0, 1, 0x65, 7, 7]);
    let mut none = encoder(false, EncoderInputMode::SystemMemory, vec![]);
    let bare = [0, 0, 0, 1, 0x65, 7, 7];
    assert_eq!(none.on_output(Some(&bare), true, 1280, 30).unwrap(), bare.to_vec());
    let mut device = encoder(false, EncoderInputMode::DxgiSurface, vec![]);
    assert_eq!(device.on_output(Some(&own), true, 1280, 30).unwrap(), own.to_vec());
}

#[test]
fn frame_times() {
    assert_eq!((frame_ticks(30), frame_ms(30)), (333_333, 33));
    assert_eq!((frame_ticks(0), frame_ms(0)), (10_000_000, 1000));
    assert_eq!((frame_ticks(60), frame_ms(2000)), (166_666, 1));
}

#[test]
fn only_the_latest_events_count() {
    let frame = |n: u8| CaptureEvent::HardwareFrame { texture: n, width: 1, height: 1, captured_at: n as u64 };
    let events: Vec<CaptureEvent<char, u8>> =
        vec![frame(1), CaptureEvent::NewDevice('a', 1, 2), frame(2), CaptureEvent::NewDevice('b', 3, 4), frame(3)];
    let (device, picture) = latest(events);
    assert_eq!(device, Some(('b', 3, 4)));
    assert!(matches!(picture, Some(CaptureEvent::HardwareFrame { texture: 3, .. })));
    let (device, picture) = latest(Vec::<CaptureEvent<char, u8>>::new());
    assert!(device.is_none() && picture.is_none());
}

fn source(width: u32, height: u32) -> Source {
    Source { width, height, capped_h: height }
}

fn config() -> EncoderConfig {
    EncoderConfig { width: 1280, height: 720, fps: 2, bitrate_kbps: 3000 }
}

#[test]
fn loop_builds_a_pipeline_and_encodes() {
    let resize = ResizeState::new(None, None);
    let mut run = EncoderRun::new(config(), 0);
    run.on_timeout();
    assert_eq!(run.stage, LoopStage::Receive);
    let picture = Picture { source: source(800, 600), captured_at: 0 };
    run.on_events(Some(source(800, 600)), Some(picture), &resize, 0);
    assert!(matches!(run.stage, LoopStage::BuildForDevice { width: 800, height: 600, .. }));
    run.on_built(Some((800, 600)), 0);
    assert!(matches!(run.stage, LoopStage::OpenDevice { force_idr: false, .. }));
    run.on_device(true, &resize, 0);
    let request = run.request();
    assert_eq!((request.timestamp, request.duration, request.force_idr), (0, 5_000_000, false));
    assert_eq!((request.config.width, request.config.height), (800, 600));
    let frames = run.on_encoded(Some(vec![vec![1], vec![2]]));
    assert_eq!(frames.len(), 2);
    assert_eq!((frames[1].data.clone(), frames[1].duration_ms, frames[1].captured_at), (vec![2], 500, 0));
    assert_eq!(run.state.next_timestamp, 10_000_000);
    run.on_events(None, Some(picture), &resize, 10);
    assert!(matches!(run.stage, LoopStage::OpenDevice { force_idr: true, .. }));
    run.on_device(true, &ResizeState::new(Some(640), None), 10);
    assert!(matches!(run.stage, LoopStage::Encode { force_idr: true, .. }));
    assert_eq!(run.on_encoded(None).len(), 0);
    run.on_timeout();
    assert_eq!(run.stage, LoopStage::Drain);
    assert_eq!(run.on_drained(Some(vec![vec![3]]), 77)[0].captured_at, 77);
    run.on_stop();
    assert_eq!(run.stage, LoopStage::Exit);
}

#[test]
fn loop_waits_after_a_failure() {
    let resize = ResizeState::new(None, None);
    let mut run = EncoderRun::new(config(), 0);
    let at = |t: u64| Some(Picture { source: source(800, 600), captured_at: t });
    run.on_events(None, at(0), &resize, 0);
    run.on_device(true, &resize, 0);
    assert!(matches!(run.stage, LoopStage::BuildForPicture { .. }));
    run.on_built(None, 0);
    assert_eq!(run.stage, LoopStage::Receive);
    run.on_events(None, at(1999 * MS), &resize, 1999 * MS);
    assert_eq!(run.stage, LoopStage::Receive);
    run.on_events(None, at(2000 * MS), &resize, 2000 * MS);
    assert!(matches!(run.stage, LoopStage::OpenDevice { .. }));
    run.on_device(false, &resize, 2000 * MS);
    assert_eq!(run.stage, LoopStage::Receive);
}

#[test]
fn loop_drops_old_pictures_and_empty_devices() {
    let resize = ResizeState::new(None, None);
    let mut run = EncoderRun::new(config(), 0);
    run.on_events(Some(source(0, 600)), None, &resize, 0);
    assert_eq!(run.stage, LoopStage::Receive);
    let picture = Picture { source: source(800, 600), captured_at: 0 };
    run.on_events(None, Some(picture), &resize, 80 * MS + 1);
    assert_eq!(run.stage, LoopStage::Receive);
    run.on_events(None, Some(picture), &resize, 80 * MS);
    assert!(matches!(run.stage, LoopStage::OpenDevice { .. }));
}

#[test]
fn texture_is_kept_for_its_size() {
    let mut cache: TextureCache<u8> = TextureCache::new();
    assert!(!cache.fits(0, 0));
    cache.store(7, 3, 4);
    assert!(cache.fits(3, 4) && !cache.fits(3, 5));
    cache.clear();
    assert!(!cache.fits(3, 4) && cache.tex.is_none());
}

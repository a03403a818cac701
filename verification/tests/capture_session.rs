use audio_capture::buffer::SampleBuffer;
use audio_capture::convert::{sample_from_i16, sample_from_u16};
use audio_capture::device::{build_device_list, resolve_input_device, Device};
use audio_capture::errors::CaptureError;
use audio_capture::format::{dispatch_encoding, SampleEncoding, SupportedFormat};
use audio_capture::session::{plan_stream, CaptureSession, SessionState, StreamConfig};

fn config(encoding: SampleEncoding) -> StreamConfig {
    StreamConfig { sample_rate: 44100, channels: 1, encoding }
}

#[test]
fn the_three_supported_encodings_dispatch() {
    assert_eq!(dispatch_encoding(SampleEncoding::F32).unwrap(), SupportedFormat::Float32);
    assert_eq!(dispatch_encoding(SampleEncoding::I16).unwrap(), SupportedFormat::Int16);
    assert_eq!(dispatch_encoding(SampleEncoding::U16).unwrap(), SupportedFormat::Uint16);
}

#[test]
fn every_other_encoding_is_unsupported() {
    let unsupported = [
        SampleEncoding::I8,
        SampleEncoding::I24,
        SampleEncoding::I32,
        SampleEncoding::I64,
        SampleEncoding::U8,
        SampleEncoding::U24,
        SampleEncoding::U32,
        SampleEncoding::U64,
        SampleEncoding::F64,
        SampleEncoding::DsdU8,
        SampleEncoding::DsdU16,
        SampleEncoding::DsdU32,
    ];
    for encoding in unsupported {
        assert_eq!(
            dispatch_encoding(encoding).err().unwrap(),
            CaptureError::UnsupportedSampleFormat
        );
    }
}

#[test]
fn unsupported_format_fails_setup_and_builds_no_stream() {
    let session = CaptureSession::new();
    let r = plan_stream(0, Some(config(SampleEncoding::F64)));
    assert_eq!(r.err().unwrap(), CaptureError::UnsupportedSampleFormat);
    assert_eq!(session.current_state(), SessionState::NotStarted);
    assert_eq!(session.buffered_len(), 0);
}

#[test]
fn missing_default_configuration_fails_setup() {
    let r = plan_stream(3, None);
    assert_eq!(r.err().unwrap(), CaptureError::ConfigurationUnavailable);
}

#[test]
fn successful_plan_carries_device_config_and_path() {
    let plan = plan_stream(2, Some(config(SampleEncoding::I16))).unwrap();
    assert_eq!(plan.device_index, 2);
    assert_eq!(plan.config, config(SampleEncoding::I16));
    assert_eq!(plan.format, SupportedFormat::Int16);
}

#[test]
fn nonexistent_device_fails_and_leaves_no_stream_running() {
    let session = CaptureSession::new();
    let devices = vec![Device::new("built-in mic".to_string())];
    let r = resolve_input_device(&devices, &"nonexistent-device".to_string());
    assert_eq!(r.err().unwrap(), CaptureError::DeviceNotFound);
    assert_eq!(session.current_state(), SessionState::NotStarted);
    assert_eq!(session.buffered_len(), 0);
}

#[test]
fn callback_blocks_concatenate_in_invocation_order() {
    let mut session = CaptureSession::new();
    let plan = plan_stream(0, Some(config(SampleEncoding::I16))).unwrap();
    session.start(&plan);
    assert_eq!(session.current_state(), SessionState::Running);

    let blocks: Vec<Vec<i16>> = vec![
        vec![1, -1, 32767, -32768],
        vec![0, 0, 5, -5],
        vec![100, 200, -300, 400],
    ];
    let mut expected: Vec<u32> = Vec::new();
    for block in &blocks {
        for s in block {
            expected.push(sample_from_i16(*s));
        }
        session.record_block_i16(block);
    }
    assert_eq!(session.buffered_len(), 12);
    let drained = session.stop();
    assert_eq!(drained, expected);
    assert_eq!(session.current_state(), SessionState::Stopped);
    assert_eq!(session.buffered_len(), 0);
}

#[test]
fn u16_and_f32_blocks_record_too() {
    let mut session = CaptureSession::new();
    let plan = plan_stream(0, Some(config(SampleEncoding::U16))).unwrap();
    session.start(&plan);
    session.record_block_u16(&[0, 65535]);
    session.record_block_f32(&[0.25f32.to_bits()]);
    let drained = session.stop();
    assert_eq!(
        drained,
        vec![sample_from_u16(0), sample_from_u16(65535), 0.25f32.to_bits()]
    );
}

#[test]
fn no_block_is_recorded_before_start_after_stop_or_after_error() {
    let mut session = CaptureSession::new();
    session.record_block_i16(&[1, 2, 3]);
    assert_eq!(session.buffered_len(), 0);

    let plan = plan_stream(0, Some(config(SampleEncoding::I16))).unwrap();
    session.start(&plan);
    session.record_block_i16(&[1]);
    session.report_runtime_error();
    assert_eq!(session.current_state(), SessionState::Errored);
    session.record_block_i16(&[2, 3]);
    assert_eq!(session.buffered_len(), 1);

    let drained = session.stop();
    assert_eq!(drained, vec![sample_from_i16(1)]);
    session.record_block_i16(&[4]);
    assert_eq!(session.buffered_len(), 0);
}

#[test]
fn runtime_error_is_not_fatal_and_keeps_samples() {
    let mut session = CaptureSession::new();
    let plan = plan_stream(0, Some(config(SampleEncoding::F32))).unwrap();
    session.start(&plan);
    session.record_block_f32(&[1.0f32.to_bits(), 0.0f32.to_bits()]);
    session.report_runtime_error();
    assert_eq!(session.current_state(), SessionState::Errored);
    assert_eq!(session.buffered_len(), 2);
    let drained = session.stop();
    assert_eq!(drained, vec![1.0f32.to_bits(), 0.0f32.to_bits()]);
}

#[test]
fn directory_query_during_capture_leaves_the_stream_alone() {
    let mut session = CaptureSession::new();
    let plan = plan_stream(0, Some(config(SampleEncoding::I16))).unwrap();
    session.start(&plan);
    session.record_block_i16(&[10, 20]);
    let before = session.buffered_len();

    let list = build_device_list(
        Some(vec![Some("mic".to_string())]),
        Some(vec![Some("speak".to_string())]),
    )
    .unwrap();
    assert_eq!(list.input_devices.len(), 1);

    assert_eq!(session.current_state(), SessionState::Running);
    assert_eq!(session.buffered_len(), before);
    session.record_block_i16(&[30]);
    assert_eq!(session.buffered_len(), before + 1);
}

#[test]
fn a_run_of_blocks_buffers_their_concatenation() {
    let mut session = CaptureSession::new();
    let plan = plan_stream(0, Some(config(SampleEncoding::I16))).unwrap();
    session.start(&plan);

    let blocks: Vec<Vec<i16>> = vec![vec![3; 8], vec![-7; 8], vec![11; 8]];
    session.record_blocks_i16(&blocks);
    assert_eq!(session.buffered_len(), 24);
    let drained = session.stop();
    assert_eq!(&drained[..8], vec![sample_from_i16(3); 8].as_slice());
    assert_eq!(&drained[8..16], vec![sample_from_i16(-7); 8].as_slice());
    assert_eq!(&drained[16..], vec![sample_from_i16(11); 8].as_slice());

    // outside a running session the same call records nothing
    session.record_blocks_i16(&blocks);
    assert_eq!(session.buffered_len(), 0);
}

#[test]
fn buffer_appends_and_drains_in_arrival_order() {
    let mut buffer = SampleBuffer::new();
    assert_eq!(buffer.len(), 0);
    buffer.append(&[1, 2]);
    buffer.append(&[]);
    buffer.append(&[3]);
    assert_eq!(buffer.len(), 3);
    let drained = buffer.drain();
    assert_eq!(drained, vec![1, 2, 3]);
    assert_eq!(buffer.len(), 0);
}

#[test]
fn buffer_length_is_the_sum_of_block_sizes() {
    let mut buffer = SampleBuffer::new();
    let blocks: Vec<Vec<u32>> = vec![vec![7; 16], vec![8; 16], vec![9; 16], vec![10; 16]];
    buffer.append_blocks(&blocks);
    assert_eq!(buffer.len(), 64);
    let drained = buffer.drain();
    assert_eq!(drained[0], 7);
    assert_eq!(drained[16], 8);
    assert_eq!(drained[32], 9);
    assert_eq!(drained[48], 10);
}

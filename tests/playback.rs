use mediaplayer::audio::{
    has_room, output_channel_layout, pad_with_silence, plane_byte_len, sample_ring,
    ChannelLayout, SAMPLE_RING_CAPACITY,
};
use mediaplayer::clock::{delay_after, StreamClock};
use mediaplayer::dispatch::{route_packet, StreamKind, PACKET_CHANNEL_CAPACITY};
use mediaplayer::render::yuv_plane_pitches;
use mediaplayer::time::Rational;

#[test]
fn delay_until_deadline() {
    let tb = Rational::new(1, 30);
    assert_eq!(delay_after(30, tb, 0), 1_000_000_000);
    assert_eq!(delay_after(30, tb, 400_000_000), 600_000_000);
    assert_eq!(delay_after(1, tb, 0), 33_333_333);
}

#[test]
fn late_frames_are_due_at_once() {
    let tb = Rational::new(1, 30);
    assert_eq!(delay_after(30, tb, 2_000_000_000), 0);
    assert_eq!(delay_after(30, tb, 1_000_000_000), 0);
    assert_eq!(delay_after(-5, tb, 0), 0);
    assert_eq!(delay_after(0, tb, 0), 0);
}

#[test]
fn far_deadlines_saturate() {
    assert_eq!(delay_after(i64::MAX, Rational::new(i32::MAX, 1), 0), u64::MAX);
}

#[test]
fn clock_without_pts_gives_no_delay() {
    let clock = StreamClock::new(Rational::new(1, 90000));
    assert_eq!(clock.convert_pts_to_delay(None), None);
    assert_eq!(clock.convert_pts_to_delay(Some(0)), Some(0));
    let d = clock.convert_pts_to_delay(Some(90000 * 3600)).unwrap();
    assert!(d > 3_000_000_000_000 && d <= 3_600_000_000_000);
}

#[test]
fn packets_are_routed_by_stream() {
    assert_eq!(route_packet(1, 1, 0), Some(StreamKind::Audio));
    assert_eq!(route_packet(0, 1, 0), Some(StreamKind::Video));
    assert_eq!(route_packet(2, 1, 0), None);
    assert_eq!(route_packet(3, 3, 3), Some(StreamKind::Audio));
    assert_eq!(PACKET_CHANNEL_CAPACITY, 128);
}

#[test]
fn each_stream_keeps_source_order() {
    let streams = [0usize, 1, 0, 0, 2, 1, 0];
    let video: Vec<usize> = (0..streams.len())
        .filter(|&i| route_packet(streams[i], 1, 0) == Some(StreamKind::Video))
        .collect();
    let audio: Vec<usize> = (0..streams.len())
        .filter(|&i| route_packet(streams[i], 1, 0) == Some(StreamKind::Audio))
        .collect();
    assert_eq!(video, vec![0, 2, 3, 6]);
    assert_eq!(audio, vec![1, 5]);
}

#[test]
fn silence_pads_the_rest() {
    let mut buf = [7u8, 8, 9, 10, 11];
    pad_with_silence(&mut buf, 2, &[0]);
    assert_eq!(buf, [7, 8, 0, 0, 0]);
    let mut full = [1u8, 2];
    pad_with_silence(&mut full, 2, &[128]);
    assert_eq!(full, [1, 2]);
}

#[test]
fn silence_repeats_one_sample_per_position() {
    let mut buf = [9u8; 8];
    pad_with_silence(&mut buf, 4, &[1, 2]);
    assert_eq!(buf, [9, 9, 9, 9, 1, 2, 1, 2]);
}

#[test]
fn ring_hands_samples_to_the_device() {
    let (mut producer, mut consumer) = sample_ring(SAMPLE_RING_CAPACITY, 4);
    let samples = [0.5f32, -0.5, 0.25];
    let bytes: Vec<u8> = samples.iter().flat_map(|x| x.to_ne_bytes()).collect();
    assert_eq!(producer.try_push_all(&bytes), Some(12));
    let mut out = [9.0f32; 5];
    let out_bytes: &mut [u8] = bytemuck::cast_slice_mut(&mut out);
    assert_eq!(consumer.fill(out_bytes, &0.0f32.to_ne_bytes()), 12);
    assert_eq!(out, [0.5, -0.5, 0.25, 0.0, 0.0]);
    let mut again = [9.0f32; 2];
    assert_eq!(consumer.fill(bytemuck::cast_slice_mut(&mut again), &0.0f32.to_ne_bytes()), 0);
    assert_eq!(again, [0.0, 0.0]);
}

#[test]
fn ring_refuses_what_does_not_fit() {
    let (mut producer, mut consumer) = sample_ring(4, 1);
    assert_eq!(producer.try_push_all(&[1, 2, 3]), Some(3));
    assert_eq!(producer.try_push_all(&[4, 5]), None);
    let mut out = [0u8; 1];
    assert_eq!(consumer.fill(&mut out, &[128]), 1);
    assert_eq!(out, [1]);
    assert_eq!(producer.try_push_all(&[4, 5]), Some(2));
    let mut rest = [0u8; 6];
    assert_eq!(consumer.fill(&mut rest, &[128]), 4);
    assert_eq!(rest, [2, 3, 4, 5, 128, 128]);
    assert_eq!(producer.try_push_all(&[]), Some(0));
    assert_eq!(producer.try_push_all(&[0; 5]), None);
}

#[test]
fn ring_holds_its_capacity() {
    assert_eq!(SAMPLE_RING_CAPACITY, 4096);
    let (mut producer, mut consumer) = sample_ring(SAMPLE_RING_CAPACITY, 2);
    assert_eq!(producer.try_push_all(&[1u8; 8192]), Some(8192));
    assert_eq!(producer.try_push_all(&[2u8]), None);
    let mut out = [0u8; 8193];
    assert_eq!(consumer.fill(&mut out, &[0, 0]), 8192);
    assert_eq!(out[8191], 1);
    assert_eq!(out[8192], 0);
}

#[test]
fn room_test() {
    assert!(has_room(10, 10));
    assert!(has_room(10, 0));
    assert!(!has_room(10, 11));
}

#[test]
fn plane_length_from_samples_and_channels() {
    assert_eq!(plane_byte_len(1024, 2, 4), Some(8192));
    assert_eq!(plane_byte_len(1024, 1, 1), Some(1024));
    assert_eq!(plane_byte_len(0, 2, 4), Some(0));
    assert_eq!(plane_byte_len(usize::MAX, 2, 4), None);
    assert_eq!(plane_byte_len(usize::MAX, 2, 0), Some(0));
}

#[test]
fn device_channel_layouts() {
    assert_eq!(output_channel_layout(1), Some(ChannelLayout::Mono));
    assert_eq!(output_channel_layout(2), Some(ChannelLayout::Stereo));
    assert_eq!(output_channel_layout(6), None);
}

#[test]
fn chroma_pitch_is_half_the_luma_pitch() {
    assert_eq!(yuv_plane_pitches(1280), Some((1280, 640)));
    assert_eq!(yuv_plane_pitches(1281), Some((1281, 640)));
    assert_eq!(yuv_plane_pitches(usize::MAX), None);
}

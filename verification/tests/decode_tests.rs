use hifi_replayer::decode::decoder::{
    after_decode, after_read, packet_samples, AudioInfo, DecodeError, DecodeOutcome, PacketStep,
    ReadOutcome,
};
use hifi_replayer::decode::stream::{DecoderIterator, DoubleBuffer, MAX_SAMPLES_PER_DECODE};
use hifi_replayer::decode::transcode::{
    convert_s16_to_i32, convert_s24_to_i32, convert_s32_to_i32, convert_s8_to_i32,
    convert_u16_to_i32, convert_u24_to_i32, convert_u32_to_i32, convert_u8_to_i32,
    transcode_packet, PacketSamples,
};

#[test]
fn transcode_signed() {
    let mut out = [0i32; 4];
    let c: [&[i8]; 1] = [&[1, -1, 127, -128]];
    convert_s8_to_i32(&c, 4, &mut out);
    assert_eq!(out, [1 << 24, -1 << 24, 127 << 24, i32::MIN]);
    let c: [&[i16]; 1] = [&[1, -1, 32767, -32768]];
    convert_s16_to_i32(&c, 4, &mut out);
    assert_eq!(out, [1 << 16, -1 << 16, 32767 << 16, i32::MIN]);
    let c: [&[i32]; 1] = [&[1, -1, 0x7FFFFF, -0x800000]];
    convert_s24_to_i32(&c, 4, &mut out);
    assert_eq!(out, [1 << 8, -1 << 8, 0x7FFFFF << 8, i32::MIN]);
    let c: [&[i32]; 1] = [&[1, -1, i32::MAX, i32::MIN]];
    convert_s32_to_i32(&c, 4, &mut out);
    assert_eq!(out, [1, -1, i32::MAX, i32::MIN]);
}

#[test]
fn transcode_unsigned_rebiased() {
    let mut out = [0i32; 3];
    let c: [&[u8]; 1] = [&[0, 128, 255]];
    convert_u8_to_i32(&c, 3, &mut out);
    assert_eq!(out, [i32::MIN, 0, 127 << 24]);
    let c: [&[u16]; 1] = [&[0, 32768, 65535]];
    convert_u16_to_i32(&c, 3, &mut out);
    assert_eq!(out, [i32::MIN, 0, 32767 << 16]);
    let c: [&[u32]; 1] = [&[0, 0x800000, 0xFFFFFF]];
    convert_u24_to_i32(&c, 3, &mut out);
    assert_eq!(out, [i32::MIN, 0, 0x7FFFFF << 8]);
    let c: [&[u32]; 1] = [&[0, 0x80000000, u32::MAX]];
    convert_u32_to_i32(&c, 3, &mut out);
    assert_eq!(out, [i32::MIN, 0, i32::MAX]);
}

#[test]
fn transcode_interleaves_and_leaves_the_rest() {
    let left: [i16; 3] = [1, 2, 3];
    let right: [i16; 3] = [-1, -2, -3];
    let c: [&[i16]; 2] = [&left, &right];
    let mut out = [7i32; 6];
    // two of the three frames
    convert_s16_to_i32(&c, 2, &mut out);
    assert_eq!(out, [1 << 16, -1 << 16, 2 << 16, -2 << 16, 7, 7]);
    let three: [&[i16]; 3] = [&left, &right, &left];
    let mut out = [0i32; 9];
    convert_s16_to_i32(&three, 3, &mut out);
    assert_eq!(
        out,
        [1 << 16, -1 << 16, 1 << 16, 2 << 16, -2 << 16, 2 << 16, 3 << 16, -3 << 16, 3 << 16]
    );
    let none: [&[i16]; 0] = [];
    let mut out = [5i32; 2];
    convert_s16_to_i32(&none, 10, &mut out);
    assert_eq!(out, [5, 5]);
}

#[test]
fn transcode_packet_by_kind() {
    let a: [u8; 2] = [0, 255];
    let b: [u8; 2] = [128, 129];
    let c: [&[u8]; 2] = [&a, &b];
    let packet = PacketSamples::U8(&c);
    assert_eq!(packet.channels(), 2);
    let mut out = [1i32; 5];
    assert_eq!(transcode_packet(&packet, 2, &mut out), 4);
    assert_eq!(out, [i32::MIN, 0, 127 << 24, 1 << 24, 1]);
    let s: [i32; 1] = [-5];
    let c: [&[i32]; 1] = [&s];
    let mut out = [0i32; 1];
    assert_eq!(transcode_packet(&PacketSamples::S24(&c), 1, &mut out), 1);
    assert_eq!(out, [-5 << 8]);
    assert_eq!(transcode_packet(&PacketSamples::S32(&c), 1, &mut out), 1);
    assert_eq!(out, [-5]);
}

#[test]
fn double_buffer_hands_out_in_order() {
    let mut b = DoubleBuffer::new();
    assert_eq!(b.available(), 0);
    assert_eq!(b.read(4), &[] as &[i32]);
    b.append(&[1, 2, 3, 4, 5]);
    assert_eq!(b.available(), 5);
    assert_eq!(b.read(2), &[1, 2]);
    assert_eq!(b.available(), 3);
    b.swap_and_append(&[6, 7]);
    assert_eq!(b.available(), 5);
    assert_eq!(b.read(4), &[3, 4, 5, 6]);
    b.swap_and_append(&[8]);
    assert_eq!(b.read(10), &[7, 8]);
    assert_eq!(b.available(), 0);
    b.append(&[9]);
    assert_eq!(b.read(1), &[9]);
    assert_eq!(MAX_SAMPLES_PER_DECODE, 65536);
}

#[test]
fn stream_adapter_returns_what_is_asked() {
    let mut it = DecoderIterator::new(42u8);
    assert_eq!(*it.decoder(), 42);
    *it.decoder_mut() = 43;
    assert_eq!(*it.decoder(), 43);
    assert!(it.is_eof());
    assert!(it.needs_packet(3));
    assert!(!it.needs_packet(0));
    it.feed(&[1, 2, 3, 4, 5]);
    assert!(!it.is_eof());
    assert!(!it.needs_packet(3));
    assert_eq!(it.read_i32(3), &[1, 2, 3]);
    // two left, three asked: another packet is needed
    assert!(it.needs_packet(3));
    it.feed(&[6, 7, 8, 9]);
    assert_eq!(it.read_i32(3), &[4, 5, 6]);
    assert!(!it.needs_packet(3));
    assert_eq!(it.read_i32(3), &[7, 8, 9]);
    // end of file: the empty packet changes nothing, the rest comes out
    it.feed(&[10]);
    assert!(it.needs_packet(3));
    it.feed(&[]);
    assert_eq!(it.read_i32(3), &[10]);
    it.feed(&[]);
    assert_eq!(it.read_i32(3), &[] as &[i32]);
    assert!(it.is_eof());
}

#[test]
fn audio_info_from_track() {
    let info = AudioInfo::from_track(
        Some(44100),
        None,
        Some(16),
        Some(441000),
        String::from("FLAC"),
        String::from("flac"),
    )
    .unwrap();
    assert_eq!(info.sample_rate, 44100);
    assert_eq!(info.channels, 2);
    assert_eq!(info.bit_depth, Some(16));
    assert_eq!(info.total_frames, Some(441000));
    assert_eq!(info.format, "FLAC");
    assert_eq!(info.codec, "flac");
    assert_eq!(info.duration_millis(), Some(10_000));
    assert_eq!(info.playback_bit_depth(), 16);
    assert_eq!(info.frames_played(89), 44);
    let r = AudioInfo::from_track(None, Some(2), None, None, String::new(), String::new());
    assert!(matches!(r, Err(DecodeError::NoAudioTrack)));
    let info =
        AudioInfo::from_track(Some(0), Some(0), None, Some(5), String::new(), String::new())
            .unwrap();
    assert_eq!(info.playback_bit_depth(), 24);
    assert_eq!(info.duration_millis(), None);
    assert_eq!(info.frames_played(10), 0);
    let info = AudioInfo::from_track(Some(96000), Some(6), None, None, String::new(), String::new())
        .unwrap();
    assert_eq!(info.channels, 6);
    assert_eq!(info.duration_millis(), None);
    let long =
        AudioInfo::from_track(Some(1), Some(1), None, Some(u64::MAX), String::new(), String::new())
            .unwrap();
    assert_eq!(long.duration_millis(), Some(u64::MAX));
}

#[test]
fn packet_loop_decisions() {
    assert!(matches!(after_read(3, ReadOutcome::Packet { track_id: 3 }), PacketStep::Decode));
    assert!(matches!(after_read(3, ReadOutcome::Packet { track_id: 4 }), PacketStep::Skip));
    assert!(matches!(after_read(3, ReadOutcome::EndOfFile), PacketStep::Finish));
    match after_read(3, ReadOutcome::Failed(String::from("io"))) {
        PacketStep::Fail(DecodeError::DecodeFailed(m)) => assert_eq!(m, "io"),
        _ => panic!("a failed read is final"),
    }
    assert!(matches!(after_decode(DecodeOutcome::Decoded), PacketStep::Convert));
    // corrupt frames are passed over in silence
    assert!(matches!(after_decode(DecodeOutcome::Corrupt), PacketStep::Skip));
    match after_decode(DecodeOutcome::Failed(String::from("bad"))) {
        PacketStep::Fail(DecodeError::DecodeFailed(m)) => assert_eq!(m, "bad"),
        _ => panic!("a failed decode is final"),
    }
    assert_eq!(packet_samples(8192, 8), Some(65536));
    assert_eq!(packet_samples(usize::MAX, 2), None);
}

#[test]
fn decode_error_variants() {
    let all = [
        DecodeError::FileOpen(String::from("missing")),
        DecodeError::UnsupportedFormat,
        DecodeError::NoAudioTrack,
        DecodeError::DecoderCreation(String::from("x")),
        DecodeError::DecodeFailed(String::from("y")),
        DecodeError::SeekFailed(String::from("z")),
    ];
    assert_eq!(all.len(), 6);
    assert!(matches!(&all[0], DecodeError::FileOpen(m) if m == "missing"));
}

use hifi_replayer::audio::device::{
    default_sample_rates, find_device_by_name, is_bluetooth_transport, rates_from_ranges, select_optimal_sample_rate,
    DeviceInfo, RateRange, TRANSPORT_TYPE_BLUETOOTH, TRANSPORT_TYPE_BLUETOOTH_LE,
};
use hifi_replayer::audio::dither::{DitherState, DEFAULT_DITHER_SEED};

#[test]
fn sample_rate_selection() {
    let supported = [44100, 48000, 96000];
    assert_eq!(select_optimal_sample_rate(96000, &supported), 96000);
    // whole-number division inside the family, not the nearer 96000
    assert_eq!(select_optimal_sample_rate(88200, &supported), 44100);
    assert_eq!(select_optimal_sample_rate(44100, &supported), 44100);
    assert_eq!(select_optimal_sample_rate(192000, &supported), 96000);
}

#[test]
fn sample_rate_selection_edges() {
    // a device that tells nothing gets what is asked
    assert_eq!(select_optimal_sample_rate(12345, &[]), 12345);
    // 96 kHz file on a 44.1/48 device
    assert_eq!(select_optimal_sample_rate(96000, &[44100, 48000]), 48000);
    assert_eq!(select_optimal_sample_rate(176400, &[44100, 48000, 88200]), 88200);
    // no family: nearest, a higher rate preferred once found
    assert_eq!(select_optimal_sample_rate(32000, &[44100, 48000]), 44100);
    assert_eq!(select_optimal_sample_rate(50000, &[44100, 48000, 96000]), 48000);
    assert_eq!(select_optimal_sample_rate(60000, &[96000, 48000]), 96000);
    assert_eq!(select_optimal_sample_rate(60000, &[48000, 96000]), 48000);
    // family member, but no lower family rate supported: nearest
    assert_eq!(select_optimal_sample_rate(88200, &[48000, 96000]), 96000);
    assert_eq!(select_optimal_sample_rate(44100, &[48000]), 48000);
    assert_eq!(select_optimal_sample_rate(u32::MAX, &[48000, 192000]), 192000);
}

#[test]
fn bluetooth_transports() {
    assert!(is_bluetooth_transport(TRANSPORT_TYPE_BLUETOOTH));
    assert!(is_bluetooth_transport(TRANSPORT_TYPE_BLUETOOTH_LE));
    assert!(is_bluetooth_transport(0x626C7565));
    assert!(!is_bluetooth_transport(0x75736220));
    assert!(!is_bluetooth_transport(0));
}

#[test]
fn rates_from_ranges_sorted_and_unique() {
    let ranges = [
        RateRange { minimum: 96000, maximum: 96000 },
        RateRange { minimum: 44100, maximum: 44100 },
        RateRange { minimum: 48000, maximum: 48000 },
        RateRange { minimum: 44100, maximum: 44100 },
    ];
    assert_eq!(rates_from_ranges(&ranges), vec![44100, 48000, 96000]);
    // a continuous range gives the standard rates inside it
    let wide = [RateRange { minimum: 8000, maximum: 100000 }];
    assert_eq!(rates_from_ranges(&wide), vec![44100, 48000, 88200, 96000]);
    let mixed = [
        RateRange { minimum: 50000, maximum: 200000 },
        RateRange { minimum: 32000, maximum: 32000 },
        RateRange { minimum: 88200, maximum: 88200 },
    ];
    assert_eq!(rates_from_ranges(&mixed), vec![32000, 88200, 96000, 176400, 192000]);
    assert_eq!(rates_from_ranges(&[]), Vec::<u32>::new());
    assert_eq!(rates_from_ranges(&[RateRange { minimum: 10, maximum: 20 }]), Vec::<u32>::new());
    assert_eq!(default_sample_rates(), vec![44100, 48000]);
}

#[test]
fn device_info_fallbacks() {
    let info = DeviceInfo::from_answers(7, String::from("DAC"), None, None, None);
    assert_eq!(info.id, 7);
    assert_eq!(info.name, "DAC");
    assert_eq!(info.supported_sample_rates, vec![44100, 48000]);
    assert_eq!(info.current_sample_rate, 48000);
    assert!(!info.is_bluetooth);
    let info = DeviceInfo::from_answers(
        8,
        String::from("Pods"),
        Some(vec![48000]),
        Some(44100),
        Some(TRANSPORT_TYPE_BLUETOOTH_LE),
    );
    assert_eq!(info.supported_sample_rates, vec![48000]);
    assert_eq!(info.current_sample_rate, 44100);
    assert!(info.is_bluetooth);
}

#[test]
fn dither_is_xorshift32() {
    let mut d = DitherState::new(1);
    assert_eq!(d.next_u32(), 270369);
    assert_eq!(d.next_u32(), 67634689);
    let mut z = DitherState::new(0);
    let mut s = DitherState::new(DEFAULT_DITHER_SEED);
    assert_eq!(z.next_u32(), s.next_u32());
    assert_eq!(DEFAULT_DITHER_SEED, 0xDEADBEEF);
}

#[test]
fn dither_tpdf_is_centred_and_left_aligned() {
    let mut d = DitherState::new(1);
    // draws 270369 (low byte 0x21) and 67634689 (low byte 0x01)
    assert_eq!(d.next_tpdf_lsb24(), (0x21 + 0x01 - 256) << 8);
    let mut d = DitherState::new(99);
    let mut sum: i64 = 0;
    for _ in 0..10_000 {
        let v = d.next_tpdf_lsb24();
        assert!(v >= -65536 && v <= 65024);
        assert_eq!(v & 0xFF, 0);
        sum += v as i64;
    }
    // triangular around (almost) zero
    assert!(sum.abs() / 10_000 < 4096);
}

#[test]
fn dither_only_when_output_is_narrower() {
    assert!(DitherState::needs_dither(32, 24));
    assert!(!DitherState::needs_dither(24, 24));
    assert!(!DitherState::needs_dither(16, 24));
    assert!(!DitherState::needs_dither(16, 32));
}

#[test]
fn find_device_by_name_prefers_exact_match() {
    let devices = vec![
        DeviceInfo::from_answers(1, String::from("USB DAC Pro"), None, None, None),
        DeviceInfo::from_answers(2, String::from("usb dac"), None, None, None),
        DeviceInfo::from_answers(3, String::from("Built-in Output"), None, None, None),
        DeviceInfo::from_answers(4, String::from("USB DAC"), None, None, None),
    ];
    // exact, letter case aside: the first such device, not the first that holds it
    assert_eq!(find_device_by_name(&devices, "USB DAC"), Some(1));
    assert_eq!(find_device_by_name(&devices, "Usb Dac Pro"), Some(0));
    // no exact match: the first device whose name holds the text
    assert_eq!(find_device_by_name(&devices, "dac"), Some(0));
    assert_eq!(find_device_by_name(&devices, "OUTPUT"), Some(2));
    assert_eq!(find_device_by_name(&devices, "hdmi"), None);
    assert_eq!(find_device_by_name(&[], "dac"), None);
    // the empty text is held by every name
    assert_eq!(find_device_by_name(&devices, ""), Some(0));
}

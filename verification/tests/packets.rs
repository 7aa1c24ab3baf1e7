use libvpx::frame::TimeInfo;
use libvpx::packet::{to_buffer, CxPacket, VPXPacket, FRAME_IS_KEY, PSNR};

#[test]
fn to_buffer_copies_byte_for_byte() {
    let src: Vec<u8> = (0..=255u8).rev().collect();
    let copy = to_buffer(&src);
    assert_eq!(copy, src);
    assert_ne!(copy.as_ptr(), src.as_ptr());
    assert_eq!(to_buffer(&[]), Vec::<u8>::new());
    assert_eq!(to_buffer(&[9]), vec![9]);
}

#[test]
fn a_compressed_frame_becomes_a_packet() {
    let data = [1u8, 2, 3, 4, 5];
    let out = VPXPacket::new(CxPacket::Frame { buf: &data, pts: 42, flags: 0 });
    match out {
        VPXPacket::Packet(p) => {
            assert_eq!(p.data, vec![1, 2, 3, 4, 5]);
            assert_eq!(p.t, TimeInfo { pts: Some(42), dts: None, duration: None, timebase: None });
            assert!(!p.is_key);
            assert!(!p.is_corrupted);
            assert_eq!(p.pos, None);
            assert_eq!(p.stream_index, -1);
        }
        other => panic!("not a packet: {:?}", other),
    }
}

#[test]
fn the_key_flag_is_the_lowest_bit() {
    assert_eq!(FRAME_IS_KEY, 1);
    for (flags, key) in [(0u32, false), (1, true), (2, false), (3, true), (0x11, true), (0x10, false), (u32::MAX, true), (u32::MAX - 1, false)] {
        match VPXPacket::new(CxPacket::Frame { buf: &[7], pts: -1, flags }) {
            VPXPacket::Packet(p) => {
                assert_eq!(p.is_key, key);
                assert_eq!(p.t.pts, Some(-1));
            }
            other => panic!("not a packet: {:?}", other),
        }
    }
}

#[test]
fn an_empty_frame_becomes_an_empty_packet() {
    match VPXPacket::new(CxPacket::Frame { buf: &[], pts: i64::MIN, flags: 1 }) {
        VPXPacket::Packet(p) => {
            assert!(p.data.is_empty());
            assert_eq!(p.t.pts, Some(i64::MIN));
            assert!(p.is_key);
        }
        other => panic!("not a packet: {:?}", other),
    }
}

#[test]
fn statistics_and_custom_data_keep_their_kind() {
    let data: Vec<u8> = (0..100u8).collect();
    assert!(matches!(VPXPacket::new(CxPacket::Stats(&data)), VPXPacket::Stats(v) if v == data));
    assert!(matches!(VPXPacket::new(CxPacket::MBStats(&data)), VPXPacket::MBStats(v) if v == data));
    assert!(matches!(VPXPacket::new(CxPacket::Custom(&data)), VPXPacket::Custom(v) if v == data));
    assert!(matches!(VPXPacket::new(CxPacket::Stats(&[])), VPXPacket::Stats(v) if v.is_empty()));
}

#[test]
fn a_measurement_is_carried_over() {
    let m = PSNR {
        samples: [30000, 20000, 5000, 5000],
        sse: [12, 8, 3, 1],
        psnr: [42.5f64.to_bits(), 40.0f64.to_bits(), 45.25f64.to_bits(), 50.0f64.to_bits()],
    };
    match VPXPacket::new(CxPacket::PSNR(m)) {
        VPXPacket::PSNR(n) => {
            assert_eq!(n, m);
            assert_eq!(f64::from_bits(n.psnr[0]), 42.5);
            assert_eq!(f64::from_bits(n.psnr[2]), 45.25);
        }
        other => panic!("not a measurement: {:?}", other),
    }
}

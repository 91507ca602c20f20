use flight_core::sbus::{
    try_parse, RawPacket, SbusError, SbusErrorType, BUFFER_SIZE, CHANNEL_MAX, CHANNEL_MIN,
    PACKET_SIZE,
};

/// Packs sixteen 11-bit channels and a flag byte into a packet, bit by bit.
fn pack(channels: &[u16; 16], flags: u8) -> [u8; PACKET_SIZE] {
    let mut packet = [0u8; PACKET_SIZE];
    packet[0] = 0x0F;
    for (k, &channel) in channels.iter().enumerate() {
        for j in 0..11 {
            if channel & (1 << j) != 0 {
                let n = 11 * k + j;
                packet[1 + n / 8] |= 1 << (n % 8);
            }
        }
    }
    packet[23] = flags;
    packet[24] = 0x00;
    packet
}

fn buffer_with_tail(packet: &[u8; PACKET_SIZE]) -> [u8; BUFFER_SIZE] {
    let mut buffer = [0xAAu8; BUFFER_SIZE];
    buffer[PACKET_SIZE..].copy_from_slice(packet);
    buffer
}

const CHANNELS: [u16; 16] = [
    172, 1811, 992, 0, 2047, 1, 1024, 1500, 300, 700, 1234, 1999, 42, 1600, 888, 1111,
];

#[test]
fn parses_all_sixteen_channels() {
    let buffer = buffer_with_tail(&pack(&CHANNELS, 0));
    let packet = try_parse(&buffer).unwrap();
    assert_eq!(packet.channels[0], 172);
    assert_eq!(packet.channels[1], 1811);
    assert_eq!(packet.channels[2], 992);
    assert_eq!(packet.channels[3], 0);
    assert_eq!(packet.channels[4], 2047);
    assert_eq!(packet.channels[5], 1);
    assert_eq!(packet.channels[6], 1024);
    assert_eq!(packet.channels[7], 1500);
    assert_eq!(packet.channels[8], 300);
    assert_eq!(packet.channels[9], 700);
    assert_eq!(packet.channels[10], 1234);
    assert_eq!(packet.channels[11], 1999);
    assert_eq!(packet.channels[12], 42);
    assert_eq!(packet.channels[13], 1600);
    assert_eq!(packet.channels[14], 888);
    assert_eq!(packet.channels[15], 1111);
    assert_eq!(packet.digital_channels, [false, false]);
    assert!(!packet.frame_lost);
    assert!(!packet.failsafe);
}

#[test]
fn parses_known_bytes() {
    // Channel 0 = 0x7FF fills byte 1 and the low three bits of byte 2;
    // channel 1 = 1 sets bit 3 of byte 2.
    let mut packet = [0u8; PACKET_SIZE];
    packet[0] = 0x0F;
    packet[1] = 0xFF;
    packet[2] = 0x0F;
    packet[23] = 0x00;
    packet[22] = 0x80;
    let buffer = buffer_with_tail(&packet);
    let parsed = try_parse(&buffer).unwrap();
    assert_eq!(parsed.channels[0], 0x7FF);
    assert_eq!(parsed.channels[1], 1);
    for k in 2..15 {
        assert_eq!(parsed.channels[k], 0);
    }
    // The last bit of the stream is bit 10 of channel 15.
    assert_eq!(parsed.channels[15], 0x400);
}

#[test]
fn parses_flags() {
    for flags in 0u8..16 {
        let buffer = buffer_with_tail(&pack(&CHANNELS, flags));
        let packet = try_parse(&buffer).unwrap();
        assert_eq!(packet.digital_channels[0], flags & 1 != 0);
        assert_eq!(packet.digital_channels[1], flags & 2 != 0);
        assert_eq!(packet.frame_lost, flags & 4 != 0);
        assert_eq!(packet.failsafe, flags & 8 != 0);
    }
}

#[test]
fn parses_packet_in_the_middle_of_the_buffer() {
    let mut buffer = [0xFFu8; BUFFER_SIZE];
    let packet = pack(&CHANNELS, 0b0101);
    buffer[10..10 + PACKET_SIZE].copy_from_slice(&packet);
    let parsed = try_parse(&buffer).unwrap();
    assert_eq!(parsed.channels, CHANNELS);
    assert!(parsed.digital_channels[0]);
    assert!(parsed.frame_lost);
}

#[test]
fn round_trips_raw_parsed_encoded() {
    for flags in [0u8, 1, 6, 15].iter() {
        let packet = pack(&CHANNELS, *flags);
        let buffer = buffer_with_tail(&packet);
        let parsed = try_parse(&buffer).unwrap();
        assert_eq!(parsed.encode(), packet);
    }
}

#[test]
fn encodes_then_parses() {
    let raw = RawPacket {
        channels: CHANNELS,
        digital_channels: [true, false],
        failsafe: true,
        frame_lost: false,
    };
    let bytes = raw.encode();
    assert_eq!(bytes, pack(&CHANNELS, 0b1001));
    let parsed = try_parse(&buffer_with_tail(&bytes)).unwrap();
    assert_eq!(parsed, raw);
}

#[test]
fn no_footer_is_header_not_found() {
    let buffer = [0x0Fu8; BUFFER_SIZE];
    let error = try_parse(&buffer).unwrap_err();
    assert_eq!(error.error_type, SbusErrorType::HeaderNotFound);
    assert_eq!(error, SbusError::new(SbusErrorType::HeaderNotFound));
}

#[test]
fn footer_too_early_is_invalid() {
    let mut buffer = [0x0Fu8; BUFFER_SIZE];
    buffer[10] = 0x00;
    let error = try_parse(&buffer).unwrap_err();
    assert_eq!(error.error_type, SbusErrorType::InvalidPacket);
}

#[test]
fn wrong_header_is_invalid() {
    let mut packet = pack(&CHANNELS, 0);
    packet[0] = 0x0E;
    let error = try_parse(&buffer_with_tail(&packet)).unwrap_err();
    assert_eq!(error.error_type, SbusErrorType::InvalidPacket);
}

#[test]
fn flag_byte_with_upper_bits_is_invalid() {
    let packet = pack(&CHANNELS, 0x10);
    let error = try_parse(&buffer_with_tail(&packet)).unwrap_err();
    assert_eq!(error.error_type, SbusErrorType::InvalidPacket);
}

#[test]
fn channel_offset_clamps() {
    assert_eq!(RawPacket::channel_offset(0), 0);
    assert_eq!(RawPacket::channel_offset(CHANNEL_MIN), 0);
    assert_eq!(RawPacket::channel_offset(992), 820);
    assert_eq!(RawPacket::channel_offset(CHANNEL_MAX), 1639);
    assert_eq!(RawPacket::channel_offset(2047), 1639);
}

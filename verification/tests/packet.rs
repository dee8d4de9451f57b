use statime_embassy_net::packet::{
    ptp_message_type, rx_event_type, PacketIdGenerator, PacketMeta,
};

#[test]
fn message_type_is_the_low_nibble() {
    let mut packet = [0u8; 34];
    for first in 0..=255u8 {
        packet[0] = first;
        assert_eq!(ptp_message_type(&packet), Some(first & 0x0f));
    }
}

#[test]
fn short_packets_have_no_message_type() {
    assert_eq!(ptp_message_type(&[0u8; 33]), None);
    assert_eq!(ptp_message_type(&[]), None);
    assert_eq!(ptp_message_type(&[0x1bu8; 100]), Some(0xb));
}

#[test]
fn delay_measurements_want_no_receive_timestamp() {
    let mut packet = [0u8; 44];
    for kind in 0..16u8 {
        packet[0] = 0x10 | kind;
        let wanted = kind != 1 && kind != 2 && kind != 3;
        assert_eq!(rx_event_type(&packet), if wanted { Some(kind) } else { None });
    }
    assert_eq!(rx_event_type(&packet[..33]), None);
}

#[test]
fn identifiers_count_from_one() {
    let mut generator = PacketIdGenerator::new();
    for id in 1..=1000u32 {
        assert_eq!(generator.next(), PacketMeta { id });
    }
}

#[test]
fn default_metadata_has_no_identifier() {
    assert_eq!(PacketMeta::default().id, 0);
}

use enet::packet::{RELIABLE_FLAG, UNSEQUENCED_FLAG};
use enet::{Packet, PacketMode};

const MODES: [PacketMode; 3] = [
    PacketMode::UnreliableSequenced,
    PacketMode::UnreliableUnsequenced,
    PacketMode::ReliableSequenced,
];

#[test]
fn mode_reliability_table() {
    assert!(!PacketMode::UnreliableSequenced.is_reliable());
    assert!(PacketMode::UnreliableSequenced.is_sequenced());
    assert!(!PacketMode::UnreliableUnsequenced.is_reliable());
    assert!(!PacketMode::UnreliableUnsequenced.is_sequenced());
    assert!(PacketMode::ReliableSequenced.is_reliable());
    assert!(PacketMode::ReliableSequenced.is_sequenced());
}

#[test]
fn mode_flag_values() {
    assert_eq!(PacketMode::UnreliableSequenced.to_sys_flags(), 0);
    assert_eq!(PacketMode::UnreliableUnsequenced.to_sys_flags(), 2);
    assert_eq!(PacketMode::ReliableSequenced.to_sys_flags(), 1);
    assert_eq!(RELIABLE_FLAG, 1);
    assert_eq!(UNSEQUENCED_FLAG, 2);
}

#[test]
fn mode_flags_round_trip() {
    for m in MODES.iter() {
        assert_eq!(PacketMode::from_sys_flags(m.to_sys_flags()), *m);
    }
    for f in [0u32, 1, 2].iter() {
        assert_eq!(PacketMode::from_sys_flags(*f).to_sys_flags(), *f);
    }
}

#[test]
fn mode_from_known_names() {
    assert_eq!(PacketMode::from_string("unreliable"), Some(PacketMode::UnreliableSequenced));
    assert_eq!(PacketMode::from_string("unsequenced"), Some(PacketMode::UnreliableUnsequenced));
    assert_eq!(PacketMode::from_string("reliable"), Some(PacketMode::ReliableSequenced));
}

#[test]
fn mode_from_other_names() {
    assert_eq!(PacketMode::from_string(""), None);
    assert_eq!(PacketMode::from_string("Reliable"), None);
    assert_eq!(PacketMode::from_string("RELIABLE"), None);
    assert_eq!(PacketMode::from_string("reliable "), None);
    assert_eq!(PacketMode::from_string("unreliablex"), None);
    assert_eq!(PacketMode::from_string("sequenced"), None);
}

#[test]
fn packet_keeps_bytes_and_mode() {
    let p = Packet::new(&[1, 2, 3, 255], PacketMode::ReliableSequenced).unwrap();
    assert_eq!(p.data(), &[1u8, 2, 3, 255][..]);
    assert_eq!(p.packet_mode(), PacketMode::ReliableSequenced);
}

#[test]
fn empty_packet() {
    let p = Packet::new(&[], PacketMode::UnreliableSequenced).unwrap();
    assert!(p.data().is_empty());
    assert_eq!(p.packet_mode(), PacketMode::UnreliableSequenced);
}

#[test]
fn packet_copy_matches_its_source() {
    for m in MODES.iter() {
        let p = Packet::new(b"hello", *m).unwrap();
        let q = Packet::copy(&p).unwrap();
        assert_eq!(q.data(), p.data());
        assert_eq!(q.packet_mode(), p.packet_mode());
    }
}

#[test]
fn packet_copy_is_independent() {
    let p = Packet::new(b"abc", PacketMode::UnreliableUnsequenced).unwrap();
    let q = Packet::copy(&p).unwrap();
    assert_ne!(q.data().as_ptr(), p.data().as_ptr());
    drop(q);
    assert_eq!(p.data(), b"abc");
    assert_eq!(p.packet_mode(), PacketMode::UnreliableUnsequenced);
}

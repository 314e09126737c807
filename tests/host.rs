use enet::host::{checked_peer_index, MAXIMUM_CHANNEL_COUNT};
use enet::{BandwidthLimit, ChannelLimit, EnetKeepAlive, Error, PollOutcome};

#[test]
fn channel_limit_engine_values() {
    assert_eq!(ChannelLimit::Maximum.to_enet_usize(), 0);
    assert_eq!(ChannelLimit::Limited(8).to_enet_usize(), 8);
    assert_eq!(ChannelLimit::from_enet_usize(MAXIMUM_CHANNEL_COUNT), ChannelLimit::Maximum);
    assert_eq!(ChannelLimit::from_enet_usize(255), ChannelLimit::Maximum);
    assert_eq!(ChannelLimit::from_enet_usize(1), ChannelLimit::Limited(1));
}

#[test]
fn limited_channels_read_back() {
    for n in [1usize, 2, 100, 254].iter() {
        let v = ChannelLimit::Limited(*n).to_enet_usize();
        assert_eq!(ChannelLimit::from_enet_usize(v), ChannelLimit::Limited(*n));
    }
}

#[test]
fn bandwidth_engine_values() {
    assert_eq!(BandwidthLimit::Unlimited.to_enet_u32(), 0);
    assert_eq!(BandwidthLimit::Limited(5000).to_enet_u32(), 5000);
    assert_eq!(BandwidthLimit::from_enet_u32(0), BandwidthLimit::Unlimited);
    assert_eq!(BandwidthLimit::from_enet_u32(1), BandwidthLimit::Limited(1));
    assert_eq!(BandwidthLimit::from_enet_u32(u32::MAX), BandwidthLimit::Limited(u32::MAX));
}

#[test]
fn poll_without_activity() {
    assert_eq!(PollOutcome::from_engine_result(0), Ok(PollOutcome::NoEvent));
}

#[test]
fn poll_with_event() {
    assert_eq!(PollOutcome::from_engine_result(1), Ok(PollOutcome::EventReady));
    assert_eq!(PollOutcome::from_engine_result(i32::MAX), Ok(PollOutcome::EventReady));
}

#[test]
fn poll_failure_keeps_code() {
    assert_eq!(PollOutcome::from_engine_result(-1), Err(Error::Service(-1)));
    assert_eq!(PollOutcome::from_engine_result(i32::MIN), Err(Error::Service(i32::MIN)));
}

#[test]
fn peer_index_bounds() {
    assert_eq!(checked_peer_index(0, 4), Ok(0));
    assert_eq!(checked_peer_index(3, 4), Ok(3));
    assert_eq!(
        checked_peer_index(4, 4),
        Err(Error::PeerIndexOutOfRange { index: 4, peer_count: 4 })
    );
    assert_eq!(
        checked_peer_index(0, 0),
        Err(Error::PeerIndexOutOfRange { index: 0, peer_count: 0 })
    );
}

#[test]
fn keep_alive_brackets_hosts() {
    let mut k = EnetKeepAlive::new();
    assert_eq!(k.live_hosts(), 0);
    assert!(k.acquire());
    assert!(!k.acquire());
    assert_eq!(k.live_hosts(), 2);
    assert!(!k.release());
    assert_eq!(k.live_hosts(), 1);
    assert!(k.release());
    assert_eq!(k.live_hosts(), 0);
    assert!(k.acquire());
    assert_eq!(k.live_hosts(), 1);
}

use statime_embassy_net::endpoint::{
    multicast_endpoint, EVENT_PORT, GENERAL_PORT, LINK_LOCAL_MULTICAST, PRIMARY_MULTICAST,
};

#[test]
fn event_and_general_ports() {
    assert_eq!(EVENT_PORT, 319);
    assert_eq!(GENERAL_PORT, 320);
}

#[test]
fn packets_go_to_their_group() {
    let primary = multicast_endpoint(EVENT_PORT, false);
    assert_eq!(primary.addr, [224, 0, 1, 129]);
    assert_eq!(primary.addr, PRIMARY_MULTICAST);
    assert_eq!(primary.port, 319);
    let local = multicast_endpoint(GENERAL_PORT, true);
    assert_eq!(local.addr, [224, 0, 0, 107]);
    assert_eq!(local.addr, LINK_LOCAL_MULTICAST);
    assert_eq!(local.port, 320);
}

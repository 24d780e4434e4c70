use localsend::discovery::{
    find_peer, legacy_register_urls, multicast_ip, plain_register_url_for, process_device,
    register_device, register_url_for, DiscoveryReply, Peers,
};
use localsend::error::LocalSendError;
use localsend::models::{Device, DeviceType};
use localsend::net::{Ipv4Addr, SocketAddrV4};
use localsend::textmap::TextMap;

fn device(alias: &str, fingerprint: &str, port: u16, announce: Option<bool>) -> Device {
    Device {
        alias: alias.to_string(),
        version: "2.1".to_string(),
        device_model: Some("model".to_string()),
        device_type: Some(DeviceType::Mobile),
        fingerprint: fingerprint.to_string(),
        port,
        protocol: "https".to_string(),
        download: false,
        announce,
    }
}

fn addr(a: u8, b: u8, c: u8, d: u8, port: u16) -> SocketAddrV4 {
    SocketAddrV4::new(Ipv4Addr::new(a, b, c, d), port)
}

#[test]
fn own_announcement_is_ignored() {
    let own = device("me", "ME", 53317, Some(true));
    let mut peers: Peers = TextMap::new();
    let reply = process_device(&own, own.clone(), addr(10, 0, 0, 1, 5000), &mut peers);
    assert!(matches!(reply, DiscoveryReply::Quiet));
    assert_eq!(peers.len(), 0);
}

#[test]
fn announcing_peer_is_recorded_with_its_port_and_answered() {
    let own = device("me", "ME", 53317, Some(true));
    let mut peers: Peers = TextMap::new();
    let peer = device("phone", "PH", 53318, Some(true));
    let reply = process_device(&own, peer, addr(10, 0, 0, 7, 40001), &mut peers);
    let (at, d) = find_peer(&peers, "PH").ok().unwrap();
    assert_eq!(*at, addr(10, 0, 0, 7, 53318));
    assert_eq!(d.alias, "phone");
    match reply {
        DiscoveryReply::Announce { device, http_target } => {
            assert_eq!(device.fingerprint, "ME");
            assert_eq!(device.alias, "me");
            assert_eq!(http_target, addr(10, 0, 0, 7, 53318));
        },
        DiscoveryReply::Quiet => panic!("expected an announcement in return"),
    }
}

#[test]
fn quiet_peer_is_recorded_without_answer() {
    let own = device("me", "ME", 53317, Some(true));
    let mut peers: Peers = TextMap::new();
    let reply = process_device(&own, device("tv", "TV", 1234, None), addr(10, 0, 0, 9, 1), &mut peers);
    assert!(matches!(reply, DiscoveryReply::Quiet));
    assert!(find_peer(&peers, "TV").is_ok());
    let reply = process_device(&own, device("tv2", "TV2", 1234, Some(false)), addr(10, 0, 0, 9, 1), &mut peers);
    assert!(matches!(reply, DiscoveryReply::Quiet));
    assert_eq!(peers.len(), 2);
}

#[test]
fn same_fingerprint_replaces_the_entry() {
    let own = device("me", "ME", 53317, Some(true));
    let mut peers: Peers = TextMap::new();
    process_device(&own, device("old", "X", 1, None), addr(1, 1, 1, 1, 1), &mut peers);
    process_device(&own, device("new", "X", 2, None), addr(2, 2, 2, 2, 2), &mut peers);
    assert_eq!(peers.len(), 1);
    let (at, d) = find_peer(&peers, "X").ok().unwrap();
    assert_eq!(d.alias, "new");
    assert_eq!(*at, addr(2, 2, 2, 2, 2));
}

#[test]
fn device_differing_in_one_field_is_not_own() {
    let own = device("me", "ME", 53317, Some(true));
    let mut other = own.clone();
    other.device_model = None;
    assert!(!other.same_device(&own));
    assert!(own.clone().same_device(&own));
}

#[test]
fn registration_records_peer_at_own_port() {
    let own = device("me", "ME", 53317, Some(true));
    let mut peers: Peers = TextMap::new();
    let r = register_device(&own, device("pc", "PC", 9999, None), addr(172, 16, 0, 4, 45678), &mut peers);
    assert_eq!(r.ok().unwrap().fingerprint, "ME");
    let (at, _) = find_peer(&peers, "PC").ok().unwrap();
    assert_eq!(*at, addr(172, 16, 0, 4, 53317));
}

#[test]
fn own_registration_is_answered_208() {
    let own = device("me", "ME", 53317, Some(true));
    let mut peers: Peers = TextMap::new();
    let r = register_device(&own, own.clone(), addr(172, 16, 0, 4, 45678), &mut peers);
    assert_eq!(r.err(), Some(208));
    assert_eq!(peers.len(), 0);
}

#[test]
fn missing_peer_is_peer_not_found() {
    let peers: Peers = TextMap::new();
    assert_eq!(find_peer(&peers, "nobody").err(), Some(LocalSendError::PeerNotFound));
}

#[test]
fn clearing_peers_forgets_them() {
    let own = device("me", "ME", 53317, Some(true));
    let mut peers: Peers = TextMap::new();
    process_device(&own, device("a", "A", 1, None), addr(1, 1, 1, 1, 1), &mut peers);
    peers.clear();
    assert_eq!(peers.len(), 0);
    assert!(find_peer(&peers, "A").is_err());
}

#[test]
fn register_urls() {
    assert_eq!(
        register_url_for(&addr(192, 168, 0, 10, 53317)),
        "https://192.168.0.10:53317/api/localsend/v2/register"
    );
    assert_eq!(
        plain_register_url_for(&addr(0, 0, 0, 0, 0)),
        "http://0.0.0.0:0/api/localsend/v2/register"
    );
}

#[test]
fn legacy_scan_covers_the_whole_private_block() {
    let urls = legacy_register_urls();
    assert_eq!(urls.len(), 65536);
    assert_eq!(urls[0], "http://192.168.0.0/api/localsend/v2/register");
    assert_eq!(urls[1], "http://192.168.0.1/api/localsend/v2/register");
    assert_eq!(urls[7 * 256 + 42], "http://192.168.7.42/api/localsend/v2/register");
    assert_eq!(urls[65 * 256 + 200], "http://192.168.65.200/api/localsend/v2/register");
    assert_eq!(urls[65535], "http://192.168.255.255/api/localsend/v2/register");
}

#[test]
fn multicast_group() {
    let ip = multicast_ip();
    assert_eq!(ip, Ipv4Addr::new(224, 0, 0, 167));
    assert_eq!(ip.to_text(), "224.0.0.167");
}

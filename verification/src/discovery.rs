//! Discovery: which devices a device knows of, and how it answers their
//! announcements.
use vstd::prelude::*;
use crate::error::LocalSendError;
use crate::models::{same_device, Device};
use crate::net::{ipv4_text, socket_text, Ipv4Addr, SocketAddrV4};
use crate::text::{decimal, push_decimal};
use crate::textmap::TextMap;

verus! {

/// The devices a device knows of, by fingerprint, with where they listen.
pub type Peers = TextMap<(SocketAddrV4, Device)>;

/// What a device does after hearing an announcement: nothing more, or
/// announce itself (`device`) in return, by multicast and to `http_target`.
#[derive(Debug)]
pub enum DiscoveryReply {
    Quiet,
    Announce { device: Device, http_target: SocketAddrV4 },
}

/// `src` with the port the device listens on.
pub open spec fn with_port(src: SocketAddrV4, port: u16) -> SocketAddrV4 {
    SocketAddrV4 { port, ..src }
}

/// How a device (`own`) takes the announcement of `device`, heard from
/// `src`: its own announcement changes nothing. Another device is recorded
/// under its fingerprint, at `src` with the port it announced; where it asks
/// for announcements, `own` announces itself in return, by multicast and to
/// that address.
pub fn process_device(own: &Device, device: Device, src: SocketAddrV4, peers: &mut Peers) -> (reply:
    DiscoveryReply)
    ensures
        same_device(device, *own) ==> reply is Quiet && final(peers)@ == old(peers)@,
        !same_device(device, *own) ==> {
            &&& final(peers)@ == old(peers)@.insert(
                device.fingerprint@,
                (with_port(src, device.port), device),
            )
            &&& device.announce == Some(true) ==> reply == DiscoveryReply::Announce {
                device: *own,
                http_target: with_port(src, device.port),
            }
            &&& device.announce != Some(true) ==> reply is Quiet
        },
        device.fingerprint@ != own.fingerprint@ ==> final(peers)@ == old(peers)@.insert(
            device.fingerprint@,
            (with_port(src, device.port), device),
        ),
        device.fingerprint@ != own.fingerprint@ && device.announce == Some(true) ==> reply == (
        DiscoveryReply::Announce { device: *own, http_target: with_port(src, device.port) }),
{
    if device.same_device(own) {
        return DiscoveryReply::Quiet;
    }
    let mut addr = src;
    addr.set_port(device.port);
    let key = device.fingerprint.clone();
    let stored = device.clone();
    peers.insert(key, (addr, stored));
    if !device.wants_announce() {
        return DiscoveryReply::Quiet;
    }
    DiscoveryReply::Announce { device: own.clone(), http_target: addr }
}

/// How a device (`own`) answers a registration of `device` posted from
/// `addr`: its own registration is answered with 208 and changes nothing.
/// Another device is recorded under its fingerprint at `addr` with the port
/// of `own`, and the answer is `own`, as the protocol's register response
/// is the receiver's own description.
pub fn register_device(own: &Device, device: Device, addr: SocketAddrV4, peers: &mut Peers) -> (r:
    Result<Device, u16>)
    ensures
        same_device(device, *own) ==> r == Err::<Device, u16>(208) && final(peers)@ == old(peers)@,
        !same_device(device, *own) ==> r == Ok::<Device, u16>(*own) && final(peers)@ == old(
            peers,
        )@.insert(device.fingerprint@, (with_port(addr, own.port), device)),
        device.fingerprint@ != own.fingerprint@ ==> r == Ok::<Device, u16>(*own) && final(peers)@
            == old(peers)@.insert(device.fingerprint@, (with_port(addr, own.port), device)),
{
    if device.same_device(own) {
        return Err(208);
    }
    let mut addr = addr;
    addr.set_port(own.port);
    peers.insert(device.fingerprint.clone(), (addr, device));
    Ok(own.clone())
}

/// A device recorded from its announcement is found afterwards under its
/// fingerprint, at the address it announced from with the port it announced,
/// and the other peers stay as they were.
pub proof fn law_announced_peer_is_found(
    peers: Map<Seq<char>, (SocketAddrV4, Device)>,
    device: Device,
    src: SocketAddrV4,
    other: Seq<char>,
)
    ensures
        ({
            let after = peers.insert(device.fingerprint@, (with_port(src, device.port), device));
            &&& after.dom().contains(device.fingerprint@)
            &&& after[device.fingerprint@] == (with_port(src, device.port), device)
            &&& after[device.fingerprint@].0.ip == src.ip
            &&& other != device.fingerprint@ ==> (after.dom().contains(other) == peers.dom().contains(
                other,
            ) && (peers.dom().contains(other) ==> after[other] == peers[other]))
        }),
{
}

/// The peer with fingerprint `peer`, or `PeerNotFound`.
pub fn find_peer<'a>(peers: &'a Peers, peer: &str) -> (r: Result<
    &'a (SocketAddrV4, Device),
    LocalSendError,
>)
    ensures
        match r {
            Ok(p) => peers@.dom().contains(peer@) && *p == peers@[peer@],
            Err(e) => !peers@.dom().contains(peer@) && e == LocalSendError::PeerNotFound,
        },
{
    match peers.get(peer) {
        Some(p) => Ok(p),
        None => Err(LocalSendError::PeerNotFound),
    }
}

/// The URL a registration with the device at `addr` is posted to, over HTTPS.
pub open spec fn register_url(addr: SocketAddrV4) -> Seq<char> {
    "https://"@ + socket_text(addr) + "/api/localsend/v2/register"@
}

/// The URL a registration with the device at `addr` is posted to.
pub fn register_url_for(addr: &SocketAddrV4) -> (u: String)
    ensures
        u@ == register_url(*addr),
{
    let mut u = String::from_str("https://");
    addr.push_text(&mut u);
    u.append("/api/localsend/v2/register");
    u
}

/// The URL a registration with the device at `addr` is posted to, over plain
/// HTTP, as the plain-HTTP client posts it.
pub open spec fn plain_register_url(addr: SocketAddrV4) -> Seq<char> {
    "http://"@ + socket_text(addr) + "/api/localsend/v2/register"@
}

/// The URL of a plain HTTP registration with the device at `addr`.
pub fn plain_register_url_for(addr: &SocketAddrV4) -> (u: String)
    ensures
        u@ == plain_register_url(*addr),
{
    let mut u = String::from_str("http://");
    addr.push_text(&mut u);
    u.append("/api/localsend/v2/register");
    u
}

/// The host `192.168.j.k`.
pub open spec fn legacy_host(j: nat, k: nat) -> Seq<char> {
    "192.168."@ + decimal(j) + "."@ + decimal(k)
}

/// The registration URL of host `legacy_host(j, k)`.
pub open spec fn legacy_register_url(j: nat, k: nat) -> Seq<char> {
    "http://"@ + legacy_host(j, k) + "/api/localsend/v2/register"@
}

/// The registration URLs of every host `192.168.j.k`, `j` and `k` from 0 to
/// 255, `j` running slowest: the hosts the plain-HTTP client announces
/// itself to when it cannot use multicast.
pub fn legacy_register_urls() -> (urls: Vec<String>)
    ensures
        urls@.len() == 65536,
        forall|j: int, k: int|
            0 <= j < 256 && 0 <= k < 256 ==> #[trigger] urls@[j * 256 + k]@ == legacy_register_url(
                j as nat,
                k as nat,
            ),
{
    let mut urls: Vec<String> = Vec::new();
    let mut j: u64 = 0;
    while j < 256
        invariant
            j <= 256,
            urls@.len() == j * 256,
            forall|a: int, b: int|
                0 <= a < j && 0 <= b < 256 ==> #[trigger] urls@[a * 256 + b]@ == legacy_register_url(
                    a as nat,
                    b as nat,
                ),
        decreases 256 - j,
    {
        let mut k: u64 = 0;
        while k < 256
            invariant
                j < 256,
                k <= 256,
                urls@.len() == j * 256 + k,
                forall|a: int, b: int|
                    0 <= a < j && 0 <= b < 256 ==> #[trigger] urls@[a * 256 + b]@
                        == legacy_register_url(a as nat, b as nat),
                forall|b: int|
                    0 <= b < k ==> #[trigger] urls@[j * 256 + b]@ == legacy_register_url(
                        j as nat,
                        b as nat,
                    ),
            decreases 256 - k,
        {
            let mut u = String::from_str("http://192.168.");
            push_decimal(&mut u, j);
            u.append(".");
            push_decimal(&mut u, k);
            u.append("/api/localsend/v2/register");
            proof {
                reveal_strlit("http://192.168.");
                reveal_strlit("http://");
                reveal_strlit("192.168.");
                assert("http://192.168."@ =~= "http://"@ + "192.168."@);
                assert(u@ =~= legacy_register_url(j as nat, k as nat));
            }
            let ghost before = urls@;
            urls.push(u);
            proof {
                assert forall|a: int, b: int|
                    0 <= a < j && 0 <= b < 256 implies #[trigger] urls@[a * 256 + b]@
                        == legacy_register_url(a as nat, b as nat) by {
                    assert(a * 256 + b < j * 256) by (nonlinear_arith)
                        requires
                            0 <= a < j,
                            0 <= b < 256,
                    ;
                    assert(urls@[a * 256 + b] == before[a * 256 + b]);
                }
            }
            k = k + 1;
        }
        proof {
            assert forall|a: int, b: int|
                0 <= a < j + 1 && 0 <= b < 256 implies #[trigger] urls@[a * 256 + b]@
                    == legacy_register_url(a as nat, b as nat) by {
                if a == j {
                    assert(urls@[j * 256 + b]@ == legacy_register_url(j as nat, b as nat));
                }
            }
        }
        j = j + 1;
    }
    urls
}

/// The multicast group of the protocol, `224.0.0.167`.
pub fn multicast_ip() -> (ip: Ipv4Addr)
    ensures
        ip == (Ipv4Addr { a: 224, b: 0, c: 0, d: 167 }),
        ipv4_text(ip) == "224.0.0.167"@,
{
    proof {
        reveal_strlit("224.0.0.167");
        reveal_with_fuel(decimal, 3);
        assert(decimal(224) =~= seq!['2', '2', '4']);
        assert(decimal(0) =~= seq!['0']);
        assert(decimal(167) =~= seq!['1', '6', '7']);
        assert(ipv4_text(Ipv4Addr { a: 224, b: 0, c: 0, d: 167 }) =~= "224.0.0.167"@);
    }
    Ipv4Addr { a: 224, b: 0, c: 0, d: 167 }
}

} // verus!

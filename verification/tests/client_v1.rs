use localsend::client_v1::{
    accept_prepare_upload_v1, cancel_session_v1, prepare_upload_v1, process_device_v1,
    register_device_v1, PeersV1,
};
use localsend::models::{Device, DeviceInfo, FileMetadata};
use localsend::net::{Ipv4Addr, SocketAddrV4};
use localsend::textmap::TextMap;
use localsend::transfer::{
    check_receive_upload, PrepareUploadRequest, SessionStatus, Sessions, UploadParams,
    UploadRejection,
};

fn info(alias: &str, fingerprint: &str, announce: Option<bool>) -> DeviceInfo {
    let mut d = DeviceInfo::default();
    d.alias = alias.to_string();
    d.fingerprint = fingerprint.to_string();
    d.announce = announce;
    d
}

#[test]
fn v1_own_fingerprint_is_ignored() {
    let own = info("me", "F", Some(true));
    let mut peers: PeersV1 = TextMap::new();
    assert!(!process_device_v1(&own, info("other alias", "F", Some(true)), &mut peers));
    assert_eq!(peers.len(), 0);
}

#[test]
fn v1_peer_is_recorded_and_answered_when_it_asks() {
    let own = info("me", "F", Some(true));
    let mut peers: PeersV1 = TextMap::new();
    assert!(process_device_v1(&own, info("a", "A", Some(true)), &mut peers));
    assert!(!process_device_v1(&own, info("b", "B", None), &mut peers));
    assert_eq!(peers.len(), 2);
    assert_eq!(peers.get("A").unwrap().alias, "a");
}

#[test]
fn v1_registration_records_anyone() {
    let mut peers: PeersV1 = TextMap::new();
    register_device_v1(info("a", "A", None), &mut peers);
    register_device_v1(info("a2", "A", None), &mut peers);
    assert_eq!(peers.len(), 1);
    assert_eq!(peers.get("A").unwrap().alias, "a2");
}

#[test]
fn v1_statuses() {
    assert_eq!(UploadRejection::UnknownFile.status_code_v1(), 500);
    assert_eq!(UploadRejection::BadToken.status_code_v1(), 403);
    assert_eq!(UploadRejection::UnknownSession.status_code_v1(), 400);
    assert_eq!(UploadRejection::InactiveSession.status_code_v1(), 400);
}

#[test]
fn v1_cancel() {
    let mut sessions: Sessions = TextMap::new();
    assert_eq!(cancel_session_v1(&mut sessions, "nope"), 400);
    let mut files = TextMap::new();
    files.insert(
        "f".to_string(),
        localsend::models::FileMetadata {
            id: "f".to_string(),
            file_name: "f.txt".to_string(),
            size: 1,
            file_type: "text/plain".to_string(),
            sha256: None,
            preview: None,
            metadata: None,
        },
    );
    let session = localsend::transfer::Session {
        session_id: "any id".to_string(),
        files,
        file_tokens: TextMap::new(),
        receiver: localsend::models::Device::default(),
        sender: localsend::models::Device::default(),
        status: SessionStatus::Active,
        addr: localsend::net::SocketAddrV4::new(localsend::net::Ipv4Addr::new(1, 2, 3, 4), 5),
    };
    sessions.insert("any id".to_string(), session);
    assert_eq!(cancel_session_v1(&mut sessions, "any id"), 200);
    assert!(sessions.get("any id").unwrap().status == SessionStatus::Cancelled);
}

fn v1_offer() -> PrepareUploadRequest {
    let mut files = TextMap::new();
    for (id, name) in [("f2", "two.txt"), ("f1", "one.txt")] {
        files.insert(
            id.to_string(),
            FileMetadata {
                id: id.to_string(),
                size: 3,
                file_name: name.to_string(),
                file_type: "text/plain".to_string(),
                sha256: None,
                preview: None,
                metadata: None,
            },
        );
    }
    let mut sender = Device::default();
    sender.alias = "sender".to_string();
    PrepareUploadRequest { info: sender, files }
}

fn v1_addr() -> SocketAddrV4 {
    SocketAddrV4::new(Ipv4Addr::new(10, 0, 0, 9), 53317)
}

#[test]
fn v1_approved_offer_hands_out_the_drawn_tokens() {
    let mut sessions: Sessions = TextMap::new();
    let draws = vec!["tok-one".to_string(), "tok-two".to_string()];
    let resp = accept_prepare_upload_v1(
        &mut sessions,
        v1_offer(),
        true,
        &Device::default(),
        v1_addr(),
        "S1".to_string(),
        &draws,
    )
    .ok()
    .unwrap();
    assert_eq!(resp.session_id, "S1");
    assert_eq!(resp.files.get("f1").unwrap(), "tok-one");
    assert_eq!(resp.files.get("f2").unwrap(), "tok-two");
    let s = sessions.get("S1").unwrap();
    assert_eq!(s.status, SessionStatus::Active);
    assert_eq!(s.sender.alias, "sender");
    let up = UploadParams {
        session_id: "S1".to_string(),
        file_id: "f2".to_string(),
        token: "tok-two".to_string(),
    };
    assert_eq!(check_receive_upload(&sessions, &up).ok().unwrap().file_name, "two.txt");
}

#[test]
fn v1_refused_offer_is_answered_with_403() {
    let mut sessions: Sessions = TextMap::new();
    let draws = vec!["a".to_string(), "b".to_string()];
    let r = accept_prepare_upload_v1(
        &mut sessions,
        v1_offer(),
        false,
        &Device::default(),
        v1_addr(),
        "S1".to_string(),
        &draws,
    );
    assert_eq!(r.err(), Some(403));
    assert_eq!(sessions.len(), 0);
    let r = prepare_upload_v1(&mut sessions, v1_offer(), false, &Device::default(), v1_addr());
    assert_eq!(r.err(), Some(403));
    assert_eq!(sessions.len(), 0);
}

#[test]
fn v1_session_and_tokens_are_uuids() {
    let mut sessions: Sessions = TextMap::new();
    let resp = prepare_upload_v1(&mut sessions, v1_offer(), true, &Device::default(), v1_addr())
        .ok()
        .unwrap();
    assert_eq!(resp.session_id.len(), 36);
    assert_eq!(resp.session_id.matches('-').count(), 4);
    assert_eq!(resp.files.len(), 2);
    let t1 = resp.files.get("f1").unwrap();
    let t2 = resp.files.get("f2").unwrap();
    assert_eq!(t1.len(), 36);
    assert_ne!(t1, t2);
    assert!(sessions.contains_key(&resp.session_id));
}

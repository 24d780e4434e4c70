use localsend::error::LocalSendError;
use localsend::models::{Device, DeviceType, FileMetadata};
use localsend::net::{Ipv4Addr, SocketAddrV4};
use localsend::textmap::TextMap;
use localsend::transfer::{
    accept_prepare_upload, after_prepare, assign_tokens, after_upload, cancel_outcome, cancel_session,
    check_receive_upload, check_send, issue_file_tokens, new_session_id, prepare_upload_url,
    record_prepared_session, session_to_cancel, upload_outcome, PrepareUploadRequest,
    PrepareUploadResponse, SendNotice, Session, SessionStatus, Sessions, UploadParams,
    UploadRejection,
};
use localsend::ReceiveDialog;

fn device(alias: &str, fingerprint: &str, port: u16, protocol: &str) -> Device {
    Device {
        alias: alias.to_string(),
        version: "2.1".to_string(),
        device_model: None,
        device_type: Some(DeviceType::Desktop),
        fingerprint: fingerprint.to_string(),
        port,
        protocol: protocol.to_string(),
        download: false,
        announce: Some(true),
    }
}

fn file(id: &str, name: &str, size: u64) -> FileMetadata {
    FileMetadata {
        id: id.to_string(),
        file_name: name.to_string(),
        size,
        file_type: "text/plain".to_string(),
        sha256: None,
        preview: None,
        metadata: None,
    }
}

fn offer(ids: &[(&str, &str)]) -> TextMap<FileMetadata> {
    let mut files = TextMap::new();
    for (id, name) in ids {
        files.insert(id.to_string(), file(id, name, 3));
    }
    files
}

fn addr(a: u8, b: u8, c: u8, d: u8, port: u16) -> SocketAddrV4 {
    SocketAddrV4::new(Ipv4Addr::new(a, b, c, d), port)
}

fn open_session(sessions: &mut Sessions, sid: &str) -> PrepareUploadResponse {
    let req = PrepareUploadRequest {
        info: device("sender", "S", 53317, "https"),
        files: offer(&[("f1", "one.txt"), ("f2", "two.txt")]),
    };
    let receiver = device("receiver", "R", 53317, "https");
    accept_prepare_upload(
        sessions,
        req,
        Some(ReceiveDialog::Approve),
        &receiver,
        addr(10, 0, 0, 2, 40000),
        sid.to_string(),
    )
    .ok()
    .unwrap()
}

fn params(sid: &str, fid: &str, token: &str) -> UploadParams {
    UploadParams { session_id: sid.to_string(), file_id: fid.to_string(), token: token.to_string() }
}

#[test]
fn approved_offer_opens_an_active_session_with_a_token_per_file() {
    let mut sessions = TextMap::new();
    let sid = new_session_id();
    let resp = open_session(&mut sessions, &sid);
    assert_eq!(resp.session_id, sid);
    assert_eq!(resp.files.len(), 2);
    assert!(resp.files.contains_key("f1"));
    assert!(resp.files.contains_key("f2"));
    assert_eq!(resp.files.get("f1").unwrap().len(), 26);
    let session = sessions.get(&sid).unwrap();
    assert!(session.status == SessionStatus::Active);
    assert_eq!(session.sender.alias, "sender");
    assert_eq!(session.receiver.alias, "receiver");
    assert_eq!(session.addr, addr(10, 0, 0, 2, 40000));
    assert_eq!(session.file_tokens.get("f2"), resp.files.get("f2"));
}

#[test]
fn refused_offer_is_answered_403_and_opens_nothing() {
    let mut sessions: Sessions = TextMap::new();
    let req = PrepareUploadRequest { info: device("s", "S", 1, "https"), files: offer(&[("f", "a")]) };
    let r = accept_prepare_upload(
        &mut sessions,
        req,
        Some(ReceiveDialog::Deny),
        &device("r", "R", 2, "https"),
        addr(1, 2, 3, 4, 5),
        "X".to_string(),
    );
    assert_eq!(r.err(), Some(403));
    assert_eq!(sessions.len(), 0);
}

#[test]
fn unanswered_offer_is_answered_500() {
    let mut sessions: Sessions = TextMap::new();
    let req = PrepareUploadRequest { info: device("s", "S", 1, "https"), files: offer(&[("f", "a")]) };
    let r = accept_prepare_upload(
        &mut sessions,
        req,
        None,
        &device("r", "R", 2, "https"),
        addr(1, 2, 3, 4, 5),
        "X".to_string(),
    );
    assert_eq!(r.err(), Some(500));
    assert_eq!(sessions.len(), 0);
}

#[test]
fn issued_token_is_accepted() {
    let mut sessions = TextMap::new();
    let sid = new_session_id();
    let resp = open_session(&mut sessions, &sid);
    let token = resp.files.get("f2").unwrap().clone();
    let m = check_receive_upload(&sessions, &params(&sid, "f2", &token)).unwrap();
    assert_eq!(m.file_name, "two.txt");
    assert_eq!(m.id, "f2");
}

#[test]
fn other_token_is_refused_with_403() {
    let mut sessions = TextMap::new();
    let sid = new_session_id();
    let resp = open_session(&mut sessions, &sid);
    let token_of_f1 = resp.files.get("f1").unwrap().clone();
    let r = check_receive_upload(&sessions, &params(&sid, "f2", &token_of_f1));
    assert_eq!(r.err(), Some(UploadRejection::BadToken));
    assert_eq!(UploadRejection::BadToken.status_code(), 403);
    let r = check_receive_upload(&sessions, &params(&sid, "f3", &token_of_f1));
    assert_eq!(r.err(), Some(UploadRejection::BadToken));
}

#[test]
fn unknown_session_is_refused_with_400() {
    let sessions: Sessions = TextMap::new();
    let r = check_receive_upload(&sessions, &params("nope", "f", "t"));
    assert_eq!(r.err(), Some(UploadRejection::UnknownSession));
    assert_eq!(UploadRejection::UnknownSession.status_code(), 400);
}

#[test]
fn token_without_file_is_refused_as_unknown_file() {
    let mut sessions: Sessions = TextMap::new();
    let mut tokens = TextMap::new();
    tokens.insert("ghost".to_string(), "tok".to_string());
    let session = Session {
        session_id: "S1".to_string(),
        files: offer(&[("f", "a")]),
        file_tokens: tokens,
        receiver: device("r", "R", 1, "https"),
        sender: device("s", "S", 1, "https"),
        status: SessionStatus::Active,
        addr: addr(1, 1, 1, 1, 1),
    };
    sessions.insert("S1".to_string(), session);
    let r = check_receive_upload(&sessions, &params("S1", "ghost", "tok"));
    assert_eq!(r.err(), Some(UploadRejection::UnknownFile));
    assert_eq!(UploadRejection::UnknownFile.status_code(), 400);
}

#[test]
fn cancelled_session_refuses_uploads() {
    let mut sessions = TextMap::new();
    let sid = new_session_id();
    let resp = open_session(&mut sessions, &sid);
    assert_eq!(cancel_session(&mut sessions, &sid), 200);
    assert!(sessions.get(&sid).unwrap().status == SessionStatus::Cancelled);
    let token = resp.files.get("f1").unwrap().clone();
    let r = check_receive_upload(&sessions, &params(&sid, "f1", &token));
    assert_eq!(r.err(), Some(UploadRejection::InactiveSession));
    assert_eq!(UploadRejection::InactiveSession.status_code(), 400);
}

#[test]
fn cancel_twice_is_the_same_as_once() {
    let mut sessions = TextMap::new();
    let sid = new_session_id();
    open_session(&mut sessions, &sid);
    assert_eq!(cancel_session(&mut sessions, &sid), 200);
    assert_eq!(cancel_session(&mut sessions, &sid), 200);
    assert_eq!(sessions.len(), 1);
    assert!(sessions.get(&sid).unwrap().status == SessionStatus::Cancelled);
}

#[test]
fn cancel_of_unknown_session_is_400_and_changes_nothing() {
    let mut sessions = TextMap::new();
    let sid = new_session_id();
    open_session(&mut sessions, &sid);
    assert_eq!(cancel_session(&mut sessions, "01D39ZY06FGSCTVN4T2V9PKHFZ"), 400);
    assert_eq!(sessions.len(), 1);
    assert!(sessions.get(&sid).unwrap().status == SessionStatus::Active);
}

#[test]
fn cancel_of_session_with_non_julid_id_is_done_but_answered_400() {
    let mut sessions = TextMap::new();
    open_session(&mut sessions, "not-a-julid");
    assert_eq!(cancel_session(&mut sessions, "not-a-julid"), 400);
    assert!(sessions.get("not-a-julid").unwrap().status == SessionStatus::Cancelled);
}

#[test]
fn lowercase_julid_id_is_accepted_by_cancel() {
    let mut sessions = TextMap::new();
    open_session(&mut sessions, "01d39zy06fgsctvn4t2v9pkhfz");
    assert_eq!(cancel_session(&mut sessions, "01d39zy06fgsctvn4t2v9pkhfz"), 200);
}

#[test]
fn fresh_tokens_are_distinct_julids() {
    let files = offer(&[("a", "a"), ("b", "b"), ("c", "c")]);
    let tokens = issue_file_tokens(&files);
    assert_eq!(tokens.len(), 3);
    let a = tokens.get("a").unwrap();
    let b = tokens.get("b").unwrap();
    assert_ne!(a, b);
    assert_eq!(a.len(), 26);
}

fn sender_session(sessions: &mut Sessions) -> PrepareUploadResponse {
    let mut toks = TextMap::new();
    toks.insert("c1".to_string(), "T1".to_string());
    let response = PrepareUploadResponse { session_id: "SID".to_string(), files: toks };
    record_prepared_session(
        sessions,
        &response,
        offer(&[("c1", "hello.txt")]),
        device("peer", "P", 53317, "https"),
        device("me", "M", 53317, "https"),
        addr(192, 168, 1, 20, 53317),
    );
    response
}

#[test]
fn recorded_session_sends_with_its_token() {
    let mut sessions = TextMap::new();
    sender_session(&mut sessions);
    let s = check_send(&sessions, "SID", "c1", "T1").ok().unwrap();
    assert_eq!(
        s.upload_url("SID", "c1", "T1"),
        "https://192.168.1.20:53317/api/localsend/v2/upload?sessionId=SID&fileId=c1&token=T1"
    );
    assert_eq!(s.files.get("c1").unwrap().file_name, "hello.txt");
    assert_eq!(s.sender.alias, "me");
}

#[test]
fn send_errors() {
    let mut sessions = TextMap::new();
    sender_session(&mut sessions);
    assert_eq!(check_send(&sessions, "other", "c1", "T1").err(), Some(LocalSendError::SessionNotFound));
    assert_eq!(check_send(&sessions, "SID", "c1", "T2").err(), Some(LocalSendError::InvalidToken));
    assert_eq!(check_send(&sessions, "SID", "c2", "T1").err(), Some(LocalSendError::InvalidToken));
    cancel_session(&mut sessions, "SID");
    assert_eq!(check_send(&sessions, "SID", "c1", "T1").err(), Some(LocalSendError::SessionInactive));
}

#[test]
fn cancel_url_and_outcomes() {
    let mut sessions = TextMap::new();
    sender_session(&mut sessions);
    let s = session_to_cancel(&sessions, "SID").ok().unwrap();
    assert_eq!(
        s.cancel_url("SID"),
        "https://192.168.1.20:53317/api/localsend/v2/cancel?sessionId=SID"
    );
    assert_eq!(session_to_cancel(&sessions, "x").err(), Some(LocalSendError::SessionNotFound));
    assert_eq!(cancel_outcome(200), Ok(()));
    assert_eq!(cancel_outcome(404), Err(LocalSendError::CancelFailed));
    assert_eq!(upload_outcome(200), Ok(()));
    assert_eq!(upload_outcome(500), Err(LocalSendError::UploadFailed));
}

#[test]
fn prepare_url_names_protocol_and_address() {
    let d = device("peer", "P", 53317, "http");
    assert_eq!(
        prepare_upload_url(&d, &addr(10, 1, 2, 255, 8080)),
        "http://10.1.2.255:8080/api/localsend/v2/prepare-upload"
    );
}

#[test]
fn send_flow_notices() {
    let (n, t) = after_prepare("c1", None);
    assert_eq!(n.len(), 1);
    assert!(matches!(n[0], SendNotice::Denied));
    assert!(t.is_none());

    let mut toks = TextMap::new();
    toks.insert("c1".to_string(), "T1".to_string());
    let resp = PrepareUploadResponse { session_id: "S".to_string(), files: toks };
    let (n, t) = after_prepare("c1", Some(&resp));
    assert_eq!(n.len(), 1);
    assert!(matches!(&n[0], SendNotice::Approved(c) if c == "c1"));
    assert_eq!(t, Some("T1".to_string()));

    let (n, t) = after_prepare("c9", Some(&resp));
    assert_eq!(n.len(), 2);
    assert!(matches!(&n[1], SendNotice::Failed { error } if error == "missing token in prepare response from remote"));
    assert!(t.is_none());

    assert!(matches!(after_upload("c1", "S", Ok(())), SendNotice::Success { content, session } if content == "c1" && session == "S"));
    assert!(matches!(after_upload("c1", "S", Err("boom".to_string())), SendNotice::Failed { error } if error == "boom"));
}

#[test]
fn tokens_of_one_offer_all_differ() {
    let mut files = TextMap::new();
    for i in 0..200 {
        let id = format!("file{i:03}");
        files.insert(id.clone(), file(&id, "x", 1));
    }
    let tokens = issue_file_tokens(&files);
    assert_eq!(tokens.len(), 200);
    let mut seen = std::collections::BTreeSet::new();
    for i in 0..tokens.len() {
        let t = tokens.value_at(i).clone();
        assert_eq!(t.len(), 26);
        assert!(seen.insert(t));
    }
}

#[test]
fn token_of_one_file_does_not_open_another() {
    let mut sessions = TextMap::new();
    let sid = new_session_id();
    let resp = open_session(&mut sessions, &sid);
    assert_ne!(resp.files.get("f1"), resp.files.get("f2"));
    let token_of_f2 = resp.files.get("f2").unwrap().clone();
    let r = check_receive_upload(&sessions, &params(&sid, "f1", &token_of_f2));
    assert_eq!(r.err(), Some(UploadRejection::BadToken));
}

#[test]
fn each_file_gets_its_draw_in_key_order() {
    let files = offer(&[("b", "b.txt"), ("a", "a.txt"), ("c", "c.txt")]);
    let draws = vec!["TA".to_string(), "TB".to_string(), "TC".to_string()];
    let tokens = assign_tokens(&files, &draws);
    assert_eq!(tokens.len(), 3);
    assert_eq!(tokens.get("a").unwrap(), "TA");
    assert_eq!(tokens.get("b").unwrap(), "TB");
    assert_eq!(tokens.get("c").unwrap(), "TC");
}

#[test]
fn a_repeated_draw_is_issued_as_drawn() {
    let files = offer(&[("a", "a.txt"), ("b", "b.txt")]);
    let draws = vec!["SAME".to_string(), "SAME".to_string()];
    let tokens = assign_tokens(&files, &draws);
    assert_eq!(tokens.get("a").unwrap(), "SAME");
    assert_eq!(tokens.get("b").unwrap(), "SAME");
}

#[test]
fn no_files_no_tokens() {
    let files = offer(&[]);
    let tokens = assign_tokens(&files, &Vec::new());
    assert_eq!(tokens.len(), 0);
}

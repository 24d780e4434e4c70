//! The decisions of the plain-HTTP client: it keeps peers by fingerprint
//! alone and answers uploads and cancels a little differently.
use vstd::prelude::*;
use crate::ids::{fresh_uuid_text, is_uuid_text};
use crate::models::{Device, DeviceInfo};
use crate::net::SocketAddrV4;
use crate::textmap::{has_key, TextMap};
use crate::transfer::{
    assign_tokens, cancelled, open_session, opened_session, PrepareUploadRequest,
    PrepareUploadResponse, Sessions, UploadRejection,
};

verus! {

/// The devices a plain-HTTP client knows of, by fingerprint.
pub type PeersV1 = TextMap<DeviceInfo>;

/// How a plain-HTTP client (`own`) takes the announcement of `device`:
/// one with its own fingerprint changes nothing. Another is recorded under
/// its fingerprint, and the result says whether to announce itself in return
/// (where the device asks for announcements).
pub fn process_device_v1(own: &DeviceInfo, device: DeviceInfo, peers: &mut PeersV1) -> (announce_back:
    bool)
    ensures
        device.fingerprint@ == own.fingerprint@ ==> !announce_back && final(peers)@ == old(peers)@,
        device.fingerprint@ != own.fingerprint@ ==> {
            &&& final(peers)@ == old(peers)@.insert(device.fingerprint@, device)
            &&& announce_back == (device.announce == Some(true))
        },
{
    if device.fingerprint == own.fingerprint {
        return false;
    }
    let wants = match device.announce {
        Some(b) => b,
        None => false,
    };
    peers.insert(device.fingerprint.clone(), device);
    wants
}

/// How a plain-HTTP client records a registration: the device goes under
/// its fingerprint, whoever it is, and the client answers with itself.
pub fn register_device_v1(device: DeviceInfo, peers: &mut PeersV1)
    ensures
        final(peers)@ == old(peers)@.insert(device.fingerprint@, device),
{
    peers.insert(device.fingerprint.clone(), device);
}

/// The HTTP status a plain-HTTP client answers a refused upload with: an
/// offered file it has no metadata for is a server error there.
pub open spec fn rejection_status_v1(r: UploadRejection) -> u16 {
    match r {
        UploadRejection::BadToken => 403,
        UploadRejection::UnknownFile => 500,
        _ => 400,
    }
}

impl UploadRejection {
    /// The HTTP status a plain-HTTP client answers the refusal with.
    pub fn status_code_v1(&self) -> (code: u16)
        ensures
            code == rejection_status_v1(*self),
    {
        match self {
            UploadRejection::BadToken => 403,
            UploadRejection::UnknownFile => 500,
            _ => 400,
        }
    }
}

/// A plain-HTTP client's answer to a cancel: 400 where there is no such
/// session, and nothing changes; otherwise the session is cancelled and the
/// answer is 200.
pub fn cancel_session_v1(sessions: &mut Sessions, session_id: &str) -> (code: u16)
    ensures
        !old(sessions)@.dom().contains(session_id@) ==> code == 400 && final(sessions)@ == old(
            sessions,
        )@,
        old(sessions)@.dom().contains(session_id@) ==> code == 200 && final(sessions)@ == old(
            sessions,
        )@.insert(session_id@, cancelled(old(sessions)@[session_id@])),
{
    match sessions.remove(session_id) {
        None => {
            assert(old(sessions)@.remove(session_id@) =~= old(sessions)@);
            400
        },
        Some(mut session) => {
            session.status = crate::transfer::SessionStatus::Cancelled;
            sessions.insert(String::from_str(session_id), session);
            assert(sessions@ =~= old(sessions)@.insert(
                session_id@,
                cancelled(old(sessions)@[session_id@]),
            ));
            200
        },
    }
}

/// How a plain-HTTP client answers an offer `req` from `addr` once the user
/// has replied (`approved`): a refusal is answered with 403 and changes
/// nothing; on approval it opens an active session under `session_id` in
/// which the file at position `i` in key order gets the token `draws[i]`,
/// and answers with those tokens.
pub fn accept_prepare_upload_v1(
    sessions: &mut Sessions,
    req: PrepareUploadRequest,
    approved: bool,
    receiver: &Device,
    addr: SocketAddrV4,
    session_id: String,
    draws: &Vec<String>,
) -> (r: Result<PrepareUploadResponse, u16>)
    requires
        draws@.len() == req.files@.dom().len(),
    ensures
        !approved ==> r == Err::<PrepareUploadResponse, u16>(403) && final(sessions)@ == old(
            sessions,
        )@,
        approved ==> (r matches Ok(resp) && {
            &&& resp.session_id@ == session_id@
            &&& resp.files@.dom() == req.files@.dom()
            &&& forall|i: int|
                0 <= i < draws@.len() ==> #[trigger] resp.files@[req.files.pairs()[i].0]@
                    == draws@[i]@
            &&& final(sessions)@.dom() == old(sessions)@.dom().insert(session_id@)
            &&& forall|k: Seq<char>| k != session_id@ && #[trigger] old(sessions)@.dom().contains(k)
                ==> final(sessions)@[k] == old(sessions)@[k]
            &&& opened_session(
                final(sessions)@[session_id@],
                session_id@,
                req,
                *receiver,
                addr,
                resp.files@,
            )
        }),
{
    if !approved {
        return Err(403);
    }
    let tokens = assign_tokens(&req.files, draws);
    Ok(open_session(sessions, req, receiver, addr, session_id, tokens))
}

/// A plain-HTTP client's answer to an offer `req` from `addr`: on approval
/// the session opens under a new UUID, and each offered file gets a new UUID
/// as its token; a refusal is answered with 403.
pub fn prepare_upload_v1(
    sessions: &mut Sessions,
    req: PrepareUploadRequest,
    approved: bool,
    receiver: &Device,
    addr: SocketAddrV4,
) -> (r: Result<PrepareUploadResponse, u16>)
    ensures
        !approved ==> r == Err::<PrepareUploadResponse, u16>(403) && final(sessions)@ == old(
            sessions,
        )@,
        approved ==> (r matches Ok(resp) && {
            &&& is_uuid_text(resp.session_id@)
            &&& resp.files@.dom() == req.files@.dom()
            &&& forall|k: Seq<char>| #[trigger]
                resp.files@.dom().contains(k) ==> is_uuid_text(resp.files@[k]@)
            &&& final(sessions)@.dom() == old(sessions)@.dom().insert(resp.session_id@)
            &&& forall|k: Seq<char>| k != resp.session_id@ && #[trigger] old(
                sessions,
            )@.dom().contains(k) ==> final(sessions)@[k] == old(sessions)@[k]
            &&& opened_session(
                final(sessions)@[resp.session_id@],
                resp.session_id@,
                req,
                *receiver,
                addr,
                resp.files@,
            )
        }),
{
    if !approved {
        return Err(403);
    }
    let session_id = fresh_uuid_text();
    let n = req.files.len();
    let mut draws: Vec<String> = Vec::new();
    let mut i: usize = 0;
    while i < n
        invariant
            n == req.files@.dom().len(),
            n == req.files.pairs().len(),
            i <= n,
            draws@.len() == i,
            forall|j: int| 0 <= j < i ==> is_uuid_text(#[trigger] draws@[j]@),
        decreases n - i,
    {
        draws.push(fresh_uuid_text());
        i = i + 1;
    }
    let ghost files = req.files;
    let r = accept_prepare_upload_v1(sessions, req, true, receiver, addr, session_id, &draws);
    proof {
        let resp = r->Ok_0;
        assert forall|k: Seq<char>| #[trigger] resp.files@.dom().contains(k) implies is_uuid_text(
            resp.files@[k]@,
        ) by {
            assert(has_key(files.pairs(), k));
            let j = choose|j: int| 0 <= j < files.pairs().len() && #[trigger] files.pairs()[j].0 == k;
            assert(resp.files@[files.pairs()[j].0]@ == draws@[j]@);
        }
    }
    r
}

} // verus!

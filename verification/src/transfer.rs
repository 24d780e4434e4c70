//! Upload sessions: how a receiver opens, checks and cancels them, and how a
//! sender records and uses them.
use vstd::prelude::*;
use crate::error::LocalSendError;
use crate::ids::{fresh_julid_text, is_julid_text, julid_parses};
use crate::models::{Device, FileMetadata};
use crate::net::{socket_text, SocketAddrV4};
use crate::textmap::{has_key, lemma_sorted_distinct, sorted_keys, TextMap};
use crate::ReceiveDialog;

verus! {

/// Where a session stands.
#[derive(Debug, Clone, Copy, PartialEq, Eq, Structural)]
pub enum SessionStatus {
    Pending,
    Active,
    Completed,
    Failed,
    Cancelled,
}

/// An upload session: the files offered, the token issued for each, the two
/// devices, and the address of the other side.
#[derive(Debug)]
pub struct Session {
    pub session_id: String,
    pub files: TextMap<FileMetadata>,
    pub file_tokens: TextMap<String>,
    pub receiver: Device,
    pub sender: Device,
    pub status: SessionStatus,
    pub addr: SocketAddrV4,
}

/// The sessions a device takes part in, by session id.
pub type Sessions = TextMap<Session>;

/// The answer to an offer: the session opened and a token for each file.
#[derive(Debug)]
pub struct PrepareUploadResponse {
    pub session_id: String,
    pub files: TextMap<String>,
}

/// An offer of files from a device.
#[derive(Debug)]
pub struct PrepareUploadRequest {
    pub info: Device,
    pub files: TextMap<FileMetadata>,
}

/// The query of an upload.
#[derive(Debug)]
pub struct UploadParams {
    pub session_id: String,
    pub file_id: String,
    pub token: String,
}

/// The query of a cancel.
#[derive(Debug)]
pub struct CancelParams {
    pub session_id: String,
}

/// Why a receiver refuses an upload.
#[derive(Debug, Clone, Copy, PartialEq, Eq, Structural)]
pub enum UploadRejection {
    /// No session has that id.
    UnknownSession,
    /// The session is not active.
    InactiveSession,
    /// The token is not the one issued for that file.
    BadToken,
    /// The session has no such file.
    UnknownFile,
}

/// The HTTP status a refusal is answered with.
pub open spec fn rejection_status(r: UploadRejection) -> u16 {
    match r {
        UploadRejection::BadToken => 403,
        _ => 400,
    }
}

impl UploadRejection {
    /// The HTTP status the refusal is answered with.
    pub fn status_code(&self) -> (code: u16)
        ensures
            code == rejection_status(*self),
    {
        match self {
            UploadRejection::BadToken => 403,
            _ => 400,
        }
    }
}

/// `token` is the token issued for `file_id` in `s`.
pub open spec fn token_matches(s: Session, file_id: Seq<char>, token: Seq<char>) -> bool {
    s.file_tokens@.dom().contains(file_id) && s.file_tokens@[file_id]@ == token
}

/// What a receiver makes of an upload of `file_id` with `token` to session
/// `sid`: the metadata of the file to store, or why it refuses.
pub open spec fn receive_verdict(
    sessions: Map<Seq<char>, Session>,
    sid: Seq<char>,
    file_id: Seq<char>,
    token: Seq<char>,
) -> Result<FileMetadata, UploadRejection> {
    if !sessions.dom().contains(sid) {
        Err(UploadRejection::UnknownSession)
    } else if sessions[sid].status != SessionStatus::Active {
        Err(UploadRejection::InactiveSession)
    } else if !token_matches(sessions[sid], file_id, token) {
        Err(UploadRejection::BadToken)
    } else if !sessions[sid].files@.dom().contains(file_id) {
        Err(UploadRejection::UnknownFile)
    } else {
        Ok(sessions[sid].files@[file_id])
    }
}

/// `s` with its status set to `Cancelled`.
pub open spec fn cancelled(s: Session) -> Session {
    Session { status: SessionStatus::Cancelled, ..s }
}

/// `s` is the session a receiver opens under `sid` for `req`, coming from
/// `addr`, with the tokens `tokens`.
pub open spec fn opened_session(
    s: Session,
    sid: Seq<char>,
    req: PrepareUploadRequest,
    receiver: Device,
    addr: SocketAddrV4,
    tokens: Map<Seq<char>, String>,
) -> bool {
    &&& s.session_id@ == sid
    &&& s.files == req.files
    &&& s.file_tokens@ == tokens
    &&& s.receiver == receiver
    &&& s.sender == req.info
    &&& s.status == SessionStatus::Active
    &&& s.addr == addr
}

/// An upload to a session a receiver opened, presenting the token the
/// receiver issued for one of the offered files, is accepted and stores that
/// file.
pub proof fn law_issued_token_is_accepted(
    sessions: Map<Seq<char>, Session>,
    sid: Seq<char>,
    req: PrepareUploadRequest,
    receiver: Device,
    addr: SocketAddrV4,
    tokens: Map<Seq<char>, String>,
    file_id: Seq<char>,
)
    requires
        sessions.dom().contains(sid),
        opened_session(sessions[sid], sid, req, receiver, addr, tokens),
        tokens.dom() == req.files@.dom(),
        req.files@.dom().contains(file_id),
    ensures
        receive_verdict(sessions, sid, file_id, tokens[file_id]@) == Ok::<
            FileMetadata,
            UploadRejection,
        >(req.files@[file_id]),
{
}

/// An upload to a session a receiver opened, presenting anything but the
/// token issued for the file, is refused with 403.
pub proof fn law_other_token_is_refused(
    sessions: Map<Seq<char>, Session>,
    sid: Seq<char>,
    req: PrepareUploadRequest,
    receiver: Device,
    addr: SocketAddrV4,
    tokens: Map<Seq<char>, String>,
    file_id: Seq<char>,
    token: Seq<char>,
)
    requires
        sessions.dom().contains(sid),
        opened_session(sessions[sid], sid, req, receiver, addr, tokens),
        tokens.dom().contains(file_id) ==> token != tokens[file_id]@,
    ensures
        receive_verdict(sessions, sid, file_id, token) == Err::<FileMetadata, UploadRejection>(
            UploadRejection::BadToken,
        ),
        rejection_status(UploadRejection::BadToken) == 403,
{
}

/// Where no two files of an offer were issued the same token, the token
/// issued for one file does not open the upload of another.
pub proof fn law_token_of_other_file_is_refused(
    sessions: Map<Seq<char>, Session>,
    sid: Seq<char>,
    req: PrepareUploadRequest,
    receiver: Device,
    addr: SocketAddrV4,
    tokens: Map<Seq<char>, String>,
    file_id: Seq<char>,
    other_file: Seq<char>,
)
    requires
        sessions.dom().contains(sid),
        opened_session(sessions[sid], sid, req, receiver, addr, tokens),
        distinct_texts(tokens),
        tokens.dom().contains(file_id),
        tokens.dom().contains(other_file),
        file_id != other_file,
    ensures
        receive_verdict(sessions, sid, other_file, tokens[file_id]@) == Err::<
            FileMetadata,
            UploadRejection,
        >(UploadRejection::BadToken),
{
    assert(tokens[file_id]@ != tokens[other_file]@);
}

/// Once a session is cancelled, every upload to it is refused with 400,
/// whatever it presents.
pub proof fn law_cancelled_session_refuses_uploads(
    sessions: Map<Seq<char>, Session>,
    sid: Seq<char>,
    file_id: Seq<char>,
    token: Seq<char>,
)
    requires
        sessions.dom().contains(sid),
    ensures
        receive_verdict(
            sessions.insert(sid, cancelled(sessions[sid])),
            sid,
            file_id,
            token,
        ) == Err::<FileMetadata, UploadRejection>(UploadRejection::InactiveSession),
        rejection_status(UploadRejection::InactiveSession) == 400,
{
}

/// Uploads to a session nobody opened are refused with 400.
pub proof fn law_unknown_session_refuses_uploads(
    sessions: Map<Seq<char>, Session>,
    sid: Seq<char>,
    file_id: Seq<char>,
    token: Seq<char>,
)
    requires
        !sessions.dom().contains(sid),
    ensures
        receive_verdict(sessions, sid, file_id, token) == Err::<FileMetadata, UploadRejection>(
            UploadRejection::UnknownSession,
        ),
{
}

/// Cancelling a session a second time changes nothing more.
pub proof fn law_cancel_is_idempotent(sessions: Map<Seq<char>, Session>, sid: Seq<char>)
    requires
        sessions.dom().contains(sid),
    ensures
        ({
            let once = sessions.insert(sid, cancelled(sessions[sid]));
            once.insert(sid, cancelled(once[sid])) == once
        }),
{
    let once = sessions.insert(sid, cancelled(sessions[sid]));
    assert(once.insert(sid, cancelled(once[sid])) =~= once);
}

/// The answer of a receiver to a cancel of session `sid`.
pub open spec fn cancel_answer(sessions: Map<Seq<char>, Session>, sid: Seq<char>) -> u16 {
    if sessions.dom().contains(sid) && is_julid_text(sid) {
        200
    } else {
        400
    }
}

/// A cancel of a session opened under a fresh id is answered with 200.
pub proof fn law_fresh_session_cancel_succeeds(sessions: Map<Seq<char>, Session>, sid: Seq<char>)
    requires
        sessions.dom().contains(sid),
        is_julid_text(sid),
    ensures
        cancel_answer(sessions, sid) == 200,
{
}

/// A sender that recorded the session an answer opened sends each offered
/// content with the token the answer gave for it.
pub proof fn law_recorded_session_sends(
    sessions: Map<Seq<char>, Session>,
    response: PrepareUploadResponse,
    files: TextMap<FileMetadata>,
    receiver: Device,
    sender: Device,
    addr: SocketAddrV4,
    content_id: Seq<char>,
)
    requires
        sessions.dom().contains(response.session_id@),
        recorded_session(sessions[response.session_id@], response, files, receiver, sender, addr),
        response.files@.dom().contains(content_id),
    ensures
        send_verdict(
            sessions,
            response.session_id@,
            content_id,
            response.files@[content_id]@,
        ) == Ok::<Session, LocalSendError>(sessions[response.session_id@]),
{
}

/// A fresh session id: the text of a new Julid.
pub fn new_session_id() -> (id: String)
    ensures
        is_julid_text(id@),
{
    fresh_julid_text()
}

/// No two keys of `m` hold the same text.
pub open spec fn distinct_texts(m: Map<Seq<char>, String>) -> bool {
    forall|a: Seq<char>, b: Seq<char>|
        #![trigger m[a], m[b]]
        m.dom().contains(a) && m.dom().contains(b) && a != b ==> m[a]@ != m[b]@
}

/// No two of the texts `s` are alike.
pub open spec fn distinct_draws(s: Seq<String>) -> bool {
    forall|i: int, j: int| 0 <= i < s.len() && 0 <= j < s.len() && i != j ==> #[trigger] s[i]@ != #[trigger] s[j]@
}

/// The tokens of the files of `files`: the file at position `i` in key order
/// gets `draws[i]`.
pub fn assign_tokens(files: &TextMap<FileMetadata>, draws: &Vec<String>) -> (tokens: TextMap<String>)
    requires
        draws@.len() == files@.dom().len(),
    ensures
        tokens@.dom() == files@.dom(),
        forall|i: int| 0 <= i < draws@.len() ==> #[trigger] tokens@[files.pairs()[i].0]@ == draws@[i]@,
        distinct_draws(draws@) ==> distinct_texts(tokens@),
{
    let n = files.len();
    let mut tokens: TextMap<String> = TextMap::new();
    let mut i: usize = 0;
    while i < n
        invariant
            n == files.pairs().len(),
            n == draws@.len(),
            sorted_keys(files.pairs()),
            i <= n,
            forall|k: Seq<char>| #[trigger]
                tokens@.dom().contains(k) <==> exists|j: int| 0 <= j < i && files.pairs()[j].0 == k,
            forall|j: int| 0 <= j < i ==> #[trigger] tokens@[files.pairs()[j].0]@ == draws@[j]@,
        decreases n - i,
    {
        let key = files.key_at(i).clone();
        let token = draws[i].clone();
        let ghost before = tokens@;
        tokens.insert(key, token);
        proof {
            assert forall|k: Seq<char>| #[trigger] tokens@.dom().contains(k) <==> exists|j: int|
                0 <= j < i + 1 && files.pairs()[j].0 == k by {
                if k == files.pairs()[i as int].0 {
                    assert(files.pairs()[i as int].0 == k);
                } else if tokens@.dom().contains(k) {
                    assert(before.dom().contains(k));
                }
            }
            assert forall|j: int| 0 <= j < i + 1 implies #[trigger] tokens@[files.pairs()[j].0]@
                == draws@[j]@ by {
                if j < i {
                    lemma_sorted_distinct(files.pairs(), j, i as int);
                    assert(before[files.pairs()[j].0]@ == draws@[j]@);
                }
            }
        }
        i = i + 1;
    }
    proof {
        assert forall|k: Seq<char>| #[trigger] tokens@.dom().contains(k) <==> files@.dom().contains(k) by {
            if files@.dom().contains(k) {
                assert(has_key(files.pairs(), k));
                let j = choose|j: int| 0 <= j < files.pairs().len() && #[trigger] files.pairs()[j].0 == k;
                assert(files.pairs()[j].0 == k);
            }
        }
        assert(tokens@.dom() =~= files@.dom());
        if distinct_draws(draws@) {
            assert forall|a: Seq<char>, b: Seq<char>|
                tokens@.dom().contains(a) && tokens@.dom().contains(b) && a != b implies #[trigger] tokens@[a]@
                != #[trigger] tokens@[b]@ by {
                let ia = choose|j: int| 0 <= j < n && files.pairs()[j].0 == a;
                let ib = choose|j: int| 0 <= j < n && files.pairs()[j].0 == b;
                assert(tokens@[files.pairs()[ia].0]@ == draws@[ia]@);
                assert(tokens@[files.pairs()[ib].0]@ == draws@[ib]@);
                assert(draws@[ia]@ != draws@[ib]@);
            }
        }
    }
    tokens
}

/// A token for each file of `files`: a new Julid drawn for each, handed out
/// in key order.
pub fn issue_file_tokens(files: &TextMap<FileMetadata>) -> (tokens: TextMap<String>)
    ensures
        tokens@.dom() == files@.dom(),
        forall|k: Seq<char>| #[trigger] tokens@.dom().contains(k) ==> is_julid_text(tokens@[k]@),
{
    let n = files.len();
    let mut draws: Vec<String> = Vec::new();
    let mut i: usize = 0;
    while i < n
        invariant
            n == files@.dom().len(),
            n == files.pairs().len(),
            i <= n,
            draws@.len() == i,
            forall|j: int| 0 <= j < i ==> is_julid_text(#[trigger] draws@[j]@),
        decreases n - i,
    {
        draws.push(fresh_julid_text());
        i = i + 1;
    }
    let tokens = assign_tokens(files, &draws);
    proof {
        assert forall|k: Seq<char>| #[trigger] tokens@.dom().contains(k) implies is_julid_text(tokens@[k]@) by {
            assert(has_key(files.pairs(), k));
            let j = choose|j: int| 0 <= j < files.pairs().len() && #[trigger] files.pairs()[j].0 == k;
            assert(tokens@[files.pairs()[j].0]@ == draws@[j]@);
        }
    }
    tokens
}

/// A receiver's answer to an offer `req` from `addr`, once the user has
/// replied (`None` where no reply came): without a reply it answers 500, on a
/// refusal 403; on approval it opens an active session under `session_id`
/// with a fresh token for each offered file and answers with those tokens.
pub fn accept_prepare_upload(
    sessions: &mut Sessions,
    req: PrepareUploadRequest,
    reply: Option<ReceiveDialog>,
    receiver: &Device,
    addr: SocketAddrV4,
    session_id: String,
) -> (r: Result<PrepareUploadResponse, u16>)
    ensures
        reply is None ==> r == Err::<PrepareUploadResponse, u16>(500) && final(sessions)@ == old(
            sessions,
        )@,
        reply == Some(ReceiveDialog::Deny) ==> r == Err::<PrepareUploadResponse, u16>(403)
            && final(sessions)@ == old(sessions)@,
        reply == Some(ReceiveDialog::Approve) ==> (r matches Ok(resp) && {
            &&& resp.session_id@ == session_id@
            &&& resp.files@.dom() == req.files@.dom()
            &&& forall|k: Seq<char>| #[trigger]
                resp.files@.dom().contains(k) ==> is_julid_text(resp.files@[k]@)
            &&& final(sessions)@.dom() == old(sessions)@.dom().insert(session_id@)
            &&& forall|k: Seq<char>| k != session_id@ && #[trigger] old(sessions)@.dom().contains(k)
                ==> final(sessions)@[k] == old(sessions)@[k]
            &&& opened_session(
                final(sessions)@[session_id@],
                session_id@,
                req,
                *receiver,
                addr,
                resp.files@,
            )
        }),
{
    match reply {
        None => Err(500),
        Some(ReceiveDialog::Deny) => Err(403),
        Some(ReceiveDialog::Approve) => {
            let tokens = issue_file_tokens(&req.files);
            Ok(open_session(sessions, req, receiver, addr, session_id, tokens))
        },
    }
}

/// Opens an active session under `session_id` for the offer `req` from
/// `addr`, with `tokens` for its files, and answers with those tokens.
pub(crate) fn open_session(
    sessions: &mut Sessions,
    req: PrepareUploadRequest,
    receiver: &Device,
    addr: SocketAddrV4,
    session_id: String,
    tokens: TextMap<String>,
) -> (resp: PrepareUploadResponse)
    ensures
        resp.session_id@ == session_id@,
        resp.files@ == tokens@,
        final(sessions)@.dom() == old(sessions)@.dom().insert(session_id@),
        forall|k: Seq<char>| k != session_id@ && #[trigger] old(sessions)@.dom().contains(k)
            ==> final(sessions)@[k] == old(sessions)@[k],
        opened_session(final(sessions)@[session_id@], session_id@, req, *receiver, addr, tokens@),
{
    let response_tokens = tokens.clone();
    proof {
        assert forall|k: Seq<char>| #[trigger] tokens@.dom().contains(k) implies response_tokens@[k]
            == tokens@[k] by {
            assert(cloned::<String>(tokens@[k], response_tokens@[k]));
        }
        assert(response_tokens@ =~= tokens@);
    }
    let PrepareUploadRequest { info, files } = req;
    let session = Session {
        session_id: session_id.clone(),
        files,
        file_tokens: tokens,
        receiver: receiver.clone(),
        sender: info,
        status: SessionStatus::Active,
        addr,
    };
    sessions.insert(session_id.clone(), session);
    PrepareUploadResponse { session_id, files: response_tokens }
}

/// The file that an upload stores, or why the receiver refuses it.
pub fn check_receive_upload<'a>(sessions: &'a Sessions, params: &UploadParams) -> (r: Result<
    &'a FileMetadata,
    UploadRejection,
>)
    ensures
        match r {
            Ok(m) => receive_verdict(
                sessions@,
                params.session_id@,
                params.file_id@,
                params.token@,
            ) == Ok::<FileMetadata, UploadRejection>(*m),
            Err(e) => receive_verdict(
                sessions@,
                params.session_id@,
                params.file_id@,
                params.token@,
            ) == Err::<FileMetadata, UploadRejection>(e),
        },
{
    let session = match sessions.get(params.session_id.as_str()) {
        Some(s) => s,
        None => {
            return Err(UploadRejection::UnknownSession);
        },
    };
    if session.status != SessionStatus::Active {
        return Err(UploadRejection::InactiveSession);
    }
    match session.file_tokens.get(params.file_id.as_str()) {
        Some(t) => {
            if !(*t == params.token) {
                return Err(UploadRejection::BadToken);
            }
        },
        None => {
            return Err(UploadRejection::BadToken);
        },
    }
    match session.files.get(params.file_id.as_str()) {
        Some(m) => Ok(m),
        None => Err(UploadRejection::UnknownFile),
    }
}

/// A receiver's answer to a cancel of session `session_id`: 400 where there
/// is no such session, and nothing changes. Otherwise the session is
/// cancelled, and the answer is 200 where the id is a Julid text, 400 where it
/// is not.
pub fn cancel_session(sessions: &mut Sessions, session_id: &str) -> (code: u16)
    ensures
        code == cancel_answer(old(sessions)@, session_id@),
        !old(sessions)@.dom().contains(session_id@) ==> code == 400 && final(sessions)@ == old(
            sessions,
        )@,
        old(sessions)@.dom().contains(session_id@) ==> final(sessions)@ == old(sessions)@.insert(
            session_id@,
            cancelled(old(sessions)@[session_id@]),
        ) && code == (if is_julid_text(session_id@) {
            200u16
        } else {
            400u16
        }),
{
    match sessions.remove(session_id) {
        None => {
            assert(old(sessions)@.remove(session_id@) =~= old(sessions)@);
            400
        },
        Some(mut session) => {
            session.status = SessionStatus::Cancelled;
            sessions.insert(String::from_str(session_id), session);
            assert(sessions@ =~= old(sessions)@.insert(
                session_id@,
                cancelled(old(sessions)@[session_id@]),
            ));
            if julid_parses(session_id) {
                200
            } else {
                400
            }
        },
    }
}

/// `s` is the session a sender records from the answer `response` to its
/// offer of `files` to `receiver` at `addr`.
pub open spec fn recorded_session(
    s: Session,
    response: PrepareUploadResponse,
    files: TextMap<FileMetadata>,
    receiver: Device,
    sender: Device,
    addr: SocketAddrV4,
) -> bool {
    &&& s.session_id@ == response.session_id@
    &&& s.files == files
    &&& s.file_tokens@ == response.files@
    &&& s.receiver == receiver
    &&& s.sender == sender
    &&& s.status == SessionStatus::Active
    &&& s.addr == addr
}

/// A sender records the session that `response` opened for its offer of
/// `files`, as active, under the session id of the answer.
pub fn record_prepared_session(
    sessions: &mut Sessions,
    response: &PrepareUploadResponse,
    files: TextMap<FileMetadata>,
    receiver: Device,
    sender: Device,
    addr: SocketAddrV4,
)
    ensures
        final(sessions)@.dom() == old(sessions)@.dom().insert(response.session_id@),
        forall|k: Seq<char>| k != response.session_id@ && #[trigger] old(sessions)@.dom().contains(k)
            ==> final(sessions)@[k] == old(sessions)@[k],
        recorded_session(
            final(sessions)@[response.session_id@],
            *response,
            files,
            receiver,
            sender,
            addr,
        ),
        final(sessions)@[response.session_id@].receiver == receiver,
        final(sessions)@[response.session_id@].sender == sender,
{
    let tokens = response.files.clone();
    proof {
        assert forall|k: Seq<char>| #[trigger] response.files@.dom().contains(k) implies tokens@[k]
            == response.files@[k] by {
            assert(cloned::<String>(response.files@[k], tokens@[k]));
        }
        assert(tokens@ =~= response.files@);
    }
    let session = Session {
        session_id: response.session_id.clone(),
        files,
        file_tokens: tokens,
        receiver,
        sender,
        status: SessionStatus::Active,
        addr,
    };
    sessions.insert(response.session_id.clone(), session);
}

/// What a sender makes of sending `content_id` with `token` in session
/// `sid`: the session to send in, or the error.
pub open spec fn send_verdict(
    sessions: Map<Seq<char>, Session>,
    sid: Seq<char>,
    content_id: Seq<char>,
    token: Seq<char>,
) -> Result<Session, LocalSendError> {
    if !sessions.dom().contains(sid) {
        Err(LocalSendError::SessionNotFound)
    } else if sessions[sid].status != SessionStatus::Active {
        Err(LocalSendError::SessionInactive)
    } else if !token_matches(sessions[sid], content_id, token) {
        Err(LocalSendError::InvalidToken)
    } else {
        Ok(sessions[sid])
    }
}

/// The session a sender sends `content_id` in, with `token`; or why it does
/// not send.
pub fn check_send<'a>(sessions: &'a Sessions, session_id: &str, content_id: &str, token: &str) -> (r:
    Result<&'a Session, LocalSendError>)
    ensures
        match r {
            Ok(s) => send_verdict(sessions@, session_id@, content_id@, token@) == Ok::<
                Session,
                LocalSendError,
            >(*s),
            Err(e) => send_verdict(sessions@, session_id@, content_id@, token@) == Err::<
                Session,
                LocalSendError,
            >(e),
        },
{
    let session = match sessions.get(session_id) {
        Some(s) => s,
        None => {
            return Err(LocalSendError::SessionNotFound);
        },
    };
    if session.status != SessionStatus::Active {
        return Err(LocalSendError::SessionInactive);
    }
    match session.file_tokens.get(content_id) {
        Some(t) => {
            let expected = String::from_str(token);
            if *t == expected {
                Ok(session)
            } else {
                Err(LocalSendError::InvalidToken)
            }
        },
        None => Err(LocalSendError::InvalidToken),
    }
}

/// `protocol://addr` followed by `path`.
pub open spec fn endpoint_url(protocol: Seq<char>, addr: SocketAddrV4, path: Seq<char>) -> Seq<char> {
    protocol + "://"@ + socket_text(addr) + path
}

fn push_endpoint(out: &mut String, protocol: &str, addr: &SocketAddrV4, path: &str)
    ensures
        final(out)@ == old(out)@ + endpoint_url(protocol@, *addr, path@),
{
    let ghost start = out@;
    out.append(protocol);
    out.append("://");
    addr.push_text(out);
    out.append(path);
    assert(out@ =~= start + endpoint_url(protocol@, *addr, path@));
}

/// The URL an upload of `content_id` with `token` in session `session_id` is
/// posted to.
pub open spec fn upload_url(s: Session, sid: Seq<char>, content_id: Seq<char>, token: Seq<char>) -> Seq<
    char,
> {
    endpoint_url(s.receiver.protocol@, s.addr, "/api/localsend/v2/upload?sessionId="@) + sid
        + "&fileId="@ + content_id + "&token="@ + token
}

/// A sender sends the uploads and the cancel of a session it recorded to the
/// device the offer went to: with that device's protocol, at the address the
/// offer was posted to.
pub proof fn law_recorded_session_targets_receiver(
    s: Session,
    response: PrepareUploadResponse,
    files: TextMap<FileMetadata>,
    receiver: Device,
    sender: Device,
    addr: SocketAddrV4,
    sid: Seq<char>,
    content_id: Seq<char>,
    token: Seq<char>,
)
    requires
        recorded_session(s, response, files, receiver, sender, addr),
    ensures
        s.receiver == receiver,
        upload_url(s, sid, content_id, token) == receiver.protocol@ + "://"@ + socket_text(addr)
            + "/api/localsend/v2/upload?sessionId="@ + sid + "&fileId="@ + content_id + "&token="@
            + token,
        endpoint_url(s.receiver.protocol@, s.addr, "/api/localsend/v2/cancel?sessionId="@) + sid
            == receiver.protocol@ + "://"@ + socket_text(addr) + "/api/localsend/v2/cancel?sessionId="@
            + sid,
{
}

impl Session {
    /// The URL an upload of `content_id` with `token` in this session is
    /// posted to, with `session_id` as given.
    pub fn upload_url(&self, session_id: &str, content_id: &str, token: &str) -> (u: String)
        ensures
            u@ == upload_url(*self, session_id@, content_id@, token@),
    {
        let mut u = String::new();
        push_endpoint(
            &mut u,
            self.receiver.protocol.as_str(),
            &self.addr,
            "/api/localsend/v2/upload?sessionId=",
        );
        u.append(session_id);
        u.append("&fileId=");
        u.append(content_id);
        u.append("&token=");
        u.append(token);
        assert(u@ =~= upload_url(*self, session_id@, content_id@, token@));
        u
    }

    /// The URL a cancel of this session, under `session_id`, is posted to.
    pub fn cancel_url(&self, session_id: &str) -> (u: String)
        ensures
            u@ == endpoint_url(
                self.receiver.protocol@,
                self.addr,
                "/api/localsend/v2/cancel?sessionId="@,
            ) + session_id@,
    {
        let mut u = String::new();
        push_endpoint(
            &mut u,
            self.receiver.protocol.as_str(),
            &self.addr,
            "/api/localsend/v2/cancel?sessionId=",
        );
        u.append(session_id);
        assert(u@ =~= endpoint_url(
            self.receiver.protocol@,
            self.addr,
            "/api/localsend/v2/cancel?sessionId="@,
        ) + session_id@);
        u
    }
}

/// The URL an offer to `device` at `addr` is posted to.
pub fn prepare_upload_url(device: &Device, addr: &SocketAddrV4) -> (u: String)
    ensures
        u@ == endpoint_url(device.protocol@, *addr, "/api/localsend/v2/prepare-upload"@),
{
    let mut u = String::new();
    push_endpoint(&mut u, device.protocol.as_str(), addr, "/api/localsend/v2/prepare-upload");
    assert(u@ =~= endpoint_url(device.protocol@, *addr, "/api/localsend/v2/prepare-upload"@));
    u
}

/// The session a cancel by the sender is sent for, or `SessionNotFound`.
pub fn session_to_cancel<'a>(sessions: &'a Sessions, session_id: &str) -> (r: Result<
    &'a Session,
    LocalSendError,
>)
    ensures
        match r {
            Ok(s) => sessions@.dom().contains(session_id@) && *s == sessions@[session_id@],
            Err(e) => !sessions@.dom().contains(session_id@) && e == LocalSendError::SessionNotFound,
        },
{
    match sessions.get(session_id) {
        Some(s) => Ok(s),
        None => Err(LocalSendError::SessionNotFound),
    }
}

/// What the answer of the receiver to a cancel means: only 200 is success.
pub fn cancel_outcome(status: u16) -> (r: Result<(), LocalSendError>)
    ensures
        status == 200 ==> r is Ok,
        status != 200 ==> r == Err::<(), LocalSendError>(LocalSendError::CancelFailed),
{
    if status != 200 {
        Err(LocalSendError::CancelFailed)
    } else {
        Ok(())
    }
}

/// What the answer of the receiver to an upload means: only 200 is success.
pub fn upload_outcome(status: u16) -> (r: Result<(), LocalSendError>)
    ensures
        status == 200 ==> r is Ok,
        status != 200 ==> r == Err::<(), LocalSendError>(LocalSendError::UploadFailed),
{
    if status != 200 {
        Err(LocalSendError::UploadFailed)
    } else {
        Ok(())
    }
}

/// What a sender tells its user about a transfer.
#[derive(Debug)]
pub enum SendNotice {
    /// The receiver accepted the offer of the content with this id.
    Approved(String),
    /// The offer failed or was refused.
    Denied,
    /// The content was delivered in the session.
    Success { content: String, session: String },
    /// The transfer failed.
    Failed { error: String },
}

/// The text of the failure where the receiver issued no token for the
/// content.
pub open spec fn missing_token_text() -> Seq<char> {
    "missing token in prepare response from remote"@
}

/// What a sender does once its offer of `content_id` is answered
/// (`None` where it failed or was refused): the notices to give, in order,
/// and the token to upload with, if it goes on.
pub fn after_prepare(content_id: &str, response: Option<&PrepareUploadResponse>) -> (r: (
    Vec<SendNotice>,
    Option<String>,
))
    ensures
        response is None ==> r.0@.len() == 1 && r.0@[0] is Denied && r.1 is None,
        response matches Some(resp) ==> {
            &&& r.0@.len() >= 1
            &&& r.0@[0] matches SendNotice::Approved(c) && c@ == content_id@
            &&& resp.files@.dom().contains(content_id@) ==> r.0@.len() == 1 && (r.1 matches Some(
                t,
            ) && t@ == resp.files@[content_id@]@)
            &&& !resp.files@.dom().contains(content_id@) ==> r.0@.len() == 2 && r.1 is None && (
            r.0@[1] matches SendNotice::Failed { error } && error@ == missing_token_text())
        },
{
    let mut notices: Vec<SendNotice> = Vec::new();
    match response {
        None => {
            notices.push(SendNotice::Denied);
            (notices, None)
        },
        Some(resp) => {
            notices.push(SendNotice::Approved(String::from_str(content_id)));
            match resp.files.get(content_id) {
                Some(t) => (notices, Some(t.clone())),
                None => {
                    notices.push(
                        SendNotice::Failed {
                            error: String::from_str("missing token in prepare response from remote"),
                        },
                    );
                    (notices, None)
                },
            }
        },
    }
}

/// The notice a sender gives once the upload of `content_id` in
/// `session_id` ended, with the error text where it failed.
pub fn after_upload(content_id: &str, session_id: &str, outcome: Result<(), String>) -> (n:
    SendNotice)
    ensures
        outcome is Ok ==> (n matches SendNotice::Success { content, session } && content@
            == content_id@ && session@ == session_id@),
        outcome matches Err(e) ==> (n matches SendNotice::Failed { error } && error == e),
{
    match outcome {
        Ok(()) => SendNotice::Success {
            content: String::from_str(content_id),
            session: String::from_str(session_id),
        },
        Err(e) => SendNotice::Failed { error: e },
    }
}

} // verus!

//! How what the transport answered to a request becomes bytes or a failure.
use vstd::prelude::*;

verus! {

/// The status code with which a server says that nothing is at a path.
pub const NOT_FOUND: u16 = 404;

/// A failure that is not a missing asset: the transport, the status or the body.
#[derive(Debug)]
pub enum IoFailure {
    /// The request did not reach an answer (name lookup, connection, timeout).
    Unreachable { path: String, detail: String },
    /// The server answered with a status that is neither success nor not found.
    BadStatus(u16),
    /// The status was a success but the body could not be read.
    BodyUnreadable { path: String, detail: String },
}

/// A failure to read an asset.
#[derive(Debug)]
pub enum ReadError {
    /// The server has nothing at the requested path, which the error carries.
    NotFound(String),
    /// Any other failure.
    Io(IoFailure),
}

/// What the transport answered to one request: a failure before any status,
/// or a status together with the outcome of reading the body.
#[derive(Debug)]
pub enum Reply {
    Failed(String),
    Answered { status: u16, body: Result<Vec<u8>, String> },
}

/// Whether `status` lies in the success range of HTTP.
pub open spec fn is_success(status: u16) -> bool {
    200 <= status < 300
}

/// The failure for a request on `path` that did not reach an answer.
pub open spec fn is_unreachable(e: ReadError, path: Seq<char>, detail: Seq<char>) -> bool {
    e matches ReadError::Io(IoFailure::Unreachable { path: q, detail: d }) && q@ == path && d@
        == detail
}

/// The failure for a request on `path` whose body could not be read.
pub open spec fn is_body_unreadable(e: ReadError, path: Seq<char>, detail: Seq<char>) -> bool {
    e matches ReadError::Io(IoFailure::BodyUnreadable { path: q, detail: d }) && q@ == path && d@
        == detail
}

/// The failure for a request on `path` that the server answered with `status`,
/// which is not a success.
pub open spec fn is_status_failure(e: ReadError, path: Seq<char>, status: u16) -> bool {
    if status == NOT_FOUND {
        e matches ReadError::NotFound(q) && q@ == path
    } else {
        e == ReadError::Io(IoFailure::BadStatus(status))
    }
}

/// What reading the asset at request path `path` gives when the transport
/// answered `reply`.
pub open spec fn read_outcome(path: Seq<char>, reply: Reply, r: Result<Vec<u8>, ReadError>) -> bool {
    match reply {
        Reply::Failed(d) => r matches Err(e) && is_unreachable(e, path, d@),
        Reply::Answered { status, body } => if !is_success(status) {
            r matches Err(e) && is_status_failure(e, path, status)
        } else {
            match body {
                Ok(b) => r matches Ok(v) && v@ == b@,
                Err(d) => r matches Err(e) && is_body_unreadable(e, path, d@),
            }
        },
    }
}

fn copy_str(s: &str) -> (r: String)
    ensures
        r@ == s@,
{
    let mut r = String::new();
    r.append(s);
    r
}

impl ReadError {
    /// Whether the asset was missing.
    pub fn is_not_found(&self) -> (r: bool)
        ensures
            r == (self is NotFound),
    {
        match self {
            ReadError::NotFound(_) => true,
            ReadError::Io(_) => false,
        }
    }
}

/// The failure for a request on `path` that failed before any status came,
/// with the transport's description of what went wrong.
pub fn transport_failure(path: &str, detail: String) -> (e: ReadError)
    ensures
        is_unreachable(e, path@, detail@),
{
    ReadError::Io(IoFailure::Unreachable { path: copy_str(path), detail })
}

/// Decides on the status of an answer to a request on `path`: `Ok` where the
/// body is to be read, else the failure.
pub fn check_status(path: &str, status: u16) -> (r: Result<(), ReadError>)
    ensures
        r is Ok <==> is_success(status),
        r matches Err(e) ==> is_status_failure(e, path@, status),
{
    if 200 <= status && status < 300 {
        Ok(())
    } else if status == NOT_FOUND {
        Err(ReadError::NotFound(copy_str(path)))
    } else {
        Err(ReadError::Io(IoFailure::BadStatus(status)))
    }
}

/// The outcome of reading the body of a successful answer to a request on `path`.
pub fn finish_body(path: &str, body: Result<Vec<u8>, String>) -> (r: Result<Vec<u8>, ReadError>)
    ensures
        body matches Ok(b) ==> (r matches Ok(v) && v@ == b@),
        body matches Err(d) ==> (r matches Err(e) && is_body_unreadable(e, path@, d@)),
{
    match body {
        Ok(bytes) => Ok(bytes),
        Err(detail) => Err(ReadError::Io(IoFailure::BodyUnreadable { path: copy_str(path), detail })),
    }
}

/// The outcome of reading the asset at request path `path`, given all that the
/// transport answered.
pub fn complete_read(path: &str, reply: Reply) -> (r: Result<Vec<u8>, ReadError>)
    ensures
        read_outcome(path@, reply, r),
{
    match reply {
        Reply::Failed(detail) => Err(transport_failure(path, detail)),
        Reply::Answered { status, body } => match check_status(path, status) {
            Err(e) => Err(e),
            Ok(()) => finish_body(path, body),
        },
    }
}

/// An answer with status 200 gives exactly the bytes of its body.
pub proof fn ok_answer_gives_body(path: Seq<char>, body: Vec<u8>, r: Result<Vec<u8>, ReadError>)
    requires
        read_outcome(path, Reply::Answered { status: 200, body: Ok(body) }, r),
    ensures
        r matches Ok(v) && v@ == body@,
{
}

/// An answer with status 404 gives a missing asset that carries the request path.
pub proof fn not_found_answer_carries_path(
    path: Seq<char>,
    body: Result<Vec<u8>, String>,
    r: Result<Vec<u8>, ReadError>,
)
    requires
        read_outcome(path, Reply::Answered { status: 404, body }, r),
    ensures
        r matches Err(ReadError::NotFound(q)) && q@ == path,
{
}

/// An answer with status 500 gives an I/O failure, not a missing asset.
pub proof fn server_error_answer_is_io_failure(
    path: Seq<char>,
    body: Result<Vec<u8>, String>,
    r: Result<Vec<u8>, ReadError>,
)
    requires
        read_outcome(path, Reply::Answered { status: 500, body }, r),
    ensures
        r matches Err(ReadError::Io(_)),
{
}

} // verus!

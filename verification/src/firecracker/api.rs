//! Control-plane client logic for the hypervisor's HTTP API: request
//! construction and response classification. The transport itself (HTTP
//! over a Unix domain socket) is not part of this library; callers hand
//! the observed status code and body text to the classification functions
//! here.

pub mod codec;
pub mod model;

pub use self::model::{
    ActionType, BootSource, Drive, InstanceActionInfo, InstanceInfo, InstanceState, RateLimiter,
    TokenBucket,
};

use vstd::prelude::*;
use vstd::string::*;

verus! {

/// Errors of the control-plane exchange, split so that callers can tell
/// transport faults, malformed bodies, client faults and server faults
/// apart programmatically.
#[derive(Debug, PartialEq, Eq)]
pub enum Error {
    /// The HTTP exchange itself failed; carries the transport's message.
    Transport(String),
    /// A response body could not be decoded as the expected JSON document.
    InvalidJson,
    /// The server answered with a status that fits neither success nor a
    /// proper error class; carries a description of the observed status.
    UnexpectedResponse(String),
    /// The server rejected the request (4xx status).
    Client { fault_message: String },
    /// The server failed to carry the request out (5xx status).
    Server { fault_message: String },
}

/// View of [`Error::message`] results, one rendering per variant.
pub open spec fn spec_error_message(e: Error) -> Seq<char> {
    match e {
        Error::Transport(_) => "HTTP transport error"@,
        Error::InvalidJson => "invalid JSON"@,
        Error::UnexpectedResponse(s) => "unexpected HTTP response: "@ + s@,
        Error::Client { fault_message } => "client error: "@ + fault_message@,
        Error::Server { fault_message } => "server error: "@ + fault_message@,
    }
}

/// One request of the control-plane protocol, ready for a transport to
/// carry: the HTTP method, the path on the server, the two fixed headers
/// and the body document, where the operation has one.
pub struct ApiRequest {
    pub method: String,
    pub path: String,
    /// Value of the `Accept` header; always `application/json`.
    pub accept: String,
    /// Value of the `Content-Type` header; always `application/json`.
    pub content_type: String,
    pub body: Option<String>,
}

/// The fixed parts shared by every request.
fn base_request(method: &str, path: String, body: Option<String>) -> (r: ApiRequest)
    ensures
        r.method@ == method@,
        r.path == path,
        r.accept@ == "application/json"@,
        r.content_type@ == "application/json"@,
        r.body == body,
{
    ApiRequest {
        method: method.to_owned(),
        path,
        accept: "application/json".to_owned(),
        content_type: "application/json".to_owned(),
        body,
    }
}

/// The request that asks for general information about the instance.
pub fn instance_info_request() -> (r: ApiRequest)
    ensures
        r.method@ == "GET"@,
        r.path@ == "/"@,
        r.accept@ == "application/json"@,
        r.content_type@ == "application/json"@,
        r.body is None,
{
    base_request("GET", "/".to_owned(), None)
}

/// The request that creates a new boot source if one does not already
/// exist, and otherwise updates it. The server will refuse the update if
/// it is not possible; pre-boot only.
pub fn set_boot_source_request(source: &BootSource) -> (r: ApiRequest)
    ensures
        r.method@ == "PUT"@,
        r.path@ == "/boot-source"@,
        r.accept@ == "application/json"@,
        r.content_type@ == "application/json"@,
        r.body matches Some(b) && b@ == codec::spec_encode_boot_source(source@),
{
    base_request("PUT", "/boot-source".to_owned(), Some(source.encode_json()))
}

/// The request that creates a drive with the given drive ID, or updates
/// the existing drive of that ID; the ID names the resource in the path
/// and stands in the body as well. The server will refuse an impossible
/// update.
pub fn set_drive_request(drive: &Drive) -> (r: ApiRequest)
    ensures
        r.method@ == "PUT"@,
        r.path@ == "/drives/"@ + drive.drive_id@,
        r.accept@ == "application/json"@,
        r.content_type@ == "application/json"@,
        r.body matches Some(b) && b@ == codec::spec_encode_drive(*drive),
{
    let mut path = "/drives/".to_owned();
    path.append(drive.drive_id.as_str());
    base_request("PUT", path, Some(drive.encode_json()))
}

/// The request that triggers a synchronous action on the server.
pub fn action_request(action: ActionType) -> (r: ApiRequest)
    ensures
        r.method@ == "PUT"@,
        r.path@ == "/actions"@,
        r.accept@ == "application/json"@,
        r.content_type@ == "application/json"@,
        r.body matches Some(b) && b@ == codec::spec_encode_instance_action_info(action),
{
    let info = InstanceActionInfo { action_type: action };
    base_request("PUT", "/actions".to_owned(), Some(info.encode_json()))
}

/// How a non-success response is classified: a body that is no error
/// document is invalid JSON; otherwise a 4xx status is the client's
/// fault, a 5xx status the server's, and any other status is an
/// unexpected response that names the observed status.
pub open spec fn spec_classified_error(status: u16, body: Seq<char>, e: Error) -> bool {
    match codec::spec_decode_fault(body) {
        None => e == Error::InvalidJson,
        Some(m) => if 400 <= status && status <= 499 {
            e matches Error::Client { fault_message } && fault_message@ == m
        } else if 500 <= status && status <= 599 {
            e matches Error::Server { fault_message } && fault_message@ == m
        } else {
            e matches Error::UnexpectedResponse(t) && t@ == "Got "@ + crate::text::spec_dec_u64(
                status as nat,
            ) + " from server, expected an error"@
        },
    }
}

/// Classifies a non-success response from its status code and body.
pub fn classify_error_response(status: u16, body: &str) -> (e: Error)
    ensures
        spec_classified_error(status, body@, e),
{
    let fault = match model::Error::decode_json(body) {
        Some(f) => f,
        None => { return Error::InvalidJson },
    };
    if 400 <= status && status <= 499 {
        Error::Client { fault_message: fault.fault_message }
    } else if 500 <= status && status <= 599 {
        Error::Server { fault_message: fault.fault_message }
    } else {
        let mut t = "Got ".to_owned();
        crate::text::push_dec_u64(&mut t, status as u64);
        t.append(" from server, expected an error");
        Error::UnexpectedResponse(t)
    }
}

/// Handles the response of one of the PUT operations: 204 means the
/// operation was applied and carries no body worth decoding; every other
/// status is classified as an error.
pub fn handle_put_response(status: u16, body: &str) -> (r: Result<(), Error>)
    ensures
        r is Ok <==> status == 204,
        r matches Err(e) ==> spec_classified_error(status, body@, e),
{
    if status == 204 {
        Ok(())
    } else {
        Err(classify_error_response(status, body))
    }
}

/// Handles the response of the instance-information query: a 200 status
/// carries the instance document; a 200 body that does not decode is
/// invalid JSON; every other status is classified as an error.
pub fn handle_instance_info_response(status: u16, body: &str) -> (r: Result<InstanceInfo, Error>)
    ensures
        r is Ok <==> status == 200 && codec::spec_decode_instance_info(body@) is Some,
        r matches Ok(info) ==> codec::spec_decode_instance_info(body@) == Some(info@),
        status == 200 && codec::spec_decode_instance_info(body@) is None ==> r == Err::<
            InstanceInfo,
            Error,
        >(Error::InvalidJson),
        status != 200 ==> (r matches Err(e) && spec_classified_error(status, body@, e)),
{
    if status == 200 {
        match InstanceInfo::decode_json(body) {
            Some(info) => Ok(info),
            None => Err(Error::InvalidJson),
        }
    } else {
        Err(classify_error_response(status, body))
    }
}

impl Clone for Error {
    /// A clone carries the same variant and payload.
    fn clone(&self) -> (r: Self)
        ensures
            r == *self,
    {
        match self {
            Error::Transport(m) => Error::Transport(m.clone()),
            Error::InvalidJson => Error::InvalidJson,
            Error::UnexpectedResponse(m) => Error::UnexpectedResponse(m.clone()),
            Error::Client { fault_message } => Error::Client {
                fault_message: fault_message.clone(),
            },
            Error::Server { fault_message } => Error::Server {
                fault_message: fault_message.clone(),
            },
        }
    }
}

impl Error {
    /// Human-readable description of the error.
    pub fn message(&self) -> (r: String)
        ensures
            r@ == spec_error_message(*self),
    {
        match self {
            Error::Transport(_) => "HTTP transport error".to_owned(),
            Error::InvalidJson => "invalid JSON".to_owned(),
            Error::UnexpectedResponse(s) => {
                let mut r = "unexpected HTTP response: ".to_owned();
                r.append(s.as_str());
                r
            },
            Error::Client { fault_message } => {
                let mut r = "client error: ".to_owned();
                r.append(fault_message.as_str());
                r
            },
            Error::Server { fault_message } => {
                let mut r = "server error: ".to_owned();
                r.append(fault_message.as_str());
                r
            },
        }
    }
}

} // verus!

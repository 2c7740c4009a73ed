//! The cancellable server probe.
//!
//! A probe checks that a user-supplied endpoint answers as a media server and
//! reads its identity. The network work is done by the caller; this module
//! makes every decision between those steps. One process-wide [`CancelFlag`]
//! is reset when a probe starts and is read at each suspension point: once
//! the client is built (before the request goes out) and once the response
//! has arrived. A probe that sees the flag set fails with
//! [`ProbeError::Cancelled`].

use vstd::prelude::*;
use crate::text::{join_url, join_url_spec};

verus! {

/// Identity of a media server, as its public information document gives it.
#[derive(Debug)]
pub struct ServerInfo {
    pub name: String,
    pub version: String,
    pub id: String,
}

/// Why a probe failed.
#[derive(Debug)]
pub enum ProbeError {
    /// The HTTP client could not be built.
    BuildFailed(String),
    /// The request could not be sent or no response came.
    ConnectFailed(String),
    /// The server answered with a status outside 200..=299.
    NonSuccessStatus(u16),
    /// The body was not a server information document.
    InvalidResponseBody(String),
    /// The probe was cancelled while in flight.
    Cancelled,
}

/// Sub-path of an endpoint that serves the public identity document.
pub open spec fn identity_path() -> Seq<char> {
    "/System/Info/Public"@
}

/// URL that a probe of `endpoint` fetches.
pub open spec fn identity_url(endpoint: Seq<char>) -> Seq<char> {
    join_url_spec(endpoint, identity_path())
}

/// Page of the web client that a server serves at `endpoint`.
pub open spec fn web_client_url_spec(endpoint: Seq<char>) -> Seq<char> {
    join_url_spec(endpoint, "/web/index.html"@)
}

/// The web client's page on the server at `endpoint`.
pub fn web_client_url(endpoint: &str) -> (r: String)
    ensures
        r@ == web_client_url_spec(endpoint@),
{
    join_url(endpoint, "/web/index.html")
}

/// An HTTP status counts as success when it lies in 200..=299.
pub open spec fn is_success_status(status: u16) -> bool {
    200 <= status < 300
}

/// Flag value once a probe has started.
pub open spec fn flag_after_start(cancelled: bool) -> bool {
    false
}

/// Flag value once a cancel has been requested.
pub open spec fn flag_after_cancel(cancelled: bool) -> bool {
    true
}

/// Outcome of the first suspension point: the client was built (or not) and
/// the request is about to go out.
pub open spec fn client_outcome(cancelled: bool, built: Result<(), String>) -> Result<(), ProbeError> {
    match built {
        Err(e) => Err(ProbeError::BuildFailed(e)),
        Ok(_) => if cancelled {
            Err(ProbeError::Cancelled)
        } else {
            Ok(())
        },
    }
}

/// Outcome of the second suspension point: the request was answered with a
/// status (or failed).
pub open spec fn response_outcome(cancelled: bool, responded: Result<u16, String>) -> Result<(), ProbeError> {
    match responded {
        Err(e) => Err(ProbeError::ConnectFailed(e)),
        Ok(status) => if cancelled {
            Err(ProbeError::Cancelled)
        } else if !is_success_status(status) {
            Err(ProbeError::NonSuccessStatus(status))
        } else {
            Ok(())
        },
    }
}

/// Outcome of reading the body.
pub open spec fn body_outcome(parsed: Result<ServerInfo, String>) -> Result<ServerInfo, ProbeError> {
    match parsed {
        Err(e) => Err(ProbeError::InvalidResponseBody(e)),
        Ok(info) => Ok(info),
    }
}

/// The process-wide cancellation flag of server probes.
pub struct CancelFlag {
    cancelled: bool,
}

impl View for CancelFlag {
    type V = bool;

    closed spec fn view(&self) -> bool {
        self.cancelled
    }
}

impl CancelFlag {
    pub fn new() -> (r: CancelFlag)
        ensures
            r@ == false,
    {
        CancelFlag { cancelled: false }
    }

    /// Requests cancellation of the probe in flight, if any.
    pub fn cancel(&mut self)
        ensures
            final(self)@ == flag_after_cancel(old(self)@),
    {
        self.cancelled = true;
    }

    pub fn is_cancelled(&self) -> (r: bool)
        ensures
            r == self@,
    {
        self.cancelled
    }
}

/// One probe of one endpoint.
pub struct ServerProbe {
    info_url: String,
}

impl View for ServerProbe {
    type V = Seq<char>;

    /// The identity URL that this probe fetches.
    closed spec fn view(&self) -> Seq<char> {
        self.info_url@
    }
}

impl ServerProbe {
    /// Starts a probe of `endpoint`: resets the shared flag and fixes the
    /// identity URL.
    pub fn start(endpoint: &str, flag: &mut CancelFlag) -> (r: ServerProbe)
        ensures
            r@ == identity_url(endpoint@),
            final(flag)@ == flag_after_start(old(flag)@),
    {
        flag.cancelled = false;
        ServerProbe { info_url: join_url(endpoint, "/System/Info/Public") }
    }

    /// The identity URL that this probe fetches.
    pub fn info_url(&self) -> (r: &str)
        ensures
            r@ == self@,
    {
        self.info_url.as_str()
    }

    /// Decides, once the client is built, whether the request goes out; on
    /// `Ok` it carries the URL to fetch.
    pub fn after_client_built(&self, flag: &CancelFlag, built: Result<(), String>) -> (r: Result<String, ProbeError>)
        ensures
            client_outcome(flag@, built) is Ok ==> r is Ok && r->Ok_0@ == self@,
            client_outcome(flag@, built) is Err ==> r == Err::<String, ProbeError>(client_outcome(flag@, built)->Err_0),
    {
        match built {
            Err(e) => Err(ProbeError::BuildFailed(e)),
            Ok(_) => if flag.cancelled {
                Err(ProbeError::Cancelled)
            } else {
                Ok(self.info_url.clone())
            },
        }
    }

    /// Decides, once the response has arrived, whether its body is read.
    pub fn after_response(&self, flag: &CancelFlag, responded: Result<u16, String>) -> (r: Result<(), ProbeError>)
        ensures
            r == response_outcome(flag@, responded),
    {
        match responded {
            Err(e) => Err(ProbeError::ConnectFailed(e)),
            Ok(status) => if flag.cancelled {
                Err(ProbeError::Cancelled)
            } else if !(200 <= status && status < 300) {
                Err(ProbeError::NonSuccessStatus(status))
            } else {
                Ok(())
            },
        }
    }

    /// Result of the probe once the body has been parsed.
    pub fn after_body(&self, parsed: Result<ServerInfo, String>) -> (r: Result<ServerInfo, ProbeError>)
        ensures
            r == body_outcome(parsed),
    {
        match parsed {
            Err(e) => Err(ProbeError::InvalidResponseBody(e)),
            Ok(info) => Ok(info),
        }
    }
}

/// A cancel requested after a probe started and before that probe reached a
/// suspension point makes the probe fail with `Cancelled` there, whatever
/// status the server would have answered with.
pub proof fn lemma_cancel_reaches_probe_in_flight(flag: bool, status: u16)
    ensures
        client_outcome(flag_after_cancel(flag_after_start(flag)), Ok(()))
            == Err::<(), ProbeError>(ProbeError::Cancelled),
        response_outcome(flag_after_cancel(flag_after_start(flag)), Ok(status))
            == Err::<(), ProbeError>(ProbeError::Cancelled),
{
}

/// A cancel requested before a probe starts does not reach that probe.
pub proof fn lemma_earlier_cancel_is_forgotten(flag: bool)
    ensures
        client_outcome(flag_after_start(flag_after_cancel(flag)), Ok(())) == Ok::<(), ProbeError>(()),
{
}

/// Starting a second probe while a first is in flight resets the shared flag,
/// so the first probe, if its steps succeed, still returns its own result:
/// the two probes race and neither excludes the other.
pub proof fn lemma_superseded_probe_keeps_success(flag: bool, status: u16, info: ServerInfo)
    requires
        is_success_status(status),
    ensures
        client_outcome(flag_after_start(flag_after_start(flag)), Ok(())) == Ok::<(), ProbeError>(()),
        response_outcome(flag_after_start(flag_after_start(flag)), Ok(status)) == Ok::<(), ProbeError>(()),
        body_outcome(Ok(info)) == Ok::<ServerInfo, ProbeError>(info),
{
}

} // verus!

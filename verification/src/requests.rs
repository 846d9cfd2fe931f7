//! Requests to the client API that directs the runners.
//!
//! The library builds the address of each request and judges the answer.
//! Sending is the driver's part.

use vstd::prelude::*;
use crate::error::{ErrorKind, ErrorView, ExeUnitError};
use crate::text::joined;

verus! {

/// The base address of the client API. It is set once, from the
/// environment, before the first request.
pub struct ClientApi {
    pub url: Option<String>,
}

impl ClientApi {
    /// An API whose address is not set yet.
    pub fn new() -> (r: Self)
        ensures
            r.url is None,
    {
        ClientApi { url: None }
    }

    /// Whether the address is set.
    pub fn is_set(&self) -> (r: bool)
        ensures
            r == self.url is Some,
    {
        self.url.is_some()
    }
}

/// Sets the address of the client API from the value of the variable
/// `CRUNCHER_CLIENT_API_URL`, or from the words that say why it could not
/// be read. The address can be set only once.
pub fn init_client_api_url(api: &mut ClientApi, variable: Result<String, String>) -> (r: Result<
    (),
    String,
>)
    requires
        old(api).url is None,
    ensures
        match variable {
            Ok(url) => r is Ok && final(api).url == Some(url),
            Err(words) => {
                &&& final(api).url is None
                &&& r matches Err(message)
                &&& message@ == "CRUNCHER_CLIENT_API_URL not set: "@ + words@
                    + ". Without this variable runtime cannot connect to client API"@
            },
        },
{
    match variable {
        Ok(url) => {
            api.url = Some(url);
            Ok(())
        },
        Err(words) => {
            let head = joined("CRUNCHER_CLIENT_API_URL not set: ", words.as_str());
            Err(
                joined(
                    head.as_str(),
                    ". Without this variable runtime cannot connect to client API",
                ),
            )
        },
    }
}

/// The address of the client API, which must have been set.
pub fn get_client_api_url(api: &ClientApi) -> (r: &String)
    requires
        api.url is Some,
    ensures
        *r == api.url->0,
{
    api.url.as_ref().unwrap()
}

/// What the runners are to work on.
#[derive(Debug, Clone)]
pub enum WorkTarget {
    Factory(String),
    PublicKeyBase(String),
    Default,
}

/// A request to the client API.
#[derive(Clone, Copy, Debug, PartialEq, Eq, Hash, Structural)]
pub enum WorkRequest {
    /// Set the work target.
    SetTarget,
    /// Start the runners.
    Start,
    /// Stop the runners.
    Stop,
}

impl WorkRequest {
    /// The path of the request below the API's base address.
    pub open spec fn path(self) -> Seq<char> {
        match self {
            WorkRequest::SetTarget => "/api/runners/target/set"@,
            WorkRequest::Start => "/api/runners/start"@,
            WorkRequest::Stop => "/api/runners/stop"@,
        }
    }

    /// The words that introduce a refusal of the request.
    pub open spec fn refusal(self) -> Seq<char> {
        match self {
            WorkRequest::SetTarget => "Failed to set WorkTarget: "@,
            WorkRequest::Start => "Failed to start runners: "@,
            WorkRequest::Stop => "Failed to stop runners: "@,
        }
    }

    /// The address to post the request to: the base address, then the
    /// request's path.
    pub fn url(self, api_base: &str) -> (r: String)
        ensures
            r@ == api_base@ + self.path(),
    {
        let path = match self {
            WorkRequest::SetTarget => "/api/runners/target/set",
            WorkRequest::Start => "/api/runners/start",
            WorkRequest::Stop => "/api/runners/stop",
        };
        joined(api_base, path)
    }

    /// Judges the answer to the request. A status code from 200 to 299 is
    /// a success. Any other is an error whose detail names the request,
    /// then gives the status as the driver prints it, a space, and the
    /// answer's body, or nothing where the body could not be read.
    pub fn judge(self, status_code: u16, status: &str, body: Option<String>) -> (r: Result<
        (),
        ExeUnitError,
    >)
        ensures
            match r {
                Ok(_) => 200 <= status_code <= 299,
                Err(error) => !(200 <= status_code <= 299) && error@ == (ErrorView {
                    kind: ErrorKind::ClientApi,
                    detail: self.refusal() + status@ + " "@ + match body {
                        Some(text) => text@,
                        None => ""@,
                    },
                }),
            },
    {
        if 200 <= status_code && status_code <= 299 {
            return Ok(());
        }
        let refusal = match self {
            WorkRequest::SetTarget => "Failed to set WorkTarget: ",
            WorkRequest::Start => "Failed to start runners: ",
            WorkRequest::Stop => "Failed to stop runners: ",
        };
        let head = joined(refusal, status);
        let spaced = joined(head.as_str(), " ");
        let detail = match &body {
            Some(text) => joined(spaced.as_str(), text.as_str()),
            None => joined(spaced.as_str(), ""),
        };
        Err(ExeUnitError::new(ErrorKind::ClientApi, detail))
    }
}

/// The error for a request that could not be sent, from the words that
/// say why.
pub fn send_failure(words: &str) -> (r: ExeUnitError)
    ensures
        r@ == (ErrorView {
            kind: ErrorKind::ClientApi,
            detail: "Failed to send request "@ + words@,
        }),
{
    ExeUnitError::new(ErrorKind::ClientApi, joined("Failed to send request ", words))
}

} // verus!

//! What the agent is asked to do on its command line.

use vstd::prelude::*;
use std::path::PathBuf;
use crate::text::{joined, same_text};

verus! {

/// `std::path::PathBuf`, carried through as it comes: the library never
/// looks inside a path.
#[verifier::external_type_specification]
#[verifier::external_body]
pub struct ExPathBuf(std::path::PathBuf);

/// Where an activity finds its agreement and keeps its files.
#[derive(Debug)]
pub struct RunArgs {
    /// Agreement file path
    pub agreement: PathBuf,
    /// Working directory
    pub work_dir: PathBuf,
    /// Common cache directory
    pub cache_dir: PathBuf,
}

/// What the agent is to do.
#[derive(Debug)]
pub enum Command {
    /// Bind to Service Bus
    ServiceBus {
        /// ExeUnit service ID
        service_id: String,
        /// ExeUnit daemon GSB URL
        report_url: String,
        args: RunArgs,
    },
    /// Print an offer template in JSON format
    OfferTemplate,
    /// Run runtime's tests command
    Test,
}

/// The activity that a `ServiceBus` command asks to serve.
pub struct Service<'a> {
    /// The activity's identifier: the service ID.
    pub activity_id: &'a String,
    /// Where state and usage are reported.
    pub report_url: &'a String,
    pub args: &'a RunArgs,
}

impl Command {
    /// The activity to serve, if the command asks for one. The other
    /// commands are answered at once and serve nothing.
    pub fn service(&self) -> (r: Option<Service<'_>>)
        ensures
            match *self {
                Command::ServiceBus { service_id, report_url, args } => r == Some(
                    Service { activity_id: &service_id, report_url: &report_url, args: &args },
                ),
                _ => r is None,
            },
    {
        match self {
            Command::ServiceBus { service_id, report_url, args } => Some(
                Service { activity_id: service_id, report_url, args },
            ),
            _ => None,
        }
    }
}

/// The runtimes that the agent can drive.
#[derive(Clone, Copy, Debug, PartialEq, Eq, Hash, Structural)]
pub enum RuntimeKind {
    Dummy,
}

/// What `str::to_lowercase` gives for a text.
pub uninterp spec fn lowercase_text(text: Seq<char>) -> Seq<char>;

/// Lowercases with std's `str::to_lowercase`. The contract only names the
/// result: the Unicode case mapping is std's and is not restated here.
#[verifier::external_body]
fn lowercased(text: &str) -> (r: String)
    ensures
        r@ == lowercase_text(text@),
{
    text.to_lowercase()
}

/// The runtime that goes by the lowercased name `lowered`, if there is
/// one: only `dummy` names a runtime.
pub fn runtime_named(lowered: &String) -> (r: Option<RuntimeKind>)
    ensures
        r == if lowered@ == "dummy"@ {
            Some(RuntimeKind::Dummy)
        } else {
            None
        },
{
    if same_text(lowered, "dummy") {
        Some(RuntimeKind::Dummy)
    } else {
        None
    }
}

/// Picks the runtime by its name, in whatever case it is written. A name
/// that is no runtime's is refused with the words `Unsupported framework`
/// and the name as it was given.
pub fn select_runtime(name: &str) -> (r: Result<RuntimeKind, String>)
    ensures
        match r {
            Ok(kind) => lowercase_text(name@) == "dummy"@ && kind == RuntimeKind::Dummy,
            Err(message) => lowercase_text(name@) != "dummy"@ && message@
                == "Unsupported framework "@ + name@,
        },
{
    let lowered = lowercased(name);
    match runtime_named(&lowered) {
        Some(kind) => Ok(kind),
        None => Err(joined("Unsupported framework ", name)),
    }
}

} // verus!

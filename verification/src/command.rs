//! From what the user asked for to what is to be sent.

use vstd::prelude::*;
use crate::address::{ResourceAddress, UrlView};
use crate::content_type::{infer_mime, inferred_media_type};
use crate::endpoint::Endpoint;
use crate::error::AddressError;
use crate::resolver::{family_root, resolve, resolved, root_of, AddressFamily};
use crate::transfer::{
    bare_request, delete, deletion, fetch_stream, fetch_text, file_submission, probe, submit_stream,
    submit_text, text_submission, Method, Request, RequestView,
};

verus! {

/// What the user asked for, with everything it needs in hand.
#[derive(Debug)]
pub enum Operation {
    /// Show the text stored under a token.
    Get { token: String },
    /// Store a text.
    Send { message: String },
    /// Delete the text stored under a token.
    Delete { token: String },
    /// Show the address of the text stored last, whose token this is.
    Last { token: String },
    /// Download the file stored under a name.
    FileGet { filename: String },
    /// Upload the file of this name.
    FileSend { filename: String },
    /// Delete the file stored under a name.
    FileDelete { filename: String },
}

/// What is to be done for an operation.
#[derive(Debug)]
pub enum Plan {
    /// Send the request and show the body of the answer as it comes.
    Show { request: Request },
    /// Send the request; on success the answer's body is the new token, to
    /// be remembered as the last.
    Submit { request: Request },
    /// Send the request with the file's content streamed into its one part;
    /// on success the answer's body is what the store has to say.
    Upload { request: Request },
    /// Send nothing: show the address.
    Locate { address: ResourceAddress },
    /// Probe, and if the download goes ahead, fetch into the destination.
    Download { probe: Request, fetch: Request, destination: String },
}

/// What a plan is, to contracts.
pub enum PlanView {
    Show { request: RequestView },
    Submit { request: RequestView },
    Upload { request: RequestView },
    Locate { address: UrlView },
    Download { probe: RequestView, fetch: RequestView, destination: Seq<char> },
}

impl View for Plan {
    type V = PlanView;

    open spec fn view(&self) -> PlanView {
        match *self {
            Plan::Show { request } => PlanView::Show { request: request@ },
            Plan::Submit { request } => PlanView::Submit { request: request@ },
            Plan::Upload { request } => PlanView::Upload { request: request@ },
            Plan::Locate { address } => PlanView::Locate { address: address@ },
            Plan::Download { probe, fetch, destination } => PlanView::Download {
                probe: probe@,
                fetch: fetch@,
                destination: destination@,
            },
        }
    }
}

/// The plan for each operation against a base.
///
/// Tokens live in the flat namespace and file names in the versioned one.
/// Texts are posted to the base itself and files to the root of the
/// versioned namespace, which lies under the base's authority or is
/// refused. A file is downloaded under its own name.
pub open spec fn plan_for(base: UrlView, operation: Operation) -> Result<PlanView, AddressError> {
    match operation {
        Operation::Get { token } => match resolved(base, AddressFamily::Flat, token@) {
            Ok(address) => Ok(PlanView::Show { request: bare_request(Method::Get, address.text) }),
            Err(error) => Err(error),
        },
        Operation::Send { message } => Ok(
            PlanView::Submit { request: text_submission(base.text, message@) },
        ),
        Operation::Delete { token } => match resolved(base, AddressFamily::Flat, token@) {
            Ok(address) => Ok(PlanView::Show { request: deletion(address.text, None) }),
            Err(error) => Err(error),
        },
        Operation::Last { token } => match resolved(base, AddressFamily::Flat, token@) {
            Ok(address) => Ok(PlanView::Locate { address }),
            Err(error) => Err(error),
        },
        Operation::FileGet { filename } => match resolved(
            base,
            AddressFamily::Versioned,
            filename@,
        ) {
            Ok(address) => Ok(
                PlanView::Download {
                    probe: bare_request(Method::Head, address.text),
                    fetch: bare_request(Method::Get, address.text),
                    destination: filename@,
                },
            ),
            Err(error) => Err(error),
        },
        Operation::FileSend { filename } => match family_root(base, AddressFamily::Versioned) {
            Ok(root) => Ok(
                PlanView::Upload {
                    request: file_submission(root.text, filename@, inferred_media_type(filename@)),
                },
            ),
            Err(error) => Err(error),
        },
        Operation::FileDelete { filename } => match resolved(
            base,
            AddressFamily::Versioned,
            filename@,
        ) {
            Ok(address) => Ok(PlanView::Show { request: deletion(address.text, None) }),
            Err(error) => Err(error),
        },
    }
}

/// Plans an operation against the endpoint: which requests go where, or why
/// the operation has no address.
pub fn dispatch(endpoint: &Endpoint, operation: Operation) -> (outcome: Result<Plan, AddressError>)
    ensures
        match outcome {
            Ok(plan) => plan_for(endpoint@.base, operation) == Ok::<PlanView, AddressError>(plan@),
            Err(error) => plan_for(endpoint@.base, operation) == Err::<PlanView, AddressError>(
                error,
            ),
        },
{
    match operation {
        Operation::Get { token } => {
            let address = resolve(endpoint, AddressFamily::Flat, token.as_str())?;
            Ok(Plan::Show { request: fetch_text(&address) })
        },
        Operation::Send { message } => Ok(
            Plan::Submit { request: submit_text(endpoint.base(), message) },
        ),
        Operation::Delete { token } => {
            let address = resolve(endpoint, AddressFamily::Flat, token.as_str())?;
            Ok(Plan::Show { request: delete(&address, None) })
        },
        Operation::Last { token } => {
            let address = resolve(endpoint, AddressFamily::Flat, token.as_str())?;
            Ok(Plan::Locate { address })
        },
        Operation::FileGet { filename } => {
            let address = resolve(endpoint, AddressFamily::Versioned, filename.as_str())?;
            Ok(
                Plan::Download {
                    probe: probe(&address),
                    fetch: fetch_stream(&address),
                    destination: filename,
                },
            )
        },
        Operation::FileSend { filename } => {
            let root = root_of(endpoint.base(), AddressFamily::Versioned)?;
            let media_type = infer_mime(filename.as_str());
            Ok(
                Plan::Upload {
                    request: submit_stream(&root, filename.as_str(), media_type.as_str()),
                },
            )
        },
        Operation::FileDelete { filename } => {
            let address = resolve(endpoint, AddressFamily::Versioned, filename.as_str())?;
            Ok(Plan::Show { request: delete(&address, None) })
        },
    }
}

/// The URL that a plan's request goes to, where the plan has one request.
pub open spec fn request_url(plan: PlanView) -> Option<Seq<char>> {
    match plan {
        PlanView::Show { request } => Some(request.url),
        PlanView::Submit { request } => Some(request.url),
        PlanView::Upload { request } => Some(request.url),
        _ => None,
    }
}

/// No plan leaves the base's authority. A text is posted to the base
/// itself. Every other request, and the address that is shown for the last
/// token, goes to a URL that has the base's authority: a root or a resolved
/// address, never what a path or a key made of it.
pub proof fn lemma_plans_stay_with_base(base: UrlView, operation: Operation)
    ensures
        match plan_for(base, operation) {
            Ok(PlanView::Submit { request }) => request.url == base.text,
            Ok(PlanView::Upload { request }) => family_root(base, AddressFamily::Versioned)
                matches Ok(root) && root.authority == base.authority && request.url == root.text,
            Ok(PlanView::Show { request }) => exists|address: UrlView|
                address.authority == base.authority && #[trigger] address.text == request.url,
            Ok(PlanView::Locate { address }) => address.authority == base.authority,
            Ok(PlanView::Download { probe, fetch, destination }) => exists|address: UrlView|
                address.authority == base.authority && #[trigger] address.text == probe.url
                    && probe.url == fetch.url,
            Err(_) => true,
        },
{
    match operation {
        Operation::Get { token } => {
            if let Ok(address) = resolved(base, AddressFamily::Flat, token@) {
                assert(address.authority == base.authority && address.text == address.text);
            }
        },
        Operation::Delete { token } => {
            if let Ok(address) = resolved(base, AddressFamily::Flat, token@) {
                assert(address.authority == base.authority && address.text == address.text);
            }
        },
        Operation::FileGet { filename } => {
            if let Ok(address) = resolved(base, AddressFamily::Versioned, filename@) {
                assert(address.authority == base.authority && address.text == address.text);
            }
        },
        Operation::FileDelete { filename } => {
            if let Ok(address) = resolved(base, AddressFamily::Versioned, filename@) {
                assert(address.authority == base.authority && address.text == address.text);
            }
        },
        _ => {},
    }
}

} // verus!

//! The backend as the library sees it: where it is, how requests to it are
//! authorised, which metadata a new document gets, and the four requests that
//! tracking makes. The requests are described here and sent elsewhere.

use vstd::prelude::*;
use vstd::string::*;

use crate::endpoint::{append_path, is_reachable, reachable, set_query, with_path, with_query};
use crate::error::{TrackError, TrackErrorView};
use crate::job::{DocumentId, JobHandle};
use crate::submit::{file_name, file_name_of};

verus! {

/// A JSON value as `serde_json` holds it. The library carries such values and
/// never looks into them.
#[verifier::external_type_specification]
#[verifier::external_body]
pub struct ExJsonValue(serde_json::Value);

/// One custom field and the value that new documents get for it.
#[derive(Debug, PartialEq)]
pub struct CustomField {
    pub field: usize,
    pub value: serde_json::Value,
}

/// The verb of a request.
#[derive(Clone, Copy, Debug, PartialEq, Eq, Structural)]
pub enum Method {
    Get,
    Post,
    Patch,
}

/// What a request carries.
#[derive(Debug, PartialEq, Eq)]
pub enum Body {
    /// Nothing.
    Empty,
    /// A multipart form: a text field `title`, and the document's bytes as the
    /// part `document`, under the given file name and media type.
    Upload { title: String, file_name: String, media_type: String },
    /// A JSON object whose member `custom_fields` lists the client's custom
    /// fields, each as an object with the members `field` and `value`.
    CustomFields,
}

/// The mathematical value of a [`Body`].
pub enum BodyView {
    Empty,
    Upload { title: Seq<char>, file_name: Seq<char>, media_type: Seq<char> },
    CustomFields,
}

impl View for Body {
    type V = BodyView;

    open spec fn view(&self) -> BodyView {
        match self {
            Body::Empty => BodyView::Empty,
            Body::Upload { title, file_name, media_type } => BodyView::Upload {
                title: title@,
                file_name: file_name@,
                media_type: media_type@,
            },
            Body::CustomFields => BodyView::CustomFields,
        }
    }
}

/// A request to the backend, ready to be sent.
#[derive(Debug, PartialEq, Eq)]
pub struct Request {
    pub method: Method,
    pub url: String,
    /// The value of the `Authorization` header.
    pub authorization: String,
    pub body: Body,
}

/// The mathematical value of a [`Request`].
pub struct RequestView {
    pub method: Method,
    pub url: Seq<char>,
    pub authorization: Seq<char>,
    pub body: BodyView,
}

impl View for Request {
    type V = RequestView;

    open spec fn view(&self) -> RequestView {
        RequestView {
            method: self.method,
            url: self.url@,
            authorization: self.authorization@,
            body: self.body@,
        }
    }
}

/// The mathematical value of a request or the error in its place.
pub open spec fn request_view(request: Result<Request, TrackError>) -> Result<
    RequestView,
    TrackErrorView,
> {
    match request {
        Ok(request) => Ok(request@),
        Err(error) => Err(error@),
    }
}

/// The mathematical value of the request that applies the metadata: `Ok(None)`
/// where nothing is to be sent.
pub open spec fn optional_request_view(request: Result<Option<Request>, TrackError>) -> Result<
    Option<RequestView>,
    TrackErrorView,
> {
    match request {
        Ok(Some(request)) => Ok(Some(request@)),
        Ok(None) => Ok(None),
        Err(error) => Err(error@),
    }
}

/// The value of the `Authorization` header for a token.
pub open spec fn authorization_of(token: Seq<char>) -> Seq<char> {
    "Token "@ + token
}

/// The request with the given parts, if there is an address to send it to.
pub open spec fn request_to(
    method: Method,
    address: Option<Seq<char>>,
    authorization: Seq<char>,
    body: BodyView,
) -> Result<RequestView, TrackErrorView> {
    match address {
        Some(url) => Ok(RequestView { method, url, authorization, body }),
        None => Err(TrackErrorView::InvalidEndpoint),
    }
}

/// The path under which documents are uploaded.
pub open spec fn upload_path() -> Seq<Seq<char>> {
    seq!["api"@, "documents"@, "post_document"@, ""@]
}

/// The path under which jobs are listed.
pub open spec fn jobs_path() -> Seq<Seq<char>> {
    seq!["api"@, "tasks"@, ""@]
}

/// The path of one document.
pub open spec fn document_path(document: Seq<char>) -> Seq<Seq<char>> {
    seq!["api"@, "documents"@, document, ""@]
}

/// The query that selects one job from the list of jobs.
pub open spec fn job_query(handle: Seq<char>) -> Seq<char> {
    "task_id="@ + handle
}

/// The address of the record of one job.
pub open spec fn job_address(endpoint: Seq<char>, handle: Seq<char>) -> Option<Seq<char>> {
    match with_path(endpoint, jobs_path()) {
        Some(jobs) => with_query(jobs, job_query(handle)),
        None => None,
    }
}

/// A document-management backend and what is configured for it.
#[derive(Debug)]
pub struct PaperlessClient {
    endpoint: String,
    token: String,
    custom_fields: Vec<CustomField>,
}

/// The mathematical value of a [`PaperlessClient`].
pub struct PaperlessClientView {
    pub endpoint: Seq<char>,
    pub token: Seq<char>,
    pub custom_fields: Seq<CustomField>,
}

impl PaperlessClientView {
    /// The request that uploads a document under `title`.
    pub open spec fn upload(self, title: Seq<char>) -> Result<RequestView, TrackErrorView> {
        request_to(
            Method::Post,
            with_path(self.endpoint, upload_path()),
            authorization_of(self.token),
            BodyView::Upload {
                title,
                file_name: file_name_of(title),
                media_type: "application/pdf"@,
            },
        )
    }

    /// The request that fetches the record of one job.
    pub open spec fn job(self, handle: Seq<char>) -> Result<RequestView, TrackErrorView> {
        request_to(
            Method::Get,
            job_address(self.endpoint, handle),
            authorization_of(self.token),
            BodyView::Empty,
        )
    }

    /// The request that fetches the records of all jobs.
    pub open spec fn jobs(self) -> Result<RequestView, TrackErrorView> {
        request_to(
            Method::Get,
            with_path(self.endpoint, jobs_path()),
            authorization_of(self.token),
            BodyView::Empty,
        )
    }

    /// The request that applies the custom fields to a document; `Ok(None)`
    /// where no field is configured.
    pub open spec fn metadata(self, document: Seq<char>) -> Result<
        Option<RequestView>,
        TrackErrorView,
    > {
        if self.custom_fields.len() == 0 {
            Ok(None)
        } else {
            match request_to(
                Method::Patch,
                with_path(self.endpoint, document_path(document)),
                authorization_of(self.token),
                BodyView::CustomFields,
            ) {
                Ok(request) => Ok(Some(request)),
                Err(error) => Err(error),
            }
        }
    }
}

impl View for PaperlessClient {
    type V = PaperlessClientView;

    closed spec fn view(&self) -> PaperlessClientView {
        PaperlessClientView {
            endpoint: self.endpoint@,
            token: self.token@,
            custom_fields: self.custom_fields@,
        }
    }
}

/// The mathematical value of a client or the error in its place.
pub open spec fn client_view(client: Result<PaperlessClient, TrackError>) -> Result<
    PaperlessClientView,
    TrackErrorView,
> {
    match client {
        Ok(client) => Ok(client@),
        Err(error) => Err(error@),
    }
}

/// Puts a request together, given the address that was worked out for it.
pub fn assemble(method: Method, address: Option<String>, authorization: String, body: Body) -> (request:
    Result<Request, TrackError>)
    ensures
        request_view(request) == request_to(method, address.deep_view(), authorization@, body@),
{
    match address {
        Some(url) => Ok(Request { method, url, authorization, body }),
        None => Err(TrackError::InvalidEndpoint),
    }
}

fn path_of(first: &str, second: &str, third: &str) -> (path: Vec<String>)
    ensures
        path.deep_view() == seq![first@, second@, third@],
{
    let mut path: Vec<String> = Vec::new();
    path.push(String::from_str(first));
    path.push(String::from_str(second));
    path.push(String::from_str(third));
    assert(path.deep_view() =~= seq![first@, second@, third@]);
    path
}

fn long_path_of(first: &str, second: &str, third: &str, fourth: &str) -> (path: Vec<String>)
    ensures
        path.deep_view() == seq![first@, second@, third@, fourth@],
{
    let mut path: Vec<String> = Vec::new();
    path.push(String::from_str(first));
    path.push(String::from_str(second));
    path.push(String::from_str(third));
    path.push(String::from_str(fourth));
    assert(path.deep_view() =~= seq![first@, second@, third@, fourth@]);
    path
}

impl PaperlessClient {
    /// A client for the backend at `endpoint`. The endpoint has to be an
    /// absolute URL that names a host.
    pub fn new(endpoint: &str, token: &str, custom_fields: Vec<CustomField>) -> (client: Result<
        PaperlessClient,
        TrackError,
    >)
        ensures
            client_view(client) == if is_reachable(endpoint@) {
                Ok::<_, TrackErrorView>(
                    PaperlessClientView {
                        endpoint: endpoint@,
                        token: token@,
                        custom_fields: custom_fields@,
                    },
                )
            } else {
                Err(TrackErrorView::InvalidEndpoint)
            },
    {
        if reachable(endpoint) {
            Ok(
                PaperlessClient {
                    endpoint: String::from_str(endpoint),
                    token: String::from_str(token),
                    custom_fields,
                },
            )
        } else {
            Err(TrackError::InvalidEndpoint)
        }
    }

    /// The custom fields that new documents get.
    pub fn custom_fields(&self) -> (fields: &Vec<CustomField>)
        ensures
            fields@ == self@.custom_fields,
    {
        &self.custom_fields
    }

    /// The address of the backend with `segments` appended to its path.
    pub fn url(&self, segments: &Vec<String>) -> (address: Option<String>)
        ensures
            address.deep_view() == with_path(self@.endpoint, segments.deep_view()),
    {
        append_path(self.endpoint.as_str(), segments)
    }

    /// The value of the `Authorization` header of every request.
    pub fn authorization(&self) -> (value: String)
        ensures
            value@ == authorization_of(self@.token),
    {
        let mut value = String::from_str("Token ");
        value.append(self.token.as_str());
        value
    }

    /// The request that uploads a document under `title`. The caller adds the
    /// document's bytes.
    pub fn upload_request(&self, title: &str) -> (request: Result<Request, TrackError>)
        ensures
            request_view(request) == self@.upload(title@),
    {
        let path = long_path_of("api", "documents", "post_document", "");
        let body = Body::Upload {
            title: String::from_str(title),
            file_name: file_name(title),
            media_type: String::from_str("application/pdf"),
        };
        assemble(Method::Post, self.url(&path), self.authorization(), body)
    }

    /// The request that fetches the record of the job `handle`. The backend
    /// answers with a list of records.
    pub fn job_request(&self, handle: &JobHandle) -> (request: Result<Request, TrackError>)
        ensures
            request_view(request) == self@.job(handle@),
    {
        let path = path_of("api", "tasks", "");
        assert(path.deep_view() =~= jobs_path());
        let address = match self.url(&path) {
            Some(jobs) => {
                let mut query = String::from_str("task_id=");
                query.append(handle.as_str());
                set_query(jobs.as_str(), query.as_str())
            },
            None => None,
        };
        assemble(Method::Get, address, self.authorization(), Body::Empty)
    }

    /// The request that fetches the records of all the jobs that the backend
    /// knows.
    pub fn jobs_request(&self) -> (request: Result<Request, TrackError>)
        ensures
            request_view(request) == self@.jobs(),
    {
        let path = path_of("api", "tasks", "");
        assert(path.deep_view() =~= jobs_path());
        assemble(Method::Get, self.url(&path), self.authorization(), Body::Empty)
    }

    /// The request that applies the configured custom fields to `document`.
    /// Where none is configured there is nothing to send, and that is success.
    pub fn metadata_request(&self, document: &DocumentId) -> (request: Result<
        Option<Request>,
        TrackError,
    >)
        ensures
            optional_request_view(request) == self@.metadata(document@),
            self@.custom_fields.len() == 0 ==> request == Ok::<Option<Request>, TrackError>(None),
    {
        if self.custom_fields.len() == 0 {
            return Ok(None);
        }
        let path = long_path_of("api", "documents", document.as_str(), "");
        match assemble(Method::Patch, self.url(&path), self.authorization(), Body::CustomFields) {
            Ok(request) => Ok(Some(request)),
            Err(error) => Err(error),
        }
    }
}

} // verus!

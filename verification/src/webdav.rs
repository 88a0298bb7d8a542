//! The plain file store: one authenticated upload per document.

use vstd::prelude::*;
use vstd::string::*;

use crate::endpoint::{append_path, is_reachable, reachable, with_path};
use crate::error::{TrackError, TrackErrorView};
use crate::submit::{file_name, file_name_of};

verus! {

/// A WebDAV directory and the account that may write to it.
#[derive(Debug)]
pub struct WebdavClient {
    endpoint: String,
    user: String,
    pass: String,
}

/// The mathematical value of a [`WebdavClient`].
pub struct WebdavClientView {
    pub endpoint: Seq<char>,
    pub user: Seq<char>,
    pub pass: Seq<char>,
}

impl View for WebdavClient {
    type V = WebdavClientView;

    closed spec fn view(&self) -> WebdavClientView {
        WebdavClientView { endpoint: self.endpoint@, user: self.user@, pass: self.pass@ }
    }
}

/// The upload of one document: a `PUT` of its bytes to `url`, with basic
/// authentication.
#[derive(Debug, PartialEq, Eq)]
pub struct Upload {
    pub url: String,
    pub user: String,
    pub pass: String,
}

/// The mathematical value of an [`Upload`].
pub struct UploadView {
    pub url: Seq<char>,
    pub user: Seq<char>,
    pub pass: Seq<char>,
}

impl View for Upload {
    type V = UploadView;

    open spec fn view(&self) -> UploadView {
        UploadView { url: self.url@, user: self.user@, pass: self.pass@ }
    }
}

/// The mathematical value of a client or the error in its place.
pub open spec fn client_view(client: Result<WebdavClient, TrackError>) -> Result<
    WebdavClientView,
    TrackErrorView,
> {
    match client {
        Ok(client) => Ok(client@),
        Err(error) => Err(error@),
    }
}

/// The mathematical value of an upload or the error in its place.
pub open spec fn upload_view(upload: Result<Upload, TrackError>) -> Result<
    UploadView,
    TrackErrorView,
> {
    match upload {
        Ok(upload) => Ok(upload@),
        Err(error) => Err(error@),
    }
}

impl WebdavClientView {
    /// The upload of the document titled `title`, given the address that was
    /// worked out for it.
    pub open spec fn upload_to(self, address: Option<Seq<char>>) -> Result<
        UploadView,
        TrackErrorView,
    > {
        match address {
            Some(url) => Ok(UploadView { url, user: self.user, pass: self.pass }),
            None => Err(TrackErrorView::InvalidEndpoint),
        }
    }

    /// The upload of the document titled `title`: to the directory, under the
    /// document's file name.
    pub open spec fn upload(self, title: Seq<char>) -> Result<UploadView, TrackErrorView> {
        self.upload_to(with_path(self.endpoint, seq![file_name_of(title)]))
    }
}

impl WebdavClient {
    /// A client for the directory at `endpoint`. The endpoint has to be an
    /// absolute URL that names a host.
    pub fn new(endpoint: &str, user: &str, pass: &str) -> (client: Result<WebdavClient, TrackError>)
        ensures
            client_view(client) == if is_reachable(endpoint@) {
                Ok::<_, TrackErrorView>(
                    WebdavClientView { endpoint: endpoint@, user: user@, pass: pass@ },
                )
            } else {
                Err(TrackErrorView::InvalidEndpoint)
            },
    {
        if reachable(endpoint) {
            Ok(
                WebdavClient {
                    endpoint: String::from_str(endpoint),
                    user: String::from_str(user),
                    pass: String::from_str(pass),
                },
            )
        } else {
            Err(TrackError::InvalidEndpoint)
        }
    }

    /// Describes an upload, given the address that was worked out for it.
    pub fn upload_to(&self, address: Option<String>) -> (upload: Result<Upload, TrackError>)
        ensures
            upload_view(upload) == self@.upload_to(address.deep_view()),
    {
        match address {
            Some(url) => Ok(Upload { url, user: self.user.clone(), pass: self.pass.clone() }),
            None => Err(TrackError::InvalidEndpoint),
        }
    }

    /// The upload of the document titled `title`. The caller adds the
    /// document's bytes.
    pub fn put_request(&self, title: &str) -> (upload: Result<Upload, TrackError>)
        ensures
            upload_view(upload) == self@.upload(title@),
    {
        let mut path: Vec<String> = Vec::new();
        path.push(file_name(title));
        assert(path.deep_view() =~= seq![file_name_of(title@)]);
        self.upload_to(append_path(self.endpoint.as_str(), &path))
    }
}

} // verus!

//! Tracking of documents handed to a document-management backend whose
//! upload endpoint only starts an asynchronous processing job.
//!
//! The backend accepts an upload at once and answers with a job handle. The
//! job then fails, or produces one document, or is split into several jobs
//! that each produce a document of their own. This library holds every
//! decision of that tracking: what a job record means, when to poll again and
//! when to give up, which jobs belong to a split, how their results combine,
//! which requests are made, and what an operator is told in the end. It sends
//! nothing and waits for nothing: its caller does, and reports back.

pub mod client;
pub mod endpoint;
pub mod error;
pub mod fetch;
pub mod job;
pub mod notify;
pub mod poller;
pub mod split;
pub mod status;
pub mod submit;
pub mod text;
pub mod title;
pub mod webdav;

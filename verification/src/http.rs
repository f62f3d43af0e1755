//! The wire model the write path works on: the parts of a response it
//! reads, the requests it issues, and the signer-and-transport
//! collaborator that carries them.

use vstd::prelude::*;

use crate::error::ObsError;

verus! {

/// The parts of an HTTP response that the write path reads: the status
/// code, the two headers the protocol depends on, and the body text.
pub struct HttpResponse {
    pub status: u16,
    /// The `ETag` header, where the response carried one.
    pub etag: Option<String>,
    /// The `Content-Length` header, where the response carried one.
    pub content_length: Option<u64>,
    /// The response body (the service answers in XML).
    pub body: String,
}

/// One backend request, fully described.  Building the concrete HTTP
/// message, signing it and sending it are the transport's concern.
#[allow(inconsistent_fields)]
pub enum ObsRequest {
    /// `PUT` of a whole object in one request.
    PutObject { path: String, size: u64, content_type: Option<String>, body: Vec<u8> },
    /// `POST` announcing a multipart upload; the service answers with an
    /// upload id in an XML body.
    InitiateMultipart { path: String, content_type: Option<String> },
    /// `PUT` of one part of an open session; `part_number` is the wire
    /// number, in `[1, 10000]`.
    UploadPart { path: String, upload_id: String, part_number: usize, size: u64, body: Vec<u8> },
    /// `POST` of the XML manifest that closes an upload session.
    CompleteMultipart { path: String, upload_id: String, body: String },
    /// `DELETE` releasing an upload session.
    AbortMultipart { path: String, upload_id: String },
    /// Metadata read (`HEAD`-equivalent) of an object.
    HeadObject { path: String },
    /// `PUT` appending `size` bytes at byte `offset` of an object.
    AppendObject { path: String, offset: u64, size: u64, body: Vec<u8> },
}

/// One request handed to the transport, together with what came back:
/// the response, or the transport error where no status was obtained.
pub struct Exchange {
    pub req: ObsRequest,
    pub result: Result<HttpResponse, ObsError>,
}

/// The request signer and transport collaborator: signs and executes one
/// request, returning the response, or a transport error where no status
/// was obtained.  Nothing is promised of what comes back; `execute` only
/// records the exchange on the ghost history, so a caller's contract can
/// say which request was issued and how its outcome was treated.  Every
/// caller in this crate states what it does for each possible outcome.
pub trait HttpTransport {
    /// Every exchange this transport has carried, in order.
    spec fn history(&self) -> Seq<Exchange>;

    fn execute(&mut self, req: ObsRequest) -> (r: Result<HttpResponse, ObsError>)
        ensures
            final(self).history() == old(self).history().push((Exchange { req, result: r })),
    ;
}

} // verus!

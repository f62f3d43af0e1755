//! The generic write interfaces a backend adapter implements: one for
//! the multipart upload protocol, one for append-at-offset writes.
//!
//! Each trait carries a ghost call history whose records hold the
//! values handed to the backend and the outcome it reported.  A method
//! can only be accounted for by extending that history, so a driver's
//! contract over the history says which calls were really made, with
//! which payloads, and which outcome each surfaced.

use vstd::prelude::*;

use crate::error::ObsError;

verus! {

/// One uploaded part of a multipart session: its wire part number and
/// the integrity token the service issued for it.
#[derive(Debug)]
pub struct MultipartUploadPart {
    /// The number the part was uploaded under, in `[1, 10000]`.
    pub part_number: usize,
    /// The service's integrity token, copied verbatim into the
    /// completion manifest.
    pub etag: String,
}

/// One multipart backend call: the values handed over and the outcome
/// reported back.
#[allow(inconsistent_fields)]
pub enum BackendCall {
    /// A direct single-shot upload of `body`.
    Direct { size: u64, body: Seq<u8>, outcome: Result<(), ObsError> },
    /// Opening an upload session; success carries the session id.
    Initiate { outcome: Result<String, ObsError> },
    /// Uploading `body` as one part of session `upload_id`, under the
    /// zero-based count `part_number`; success carries the descriptor
    /// the backend reported.
    UploadPart {
        upload_id: Seq<char>,
        part_number: usize,
        size: u64,
        body: Seq<u8>,
        outcome: Result<MultipartUploadPart, ObsError>,
    },
    /// Closing session `upload_id` with the ordered `manifest`.
    Complete {
        upload_id: Seq<char>,
        manifest: Seq<MultipartUploadPart>,
        outcome: Result<(), ObsError>,
    },
    /// Releasing session `upload_id`.
    Abort { upload_id: Seq<char>, outcome: Result<(), ObsError> },
}

/// The operations a multipart-capable backend offers.  The drivers call
/// these; the adapter translates them to signed requests.
pub trait MultipartUploadWrite {
    /// Every backend call this writer has performed, in order.
    spec fn calls(&self) -> Seq<BackendCall>;

    /// Uploads the whole payload in one direct request.
    fn write_once(&mut self, size: u64, body: Vec<u8>) -> (r: Result<(), ObsError>)
        requires
            body@.len() == size as nat,
        ensures
            final(self).calls() == old(self).calls().push(
                (BackendCall::Direct { size, body: body@, outcome: r }),
            ),
    ;

    /// Opens an upload session and returns its opaque id.
    fn initiate_part(&mut self) -> (r: Result<String, ObsError>)
        ensures
            final(self).calls() == old(self).calls().push((BackendCall::Initiate { outcome: r })),
    ;

    /// Uploads one part.  `part_number` is the driver's zero-based
    /// count; the adapter translates it to the wire range `[1, 10000]`,
    /// and any part it reports carries that wire number.
    fn write_part(
        &mut self,
        upload_id: &str,
        part_number: usize,
        size: u64,
        body: Vec<u8>,
    ) -> (r: Result<MultipartUploadPart, ObsError>)
        requires
            part_number < 10000,
            body@.len() == size as nat,
        ensures
            final(self).calls() == old(self).calls().push(
                (BackendCall::UploadPart {
                    upload_id: upload_id@,
                    part_number,
                    size,
                    body: body@,
                    outcome: r,
                }),
            ),
            r is Ok ==> r->Ok_0.part_number == part_number + 1,
    ;

    /// Closes the session with the manifest built from `parts`, in
    /// order.  Gaps or duplicates in the part numbers are a programming
    /// error, excluded here rather than tolerated.
    fn complete_part(&mut self, upload_id: &str, parts: &Vec<MultipartUploadPart>) -> (r: Result<
        (),
        ObsError,
    >)
        requires
            parts@.len() <= 10000,
            forall|i: int| 0 <= i < parts@.len() ==> #[trigger] parts@[i].part_number == i + 1,
        ensures
            final(self).calls() == old(self).calls().push(
                (BackendCall::Complete { upload_id: upload_id@, manifest: parts@, outcome: r }),
            ),
    ;

    /// Releases the session.
    fn abort_part(&mut self, upload_id: &str) -> (r: Result<(), ObsError>)
        ensures
            final(self).calls() == old(self).calls().push(
                (BackendCall::Abort { upload_id: upload_id@, outcome: r }),
            ),
    ;
}

/// One append-path backend call: the values handed over and the outcome
/// reported back.
#[allow(inconsistent_fields)]
pub enum AppendCall {
    /// A metadata read of the object's current length.
    OffsetQuery { outcome: Result<u64, ObsError> },
    /// Appending `body` at byte `offset`.
    Append { offset: u64, size: u64, body: Seq<u8>, outcome: Result<(), ObsError> },
}

/// The operations an append-capable backend offers.
pub trait AppendObjectWrite {
    /// Every backend call this writer has performed, in order.
    spec fn log(&self) -> Seq<AppendCall>;

    /// Queries the object's current length; an object that does not
    /// exist reports length 0, not an error.
    fn offset(&mut self) -> (r: Result<u64, ObsError>)
        ensures
            final(self).log() == old(self).log().push((AppendCall::OffsetQuery { outcome: r })),
    ;

    /// Appends `size` bytes at byte `offset`, which the service checks
    /// against the object's current length.
    fn append(&mut self, offset: u64, size: u64, body: Vec<u8>) -> (r: Result<(), ObsError>)
        requires
            body@.len() == size as nat,
        ensures
            final(self).log() == old(self).log().push(
                (AppendCall::Append { offset, size, body: body@, outcome: r }),
            ),
    ;
}

} // verus!

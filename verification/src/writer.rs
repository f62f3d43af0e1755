//! The backend write adapter for a Huawei-style object-storage service:
//! it turns each generic write operation into exactly one request,
//! hands it to the transport, and interprets the response's status,
//! headers and body exactly as the service documents them.
//!
//! Each adapter method's contract pins the one request it issues — its
//! path, part number, offset and body, unmodified — on the transport's
//! ghost history, and ties its result to the recorded outcome: a
//! transport error is returned unchanged, and a response is interpreted
//! by the documented status rules.

use vstd::prelude::*;
use vstd::string::StringExecFns;

use crate::append::AppendObjectWriter;
use crate::error::{classify_kind, ErrorKind, ObsError};
use crate::http::{HttpResponse, HttpTransport, ObsRequest};
use crate::multipart::MultipartUploadWriter;
use crate::oio::{
    AppendCall, AppendObjectWrite, BackendCall, MultipartUploadPart, MultipartUploadWrite,
};
use crate::xml::{build_complete_xml, complete_xml, parse_upload_id, upload_id_of};

verus! {

/// The per-write options a caller supplies: which write mode the backend
/// should use, the declared payload size where it is known up front, and
/// the content type to record on the object.
pub struct OpWrite {
    /// Chooses the append-capable driver instead of the multipart one.
    pub append: bool,
    /// The total payload size, where the caller knows it up front.
    pub content_length: Option<u64>,
    /// The content type to record on the object.
    pub content_type: Option<String>,
}

impl OpWrite {
    pub fn new() -> (op: OpWrite)
        ensures
            !op.append,
            op.content_length is None,
            op.content_type is None,
    {
        OpWrite { append: false, content_length: None, content_type: None }
    }

    pub fn with_append(self, append: bool) -> (op: OpWrite)
        ensures
            op.append == append,
            op.content_length == self.content_length,
            op.content_type == self.content_type,
    {
        OpWrite { append, ..self }
    }

    pub fn with_content_length(self, n: u64) -> (op: OpWrite)
        ensures
            op.append == self.append,
            op.content_length == Some(n),
            op.content_type == self.content_type,
    {
        OpWrite { content_length: Some(n), ..self }
    }

    pub fn with_content_type(self, content_type: String) -> (op: OpWrite)
        ensures
            op.append == self.append,
            op.content_length == self.content_length,
            op.content_type == Some(content_type),
    {
        OpWrite { content_type: Some(content_type), ..self }
    }
}

fn clone_content_type(o: &Option<String>) -> (r: Option<String>)
    ensures
        r == *o,
{
    match o {
        None => None,
        Some(s) => Some(s.clone()),
    }
}

/// Whether `post` carried exactly one exchange more than `pre`.
pub open spec fn issued_one<C: HttpTransport>(pre: C, post: C) -> bool {
    &&& post.history().len() == pre.history().len() + 1
    &&& post.history().drop_last() == pre.history()
}

/// The outcome of the latest exchange of `c`.
pub open spec fn last_result<C: HttpTransport>(c: C) -> Result<HttpResponse, ObsError> {
    c.history().last().result
}

/// Interprets the response to a direct upload: the service answers 200
/// or 201 on success; any other status is classified.
pub fn interpret_put_object(resp: &HttpResponse) -> (r: Result<(), ObsError>)
    ensures
        r is Ok <==> resp.status == 200 || resp.status == 201,
        r is Err ==> r->Err_0.kind == classify_kind(resp.status) && r->Err_0.status == Some(
            resp.status,
        ),
{
    if resp.status == 200 || resp.status == 201 {
        Ok(())
    } else {
        Err(ObsError::classified(resp.status))
    }
}

/// Interprets the response to an initiate request: on status 200 the
/// body is an XML document carrying the upload id; a 200 body without
/// one is an invariant violation, and any other status is classified.
pub fn interpret_initiate(resp: &HttpResponse) -> (r: Result<String, ObsError>)
    ensures
        r is Ok <==> resp.status == 200 && upload_id_of(resp.body@) is Some,
        r is Ok ==> Some(r->Ok_0@) == upload_id_of(resp.body@),
        resp.status == 200 && upload_id_of(resp.body@) is None ==> r is Err
            && r->Err_0.kind == ErrorKind::InvariantViolation && r->Err_0.message@
            == "UploadId not present in returning response"@,
        resp.status != 200 ==> r is Err && r->Err_0.kind == classify_kind(resp.status)
            && r->Err_0.status == Some(resp.status),
{
    if resp.status == 200 {
        match parse_upload_id(resp.body.as_str()) {
            Some(id) => Ok(id),
            None => Err(ObsError::invariant_violation("UploadId not present in returning response")),
        }
    } else {
        Err(ObsError::classified(resp.status))
    }
}

/// Interprets the response to a part upload sent under `wire_number`:
/// on status 200 an ETag header must be present and is recorded
/// verbatim; its absence is an invariant violation, not a transport
/// failure, and any other status is classified.
pub fn interpret_upload_part(wire_number: usize, resp: &HttpResponse) -> (r: Result<
    MultipartUploadPart,
    ObsError,
>)
    ensures
        r is Ok <==> resp.status == 200 && resp.etag is Some,
        r is Ok ==> r->Ok_0.part_number == wire_number && r->Ok_0.etag@ == resp.etag->0@,
        resp.status == 200 && resp.etag is None ==> r is Err && r->Err_0.kind
            == ErrorKind::InvariantViolation && r->Err_0.message@
            == "ETag not present in returning response"@,
        resp.status != 200 ==> r is Err && r->Err_0.kind == classify_kind(resp.status)
            && r->Err_0.status == Some(resp.status),
{
    if resp.status == 200 {
        match &resp.etag {
            Some(etag) => Ok(MultipartUploadPart { part_number: wire_number, etag: etag.clone() }),
            None => Err(ObsError::invariant_violation("ETag not present in returning response")),
        }
    } else {
        Err(ObsError::classified(resp.status))
    }
}

/// Interprets the response to a completion request: 200 on success.
pub fn interpret_complete(resp: &HttpResponse) -> (r: Result<(), ObsError>)
    ensures
        r is Ok <==> resp.status == 200,
        r is Err ==> r->Err_0.kind == classify_kind(resp.status) && r->Err_0.status == Some(
            resp.status,
        ),
{
    if resp.status == 200 {
        Ok(())
    } else {
        Err(ObsError::classified(resp.status))
    }
}

/// Interprets the response to an abort request: this service answers
/// 204 No Content on success, not the 200 of its other operations.
pub fn interpret_abort(resp: &HttpResponse) -> (r: Result<(), ObsError>)
    ensures
        r is Ok <==> resp.status == 204,
        r is Err ==> r->Err_0.kind == classify_kind(resp.status) && r->Err_0.status == Some(
            resp.status,
        ),
{
    if resp.status == 204 {
        Ok(())
    } else {
        Err(ObsError::classified(resp.status))
    }
}

/// Interprets the response to an offset query: on 200 the object's
/// length is the Content-Length header, whose absence is an invariant
/// violation; a missing object (404) has length 0 and is not an error;
/// any other status is classified.
pub fn interpret_offset(resp: &HttpResponse) -> (r: Result<u64, ObsError>)
    ensures
        resp.status == 200 && resp.content_length is Some ==> r == Result::<u64, ObsError>::Ok(
            resp.content_length->0,
        ),
        resp.status == 200 && resp.content_length is None ==> r is Err && r->Err_0.kind
            == ErrorKind::InvariantViolation && r->Err_0.message@
            == "Content-Length not present in returning response"@,
        resp.status == 404 ==> r == Result::<u64, ObsError>::Ok(0u64),
        resp.status != 200 && resp.status != 404 ==> r is Err && r->Err_0.kind == classify_kind(
            resp.status,
        ) && r->Err_0.status == Some(resp.status),
{
    if resp.status == 200 {
        match resp.content_length {
            Some(n) => Ok(n),
            None => Err(ObsError::invariant_violation(
                "Content-Length not present in returning response",
            )),
        }
    } else if resp.status == 404 {
        Ok(0)
    } else {
        Err(ObsError::classified(resp.status))
    }
}

/// Interprets the response to an append request: 200 on success.
pub fn interpret_append(resp: &HttpResponse) -> (r: Result<(), ObsError>)
    ensures
        r is Ok <==> resp.status == 200,
        r is Err ==> r->Err_0.kind == classify_kind(resp.status) && r->Err_0.status == Some(
            resp.status,
        ),
{
    if resp.status == 200 {
        Ok(())
    } else {
        Err(ObsError::classified(resp.status))
    }
}

/// The backend write adapter: a client handle (the transport), the
/// target path and the write options, fixed at construction, plus the
/// ghost histories of the backend calls made through it.
pub struct ObsWriter<C> {
    pub core: C,
    pub op: OpWrite,
    pub path: String,
    /// The multipart calls made through this writer, in order.
    pub mp_calls: Ghost<Seq<BackendCall>>,
    /// The append-path calls made through this writer, in order.
    pub ap_log: Ghost<Seq<AppendCall>>,
}

impl<C: HttpTransport> ObsWriter<C> {
    /// Stores the handle, path and options unchanged; no request is
    /// issued by construction.
    pub fn new(core: C, path: &str, op: OpWrite) -> (w: ObsWriter<C>)
        ensures
            w.core == core,
            w.path@ == path@,
            w.op == op,
            w.mp_calls@ == Seq::<BackendCall>::empty(),
            w.ap_log@ == Seq::<AppendCall>::empty(),
    {
        ObsWriter {
            core,
            path: String::from_str(path),
            op,
            mp_calls: Ghost(Seq::empty()),
            ap_log: Ghost(Seq::empty()),
        }
    }
}

impl<C: HttpTransport> MultipartUploadWrite for ObsWriter<C> {
    open spec fn calls(&self) -> Seq<BackendCall> {
        self.mp_calls@
    }

    fn write_once(&mut self, size: u64, body: Vec<u8>) -> (r: Result<(), ObsError>)
        ensures
            final(self).path == old(self).path,
            final(self).op == old(self).op,
            final(self).ap_log == old(self).ap_log,
            issued_one(old(self).core, final(self).core),
            final(self).core.history().last().req == (ObsRequest::PutObject {
                path: old(self).path,
                size,
                content_type: old(self).op.content_type,
                body,
            }),
            match last_result(final(self).core) {
                Err(e) => r == Err::<(), ObsError>(e),
                Ok(resp) => {
                    &&& (r is Ok <==> resp.status == 200 || resp.status == 201)
                    &&& (r matches Err(err) ==> err.kind == classify_kind(resp.status)
                        && err.status == Some(resp.status))
                },
            },
    {
        let ghost body0 = body@;
        let req = ObsRequest::PutObject {
            path: self.path.clone(),
            size,
            content_type: clone_content_type(&self.op.content_type),
            body,
        };
        let r = match self.core.execute(req) {
            Err(e) => Err(e),
            Ok(resp) => interpret_put_object(&resp),
        };
        self.mp_calls = Ghost(
            self.mp_calls@.push(BackendCall::Direct { size, body: body0, outcome: r }),
        );
        proof {
            assert(self.core.history().drop_last() =~= old(self).core.history());
        }
        r
    }

    fn initiate_part(&mut self) -> (r: Result<String, ObsError>)
        ensures
            final(self).path == old(self).path,
            final(self).op == old(self).op,
            final(self).ap_log == old(self).ap_log,
            issued_one(old(self).core, final(self).core),
            final(self).core.history().last().req == (ObsRequest::InitiateMultipart {
                path: old(self).path,
                content_type: old(self).op.content_type,
            }),
            match last_result(final(self).core) {
                Err(e) => r == Err::<String, ObsError>(e),
                Ok(resp) => {
                    &&& (r is Ok <==> resp.status == 200 && upload_id_of(resp.body@) is Some)
                    &&& (r is Ok ==> Some(r->Ok_0@) == upload_id_of(resp.body@))
                    &&& (resp.status == 200 && upload_id_of(resp.body@) is None ==> r is Err
                        && r->Err_0.kind == ErrorKind::InvariantViolation)
                    &&& (resp.status != 200 ==> r is Err && r->Err_0.kind == classify_kind(
                        resp.status,
                    ) && r->Err_0.status == Some(resp.status))
                },
            },
    {
        let req = ObsRequest::InitiateMultipart {
            path: self.path.clone(),
            content_type: clone_content_type(&self.op.content_type),
        };
        let r = match self.core.execute(req) {
            Err(e) => Err(e),
            Ok(resp) => interpret_initiate(&resp),
        };
        self.mp_calls = Ghost(self.mp_calls@.push(BackendCall::Initiate { outcome: r }));
        proof {
            assert(self.core.history().drop_last() =~= old(self).core.history());
        }
        r
    }

    fn write_part(
        &mut self,
        upload_id: &str,
        part_number: usize,
        size: u64,
        body: Vec<u8>,
    ) -> (r: Result<MultipartUploadPart, ObsError>)
        ensures
            final(self).path == old(self).path,
            final(self).op == old(self).op,
            final(self).ap_log == old(self).ap_log,
            issued_one(old(self).core, final(self).core),
            // The wire part number is the zero-based count plus one.
            (final(self).core.history().last().req matches ObsRequest::UploadPart {
                path,
                upload_id: uid,
                part_number: pn,
                size: sz,
                body: b,
            } && path == old(self).path && uid@ == upload_id@ && pn == part_number + 1 && sz
                == size && b == body),
            match last_result(final(self).core) {
                Err(e) => r == Err::<MultipartUploadPart, ObsError>(e),
                Ok(resp) => {
                    &&& (r is Ok <==> resp.status == 200 && resp.etag is Some)
                    &&& (r is Ok ==> r->Ok_0.part_number == part_number + 1 && r->Ok_0.etag@
                        == resp.etag->0@)
                    &&& (resp.status == 200 && resp.etag is None ==> r is Err && r->Err_0.kind
                        == ErrorKind::InvariantViolation)
                    &&& (resp.status != 200 ==> r is Err && r->Err_0.kind == classify_kind(
                        resp.status,
                    ) && r->Err_0.status == Some(resp.status))
                },
            },
    {
        let ghost body0 = body@;
        // The service requires wire part numbers in [1, 10000]; the
        // driver counts from zero.
        let wire_number = part_number + 1;
        let req = ObsRequest::UploadPart {
            path: self.path.clone(),
            upload_id: String::from_str(upload_id),
            part_number: wire_number,
            size,
            body,
        };
        let r = match self.core.execute(req) {
            Err(e) => Err(e),
            Ok(resp) => interpret_upload_part(wire_number, &resp),
        };
        self.mp_calls = Ghost(
            self.mp_calls@.push(
                BackendCall::UploadPart {
                    upload_id: upload_id@,
                    part_number,
                    size,
                    body: body0,
                    outcome: r,
                },
            ),
        );
        proof {
            assert(self.core.history().drop_last() =~= old(self).core.history());
        }
        r
    }

    fn complete_part(&mut self, upload_id: &str, parts: &Vec<MultipartUploadPart>) -> (r: Result<
        (),
        ObsError,
    >)
        ensures
            final(self).path == old(self).path,
            final(self).op == old(self).op,
            final(self).ap_log == old(self).ap_log,
            issued_one(old(self).core, final(self).core),
            // The request body is exactly the XML manifest of `parts`.
            (final(self).core.history().last().req matches ObsRequest::CompleteMultipart {
                path,
                upload_id: uid,
                body: b,
            } && path == old(self).path && uid@ == upload_id@ && b@ == complete_xml(parts@)),
            match last_result(final(self).core) {
                Err(e) => r == Err::<(), ObsError>(e),
                Ok(resp) => {
                    &&& (r is Ok <==> resp.status == 200)
                    &&& (r matches Err(err) ==> err.kind == classify_kind(resp.status)
                        && err.status == Some(resp.status))
                },
            },
    {
        let manifest = build_complete_xml(parts);
        let req = ObsRequest::CompleteMultipart {
            path: self.path.clone(),
            upload_id: String::from_str(upload_id),
            body: manifest,
        };
        let r = match self.core.execute(req) {
            Err(e) => Err(e),
            Ok(resp) => interpret_complete(&resp),
        };
        self.mp_calls = Ghost(
            self.mp_calls@.push(
                BackendCall::Complete { upload_id: upload_id@, manifest: parts@, outcome: r },
            ),
        );
        proof {
            assert(self.core.history().drop_last() =~= old(self).core.history());
        }
        r
    }

    fn abort_part(&mut self, upload_id: &str) -> (r: Result<(), ObsError>)
        ensures
            final(self).path == old(self).path,
            final(self).op == old(self).op,
            final(self).ap_log == old(self).ap_log,
            issued_one(old(self).core, final(self).core),
            (final(self).core.history().last().req matches ObsRequest::AbortMultipart {
                path,
                upload_id: uid,
            } && path == old(self).path && uid@ == upload_id@),
            match last_result(final(self).core) {
                Err(e) => r == Err::<(), ObsError>(e),
                Ok(resp) => {
                    &&& (r is Ok <==> resp.status == 204)
                    &&& (r matches Err(err) ==> err.kind == classify_kind(resp.status)
                        && err.status == Some(resp.status))
                },
            },
    {
        let req = ObsRequest::AbortMultipart {
            path: self.path.clone(),
            upload_id: String::from_str(upload_id),
        };
        let r = match self.core.execute(req) {
            Err(e) => Err(e),
            Ok(resp) => interpret_abort(&resp),
        };
        self.mp_calls = Ghost(
            self.mp_calls@.push(BackendCall::Abort { upload_id: upload_id@, outcome: r }),
        );
        proof {
            assert(self.core.history().drop_last() =~= old(self).core.history());
        }
        r
    }
}

impl<C: HttpTransport> AppendObjectWrite for ObsWriter<C> {
    open spec fn log(&self) -> Seq<AppendCall> {
        self.ap_log@
    }

    fn offset(&mut self) -> (r: Result<u64, ObsError>)
        ensures
            final(self).path == old(self).path,
            final(self).op == old(self).op,
            final(self).mp_calls == old(self).mp_calls,
            issued_one(old(self).core, final(self).core),
            // A metadata read and nothing else: the one request issued
            // carries no body and changes nothing.
            final(self).core.history().last().req == (ObsRequest::HeadObject {
                path: old(self).path,
            }),
            match last_result(final(self).core) {
                Err(e) => r == Err::<u64, ObsError>(e),
                Ok(resp) => {
                    &&& (resp.status == 200 && resp.content_length is Some ==> r == Result::<
                        u64,
                        ObsError,
                    >::Ok(resp.content_length->0))
                    &&& (resp.status == 200 && resp.content_length is None ==> r is Err
                        && r->Err_0.kind == ErrorKind::InvariantViolation && r->Err_0.message@
                        == "Content-Length not present in returning response"@)
                    &&& (resp.status == 404 ==> r == Result::<u64, ObsError>::Ok(0u64))
                    &&& (resp.status != 200 && resp.status != 404 ==> r is Err && r->Err_0.kind
                        == classify_kind(resp.status) && r->Err_0.status == Some(resp.status))
                },
            },
    {
        let req = ObsRequest::HeadObject { path: self.path.clone() };
        let r = match self.core.execute(req) {
            Err(e) => Err(e),
            Ok(resp) => interpret_offset(&resp),
        };
        self.ap_log = Ghost(self.ap_log@.push(AppendCall::OffsetQuery { outcome: r }));
        proof {
            assert(self.core.history().drop_last() =~= old(self).core.history());
        }
        r
    }

    fn append(&mut self, offset: u64, size: u64, body: Vec<u8>) -> (r: Result<(), ObsError>)
        ensures
            final(self).path == old(self).path,
            final(self).op == old(self).op,
            final(self).mp_calls == old(self).mp_calls,
            issued_one(old(self).core, final(self).core),
            // Exactly one append request, carrying the given offset,
            // size and body unmodified.
            final(self).core.history().last().req == (ObsRequest::AppendObject {
                path: old(self).path,
                offset,
                size,
                body,
            }),
            match last_result(final(self).core) {
                Err(e) => r == Err::<(), ObsError>(e),
                Ok(resp) => {
                    &&& (r is Ok <==> resp.status == 200)
                    &&& (r matches Err(err) ==> err.kind == classify_kind(resp.status)
                        && err.status == Some(resp.status))
                },
            },
    {
        let ghost body0 = body@;
        let req = ObsRequest::AppendObject { path: self.path.clone(), offset, size, body };
        let r = match self.core.execute(req) {
            Err(e) => Err(e),
            Ok(resp) => interpret_append(&resp),
        };
        self.ap_log = Ghost(
            self.ap_log@.push(AppendCall::Append { offset, size, body: body0, outcome: r }),
        );
        proof {
            assert(self.core.history().drop_last() =~= old(self).core.history());
        }
        r
    }
}

/// The writer strategy selector: one uniform write, close and abort
/// surface over the two drivers.  The choice between them is made once,
/// at construction, from the `append` capability flag of the options,
/// and never re-evaluated.
pub enum ObsWriters<C> {
    Multipart(MultipartUploadWriter<ObsWriter<C>>),
    Append(AppendObjectWriter<ObsWriter<C>>),
}

impl<C: HttpTransport> ObsWriters<C> {
    /// Whether the active driver can accept a next chunk of `n` bytes.
    pub open spec fn can_write(self, n: nat) -> bool {
        match self {
            ObsWriters::Multipart(m) => m.inv() && !m.is_terminal() && (m.direct_mode()
                ==> m.buf@.len() + n <= m.content_length->0) && (!m.direct_mode()
                ==> m.parts@.len() < 10000) && (m.state is InProgress ==> m.session_clean()),
            ObsWriters::Append(a) => a.tracked_offset is Some ==> a.tracked_offset->0 + n
                <= u64::MAX,
        }
    }

    /// Whether the active driver can still be closed or aborted.
    pub open spec fn can_finish(self) -> bool {
        match self {
            ObsWriters::Multipart(m) => m.inv() && !m.is_terminal(),
            ObsWriters::Append(_) => true,
        }
    }

    /// Builds the writer for `path`: the append-capable driver where the
    /// options ask for append mode, the multipart driver otherwise.  The
    /// choice is made here, once, and never re-evaluated; construction
    /// issues no request.
    pub fn new(core: C, path: &str, op: OpWrite, threshold: u64) -> (w: ObsWriters<C>)
        ensures
            op.append <==> w is Append,
            w matches ObsWriters::Multipart(m) ==> m.inv() && m.state is Idle && m.buf@.len() == 0
                && m.parts@.len() == 0 && m.base@ == m.w.mp_calls@ && m.w.mp_calls@ == Seq::<
                BackendCall,
            >::empty() && m.content_length == op.content_length && m.threshold == threshold
                && m.w.core == core && m.w.path@ == path@ && m.w.op == op,
            w matches ObsWriters::Append(a) ==> a.tracked_offset is None && a.w.ap_log@ == Seq::<
                AppendCall,
            >::empty() && a.w.core == core && a.w.path@ == path@ && a.w.op == op,
    {
        let is_append = op.append;
        let content_length = op.content_length;
        let inner = ObsWriter::new(core, path, op);
        if is_append {
            ObsWriters::Append(AppendObjectWriter::new(inner))
        } else {
            ObsWriters::Multipart(MultipartUploadWriter::new(inner, content_length, threshold))
        }
    }

    /// Hands the next sequential chunk to the active driver.
    pub fn write(&mut self, chunk: Vec<u8>) -> (r: Result<(), ObsError>)
        requires
            old(self).can_write(chunk@.len()),
        ensures
            (*old(self)) matches ObsWriters::Multipart(m0) ==> ((*final(self)) matches
                ObsWriters::Multipart(m1) && m1.inv() && MultipartUploadWriter::<ObsWriter<
                C,
            >>::write_post(m0, m1, chunk@, r)),
            (*old(self)) matches ObsWriters::Append(a0) ==> ((*final(self)) matches
                ObsWriters::Append(a1) && AppendObjectWriter::<ObsWriter<C>>::write_post(
                a0,
                a1,
                chunk@,
                r,
            )),
    {
        match self {
            ObsWriters::Multipart(m) => m.write(chunk),
            ObsWriters::Append(a) => a.write(chunk),
        }
    }

    /// Finalizes the write: the completion step (or the one direct
    /// upload) for the multipart driver, a no-op success for the append
    /// driver.
    pub fn close(&mut self) -> (r: Result<(), ObsError>)
        requires
            old(self).can_finish(),
        ensures
            (*old(self)) matches ObsWriters::Multipart(m0) ==> ((*final(self)) matches
                ObsWriters::Multipart(m1) && m1.inv() && MultipartUploadWriter::<ObsWriter<
                C,
            >>::close_post(m0, m1, r)),
            (*old(self)) matches ObsWriters::Append(a0) ==> ((*final(self)) matches
                ObsWriters::Append(a1) && r is Ok && a1 == a0),
    {
        match self {
            ObsWriters::Multipart(m) => m.close(),
            ObsWriters::Append(a) => a.close(),
        }
    }

    /// Cancels the write.  The multipart driver releases any open
    /// session; the append driver has no abort protocol, so there is
    /// nothing to do and the call succeeds.
    pub fn abort(&mut self) -> (r: Result<(), ObsError>)
        requires
            old(self).can_finish(),
        ensures
            (*old(self)) matches ObsWriters::Multipart(m0) ==> ((*final(self)) matches
                ObsWriters::Multipart(m1) && m1.inv() && MultipartUploadWriter::<ObsWriter<
                C,
            >>::abort_post(m0, m1, r)),
            (*old(self)) matches ObsWriters::Append(a0) ==> ((*final(self)) matches
                ObsWriters::Append(a1) && r is Ok && a1 == a0),
    {
        match self {
            ObsWriters::Multipart(m) => m.abort(),
            ObsWriters::Append(_) => Ok(()),
        }
    }
}

} // verus!

//! End-to-end tests of the two drivers and the strategy selector
//! against a simulated object-storage service.

use obs_writer::append::AppendObjectWriter;
use obs_writer::error::{ErrorKind, ObsError};
use obs_writer::http::{HttpResponse, HttpTransport, ObsRequest};
use obs_writer::multipart::{MultipartState, MultipartUploadWriter};
use obs_writer::writer::{ObsWriter, ObsWriters, OpWrite};

/// How many calls of each kind the simulated service has seen.
#[derive(Default)]
struct Counts {
    put: usize,
    initiate: usize,
    part: usize,
    complete: usize,
    abort: usize,
    head: usize,
    append: usize,
}

/// An in-memory object-storage service holding one object and at most
/// one upload session, with switches that make chosen calls misbehave.
#[derive(Default)]
struct SimService {
    counts: Counts,
    object: Vec<u8>,
    exists: bool,
    session: Option<String>,
    parts: Vec<(usize, Vec<u8>, String)>,
    part_numbers_seen: Vec<usize>,
    manifests: Vec<String>,
    fail_initiate: bool,
    fail_part_at: Option<usize>,
    omit_etag_at: Option<usize>,
    fail_complete: bool,
    drop_connection_at_part: Option<usize>,
    reported_length: Option<u64>,
}

fn resp(status: u16, etag: Option<String>, content_length: Option<u64>, body: &str) -> HttpResponse {
    HttpResponse { status, etag, content_length, body: body.to_string() }
}

impl HttpTransport for SimService {
    // Ghost state of the trait; erased, never called at run time.
    fn history(&self) -> vstd::seq::Seq<obs_writer::http::Exchange> {
        unreachable!()
    }

    fn execute(&mut self, req: ObsRequest) -> Result<HttpResponse, ObsError> {
        match req {
            ObsRequest::PutObject { size, body, .. } => {
                self.counts.put += 1;
                assert_eq!(body.len() as u64, size);
                self.object = body;
                self.exists = true;
                Ok(resp(200, None, None, ""))
            }
            ObsRequest::InitiateMultipart { .. } => {
                self.counts.initiate += 1;
                if self.fail_initiate {
                    return Ok(resp(503, None, None, ""));
                }
                self.session = Some("sim-upload-1".to_string());
                Ok(resp(
                    200,
                    None,
                    None,
                    "<InitiateMultipartUploadResult>\
                     <UploadId>sim-upload-1</UploadId>\
                     </InitiateMultipartUploadResult>",
                ))
            }
            ObsRequest::UploadPart { upload_id, part_number, size, body, .. } => {
                self.counts.part += 1;
                self.part_numbers_seen.push(part_number);
                if self.drop_connection_at_part == Some(self.counts.part) {
                    return Err(ObsError::transport("connection reset"));
                }
                assert_eq!(Some(upload_id), self.session);
                assert_eq!(body.len() as u64, size);
                assert!((1..=10000).contains(&part_number));
                if self.fail_part_at == Some(self.counts.part) {
                    return Ok(resp(500, None, None, ""));
                }
                if self.omit_etag_at == Some(self.counts.part) {
                    return Ok(resp(200, None, None, ""));
                }
                let etag = format!("\"etag-{}\"", part_number);
                self.parts.push((part_number, body, etag.clone()));
                Ok(resp(200, Some(etag), None, ""))
            }
            ObsRequest::CompleteMultipart { upload_id, body, .. } => {
                self.counts.complete += 1;
                assert_eq!(Some(upload_id), self.session);
                if self.fail_complete {
                    return Ok(resp(500, None, None, ""));
                }
                self.manifests.push(body);
                self.object = self.parts.iter().flat_map(|p| p.1.iter().copied()).collect();
                self.exists = true;
                self.session = None;
                Ok(resp(200, None, None, ""))
            }
            ObsRequest::AbortMultipart { upload_id, .. } => {
                self.counts.abort += 1;
                assert_eq!(Some(upload_id), self.session);
                self.session = None;
                self.parts.clear();
                // The service answers 204 No Content here, not 200.
                Ok(resp(204, None, None, ""))
            }
            ObsRequest::HeadObject { .. } => {
                self.counts.head += 1;
                if let Some(n) = self.reported_length {
                    Ok(resp(200, None, Some(n), ""))
                } else if self.exists {
                    Ok(resp(200, None, Some(self.object.len() as u64), ""))
                } else {
                    Ok(resp(404, None, None, ""))
                }
            }
            ObsRequest::AppendObject { offset, size, body, .. } => {
                self.counts.append += 1;
                assert_eq!(body.len() as u64, size);
                if offset != self.object.len() as u64 {
                    // Appending anywhere but the current end is a conflict.
                    return Ok(resp(409, None, None, ""));
                }
                self.object.extend_from_slice(&body);
                self.exists = true;
                Ok(resp(200, None, None, ""))
            }
        }
    }
}

fn op_with_length(len: Option<u64>) -> OpWrite {
    OpWrite { append: false, content_length: len, content_type: None }
}

fn multipart_writer(
    sim: SimService,
    content_length: Option<u64>,
    threshold: u64,
) -> MultipartUploadWriter<ObsWriter<SimService>> {
    let inner = ObsWriter::new(sim, "/bucket/key", op_with_length(content_length));
    MultipartUploadWriter::new(inner, content_length, threshold)
}

#[test]
fn small_known_payload_goes_out_as_one_direct_upload() {
    let mut w = multipart_writer(SimService::default(), Some(3), 5);
    w.write(b"abc".to_vec()).unwrap();
    w.close().unwrap();
    assert_eq!(w.state, MultipartState::Done);
    let counts = &w.w.core.counts;
    assert_eq!(counts.put, 1);
    assert_eq!(counts.initiate, 0);
    assert_eq!(counts.part, 0);
    assert_eq!(counts.complete, 0);
    assert_eq!(counts.abort, 0);
    assert_eq!(w.w.core.object, b"abc".to_vec());
}

#[test]
fn close_without_writes_creates_an_empty_object() {
    let mut w = multipart_writer(SimService::default(), None, 5);
    w.close().unwrap();
    assert_eq!(w.state, MultipartState::Done);
    assert_eq!(w.w.core.counts.put, 1);
    assert_eq!(w.w.core.counts.initiate, 0);
    assert!(w.w.core.object.is_empty());
    assert!(w.w.core.exists);
}

#[test]
fn large_payload_round_trip() {
    // A 25 MB payload under a 5 MB part threshold: one initiate, five
    // parts numbered 1 through 5 in order, one completion whose
    // manifest lists the five ETags in order, and no direct upload.
    const MB: usize = 1024 * 1024;
    let total = 25 * MB;
    let mut w = multipart_writer(SimService::default(), Some(total as u64), 5 * MB as u64);
    let mut payload = Vec::new();
    for chunk_index in 0..5u8 {
        let chunk = vec![chunk_index; 5 * MB];
        payload.extend_from_slice(&chunk);
        w.write(chunk).unwrap();
    }
    w.close().unwrap();
    assert_eq!(w.state, MultipartState::Completed);
    let sim = &w.w.core;
    assert_eq!(sim.counts.initiate, 1);
    assert_eq!(sim.counts.part, 5);
    assert_eq!(sim.counts.complete, 1);
    assert_eq!(sim.counts.put, 0);
    assert_eq!(sim.counts.abort, 0);
    assert_eq!(sim.part_numbers_seen, vec![1, 2, 3, 4, 5]);
    assert_eq!(sim.object, payload);
    let mut expected = String::from("<CompleteMultipartUpload>");
    for n in 1..=5 {
        expected.push_str(&format!(
            "<Part><PartNumber>{}</PartNumber><ETag>\"etag-{}\"</ETag></Part>",
            n, n
        ));
    }
    expected.push_str("</CompleteMultipartUpload>");
    assert_eq!(sim.manifests, vec![expected]);
}

#[test]
fn part_failure_aborts_and_never_completes() {
    let mut sim = SimService::default();
    sim.fail_part_at = Some(2);
    let mut w = multipart_writer(sim, None, 5);
    w.write(b"first".to_vec()).unwrap();
    let e = w.write(b"second".to_vec()).unwrap_err();
    assert_eq!(e.kind, ErrorKind::Backend);
    assert_eq!(e.status, Some(500));
    assert_eq!(w.state, MultipartState::Aborted);
    let counts = &w.w.core.counts;
    assert_eq!(counts.part, 2);
    assert_eq!(counts.abort, 1);
    assert_eq!(counts.complete, 0);
    // The driver remembers which session it released.
    assert_eq!(w.upload_id.as_deref(), Some("sim-upload-1"));
    assert!(w.w.core.session.is_none());
}

#[test]
fn reported_length_overflowing_the_offset_range_is_rejected() {
    let mut sim = SimService::default();
    sim.reported_length = Some(u64::MAX);
    let mut w = append_writer(sim);
    let e = w.write(b"x".to_vec()).unwrap_err();
    assert_eq!(e.kind, ErrorKind::InvariantViolation);
    assert_eq!(e.message, "offset overflows the representable length");
    // The queried length is kept; no append was attempted.
    assert_eq!(w.tracked_offset, Some(u64::MAX));
    assert_eq!(w.w.core.counts.append, 0);
}

#[test]
fn missing_etag_is_an_invariant_violation_and_aborts() {
    let mut sim = SimService::default();
    sim.omit_etag_at = Some(1);
    let mut w = multipart_writer(sim, None, 5);
    let e = w.write(b"data".to_vec()).unwrap_err();
    assert_eq!(e.kind, ErrorKind::InvariantViolation);
    assert_eq!(e.message, "ETag not present in returning response");
    assert_eq!(w.state, MultipartState::Aborted);
    let counts = &w.w.core.counts;
    // No retry of the part, one abort, never a completion.
    assert_eq!(counts.part, 1);
    assert_eq!(counts.abort, 1);
    assert_eq!(counts.complete, 0);
}

#[test]
fn transport_failure_propagates_unchanged() {
    let mut sim = SimService::default();
    sim.drop_connection_at_part = Some(1);
    let mut w = multipart_writer(sim, None, 5);
    let e = w.write(b"data".to_vec()).unwrap_err();
    assert_eq!(e.kind, ErrorKind::Transport);
    assert_eq!(e.status, None);
    assert_eq!(e.message, "connection reset");
    assert_eq!(w.state, MultipartState::Aborted);
    // The session is still released before the error surfaces.
    assert_eq!(w.w.core.counts.abort, 1);
}

#[test]
fn initiate_failure_needs_no_cleanup() {
    let mut sim = SimService::default();
    sim.fail_initiate = true;
    let mut w = multipart_writer(sim, None, 5);
    let e = w.write(b"data".to_vec()).unwrap_err();
    assert_eq!(e.kind, ErrorKind::Backend);
    assert_eq!(w.state, MultipartState::Aborted);
    let counts = &w.w.core.counts;
    assert_eq!(counts.initiate, 1);
    assert_eq!(counts.part, 0);
    assert_eq!(counts.abort, 0);
}

#[test]
fn completion_failure_leaves_session_for_the_caller() {
    let mut sim = SimService::default();
    sim.fail_complete = true;
    let mut w = multipart_writer(sim, None, 5);
    w.write(b"data".to_vec()).unwrap();
    let e = w.close().unwrap_err();
    assert_eq!(e.kind, ErrorKind::Backend);
    // No automatic abort and no retry; the session is still open and an
    // explicit abort still goes through.
    assert_eq!(w.state, MultipartState::InProgress);
    assert_eq!(w.w.core.counts.abort, 0);
    w.abort().unwrap();
    assert_eq!(w.state, MultipartState::Aborted);
    assert_eq!(w.w.core.counts.abort, 1);
}

#[test]
fn explicit_abort_releases_the_session() {
    let mut w = multipart_writer(SimService::default(), None, 5);
    w.write(b"data".to_vec()).unwrap();
    w.abort().unwrap();
    assert_eq!(w.state, MultipartState::Aborted);
    assert_eq!(w.w.core.counts.abort, 1);
    assert!(w.w.core.session.is_none());
}

fn append_writer(sim: SimService) -> AppendObjectWriter<ObsWriter<SimService>> {
    let op = OpWrite { append: true, content_length: None, content_type: None };
    AppendObjectWriter::new(ObsWriter::new(sim, "/bucket/key", op))
}

#[test]
fn append_to_missing_object_starts_at_zero() {
    let mut w = append_writer(SimService::default());
    w.write(b"ab".to_vec()).unwrap();
    // The offset query saw 404 and treated the length as 0.
    assert_eq!(w.w.core.counts.head, 1);
    assert_eq!(w.tracked_offset, Some(2));
    w.write(b"cd".to_vec()).unwrap();
    // No re-query between appends: the driver trusts its bookkeeping.
    assert_eq!(w.w.core.counts.head, 1);
    assert_eq!(w.tracked_offset, Some(4));
    assert_eq!(w.w.core.object, b"abcd".to_vec());
    w.close().unwrap();
    assert_eq!(w.tracked_offset, Some(4));
}

#[test]
fn append_starts_at_the_existing_length() {
    let mut sim = SimService::default();
    sim.object = b"hello".to_vec();
    sim.exists = true;
    let mut w = append_writer(sim);
    w.write(b" world".to_vec()).unwrap();
    assert_eq!(w.tracked_offset, Some(11));
    assert_eq!(w.w.core.object, b"hello world".to_vec());
}

#[test]
fn diverged_offset_is_a_conflict_and_does_not_corrupt_tracking() {
    let mut w = append_writer(SimService::default());
    w.write(b"abc".to_vec()).unwrap();
    assert_eq!(w.tracked_offset, Some(3));
    // Someone else lengthens the object behind the driver's back.
    w.w.core.object.push(0);
    let e = w.write(b"def".to_vec()).unwrap_err();
    assert_eq!(e.kind, ErrorKind::ConditionNotMatch);
    assert_eq!(e.status, Some(409));
    assert_eq!(w.tracked_offset, Some(3));
    assert_eq!(w.w.core.counts.append, 2);
}

#[test]
fn selector_picks_the_multipart_driver() {
    let op = op_with_length(Some(2));
    let mut w = ObsWriters::new(SimService::default(), "/bucket/key", op, 5);
    w.write(b"hi".to_vec()).unwrap();
    w.close().unwrap();
    match w {
        ObsWriters::Multipart(m) => {
            assert_eq!(m.state, MultipartState::Done);
            assert_eq!(m.w.core.counts.put, 1);
            assert_eq!(m.w.core.object, b"hi".to_vec());
        }
        ObsWriters::Append(_) => panic!("expected the multipart driver"),
    }
}

#[test]
fn selector_picks_the_append_driver() {
    let op = OpWrite { append: true, content_length: None, content_type: None };
    let mut w = ObsWriters::new(SimService::default(), "/bucket/key", op, 5);
    w.write(b"hi".to_vec()).unwrap();
    w.close().unwrap();
    // Abort has no append-side protocol; it is a successful no-op.
    w.abort().unwrap();
    match w {
        ObsWriters::Append(a) => {
            assert_eq!(a.tracked_offset, Some(2));
            assert_eq!(a.w.core.object, b"hi".to_vec());
            assert_eq!(a.w.core.counts.put, 0);
        }
        ObsWriters::Multipart(_) => panic!("expected the append driver"),
    }
}

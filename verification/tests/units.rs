//! Unit tests for the formatting, parsing and response-interpretation
//! functions of the library.

use obs_writer::digits::u64_to_string;
use obs_writer::error::{ErrorKind, ObsError};
use obs_writer::http::HttpResponse;
use obs_writer::oio::MultipartUploadPart;
use obs_writer::options::parse_options;
use obs_writer::writer::{
    interpret_abort, interpret_append, interpret_complete, interpret_initiate, interpret_offset,
    interpret_put_object, interpret_upload_part, OpWrite,
};
use obs_writer::xml::{build_complete_xml, find_str_from, parse_upload_id};

fn resp(status: u16, etag: Option<&str>, content_length: Option<u64>, body: &str) -> HttpResponse {
    HttpResponse {
        status,
        etag: etag.map(|s| s.to_string()),
        content_length,
        body: body.to_string(),
    }
}

#[test]
fn decimal_formatting() {
    assert_eq!(u64_to_string(0), "0");
    assert_eq!(u64_to_string(7), "7");
    assert_eq!(u64_to_string(10), "10");
    assert_eq!(u64_to_string(10000), "10000");
    assert_eq!(u64_to_string(987654321), "987654321");
}

#[test]
fn complete_manifest_shape() {
    let parts = vec![
        MultipartUploadPart { part_number: 1, etag: "\"a1\"".to_string() },
        MultipartUploadPart { part_number: 2, etag: "\"b2\"".to_string() },
    ];
    let xml = build_complete_xml(&parts);
    assert_eq!(
        xml,
        "<CompleteMultipartUpload>\
         <Part><PartNumber>1</PartNumber><ETag>\"a1\"</ETag></Part>\
         <Part><PartNumber>2</PartNumber><ETag>\"b2\"</ETag></Part>\
         </CompleteMultipartUpload>"
    );
}

#[test]
fn complete_manifest_empty() {
    let parts: Vec<MultipartUploadPart> = Vec::new();
    assert_eq!(
        build_complete_xml(&parts),
        "<CompleteMultipartUpload></CompleteMultipartUpload>"
    );
}

#[test]
fn upload_id_extraction() {
    let body = "<InitiateMultipartUploadResult xmlns=\"http://example\">\
                <Bucket>b</Bucket><Key>k</Key>\
                <UploadId>0004B9894A22E5B1888A1E29F823</UploadId>\
                </InitiateMultipartUploadResult>";
    assert_eq!(
        parse_upload_id(body).as_deref(),
        Some("0004B9894A22E5B1888A1E29F823")
    );
    assert_eq!(parse_upload_id("<UploadId>x</UploadId>").as_deref(), Some("x"));
    assert_eq!(parse_upload_id("<UploadId></UploadId>").as_deref(), Some(""));
    assert_eq!(parse_upload_id("<Bucket>b</Bucket>"), None);
    assert_eq!(parse_upload_id(""), None);
    assert_eq!(parse_upload_id("<UploadId>unterminated"), None);
}

#[test]
fn substring_search() {
    assert_eq!(find_str_from("abcabc", "bc", 0), Some(1));
    assert_eq!(find_str_from("abcabc", "bc", 2), Some(4));
    assert_eq!(find_str_from("abcabc", "bd", 0), None);
    assert_eq!(find_str_from("abc", "abcd", 0), None);
}

#[test]
fn classifier_kinds() {
    assert_eq!(ObsError::classified(404).kind, ErrorKind::NotFound);
    assert_eq!(ObsError::classified(403).kind, ErrorKind::PermissionDenied);
    assert_eq!(ObsError::classified(409).kind, ErrorKind::ConditionNotMatch);
    assert_eq!(ObsError::classified(412).kind, ErrorKind::ConditionNotMatch);
    assert_eq!(ObsError::classified(500).kind, ErrorKind::Backend);
    assert_eq!(ObsError::classified(503).status, Some(503));
    assert_eq!(ObsError::classified(404).message, "unexpected response status 404");
    assert_eq!(ObsError::classified(502).describe(), "unexpected response status 502");
}

#[test]
fn put_object_statuses() {
    assert!(interpret_put_object(&resp(200, None, None, "")).is_ok());
    assert!(interpret_put_object(&resp(201, None, None, "")).is_ok());
    let e = interpret_put_object(&resp(204, None, None, "")).unwrap_err();
    assert_eq!(e.kind, ErrorKind::Backend);
    let e = interpret_put_object(&resp(404, None, None, "")).unwrap_err();
    assert_eq!(e.kind, ErrorKind::NotFound);
}

#[test]
fn initiate_statuses() {
    let ok = interpret_initiate(&resp(200, None, None, "<UploadId>u-1</UploadId>"));
    assert_eq!(ok.unwrap(), "u-1");
    let e = interpret_initiate(&resp(200, None, None, "<NoId/>")).unwrap_err();
    assert_eq!(e.kind, ErrorKind::InvariantViolation);
    let e = interpret_initiate(&resp(500, None, None, "<UploadId>u-1</UploadId>")).unwrap_err();
    assert_eq!(e.kind, ErrorKind::Backend);
    assert_eq!(e.status, Some(500));
}

#[test]
fn upload_part_statuses() {
    let p = interpret_upload_part(3, &resp(200, Some("\"e3\""), None, "")).unwrap();
    assert_eq!(p.part_number, 3);
    assert_eq!(p.etag, "\"e3\"");
    // An otherwise successful response without an ETag is an invariant
    // violation, not a backend error.
    let e = interpret_upload_part(3, &resp(200, None, None, "")).unwrap_err();
    assert_eq!(e.kind, ErrorKind::InvariantViolation);
    assert_eq!(e.message, "ETag not present in returning response");
    let e = interpret_upload_part(3, &resp(500, Some("\"e3\""), None, "")).unwrap_err();
    assert_eq!(e.kind, ErrorKind::Backend);
}

#[test]
fn complete_and_abort_statuses() {
    assert!(interpret_complete(&resp(200, None, None, "")).is_ok());
    assert!(interpret_complete(&resp(204, None, None, "")).is_err());
    // Abort succeeds with the service-specific 204, and with nothing else.
    assert!(interpret_abort(&resp(204, None, None, "")).is_ok());
    assert!(interpret_abort(&resp(200, None, None, "")).is_err());
}

#[test]
fn offset_statuses() {
    assert_eq!(interpret_offset(&resp(200, None, Some(42), "")).unwrap(), 42);
    // A missing object has offset 0; it is not an error.
    assert_eq!(interpret_offset(&resp(404, None, None, "")).unwrap(), 0);
    let e = interpret_offset(&resp(200, None, None, "")).unwrap_err();
    assert_eq!(e.kind, ErrorKind::InvariantViolation);
    assert_eq!(e.message, "Content-Length not present in returning response");
    let e = interpret_offset(&resp(403, None, Some(42), "")).unwrap_err();
    assert_eq!(e.kind, ErrorKind::PermissionDenied);
}

#[test]
fn append_statuses() {
    assert!(interpret_append(&resp(200, None, None, "")).is_ok());
    let e = interpret_append(&resp(409, None, None, "")).unwrap_err();
    assert_eq!(e.kind, ErrorKind::ConditionNotMatch);
}

#[test]
fn op_write_builders() {
    let op = OpWrite::new();
    assert!(!op.append);
    assert_eq!(op.content_length, None);
    assert_eq!(op.content_type, None);
    let op = op.with_append(true).with_content_length(9).with_content_type("text/plain".to_string());
    assert!(op.append);
    assert_eq!(op.content_length, Some(9));
    assert_eq!(op.content_type.as_deref(), Some("text/plain"));
}

#[test]
fn options_parsing() {
    let pairs = parse_options("ak=1,sk=2").unwrap();
    assert_eq!(pairs.len(), 2);
    assert_eq!(pairs[0], ("ak".to_string(), "1".to_string()));
    assert_eq!(pairs[1], ("sk".to_string(), "2".to_string()));

    let pairs = parse_options("endpoint=http://h").unwrap();
    assert_eq!(pairs, vec![("endpoint".to_string(), "http://h".to_string())]);

    // The value is everything after the first '='; it may be empty or
    // itself contain '='.
    let pairs = parse_options("k=v=w,x=").unwrap();
    assert_eq!(pairs[0], ("k".to_string(), "v=w".to_string()));
    assert_eq!(pairs[1], ("x".to_string(), String::new()));

    assert_eq!(parse_options("a=1,b").unwrap_err(), "Invalid key value format");
    assert_eq!(parse_options("").unwrap_err(), "Invalid key value format");
    assert_eq!(parse_options("plain").unwrap_err(), "Invalid key value format");
}

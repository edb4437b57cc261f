use std::collections::HashMap;

use langid::{split_lines, Document, Error, Identification, Metadata};
use warc::{RawRecordHeader, WarcHeader};

fn id(label: &str, prob: f32) -> Identification {
    Identification { label: String::from(label), prob_bits: prob.to_bits() }
}

fn headers_with_id(record_id: &[u8]) -> RawRecordHeader {
    let mut headers: HashMap<WarcHeader, Vec<u8>> = HashMap::new();
    headers.insert(WarcHeader::RecordID, record_id.to_vec());
    headers.insert(WarcHeader::ContentType, b"text/plain".to_vec());
    RawRecordHeader { version: String::from("1.0"), headers }
}

fn sample_document(content: &str) -> Document {
    let metadata = Metadata::new(id("en", 0.95), vec![Some(id("en", 0.9)), None]);
    Document::new(String::from(content), headers_with_id(b"<urn:uuid:42>"), metadata)
}

#[test]
fn metadata_keeps_one_entry_per_sentence() {
    let sentences = vec![None, Some(id("fr", 0.81)), None, None];
    let metadata = Metadata::new(id("fr", 0.9), sentences);
    assert_eq!(metadata.sentence_identifications().len(), 4);
    assert!(metadata.sentence_identifications()[0].is_none());
    assert_eq!(metadata.sentence_identifications()[1].as_ref().unwrap().label, "fr");
    assert!(metadata.sentence_identifications()[3].is_none());
}

#[test]
fn metadata_empty_sentence_list() {
    let metadata = Metadata::new(id("en", 0.9), Vec::new());
    assert_eq!(metadata.sentence_identifications().len(), 0);
    assert_eq!(metadata.identification().label, "en");
}

#[test]
fn document_accessors_are_idempotent() {
    let doc = sample_document("Hello there.\nSecond line.");
    let first = doc.identification().label.clone();
    let second = doc.identification().label.clone();
    assert_eq!(first, second);
    assert_eq!(first, "en");
    let id_a = doc.warc_id().unwrap();
    let id_b = doc.warc_id().unwrap();
    assert_eq!(id_a, id_b);
    assert_eq!(id_a, "<urn:uuid:42>");
    assert_eq!(doc.content(), doc.content());
    assert_eq!(doc.content().as_str(), "Hello there.\nSecond line.");
}

#[test]
fn warc_id_missing_header() {
    let headers = RawRecordHeader { version: String::from("1.0"), headers: HashMap::new() };
    let metadata = Metadata::new(id("en", 0.95), Vec::new());
    let doc = Document::new(String::from("text"), headers, metadata);
    assert_eq!(doc.warc_id().unwrap_err(), Error::MissingHeader);
}

#[test]
fn warc_id_decodes_best_effort() {
    let metadata = Metadata::new(id("en", 0.95), Vec::new());
    let doc = Document::new(String::from("text"), headers_with_id(b"\xFFid"), metadata);
    assert_eq!(doc.warc_id().unwrap(), "\u{FFFD}id");
}

#[test]
fn split_lines_cases() {
    assert_eq!(split_lines(""), Vec::<String>::new());
    assert_eq!(split_lines("one"), vec!["one"]);
    assert_eq!(split_lines("a\nb\r\nc\n"), vec!["a", "b", "c"]);
    assert_eq!(split_lines("\n\n"), vec!["", ""]);
    // A carriage return without a following line feed stays in the line.
    assert_eq!(split_lines("a\rb"), vec!["a\rb"]);
    assert_eq!(split_lines("tail\r"), vec!["tail\r"]);
}

#[test]
fn content_lines_match_content() {
    let doc = sample_document("first line\r\nsecond line\nthird");
    assert_eq!(doc.content_lines(), vec!["first line", "second line", "third"]);
}

#[test]
fn rendered_headers_decode_every_header() {
    let doc = sample_document("text");
    let mut rendered = doc.rendered_headers();
    rendered.sort();
    assert_eq!(
        rendered,
        vec![
            (String::from("content-type"), String::from("text/plain")),
            (String::from("warc-record-id"), String::from("<urn:uuid:42>")),
        ]
    );
}

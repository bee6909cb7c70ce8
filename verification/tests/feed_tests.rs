//! End-to-end tests of the document pipeline: extraction, canonical
//! serialization, content addressing and idempotent persistence.

use feed_cache::process_feed_text;
use feed_cache::write_artifacts;
use feed_cache::Artifact;
use feed_cache::ArtifactStore;

const FULL_DOC: &str = "<?xml version=\"1.0\"?><feed>\
<entry><yt:videoId>v1</yt:videoId><yt:channelId>c1</yt:channelId>\
<title>T</title><author><name>A</name></author>\
<published>2020-01-01T00:00:00Z</published></entry>\
<entry><yt:videoId>v2</yt:videoId><yt:channelId>c2</yt:channelId>\
<author><name>B</name></author>\
<published>2020-01-02T00:00:00Z</published></entry>\
</feed>";

const FIRST_JSON: &str = "{\"video_id\":\"v1\",\"channel_id\":\"c1\",\"title\":\"T\",\
\"author\":\"A\",\"published\":\"2020-01-01T00:00:00Z\"}";

fn artifact_pairs(arts: &[Artifact]) -> Vec<(String, Vec<u8>)> {
    let mut pairs: Vec<(String, Vec<u8>)> = arts
        .iter()
        .map(|a| (a.name.clone(), a.bytes.clone()))
        .collect();
    pairs.sort();
    pairs
}

#[test]
fn complete_entry_produces_one_artifact() {
    let report = process_feed_text(FULL_DOC);
    assert!(!report.malformed);
    let arts = report.artifacts;
    assert_eq!(arts.len(), 1);
    assert_eq!(arts[0].bytes, FIRST_JSON.as_bytes().to_vec());
}

#[test]
fn artifact_name_is_digest_of_bytes() {
    let report = process_feed_text(FULL_DOC);
    let arts = report.artifacts;
    assert_eq!(arts.len(), 1);
    let expected = format!("{:x}.json", md5::compute(&arts[0].bytes));
    assert_eq!(arts[0].name, expected);
}

#[test]
fn hash_is_deterministic_across_runs() {
    let report = process_feed_text(FULL_DOC);
    let first = report.artifacts;
    let report = process_feed_text(FULL_DOC);
    let second = report.artifacts;
    assert_eq!(first.len(), 1);
    assert_eq!(second.len(), 1);
    assert_eq!(first[0].name, second[0].name);
    assert_eq!(first[0].bytes, second[0].bytes);
}

#[test]
fn same_document_twice_yields_one_file() {
    let mut store = ArtifactStore::new();
    let report = process_feed_text(FULL_DOC);
    let first = report.artifacts;
    let report = process_feed_text(FULL_DOC);
    let second = report.artifacts;
    write_artifacts(&mut store, first);
    write_artifacts(&mut store, second);
    assert_eq!(store.file_count(), 1);
    assert_eq!(store.files[0].bytes, FIRST_JSON.as_bytes().to_vec());
}

#[test]
fn write_is_idempotent() {
    let mut store = ArtifactStore::new();
    let report = process_feed_text(FULL_DOC);
    let arts = report.artifacts;
    let again: Vec<Artifact> = arts
        .iter()
        .map(|a| Artifact { name: a.name.clone(), bytes: a.bytes.clone() })
        .collect();
    write_artifacts(&mut store, arts);
    let before = store.files[0].bytes.clone();
    write_artifacts(&mut store, again);
    assert_eq!(store.file_count(), 1);
    assert_eq!(store.files[0].bytes, before);
}

#[test]
fn truncated_document_is_malformed_and_yields_nothing() {
    let truncated = "<feed><entry><yt:videoId>v1</yt:videoId><title>T";
    let report = process_feed_text(truncated);
    let malformed = report.malformed;
    let arts = report.artifacts;
    assert!(malformed);
    assert_eq!(arts.len(), 0);
}

#[test]
fn failure_of_one_file_leaves_another_untouched() {
    let truncated = "<feed><entry><title>T</title>";
    let report = process_feed_text(truncated);
    let bad = report.malformed;
    let bad_arts = report.artifacts;
    assert!(bad);
    assert_eq!(bad_arts.len(), 0);
    let report = process_feed_text(FULL_DOC);
    let good_malformed = report.malformed;
    let good_arts = report.artifacts;
    assert!(!good_malformed);
    assert_eq!(good_arts.len(), 1);
    assert_eq!(good_arts[0].bytes, FIRST_JSON.as_bytes().to_vec());
}

#[test]
fn batch_order_does_not_change_the_store() {
    let other = "<feed><entry><yt:videoId>x</yt:videoId><yt:channelId>y</yt:channelId>\
<title>Other</title><author><name>N</name></author>\
<published>2021-05-05T00:00:00Z</published></entry></feed>";
    let report = process_feed_text(FULL_DOC);
    let a1 = report.artifacts;
    let report = process_feed_text(other);
    let b1 = report.artifacts;
    let report = process_feed_text(FULL_DOC);
    let a2 = report.artifacts;
    let report = process_feed_text(other);
    let b2 = report.artifacts;
    let mut one_worker = ArtifactStore::new();
    write_artifacts(&mut one_worker, a1);
    write_artifacts(&mut one_worker, b1);
    let mut other_order = ArtifactStore::new();
    write_artifacts(&mut other_order, b2);
    write_artifacts(&mut other_order, a2);
    assert_eq!(artifact_pairs(&one_worker.files), artifact_pairs(&other_order.files));
    assert_eq!(one_worker.file_count(), 2);
}

#[test]
fn unknown_element_does_not_disturb_siblings() {
    let with_noise = "<feed><entry><yt:videoId>v1</yt:videoId>\
<junk>garbage</junk><yt:channelId>c1</yt:channelId>\
<title>T</title><author><name>A</name></author>\
<published>2020-01-01T00:00:00Z</published></entry></feed>";
    let report = process_feed_text(with_noise);
    let noisy = report.artifacts;
    let report = process_feed_text(FULL_DOC);
    let clean = report.artifacts;
    assert_eq!(noisy.len(), 1);
    assert_eq!(noisy[0].name, clean[0].name);
    assert_eq!(noisy[0].bytes, clean[0].bytes);
}

#[test]
fn empty_document_yields_nothing() {
    let report = process_feed_text("<feed></feed>");
    let malformed = report.malformed;
    let arts = report.artifacts;
    assert!(!malformed);
    assert_eq!(arts.len(), 0);
    let report = process_feed_text("");
    let empty_malformed = report.malformed;
    let none = report.artifacts;
    assert!(!empty_malformed);
    assert_eq!(none.len(), 0);
}

//! Tests of the extraction scanner's edge cases and of the canonical
//! serialization's escaping.

use feed_cache::complete;
use feed_cache::entry_json;
use feed_cache::process_feed_text;
use feed_cache::read_events;
use feed_cache::scan_events;
use feed_cache::Entry;
use feed_cache::EntryOptional;

fn single_entry_doc(body: &str) -> String {
    format!("<feed><entry>{}</entry></feed>", body)
}

fn required_tail() -> &'static str {
    "<yt:videoId>v</yt:videoId><yt:channelId>c</yt:channelId>\
<author><name>A</name></author><published>P</published>"
}

fn extract_one(body: &str) -> Option<Vec<u8>> {
    let doc = single_entry_doc(body);
    let report = process_feed_text(&doc);
    let malformed = report.malformed;
    let arts = report.artifacts;
    assert!(!malformed);
    if arts.is_empty() {
        None
    } else {
        assert_eq!(arts.len(), 1);
        Some(arts[0].bytes.clone())
    }
}

fn title_of(bytes: &[u8]) -> String {
    let text = String::from_utf8(bytes.to_vec()).unwrap();
    let start = text.find("\"title\":\"").unwrap() + "\"title\":\"".len();
    let rest = &text[start..];
    let end = rest.find("\",\"author\"").unwrap();
    rest[..end].to_string()
}

#[test]
fn last_occurrence_of_a_field_wins() {
    let body = format!("<title>first</title><title>second</title>{}", required_tail());
    let bytes = extract_one(&body).unwrap();
    assert_eq!(title_of(&bytes), "second");
}

#[test]
fn field_text_is_trimmed() {
    let body = format!("<title>  padded  </title>{}", required_tail());
    let bytes = extract_one(&body).unwrap();
    assert_eq!(title_of(&bytes), "padded");
}

#[test]
fn pretty_printed_document_extracts_the_same() {
    let doc = "<feed>\n  <entry>\n    <yt:videoId>v1</yt:videoId>\n    \
<yt:channelId>c1</yt:channelId>\n    <title>T</title>\n    \
<author>\n      <name>A</name>\n    </author>\n    \
<published>2020-01-01T00:00:00Z</published>\n  </entry>\n</feed>\n";
    let report = process_feed_text(doc);
    let malformed = report.malformed;
    let arts = report.artifacts;
    assert!(!malformed);
    assert_eq!(arts.len(), 1);
    let expected = "{\"video_id\":\"v1\",\"channel_id\":\"c1\",\"title\":\"T\",\
\"author\":\"A\",\"published\":\"2020-01-01T00:00:00Z\"}";
    assert_eq!(arts[0].bytes, expected.as_bytes().to_vec());
}

#[test]
fn nested_same_named_elements_collect_all_text() {
    let body = format!("<title>a<title>b</title>c</title>{}", required_tail());
    let bytes = extract_one(&body).unwrap();
    assert_eq!(title_of(&bytes), "abc");
}

#[test]
fn cdata_counts_as_text() {
    let body = format!("<title><![CDATA[T]]></title>{}", required_tail());
    let bytes = extract_one(&body).unwrap();
    assert_eq!(title_of(&bytes), "T");
}

#[test]
fn author_without_name_leaves_field_unset() {
    let body = "<yt:videoId>v</yt:videoId><yt:channelId>c</yt:channelId>\
<title>T</title><author><uri>u</uri></author><published>P</published>";
    assert!(extract_one(body).is_none());
}

#[test]
fn author_uri_is_not_retained() {
    let body = "<yt:videoId>v</yt:videoId><yt:channelId>c</yt:channelId>\
<title>T</title><author><name>A</name><uri>ignored</uri></author>\
<published>P</published>";
    let bytes = extract_one(body).unwrap();
    let text = String::from_utf8(bytes).unwrap();
    assert!(text.contains("\"author\":\"A\""));
    assert!(!text.contains("ignored"));
}

#[test]
fn each_required_field_is_required() {
    let fields = [
        "<yt:videoId>v</yt:videoId>",
        "<yt:channelId>c</yt:channelId>",
        "<title>T</title>",
        "<author><name>A</name></author>",
        "<published>P</published>",
    ];
    for omit in 0..fields.len() {
        let body: String = fields
            .iter()
            .enumerate()
            .filter(|(i, _)| *i != omit)
            .map(|(_, f)| *f)
            .collect();
        assert!(extract_one(&body).is_none(), "entry without field {} was kept", omit);
    }
    let all: String = fields.concat();
    assert!(extract_one(&all).is_some());
}

#[test]
fn complete_requires_every_field() {
    let full = EntryOptional {
        video_id: Some(b"v".to_vec()),
        channel_id: Some(b"c".to_vec()),
        title: Some(b"t".to_vec()),
        author: Some(b"a".to_vec()),
        published: Some(b"p".to_vec()),
    };
    assert!(complete(full).is_some());
    let partial = EntryOptional {
        video_id: Some(b"v".to_vec()),
        channel_id: Some(b"c".to_vec()),
        title: None,
        author: Some(b"a".to_vec()),
        published: Some(b"p".to_vec()),
    };
    assert!(complete(partial).is_none());
}

#[test]
fn serialization_escapes_specials() {
    let e = Entry {
        video_id: b"v".to_vec(),
        channel_id: b"c".to_vec(),
        title: "a\"b\\c\nd\te".as_bytes().to_vec(),
        author: vec![1u8],
        published: b"p".to_vec(),
    };
    let json = entry_json(&e);
    let expected = "{\"video_id\":\"v\",\"channel_id\":\"c\",\
\"title\":\"a\\\"b\\\\c\\nd\\te\",\"author\":\"\\u0001\",\"published\":\"p\"}";
    assert_eq!(json, expected.as_bytes().to_vec());
}

#[test]
fn scanner_reports_entries_in_document_order() {
    let doc = "<feed><entry><yt:videoId>1</yt:videoId><yt:channelId>c</yt:channelId>\
<title>one</title><author><name>A</name></author><published>P</published></entry>\
<entry><yt:videoId>2</yt:videoId><yt:channelId>c</yt:channelId>\
<title>two</title><author><name>A</name></author><published>P</published></entry></feed>";
    let (events, _) = read_events(doc);
    let scanner = scan_events(&events);
    assert!(!scanner.malformed);
    assert_eq!(scanner.entries.len(), 2);
    assert_eq!(scanner.entries[0].video_id, b"1".to_vec());
    assert_eq!(scanner.entries[1].video_id, b"2".to_vec());
}

#[test]
fn error_between_entries_keeps_earlier_entries() {
    let doc = "<feed><entry><yt:videoId>1</yt:videoId><yt:channelId>c</yt:channelId>\
<title>one</title><author><name>A</name></author><published>P</published></entry>\
</mismatch><entry><yt:videoId>2</yt:videoId></entry></feed>";
    let report = process_feed_text(doc);
    let malformed = report.malformed;
    let arts = report.artifacts;
    assert!(malformed);
    assert_eq!(arts.len(), 1);
}

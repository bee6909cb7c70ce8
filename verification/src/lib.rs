//! Extraction of video entries from feed XML documents and their persistence
//! as content-addressed JSON artifacts.
//!
//! A feed document is tokenized into structural events; a verified scanner
//! walks those events, accumulates the fields of each entry scope, drops
//! partial records, serializes each completed record to canonical JSON and
//! names the artifact by the hex digest of its bytes, so that identical
//! records collapse to one artifact.

mod artifact;
mod bytes;
mod entry;
mod event;
mod json;
mod pipeline;
mod scan;
mod store;
mod tags;
mod tokenize;

pub use artifact::artifact_name_spec;
pub use artifact::artifact_of;
pub use artifact::lemma_content_addressed;
pub use artifact::make_artifact;
pub use artifact::md5_hex_of;
pub use artifact::views_of_artifacts;
pub use artifact::Artifact;
pub use artifact::ArtifactModel;
pub use entry::all_set;
pub use entry::complete;
pub use entry::completed_model;
pub use entry::empty_model;
pub use entry::Entry;
pub use entry::EntryModel;
pub use entry::EntryOptional;
pub use entry::EntryOptionalModel;
pub use entry::view_of_opt;
pub use event::is_terminal;
pub use event::valid_stream;
pub use event::views_of_events;
pub use event::Ev;
pub use event::XmlEvent;
pub use json::entry_json;
pub use json::escape;
pub use json::escape_byte;
pub use json::escape_bytes;
pub use json::hex_digit;
pub use json::serialize_entry;
pub use pipeline::artifacts_of_entries;
pub use pipeline::feed_artifacts;
pub use pipeline::process_feed_text;
pub use pipeline::FeedReport;
pub use pipeline::write_artifacts;
pub use scan::field_tag;
pub use scan::field_tag_bytes;
pub use scan::init_model;
pub use scan::lemma_fresh_accumulator;
pub use scan::lemma_partial_record_dropped;
pub use scan::lemma_scope_isolation;
pub use scan::mode_depth;
pub use scan::run_from;
pub use scan::scan_events;
pub use scan::scan_spec;
pub use scan::scan_step;
pub use scan::set_field;
pub use scan::set_field_author;
pub use scan::set_field_exec;
pub use scan::step;
pub use scan::views_of_entries;
pub use scan::Field;
pub use scan::Mode;
pub use scan::ModeModel;
pub use scan::Scanner;
pub use scan::ScannerModel;
pub use store::consistent;
pub use store::files_map;
pub use store::has_name;
pub use store::lemma_order_independent;
pub use store::lemma_write_all_shape;
pub use store::lemma_write_commutes;
pub use store::lemma_write_idempotent;
pub use store::store_write;
pub use store::store_write_all;
pub use store::ArtifactStore;
pub use tags::tag_entry;
pub use tags::tag_video_id;
pub use tags::tag_channel_id;
pub use tags::tag_title;
pub use tags::tag_published;
pub use tags::tag_author;
pub use tags::tag_name;
pub use tags::entry_bytes;
pub use tags::video_id_bytes;
pub use tags::channel_id_bytes;
pub use tags::title_bytes;
pub use tags::published_bytes;
pub use tags::author_bytes;
pub use tags::name_bytes;
pub use tokenize::collect_events;
pub use tokenize::read_events;
pub use bytes::ascii_bytes;
pub use bytes::bytes_eq;
pub use bytes::is_ws;
pub use bytes::lit_bytes;
pub use bytes::push_all;
pub use bytes::trim;
pub use bytes::trim_bytes;
pub use bytes::trim_back;
pub use bytes::trim_front;

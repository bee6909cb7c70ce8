//! The element names the scanner recognizes, as byte sequences.

use vstd::prelude::*;
use crate::bytes::ascii_bytes;
use crate::bytes::lit_bytes;

verus! {

pub open spec fn tag_entry() -> Seq<u8> {
    ascii_bytes("entry"@)
}

pub open spec fn tag_video_id() -> Seq<u8> {
    ascii_bytes("yt:videoId"@)
}

pub open spec fn tag_channel_id() -> Seq<u8> {
    ascii_bytes("yt:channelId"@)
}

pub open spec fn tag_title() -> Seq<u8> {
    ascii_bytes("title"@)
}

pub open spec fn tag_published() -> Seq<u8> {
    ascii_bytes("published"@)
}

pub open spec fn tag_author() -> Seq<u8> {
    ascii_bytes("author"@)
}

pub open spec fn tag_name() -> Seq<u8> {
    ascii_bytes("name"@)
}

/// The byte form of the `entry` element name.
pub fn entry_bytes() -> (r: Vec<u8>)
    ensures
        r@ == tag_entry(),
{
    proof {
        reveal_strlit("entry");
    }
    lit_bytes("entry")
}

/// The byte form of the video identifier element name.
pub fn video_id_bytes() -> (r: Vec<u8>)
    ensures
        r@ == tag_video_id(),
{
    proof {
        reveal_strlit("yt:videoId");
    }
    lit_bytes("yt:videoId")
}

/// The byte form of the channel identifier element name.
pub fn channel_id_bytes() -> (r: Vec<u8>)
    ensures
        r@ == tag_channel_id(),
{
    proof {
        reveal_strlit("yt:channelId");
    }
    lit_bytes("yt:channelId")
}

/// The byte form of the `title` element name.
pub fn title_bytes() -> (r: Vec<u8>)
    ensures
        r@ == tag_title(),
{
    proof {
        reveal_strlit("title");
    }
    lit_bytes("title")
}

/// The byte form of the `published` element name.
pub fn published_bytes() -> (r: Vec<u8>)
    ensures
        r@ == tag_published(),
{
    proof {
        reveal_strlit("published");
    }
    lit_bytes("published")
}

/// The byte form of the `author` element name.
pub fn author_bytes() -> (r: Vec<u8>)
    ensures
        r@ == tag_author(),
{
    proof {
        reveal_strlit("author");
    }
    lit_bytes("author")
}

/// The byte form of the `name` element name.
pub fn name_bytes() -> (r: Vec<u8>)
    ensures
        r@ == tag_name(),
{
    proof {
        reveal_strlit("name");
    }
    lit_bytes("name")
}

} // verus!

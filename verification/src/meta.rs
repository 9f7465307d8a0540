//! The library's own model of what a tag read yields for one audio file:
//! the textual fields, the embedded picture and the duration, as plain
//! values. The caller fills it from whatever tag-reading backend it uses;
//! the precedence rules over the fields are decided and verified here.

use vstd::prelude::*;

use crate::state::PlayerError;

verus! {

/// The fields read from a file's primary tag.
#[derive(Debug)]
pub struct TagData {
    pub title: Option<String>,
    pub artist: Option<String>,
    pub album: Option<String>,
    /// First embedded picture of the tag, if any.
    pub picture: Option<Vec<u8>>,
}

/// Metadata of one audio file: the primary tag, if the file had one, the
/// duration from the file's properties, and an optional title override
/// that takes precedence over the tag's title.
#[derive(Debug)]
pub struct MetaData {
    pub tag: Option<TagData>,
    pub duration_secs: u64,
    pub title: Option<String>,
}

/// The title `MetaData::title` reports: the override when one is set,
/// otherwise the tag's title, otherwise nothing.
pub open spec fn title_spec(m: MetaData) -> Option<String> {
    if m.title is Some {
        m.title
    } else if m.tag is Some {
        m.tag->Some_0.title
    } else {
        None
    }
}

impl MetaData {
    /// A fresh record with no override set.
    pub fn new(tag: Option<TagData>, duration_secs: u64) -> (m: MetaData)
        ensures
            m.tag == tag,
            m.duration_secs == duration_secs,
            m.title is None,
    {
        MetaData { tag, duration_secs, title: None }
    }

    /// Install (or clear) the title override.
    pub fn set_title(&mut self, title: Option<String>)
        ensures
            final(self).title == title,
            final(self).tag == old(self).tag,
            final(self).duration_secs == old(self).duration_secs,
    {
        self.title = title;
    }

    /// Title with the override taking precedence over the tag.
    pub fn title(&self) -> (r: Option<String>)
        ensures
            r == title_spec(*self),
    {
        match &self.title {
            Some(t) => Some(t.clone()),
            None => match &self.tag {
                Some(tag) => match &tag.title {
                    Some(t) => Some(t.clone()),
                    None => None,
                },
                None => None,
            },
        }
    }

    /// The tag's artist, if the file had a tag carrying one.
    pub fn artist(&self) -> (r: Option<String>)
        ensures
            r == (match self.tag {
                Some(tag) => tag.artist,
                None => None::<String>,
            }),
    {
        match &self.tag {
            Some(tag) => match &tag.artist {
                Some(a) => Some(a.clone()),
                None => None,
            },
            None => None,
        }
    }

    /// The tag's album, if the file had a tag carrying one.
    pub fn album(&self) -> (r: Option<String>)
        ensures
            r == (match self.tag {
                Some(tag) => tag.album,
                None => None::<String>,
            }),
    {
        match &self.tag {
            Some(tag) => match &tag.album {
                Some(a) => Some(a.clone()),
                None => None,
            },
            None => None,
        }
    }

    /// Duration of the file in whole seconds.
    pub fn duration(&self) -> (r: u64)
        ensures
            r == self.duration_secs,
    {
        self.duration_secs
    }

    /// Bytes of the first embedded picture, if the tag holds one. The same
    /// record always yields the same bytes.
    pub fn picture(&self) -> (r: Option<Vec<u8>>)
        ensures
            match self.tag {
                Some(tag) => match tag.picture {
                    Some(p) => r is Some && r->Some_0@ == p@,
                    None => r is None,
                },
                None => r is None,
            },
    {
        match &self.tag {
            Some(tag) => match &tag.picture {
                Some(p) => {
                    let c = p.clone();
                    proof {
                        assert(c@ =~= p@);
                    }
                    Some(c)
                },
                None => None,
            },
            None => None,
        }
    }
}

/// During a scan a failed metadata read is skipped; on an explicit
/// single-file request it is reported instead, never silently dropped.
pub fn require_metadata(meta: Option<MetaData>) -> (r: Result<MetaData, PlayerError>)
    ensures
        match meta {
            Some(m) => r == Ok::<MetaData, PlayerError>(m),
            None => r == Err::<MetaData, PlayerError>(PlayerError::MetadataReadFailure),
        },
{
    match meta {
        Some(m) => Ok(m),
        None => Err(PlayerError::MetadataReadFailure),
    }
}

} // verus!

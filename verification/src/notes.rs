use crate::clock::now_rfc3339;
use vstd::prelude::*;
use vstd::string::{StrSliceExecFns, StringExecFns};

verus! {

// Notes are markdown files with a JSON metadata side file; storage lives
// outside this crate. What is verified here is the metadata fallback and
// the preview a note list shows.

/// A note's stored metadata.
pub struct NoteMeta {
    pub title: String,
    pub participants: Vec<String>,
    pub tags: Vec<String>,
    pub created_at: String,
    pub updated_at: String,
}

/// A whole note: its identifier, markdown content and metadata.
pub struct Note {
    pub id: String,
    pub content: String,
    pub meta: NoteMeta,
}

/// One row of the note list: metadata plus a content preview.
pub struct NoteSummary {
    pub id: String,
    pub title: String,
    pub created_at: String,
    pub updated_at: String,
    pub tags: Vec<String>,
    pub preview: String,
}

/// How many characters the note list's preview shows.
pub const PREVIEW_LEN: usize = 120;

/// Fallback metadata for a note that has none stored: titled by its
/// identifier, with no participants or tags, stamped with the clock.
/// Each timestamp is a fresh clock reading, so the two may differ.
pub fn default_meta(id: &str) -> (m: NoteMeta)
    ensures
        m.title@ == id@,
        m.participants@.len() == 0,
        m.tags@.len() == 0,
{
    NoteMeta {
        title: id.to_owned(),
        participants: Vec::new(),
        tags: Vec::new(),
        created_at: now_rfc3339(),
        updated_at: now_rfc3339(),
    }
}

/// The preview of a note's content: its first 120 characters, or all of
/// them when the note is shorter.
pub fn note_preview(content: &str) -> (p: String)
    ensures
        p@ == content@.take(
            if content@.len() <= PREVIEW_LEN {
                content@.len() as int
            } else {
                PREVIEW_LEN as int
            },
        ),
{
    let n = content.unicode_len();
    if n <= PREVIEW_LEN {
        let r = content.to_owned();
        proof {
            assert(content@.take(n as int) =~= content@);
        }
        r
    } else {
        let r = content.substring_char(0, PREVIEW_LEN).to_owned();
        proof {
            assert(content@.subrange(0, PREVIEW_LEN as int) =~= content@.take(PREVIEW_LEN as int));
        }
        r
    }
}

} // verus!

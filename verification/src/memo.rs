//! The memo pad: its content and the time it was last saved.
use vstd::prelude::*;

use crate::clock::{now_rfc3339, stamp_or_blank};

verus! {

/// The memo as it is stored and shown.
pub struct MemoData {
    pub content: String,
    pub updated_at: String,
}

impl MemoData {
    /// The memo before anything was ever saved: no content and no time stamp.
    pub fn blank() -> (r: MemoData)
        ensures
            r.content@ == Seq::<char>::empty(),
            r.updated_at@ == Seq::<char>::empty(),
    {
        MemoData { content: String::new(), updated_at: String::new() }
    }
}

/// The memo to show, given what the store held: the stored memo, or the error met reading it,
/// when there is one; a blank memo when nothing was ever saved.
pub fn memo_or_blank(stored: Option<Result<MemoData, String>>) -> (r: Result<MemoData, String>)
    ensures
        match stored {
            Some(found) => r == found,
            None => r matches Ok(m) && m.content@ == Seq::<char>::empty() && m.updated_at@
                == Seq::<char>::empty(),
        },
{
    match stored {
        Some(found) => found,
        None => Ok(MemoData::blank()),
    }
}

/// The memo to store for `content`, stamped `updated_at`.
pub fn stamp_memo_at(content: String, updated_at: String) -> (r: MemoData)
    ensures
        r.content == content,
        r.updated_at == updated_at,
{
    MemoData { content, updated_at }
}

/// The memo to store for `content`, stamped with the current local time as RFC 3339 text,
/// or with an empty stamp when the clock reads a time outside the years 1 to 9999. The
/// content is kept exactly as given.
pub fn stamp_memo(content: String) -> (r: MemoData)
    ensures
        r.content == content,
        stamp_or_blank(r.updated_at@),
{
    let now = match now_rfc3339() {
        Some(t) => t,
        None => String::new(),
    };
    stamp_memo_at(content, now)
}

} // verus!

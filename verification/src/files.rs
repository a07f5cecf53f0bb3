//! File observations.  Nothing is collected yet: an observation is a
//! read-only placeholder for a displayed path.
use vstd::prelude::*;
use crate::text::owned;

verus! {

#[derive(Debug, Clone, Copy, PartialEq, Eq, Structural)]
pub enum FileAttentionKind {
    RecentlyChanged,
    UnusualLocation,
    UnknownPublisher,
}

#[derive(Debug, Clone, PartialEq, Eq)]
pub struct FileObservation {
    pub path_display: String,
    pub attention_kind: Option<FileAttentionKind>,
    pub read_only_placeholder: bool,
}

impl FileObservation {
    /// A read-only placeholder for a path, with nothing to draw attention to.
    pub fn placeholder(path_display: &str) -> (r: Self)
        ensures
            r.path_display@ == path_display@,
            r.attention_kind is None,
            r.read_only_placeholder,
    {
        FileObservation {
            path_display: owned(path_display),
            attention_kind: None,
            read_only_placeholder: true,
        }
    }
}

} // verus!

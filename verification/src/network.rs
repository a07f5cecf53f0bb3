//! Network observations.  Nothing is collected yet: an observation is a
//! local placeholder.
use vstd::prelude::*;
use crate::text::owned;

verus! {

#[derive(Debug, Clone, PartialEq, Eq)]
pub struct NetworkObservation {
    pub process_name: String,
    pub remote_endpoint: String,
    pub protocol: String,
    pub attention_hint: Option<String>,
}

impl NetworkObservation {
    /// An observation that records nothing yet.
    pub fn placeholder() -> (r: Self)
        ensures
            r.process_name@ == "not-collected-yet"@,
            r.remote_endpoint@ == "local-placeholder"@,
            r.protocol@ == "unknown"@,
            r.attention_hint is None,
    {
        NetworkObservation {
            process_name: owned("not-collected-yet"),
            remote_endpoint: owned("local-placeholder"),
            protocol: owned("unknown"),
            attention_hint: None,
        }
    }
}

} // verus!

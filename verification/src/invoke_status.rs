use vstd::prelude::*;

verus! {

/// Status of an invocation as the judge API reports it.
#[derive(Debug, PartialEq, Eq)]
pub struct InvokeStatus {
    pub code: String,
    pub kind: String,
}

impl InvokeStatus {
    /// Builds a status from its code and kind.
    pub fn new(code: String, kind: String) -> (s: InvokeStatus)
        ensures
            s.code == code,
            s.kind == kind,
    {
        InvokeStatus { code, kind }
    }
}

} // verus!

//! The LNURL error envelope `{"status": "ERROR", "reason": ...}`.
use vstd::prelude::*;
use vstd::string::*;

verus! {

/// The body of every failed LNURL response.
pub struct ErrorEnvelope {
    pub status: String,
    pub reason: String,
}

/// The status word that every error envelope carries.
pub open spec fn error_status() -> Seq<char> {
    seq!['E', 'R', 'R', 'O', 'R']
}

impl ErrorEnvelope {
    /// Holds `status == "ERROR"` and the given reason.
    pub open spec fn is_error_with(&self, reason: Seq<char>) -> bool {
        self.status@ == error_status() && self.reason@ == reason
    }
}

/// The one constructor of error envelopes: status `ERROR` and the given reason.
pub fn build_lnurl_response_err(err_details: &str) -> (r: ErrorEnvelope)
    ensures
        r.is_error_with(err_details@),
{
    proof {
        reveal_strlit("ERROR");
        assert("ERROR"@ =~= error_status());
    }
    ErrorEnvelope { status: String::from_str("ERROR"), reason: String::from_str(err_details) }
}

/// An error envelope whose reason is `prefix` followed by `detail`.
pub fn prefixed_error(prefix: &str, detail: &str) -> (r: ErrorEnvelope)
    ensures
        r.is_error_with(prefix@ + detail@),
{
    let mut reason = String::from_str(prefix);
    reason.append(detail);
    build_lnurl_response_err(reason.as_str())
}

} // verus!

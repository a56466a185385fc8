use vstd::prelude::*;

verus! {

broadcast use vstd::string::group_string_axioms;

/// The largest request body the server reads, in bytes.
pub const MAX_LEN: usize = 2048;

/// The status a request with too large a body is answered with.
pub const PAYLOAD_TOO_LARGE: u16 = 413;

/// What the server does with a request body of a declared length.
pub enum BodyDecision {
    /// Read a body of this many bytes.
    Read(usize),
    /// Answer with this status and message, without reading the body.
    Refuse(u16, String),
}

/// The length a request declares: none declared counts as an empty body.
pub open spec fn declared_len(content_len: Option<u64>) -> usize {
    match content_len {
        Some(n) => n as usize,
        None => 0,
    }
}

/// Decides on a request body from the length the request declares: a body longer than
/// [`MAX_LEN`] is refused with status 413 and "Request too big", any other is read whole.
pub fn check_body_length(content_len: Option<u64>) -> (r: BodyDecision)
    ensures
        declared_len(content_len) > MAX_LEN ==> (r matches BodyDecision::Refuse(status, message)
            && status == PAYLOAD_TOO_LARGE && message@ == "Request too big"@),
        declared_len(content_len) <= MAX_LEN ==> (r matches BodyDecision::Read(n) && n
            == declared_len(content_len)),
{
    let len: usize = match content_len {
        Some(n) => n as usize,
        None => 0,
    };
    if len > MAX_LEN {
        BodyDecision::Refuse(PAYLOAD_TOO_LARGE, "Request too big".to_string())
    } else {
        BodyDecision::Read(len)
    }
}

} // verus!

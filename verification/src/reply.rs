use vstd::prelude::*;

verus! {

/// The two HTTP statuses that the handlers answer with.
#[derive(Clone, Copy, Debug, PartialEq, Eq, Structural)]
pub enum Status {
    /// 200 OK
    Success,
    /// 400 Bad Request
    BadRequest,
}

/// A plain-text HTTP answer.
#[derive(Debug)]
pub struct Reply {
    pub status: Status,
    pub body: String,
}

/// The reply `r` has status `status` and body `msg`.
pub open spec fn reply_is(r: Reply, status: Status, msg: Seq<char>) -> bool {
    r.status == status && r.body@ == msg
}

/// A 200 answer whose body is `msg`.
pub fn http_ok(msg: &str) -> (r: Reply)
    ensures
        reply_is(r, Status::Success, msg@),
{
    Reply { status: Status::Success, body: String::from_str(msg) }
}

/// A 400 answer whose body is `msg`.
pub fn http_bad(msg: &str) -> (r: Reply)
    ensures
        reply_is(r, Status::BadRequest, msg@),
{
    Reply { status: Status::BadRequest, body: String::from_str(msg) }
}

} // verus!

use vstd::prelude::*;

use crate::effect::{responds, Effect, Outcome};
use crate::keys::{reset_key, reset_key_of};
use crate::reply::{http_bad, http_ok, Status};

verus! {

/// Request body that hands in a one-time code for an e-mail.
#[derive(Clone, Debug)]
pub struct VerifyOtp {
    pub email: String,
    pub otp: String,
}

/// Where the confirmation of a password reset stands.
#[derive(Debug)]
pub enum VerifyFpwdFlow {
    /// Waiting for the pending reset stored under `key`.
    AwaitSession { request: VerifyOtp, key: String },
    /// Waiting for the code check; `hash` is the new password hash of the pending reset.
    AwaitOtp { email: String, key: String, hash: String },
    /// Waiting for the database update.
    AwaitUpdate { key: String },
    /// Waiting for the pending reset to be deleted.
    AwaitDelete,
    /// Answered.
    Done,
}

/// How a confirmation starts: `r` is the first state and effect for `request`.
pub open spec fn verify_fpwd_starts(request: VerifyOtp, r: (VerifyFpwdFlow, Effect)) -> bool {
    &&& r.0 matches VerifyFpwdFlow::AwaitSession { request: q, key }
        && q == request && key@ == reset_key_of(request.email@)
    &&& r.1 matches Effect::LoadReset { key } && key@ == reset_key_of(request.email@)
}

/// Starts the confirmation of a password reset: read the pending reset
/// stored under `fpwd:<email>`.
pub fn verify_fpwd(request: VerifyOtp) -> (r: (VerifyFpwdFlow, Effect))
    ensures
        verify_fpwd_starts(request, r),
{
    let key = reset_key(request.email.as_str());
    let load = key.clone();
    (VerifyFpwdFlow::AwaitSession { request, key }, Effect::LoadReset { key: load })
}

impl VerifyFpwdFlow {
    /// The outcome `o` answers what this state waits for.
    pub open spec fn expects(self, o: Outcome) -> bool {
        match self {
            VerifyFpwdFlow::AwaitSession { .. } => o is LoadedReset,
            VerifyFpwdFlow::AwaitOtp { .. } => o is OtpChecked,
            VerifyFpwdFlow::AwaitUpdate { .. } => o is Updated,
            VerifyFpwdFlow::AwaitDelete => o is Deleted,
            VerifyFpwdFlow::Done => false,
        }
    }

    /// How many more operations this state can ask for at most before the
    /// answer; every step lowers it, so every request is answered.
    pub open spec fn rank(self) -> nat {
        match self {
            VerifyFpwdFlow::AwaitSession { .. } => 4,
            VerifyFpwdFlow::AwaitOtp { .. } => 3,
            VerifyFpwdFlow::AwaitUpdate { .. } => 2,
            VerifyFpwdFlow::AwaitDelete => 1,
            VerifyFpwdFlow::Done => 0,
        }
    }

    /// Whether `o` answers what this state waits for.
    pub fn accepts(&self, o: &Outcome) -> (b: bool)
        ensures
            b == self.expects(*o),
    {
        match self {
            VerifyFpwdFlow::AwaitSession { .. } => matches!(o, Outcome::LoadedReset(_)),
            VerifyFpwdFlow::AwaitOtp { .. } => matches!(o, Outcome::OtpChecked(_)),
            VerifyFpwdFlow::AwaitUpdate { .. } => matches!(o, Outcome::Updated(_)),
            VerifyFpwdFlow::AwaitDelete => matches!(o, Outcome::Deleted),
            VerifyFpwdFlow::Done => false,
        }
    }

    /// The transition relation: from this state, the outcome `o` leads to
    /// the next state and effect `r`.
    pub open spec fn next(self, o: Outcome, r: (VerifyFpwdFlow, Effect)) -> bool {
        &&& (r.1 is Respond) <==> (r.0 is Done)
        &&& r.0.rank() < self.rank()
        &&& match (self, o) {
            (VerifyFpwdFlow::AwaitSession { .. }, Outcome::LoadedReset(None)) =>
                responds(r.1, Status::BadRequest, "Session expired. Please request a new password reset."@),
            (VerifyFpwdFlow::AwaitSession { request, key }, Outcome::LoadedReset(Some(session))) => {
                &&& r.0 == (VerifyFpwdFlow::AwaitOtp { email: request.email, key, hash: session.new_pwd })
                &&& r.1 matches Effect::VerifyOtp { user, otp } && user == request.email && otp == request.otp
            },
            (VerifyFpwdFlow::AwaitOtp { email, key, hash }, Outcome::OtpChecked(Some(true))) => {
                &&& r.0 == (VerifyFpwdFlow::AwaitUpdate { key })
                &&& r.1 matches Effect::UpdatePwd { email: e, hash: h } && e == email && h == hash
            },
            (VerifyFpwdFlow::AwaitOtp { .. }, Outcome::OtpChecked(_)) =>
                responds(r.1, Status::BadRequest, "Invalid or expired OTP."@),
            (VerifyFpwdFlow::AwaitUpdate { .. }, Outcome::Updated(false)) =>
                responds(r.1, Status::BadRequest, "Database update failed."@),
            (VerifyFpwdFlow::AwaitUpdate { key }, Outcome::Updated(true)) => {
                &&& r.0 is AwaitDelete
                &&& r.1 matches Effect::DeleteKey { key: k, must_succeed } && k == key && !must_succeed
            },
            (VerifyFpwdFlow::AwaitDelete, Outcome::Deleted) =>
                responds(r.1, Status::Success, "Password reset successfully!"@),
            _ => false,
        }
    }

    /// Takes the outcome of the pending operation and says what comes next.
    ///
    /// Without a pending reset the session has expired. With one, the code
    /// is checked for the requesting e-mail; only a code that checks out gets
    /// the pending hash written as the user's password. A failed write is
    /// reported; after a successful one the pending reset is deleted.
    pub fn step(self, o: Outcome) -> (r: (VerifyFpwdFlow, Effect))
        requires
            self.expects(o),
        ensures
            self.next(o, r),
    {
        match (self, o) {
            (VerifyFpwdFlow::AwaitSession { request, key }, Outcome::LoadedReset(Some(session))) => {
                let VerifyOtp { email, otp } = request;
                let user = email.clone();
                (VerifyFpwdFlow::AwaitOtp { email, key, hash: session.new_pwd }, Effect::VerifyOtp { user, otp })
            },
            (VerifyFpwdFlow::AwaitSession { .. }, _) => {
                (
                    VerifyFpwdFlow::Done,
                    Effect::Respond { reply: http_bad("Session expired. Please request a new password reset.") },
                )
            },
            (VerifyFpwdFlow::AwaitOtp { email, key, hash }, Outcome::OtpChecked(Some(true))) => {
                (VerifyFpwdFlow::AwaitUpdate { key }, Effect::UpdatePwd { email, hash })
            },
            (VerifyFpwdFlow::AwaitOtp { .. }, _) => {
                (VerifyFpwdFlow::Done, Effect::Respond { reply: http_bad("Invalid or expired OTP.") })
            },
            (VerifyFpwdFlow::AwaitUpdate { key }, Outcome::Updated(updated)) => {
                if updated {
                    (VerifyFpwdFlow::AwaitDelete, Effect::DeleteKey { key, must_succeed: false })
                } else {
                    (VerifyFpwdFlow::Done, Effect::Respond { reply: http_bad("Database update failed.") })
                }
            },
            (_, _) => {
                (VerifyFpwdFlow::Done, Effect::Respond { reply: http_ok("Password reset successfully!") })
            },
        }
    }
}

} // verus!

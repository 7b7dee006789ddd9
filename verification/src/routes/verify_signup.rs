use vstd::prelude::*;

use crate::effect::{responds, Effect, Outcome};
use crate::keys::{signup_key, signup_key_of};
use crate::reply::{http_bad, http_ok, Status};
use crate::routes::signup::TempSignup;

pub use crate::routes::verify_fpwd::VerifyOtp;

verus! {

/// Where the confirmation of a sign-up stands.
#[derive(Debug)]
pub enum VerifySignupFlow {
    /// Waiting for the pending sign-up stored under `key`; `otp` is the code given.
    AwaitSession { otp: String, key: String },
    /// Waiting for the code check of the pending sign-up `user`.
    AwaitOtp { user: TempSignup, key: String },
    /// Waiting for the user to be registered.
    AwaitInsert { key: String },
    /// Waiting for the pending sign-up to be deleted.
    AwaitDelete,
    /// Answered.
    Done,
}

/// How a confirmation starts: `r` is the first state and effect for `request`.
pub open spec fn verify_signup_starts(request: VerifyOtp, r: (VerifySignupFlow, Effect)) -> bool {
    &&& r.0 matches VerifySignupFlow::AwaitSession { otp, key }
        && otp == request.otp && key@ == signup_key_of(request.email@)
    &&& r.1 matches Effect::LoadSignup { key } && key@ == signup_key_of(request.email@)
}

/// Starts the confirmation of a sign-up: read the pending sign-up stored
/// under `signup:<email>`.
pub fn verify_signup(request: VerifyOtp) -> (r: (VerifySignupFlow, Effect))
    ensures
        verify_signup_starts(request, r),
{
    let key = signup_key(request.email.as_str());
    let load = key.clone();
    (VerifySignupFlow::AwaitSession { otp: request.otp, key }, Effect::LoadSignup { key: load })
}

impl VerifySignupFlow {
    /// The outcome `o` answers what this state waits for.
    pub open spec fn expects(self, o: Outcome) -> bool {
        match self {
            VerifySignupFlow::AwaitSession { .. } => o is LoadedSignup,
            VerifySignupFlow::AwaitOtp { .. } => o is OtpChecked,
            VerifySignupFlow::AwaitInsert { .. } => o is Inserted,
            VerifySignupFlow::AwaitDelete => o is Deleted,
            VerifySignupFlow::Done => false,
        }
    }

    /// How many more operations this state can ask for at most before the
    /// answer; every step lowers it, so every request is answered.
    pub open spec fn rank(self) -> nat {
        match self {
            VerifySignupFlow::AwaitSession { .. } => 4,
            VerifySignupFlow::AwaitOtp { .. } => 3,
            VerifySignupFlow::AwaitInsert { .. } => 2,
            VerifySignupFlow::AwaitDelete => 1,
            VerifySignupFlow::Done => 0,
        }
    }

    /// Whether `o` answers what this state waits for.
    pub fn accepts(&self, o: &Outcome) -> (b: bool)
        ensures
            b == self.expects(*o),
    {
        match self {
            VerifySignupFlow::AwaitSession { .. } => matches!(o, Outcome::LoadedSignup(_)),
            VerifySignupFlow::AwaitOtp { .. } => matches!(o, Outcome::OtpChecked(_)),
            VerifySignupFlow::AwaitInsert { .. } => matches!(o, Outcome::Inserted),
            VerifySignupFlow::AwaitDelete => matches!(o, Outcome::Deleted),
            VerifySignupFlow::Done => false,
        }
    }

    /// The transition relation: from this state, the outcome `o` leads to
    /// the next state and effect `r`.
    pub open spec fn next(self, o: Outcome, r: (VerifySignupFlow, Effect)) -> bool {
        &&& (r.1 is Respond) <==> (r.0 is Done)
        &&& r.0.rank() < self.rank()
        &&& match (self, o) {
            (VerifySignupFlow::AwaitSession { .. }, Outcome::LoadedSignup(None)) =>
                responds(r.1, Status::BadRequest, "Session expired or email not found. Please sign up again."@),
            (VerifySignupFlow::AwaitSession { otp, key }, Outcome::LoadedSignup(Some(user))) => {
                &&& r.0 == (VerifySignupFlow::AwaitOtp { user, key })
                &&& r.1 matches Effect::VerifyOtp { user: u, otp: c } && u == user.email && c == otp
            },
            (VerifySignupFlow::AwaitOtp { user, key }, Outcome::OtpChecked(Some(true))) => {
                &&& r.0 == (VerifySignupFlow::AwaitInsert { key })
                &&& r.1 matches Effect::InsertUser { user: u } && u == user
            },
            (VerifySignupFlow::AwaitOtp { .. }, Outcome::OtpChecked(_)) =>
                responds(r.1, Status::BadRequest, "Invalid or expired OTP."@),
            (VerifySignupFlow::AwaitInsert { key }, Outcome::Inserted) => {
                &&& r.0 is AwaitDelete
                &&& r.1 matches Effect::DeleteKey { key: k, must_succeed } && k == key && must_succeed
            },
            (VerifySignupFlow::AwaitDelete, Outcome::Deleted) =>
                responds(r.1, Status::Success, "Signup successful!"@),
            _ => false,
        }
    }

    /// Takes the outcome of the pending operation and says what comes next.
    ///
    /// Without a pending sign-up the session has expired. With one, the code
    /// is checked for the e-mail of the pending sign-up; only a code that
    /// checks out registers the pending user (name, e-mail, password hash),
    /// after which the pending sign-up is deleted.
    pub fn step(self, o: Outcome) -> (r: (VerifySignupFlow, Effect))
        requires
            self.expects(o),
        ensures
            self.next(o, r),
    {
        match (self, o) {
            (VerifySignupFlow::AwaitSession { otp, key }, Outcome::LoadedSignup(Some(user))) => {
                let u = user.email.clone();
                (VerifySignupFlow::AwaitOtp { user, key }, Effect::VerifyOtp { user: u, otp })
            },
            (VerifySignupFlow::AwaitSession { .. }, _) => {
                (
                    VerifySignupFlow::Done,
                    Effect::Respond {
                        reply: http_bad("Session expired or email not found. Please sign up again."),
                    },
                )
            },
            (VerifySignupFlow::AwaitOtp { user, key }, Outcome::OtpChecked(Some(true))) => {
                (VerifySignupFlow::AwaitInsert { key }, Effect::InsertUser { user })
            },
            (VerifySignupFlow::AwaitOtp { .. }, _) => {
                (VerifySignupFlow::Done, Effect::Respond { reply: http_bad("Invalid or expired OTP.") })
            },
            (VerifySignupFlow::AwaitInsert { key }, _) => {
                (VerifySignupFlow::AwaitDelete, Effect::DeleteKey { key, must_succeed: true })
            },
            (_, _) => {
                (VerifySignupFlow::Done, Effect::Respond { reply: http_ok("Signup successful!") })
            },
        }
    }
}

} // verus!

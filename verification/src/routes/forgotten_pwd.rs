use vstd::prelude::*;

use crate::effect::{mail_is, otp_mail, responds, Effect, Outcome, OTP_DIGITS, OTP_TTL_SECS, SESSION_TTL_SECS};
use crate::keys::{reset_key, reset_key_of};
use crate::reply::{http_bad, http_ok, Status};

verus! {

/// Password-reset request body, and the pending reset kept in Redis (there
/// `new_pwd` holds the hash of the new password).
#[derive(Clone, Debug)]
pub struct ForgottenPwd {
    pub email: String,
    pub new_pwd: String,
}

/// Where a password-reset request stands.
#[derive(Debug)]
pub enum ForgottenPwdFlow {
    /// Waiting to learn whether the e-mail is registered.
    AwaitExists { request: ForgottenPwd },
    /// Waiting for the one-time code.
    AwaitOtp { request: ForgottenPwd },
    /// Waiting for the hash of the new password.
    AwaitHash { request: ForgottenPwd, otp: String },
    /// Waiting for the pending reset to be stored.
    AwaitStored { email: String, otp: String },
    /// Waiting for the code e-mail to go out.
    AwaitSent,
    /// Answered.
    Done,
}

/// How a request starts: `r` is the first state and effect for `request`.
pub open spec fn forgotten_pwd_starts(request: ForgottenPwd, r: (ForgottenPwdFlow, Effect)) -> bool {
    &&& r.0 == (ForgottenPwdFlow::AwaitExists { request })
    &&& r.1 matches Effect::UserExists { email } && email == request.email
}

/// Starts a password reset: ask whether the e-mail is registered.
pub fn forgotten_pwd(request: ForgottenPwd) -> (r: (ForgottenPwdFlow, Effect))
    ensures
        forgotten_pwd_starts(request, r),
{
    let email = request.email.clone();
    (ForgottenPwdFlow::AwaitExists { request }, Effect::UserExists { email })
}

impl ForgottenPwdFlow {
    /// The outcome `o` answers what this state waits for.
    pub open spec fn expects(self, o: Outcome) -> bool {
        match self {
            ForgottenPwdFlow::AwaitExists { .. } => o is Exists,
            ForgottenPwdFlow::AwaitOtp { .. } => o is Otp,
            ForgottenPwdFlow::AwaitHash { .. } => o is Hashed,
            ForgottenPwdFlow::AwaitStored { .. } => o is Stored,
            ForgottenPwdFlow::AwaitSent => o is Sent,
            ForgottenPwdFlow::Done => false,
        }
    }

    /// How many more operations this state can ask for at most before the
    /// answer; every step lowers it, so every request is answered.
    pub open spec fn rank(self) -> nat {
        match self {
            ForgottenPwdFlow::AwaitExists { .. } => 5,
            ForgottenPwdFlow::AwaitOtp { .. } => 4,
            ForgottenPwdFlow::AwaitHash { .. } => 3,
            ForgottenPwdFlow::AwaitStored { .. } => 2,
            ForgottenPwdFlow::AwaitSent => 1,
            ForgottenPwdFlow::Done => 0,
        }
    }

    /// Whether `o` answers what this state waits for.
    pub fn accepts(&self, o: &Outcome) -> (b: bool)
        ensures
            b == self.expects(*o),
    {
        match self {
            ForgottenPwdFlow::AwaitExists { .. } => matches!(o, Outcome::Exists(_)),
            ForgottenPwdFlow::AwaitOtp { .. } => matches!(o, Outcome::Otp(_)),
            ForgottenPwdFlow::AwaitHash { .. } => matches!(o, Outcome::Hashed(_)),
            ForgottenPwdFlow::AwaitStored { .. } => matches!(o, Outcome::Stored),
            ForgottenPwdFlow::AwaitSent => matches!(o, Outcome::Sent(_)),
            ForgottenPwdFlow::Done => false,
        }
    }

    /// The transition relation: from this state, the outcome `o` leads to
    /// the next state and effect `r`.
    pub open spec fn next(self, o: Outcome, r: (ForgottenPwdFlow, Effect)) -> bool {
        &&& (r.1 is Respond) <==> (r.0 is Done)
        &&& r.0.rank() < self.rank()
        &&& match (self, o) {
            (ForgottenPwdFlow::AwaitExists { request }, Outcome::Exists(false)) =>
                responds(r.1, Status::BadRequest, "If this email exists, an OTP has been sent."@),
            (ForgottenPwdFlow::AwaitExists { request }, Outcome::Exists(true)) => {
                &&& r.0 == (ForgottenPwdFlow::AwaitOtp { request })
                &&& r.1 matches Effect::GenerateOtp { user, digits, ttl_secs }
                    && user == request.email && digits == OTP_DIGITS && ttl_secs == OTP_TTL_SECS
            },
            (ForgottenPwdFlow::AwaitOtp { request }, Outcome::Otp(otp)) => {
                &&& r.0 == (ForgottenPwdFlow::AwaitHash { request, otp })
                &&& r.1 matches Effect::HashPassword { plain } && plain == request.new_pwd
            },
            (ForgottenPwdFlow::AwaitHash { request, otp }, Outcome::Hashed(hash)) => {
                &&& r.0 == (ForgottenPwdFlow::AwaitStored { email: request.email, otp })
                &&& r.1 matches Effect::StoreReset { key, session, ttl_secs }
                    && key@ == reset_key_of(request.email@)
                    && session == (ForgottenPwd { email: request.email, new_pwd: hash })
                    && ttl_secs == SESSION_TTL_SECS
            },
            (ForgottenPwdFlow::AwaitStored { email, otp }, Outcome::Stored) => {
                &&& r.0 is AwaitSent
                &&& r.1 matches Effect::SendEmail { mail }
                    && mail_is(mail, email@, "Password Reset OTP"@, otp@, "User"@)
            },
            (ForgottenPwdFlow::AwaitSent, Outcome::Sent(true)) =>
                responds(r.1, Status::Success, "OTP sent to your email."@),
            (ForgottenPwdFlow::AwaitSent, Outcome::Sent(false)) =>
                responds(r.1, Status::BadRequest, "Failed to send OTP email."@),
            _ => false,
        }
    }

    /// Takes the outcome of the pending operation and says what comes next.
    ///
    /// An unknown e-mail gets the same neutral answer and no code. Otherwise a
    /// six-digit code is made, the new password is hashed, the pending reset
    /// (e-mail and hash) is kept for 300 seconds under `fpwd:<email>`, and
    /// the code is e-mailed; the answer says whether the e-mail went out.
    pub fn step(self, o: Outcome) -> (r: (ForgottenPwdFlow, Effect))
        requires
            self.expects(o),
        ensures
            self.next(o, r),
    {
        match (self, o) {
            (ForgottenPwdFlow::AwaitExists { request }, Outcome::Exists(exists)) => {
                if !exists {
                    (
                        ForgottenPwdFlow::Done,
                        Effect::Respond { reply: http_bad("If this email exists, an OTP has been sent.") },
                    )
                } else {
                    let user = request.email.clone();
                    (ForgottenPwdFlow::AwaitOtp { request }, Effect::GenerateOtp { user, digits: OTP_DIGITS, ttl_secs: OTP_TTL_SECS })
                }
            },
            (ForgottenPwdFlow::AwaitOtp { request }, Outcome::Otp(otp)) => {
                let plain = request.new_pwd.clone();
                (ForgottenPwdFlow::AwaitHash { request, otp }, Effect::HashPassword { plain })
            },
            (ForgottenPwdFlow::AwaitHash { request, otp }, Outcome::Hashed(hash)) => {
                let key = reset_key(request.email.as_str());
                let session = ForgottenPwd { email: request.email.clone(), new_pwd: hash };
                (
                    ForgottenPwdFlow::AwaitStored { email: request.email, otp },
                    Effect::StoreReset { key, session, ttl_secs: SESSION_TTL_SECS },
                )
            },
            (ForgottenPwdFlow::AwaitStored { email, otp }, _) => {
                let user = String::from_str("User");
                let mail = otp_mail(email, "Password Reset OTP", otp, user);
                (ForgottenPwdFlow::AwaitSent, Effect::SendEmail { mail })
            },
            (_, Outcome::Sent(true)) => {
                (ForgottenPwdFlow::Done, Effect::Respond { reply: http_ok("OTP sent to your email.") })
            },
            (_, _) => {
                (ForgottenPwdFlow::Done, Effect::Respond { reply: http_bad("Failed to send OTP email.") })
            },
        }
    }
}

} // verus!

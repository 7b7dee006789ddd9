use vstd::prelude::*;

use crate::effect::{mail_is, otp_mail, responds, Effect, Outcome, OTP_DIGITS, OTP_TTL_SECS, SESSION_TTL_SECS};
use crate::keys::{signup_key, signup_key_of};
use crate::reply::{http_bad, http_ok, Status};

verus! {

/// Sign-up request body, and the pending sign-up kept in Redis (there
/// `pwd` holds the password hash).
#[derive(Clone, Debug)]
pub struct TempSignup {
    pub name: String,
    pub email: String,
    pub pwd: String,
}

/// Where a sign-up request stands.
#[derive(Debug)]
pub enum SignupFlow {
    /// Waiting to learn whether the e-mail is already registered.
    AwaitExists { request: TempSignup },
    /// Waiting for the one-time code.
    AwaitOtp { request: TempSignup },
    /// Waiting for the hash of the chosen password.
    AwaitHash { request: TempSignup, otp: String },
    /// Waiting for the pending sign-up to be stored.
    AwaitStored { name: String, email: String, otp: String },
    /// Waiting for the code e-mail to go out.
    AwaitSent,
    /// Answered.
    Done,
}

/// How a request starts: `r` is the first state and effect for `request`.
pub open spec fn signup_starts(request: TempSignup, r: (SignupFlow, Effect)) -> bool {
    &&& r.0 == (SignupFlow::AwaitExists { request })
    &&& r.1 matches Effect::UserExists { email } && email == request.email
}

/// Starts a sign-up: ask whether the e-mail is already registered.
pub fn signup(request: TempSignup) -> (r: (SignupFlow, Effect))
    ensures
        signup_starts(request, r),
{
    let email = request.email.clone();
    (SignupFlow::AwaitExists { request }, Effect::UserExists { email })
}

impl SignupFlow {
    /// The outcome `o` answers what this state waits for.
    pub open spec fn expects(self, o: Outcome) -> bool {
        match self {
            SignupFlow::AwaitExists { .. } => o is Exists,
            SignupFlow::AwaitOtp { .. } => o is Otp,
            SignupFlow::AwaitHash { .. } => o is Hashed,
            SignupFlow::AwaitStored { .. } => o is Stored,
            SignupFlow::AwaitSent => o is Sent,
            SignupFlow::Done => false,
        }
    }

    /// How many more operations this state can ask for at most before the
    /// answer; every step lowers it, so every request is answered.
    pub open spec fn rank(self) -> nat {
        match self {
            SignupFlow::AwaitExists { .. } => 5,
            SignupFlow::AwaitOtp { .. } => 4,
            SignupFlow::AwaitHash { .. } => 3,
            SignupFlow::AwaitStored { .. } => 2,
            SignupFlow::AwaitSent => 1,
            SignupFlow::Done => 0,
        }
    }

    /// Whether `o` answers what this state waits for.
    pub fn accepts(&self, o: &Outcome) -> (b: bool)
        ensures
            b == self.expects(*o),
    {
        match self {
            SignupFlow::AwaitExists { .. } => matches!(o, Outcome::Exists(_)),
            SignupFlow::AwaitOtp { .. } => matches!(o, Outcome::Otp(_)),
            SignupFlow::AwaitHash { .. } => matches!(o, Outcome::Hashed(_)),
            SignupFlow::AwaitStored { .. } => matches!(o, Outcome::Stored),
            SignupFlow::AwaitSent => matches!(o, Outcome::Sent(_)),
            SignupFlow::Done => false,
        }
    }

    /// The transition relation: from this state, the outcome `o` leads to
    /// the next state and effect `r`.
    pub open spec fn next(self, o: Outcome, r: (SignupFlow, Effect)) -> bool {
        &&& (r.1 is Respond) <==> (r.0 is Done)
        &&& r.0.rank() < self.rank()
        &&& match (self, o) {
            (SignupFlow::AwaitExists { request }, Outcome::Exists(true)) =>
                responds(r.1, Status::BadRequest, "User already exists with this email."@),
            (SignupFlow::AwaitExists { request }, Outcome::Exists(false)) => {
                &&& r.0 == (SignupFlow::AwaitOtp { request })
                &&& r.1 matches Effect::GenerateOtp { user, digits, ttl_secs }
                    && user == request.email && digits == OTP_DIGITS && ttl_secs == OTP_TTL_SECS
            },
            (SignupFlow::AwaitOtp { request }, Outcome::Otp(otp)) => {
                &&& r.0 == (SignupFlow::AwaitHash { request, otp })
                &&& r.1 matches Effect::HashPassword { plain } && plain == request.pwd
            },
            (SignupFlow::AwaitHash { request, otp }, Outcome::Hashed(hash)) => {
                &&& r.0 == (SignupFlow::AwaitStored { name: request.name, email: request.email, otp })
                &&& r.1 matches Effect::StoreSignup { key, session, ttl_secs }
                    && key@ == signup_key_of(request.email@)
                    && session == (TempSignup { name: request.name, email: request.email, pwd: hash })
                    && ttl_secs == SESSION_TTL_SECS
            },
            (SignupFlow::AwaitStored { name, email, otp }, Outcome::Stored) => {
                &&& r.0 is AwaitSent
                &&& r.1 matches Effect::SendEmail { mail }
                    && mail_is(mail, email@, "Verify Your Account"@, otp@, name@)
            },
            (SignupFlow::AwaitSent, Outcome::Sent(true)) =>
                responds(r.1, Status::Success, "Signup initiated. Please check your email for the OTP!"@),
            (SignupFlow::AwaitSent, Outcome::Sent(false)) =>
                responds(r.1, Status::BadRequest, "Failed to send verification email."@),
            _ => false,
        }
    }

    /// Takes the outcome of the pending operation and says what comes next.
    ///
    /// A registered e-mail is refused. Otherwise a six-digit code is made,
    /// the password is hashed, the pending sign-up (name, e-mail and the
    /// hash, never the plain password) is kept for 300 seconds under
    /// `signup:<email>`, and the code is e-mailed; the answer says whether
    /// the e-mail went out.
    pub fn step(self, o: Outcome) -> (r: (SignupFlow, Effect))
        requires
            self.expects(o),
        ensures
            self.next(o, r),
    {
        match (self, o) {
            (SignupFlow::AwaitExists { request }, Outcome::Exists(exists)) => {
                if exists {
                    (SignupFlow::Done, Effect::Respond { reply: http_bad("User already exists with this email.") })
                } else {
                    let user = request.email.clone();
                    (SignupFlow::AwaitOtp { request }, Effect::GenerateOtp { user, digits: OTP_DIGITS, ttl_secs: OTP_TTL_SECS })
                }
            },
            (SignupFlow::AwaitOtp { request }, Outcome::Otp(otp)) => {
                let plain = request.pwd.clone();
                (SignupFlow::AwaitHash { request, otp }, Effect::HashPassword { plain })
            },
            (SignupFlow::AwaitHash { request, otp }, Outcome::Hashed(hash)) => {
                let key = signup_key(request.email.as_str());
                let session = TempSignup {
                    name: request.name.clone(),
                    email: request.email.clone(),
                    pwd: hash,
                };
                (
                    SignupFlow::AwaitStored { name: request.name, email: request.email, otp },
                    Effect::StoreSignup { key, session, ttl_secs: SESSION_TTL_SECS },
                )
            },
            (SignupFlow::AwaitStored { name, email, otp }, _) => {
                let mail = otp_mail(email, "Verify Your Account", otp, name);
                (SignupFlow::AwaitSent, Effect::SendEmail { mail })
            },
            (_, Outcome::Sent(true)) => {
                (
                    SignupFlow::Done,
                    Effect::Respond { reply: http_ok("Signup initiated. Please check your email for the OTP!") },
                )
            },
            (_, _) => {
                (SignupFlow::Done, Effect::Respond { reply: http_bad("Failed to send verification email.") })
            },
        }
    }
}

} // verus!

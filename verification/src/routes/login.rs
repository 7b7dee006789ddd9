use vstd::prelude::*;

use crate::effect::{responds, Effect, Outcome, UserRow};
use crate::reply::{http_bad, http_ok, Status};

verus! {

/// Login request body.
#[derive(Clone, Debug)]
pub struct LoginUser {
    pub email: String,
    pub pwd: String,
}

/// Where a login request stands.
#[derive(Debug)]
pub enum LoginFlow {
    /// Waiting for the stored hash; `pwd` is the password that was given.
    AwaitPwd { pwd: String },
    /// Waiting for the result of checking the password against the hash.
    AwaitCheck,
    /// Answered.
    Done,
}

/// How a request starts: `r` is the first state and effect for `request`.
pub open spec fn login_starts(request: LoginUser, r: (LoginFlow, Effect)) -> bool {
    &&& r.0 == (LoginFlow::AwaitPwd { pwd: request.pwd })
    &&& r.1 matches Effect::FindUserPwd { email } && email == request.email
}

/// Starts a login: look up the stored password hash of the given e-mail.
pub fn login(request: LoginUser) -> (r: (LoginFlow, Effect))
    ensures
        login_starts(request, r),
{
    (LoginFlow::AwaitPwd { pwd: request.pwd }, Effect::FindUserPwd { email: request.email })
}

impl LoginFlow {
    /// The outcome `o` answers what this state waits for.
    pub open spec fn expects(self, o: Outcome) -> bool {
        match self {
            LoginFlow::AwaitPwd { .. } => o is PwdRow,
            LoginFlow::AwaitCheck => o is HashChecked,
            LoginFlow::Done => false,
        }
    }

    /// How many more operations this state can ask for at most before the
    /// answer; every step lowers it, so every request is answered.
    pub open spec fn rank(self) -> nat {
        match self {
            LoginFlow::AwaitPwd { .. } => 2,
            LoginFlow::AwaitCheck => 1,
            LoginFlow::Done => 0,
        }
    }

    /// Whether `o` answers what this state waits for.
    pub fn accepts(&self, o: &Outcome) -> (b: bool)
        ensures
            b == self.expects(*o),
    {
        match self {
            LoginFlow::AwaitPwd { .. } => matches!(o, Outcome::PwdRow(_)),
            LoginFlow::AwaitCheck => matches!(o, Outcome::HashChecked(_)),
            LoginFlow::Done => false,
        }
    }

    /// The transition relation: from this state, the outcome `o` leads to
    /// the next state and effect `r`.
    pub open spec fn next(self, o: Outcome, r: (LoginFlow, Effect)) -> bool {
        &&& (r.1 is Respond) <==> (r.0 is Done)
        &&& r.0.rank() < self.rank()
        &&& match (self, o) {
            (LoginFlow::AwaitPwd { pwd }, Outcome::PwdRow(UserRow::Found(hash))) => {
                &&& r.0 is AwaitCheck
                &&& r.1 matches Effect::VerifyHash { plain, hash: h } && plain == pwd && h == hash
            },
            (LoginFlow::AwaitPwd { .. }, Outcome::PwdRow(_)) =>
                responds(r.1, Status::BadRequest, "User not found."@),
            (LoginFlow::AwaitCheck, Outcome::HashChecked(Some(true))) =>
                responds(r.1, Status::Success, "Login successful!"@),
            (LoginFlow::AwaitCheck, Outcome::HashChecked(_)) =>
                responds(r.1, Status::BadRequest, "Invalid credentials."@),
            _ => false,
        }
    }

    /// Takes the outcome of the pending operation and says what comes next.
    ///
    /// A missing user (or a failed query) is answered "User not found.";
    /// a found user has the given password checked against the stored hash,
    /// and only a successful check logs in.
    pub fn step(self, o: Outcome) -> (r: (LoginFlow, Effect))
        requires
            self.expects(o),
        ensures
            self.next(o, r),
    {
        match (self, o) {
            (LoginFlow::AwaitPwd { pwd }, Outcome::PwdRow(UserRow::Found(hash))) => {
                (LoginFlow::AwaitCheck, Effect::VerifyHash { plain: pwd, hash })
            },
            (LoginFlow::AwaitPwd { .. }, _) => {
                (LoginFlow::Done, Effect::Respond { reply: http_bad("User not found.") })
            },
            (LoginFlow::AwaitCheck, Outcome::HashChecked(Some(true))) => {
                (LoginFlow::Done, Effect::Respond { reply: http_ok("Login successful!") })
            },
            (_, _) => {
                (LoginFlow::Done, Effect::Respond { reply: http_bad("Invalid credentials.") })
            },
        }
    }
}

} // verus!

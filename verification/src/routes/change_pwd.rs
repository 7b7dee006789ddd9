use vstd::prelude::*;

use crate::effect::{responds, Effect, Outcome, UserRow};
use crate::reply::{http_bad, http_ok, Status};

verus! {

/// Password-change request body.
#[derive(Clone, Debug)]
pub struct ChangePwd {
    pub email: String,
    pub old_pwd: String,
    pub new_pwd: String,
}

/// Where a password-change request stands.
#[derive(Debug)]
pub enum ChangePwdFlow {
    /// Waiting for the stored hash.
    AwaitPwd { request: ChangePwd },
    /// Waiting for the result of checking the old password.
    AwaitCheck { email: String, new_pwd: String },
    /// Waiting for the hash of the new password.
    AwaitHash { email: String },
    /// Waiting for the database update.
    AwaitUpdate,
    /// Answered.
    Done,
}

/// How a request starts: `r` is the first state and effect for `request`.
pub open spec fn change_pwd_starts(request: ChangePwd, r: (ChangePwdFlow, Effect)) -> bool {
    &&& r.0 == (ChangePwdFlow::AwaitPwd { request })
    &&& r.1 matches Effect::FindUserPwd { email } && email == request.email
}

/// Starts a password change: look up the stored password hash of the e-mail.
pub fn change_pwd(request: ChangePwd) -> (r: (ChangePwdFlow, Effect))
    ensures
        change_pwd_starts(request, r),
{
    let email = request.email.clone();
    (ChangePwdFlow::AwaitPwd { request }, Effect::FindUserPwd { email })
}

impl ChangePwdFlow {
    /// The outcome `o` answers what this state waits for.
    pub open spec fn expects(self, o: Outcome) -> bool {
        match self {
            ChangePwdFlow::AwaitPwd { .. } => o is PwdRow,
            ChangePwdFlow::AwaitCheck { .. } => o is HashChecked,
            ChangePwdFlow::AwaitHash { .. } => o is Hashed,
            ChangePwdFlow::AwaitUpdate => o is Updated,
            ChangePwdFlow::Done => false,
        }
    }

    /// How many more operations this state can ask for at most before the
    /// answer; every step lowers it, so every request is answered.
    pub open spec fn rank(self) -> nat {
        match self {
            ChangePwdFlow::AwaitPwd { .. } => 4,
            ChangePwdFlow::AwaitCheck { .. } => 3,
            ChangePwdFlow::AwaitHash { .. } => 2,
            ChangePwdFlow::AwaitUpdate => 1,
            ChangePwdFlow::Done => 0,
        }
    }

    /// Whether `o` answers what this state waits for.
    pub fn accepts(&self, o: &Outcome) -> (b: bool)
        ensures
            b == self.expects(*o),
    {
        match self {
            ChangePwdFlow::AwaitPwd { .. } => matches!(o, Outcome::PwdRow(_)),
            ChangePwdFlow::AwaitCheck { .. } => matches!(o, Outcome::HashChecked(_)),
            ChangePwdFlow::AwaitHash { .. } => matches!(o, Outcome::Hashed(_)),
            ChangePwdFlow::AwaitUpdate => matches!(o, Outcome::Updated(_)),
            ChangePwdFlow::Done => false,
        }
    }

    /// The transition relation: from this state, the outcome `o` leads to
    /// the next state and effect `r`.
    pub open spec fn next(self, o: Outcome, r: (ChangePwdFlow, Effect)) -> bool {
        &&& (r.1 is Respond) <==> (r.0 is Done)
        &&& r.0.rank() < self.rank()
        &&& match (self, o) {
            (ChangePwdFlow::AwaitPwd { request }, Outcome::PwdRow(UserRow::Found(hash))) => {
                &&& r.0 == (ChangePwdFlow::AwaitCheck { email: request.email, new_pwd: request.new_pwd })
                &&& r.1 matches Effect::VerifyHash { plain, hash: h } && plain == request.old_pwd && h == hash
            },
            (ChangePwdFlow::AwaitPwd { .. }, Outcome::PwdRow(_)) =>
                responds(r.1, Status::BadRequest, "User not found."@),
            (ChangePwdFlow::AwaitCheck { email, new_pwd }, Outcome::HashChecked(Some(true))) => {
                &&& r.0 == (ChangePwdFlow::AwaitHash { email })
                &&& r.1 matches Effect::HashPassword { plain } && plain == new_pwd
            },
            (ChangePwdFlow::AwaitCheck { .. }, Outcome::HashChecked(_)) =>
                responds(r.1, Status::BadRequest, "Incorrect old password."@),
            (ChangePwdFlow::AwaitHash { email }, Outcome::Hashed(hash)) => {
                &&& r.0 is AwaitUpdate
                &&& r.1 matches Effect::UpdatePwd { email: e, hash: h } && e == email && h == hash
            },
            (ChangePwdFlow::AwaitUpdate, Outcome::Updated(_)) =>
                responds(r.1, Status::Success, "Password changed successfully!"@),
            _ => false,
        }
    }

    /// Takes the outcome of the pending operation and says what comes next.
    ///
    /// Only a found user whose old password checks out gets the hash of the
    /// new password written; the outcome of that write is not looked at.
    pub fn step(self, o: Outcome) -> (r: (ChangePwdFlow, Effect))
        requires
            self.expects(o),
        ensures
            self.next(o, r),
    {
        match (self, o) {
            (ChangePwdFlow::AwaitPwd { request }, Outcome::PwdRow(UserRow::Found(hash))) => {
                let ChangePwd { email, old_pwd, new_pwd } = request;
                (ChangePwdFlow::AwaitCheck { email, new_pwd }, Effect::VerifyHash { plain: old_pwd, hash })
            },
            (ChangePwdFlow::AwaitPwd { .. }, _) => {
                (ChangePwdFlow::Done, Effect::Respond { reply: http_bad("User not found.") })
            },
            (ChangePwdFlow::AwaitCheck { email, new_pwd }, Outcome::HashChecked(Some(true))) => {
                (ChangePwdFlow::AwaitHash { email }, Effect::HashPassword { plain: new_pwd })
            },
            (ChangePwdFlow::AwaitCheck { .. }, _) => {
                (ChangePwdFlow::Done, Effect::Respond { reply: http_bad("Incorrect old password.") })
            },
            (ChangePwdFlow::AwaitHash { email }, Outcome::Hashed(hash)) => {
                (ChangePwdFlow::AwaitUpdate, Effect::UpdatePwd { email, hash })
            },
            (_, _) => {
                (ChangePwdFlow::Done, Effect::Respond { reply: http_ok("Password changed successfully!") })
            },
        }
    }
}

} // verus!

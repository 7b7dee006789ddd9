use vstd::prelude::*;

use crate::reply::Reply;
use crate::routes::forgotten_pwd::ForgottenPwd;
use crate::routes::signup::TempSignup;

verus! {

/// Number of digits of every one-time code sent by e-mail.
pub const OTP_DIGITS: u32 = 6;

/// Seconds a one-time code stays valid.
pub const OTP_TTL_SECS: u64 = 300;

/// Seconds a pending sign-up or password reset is kept in Redis.
pub const SESSION_TTL_SECS: u64 = 300;

/// Minutes for which the e-mail tells the user that the code stays valid.
pub const CODE_VALID_MINUTES: u64 = 5;

/// What an e-mail carrying a one-time code is made of.
#[derive(Debug)]
pub struct Mail {
    pub to: String,
    pub subject: String,
    /// Sender organisation named in the body.
    pub company: String,
    pub otp: String,
    /// How the body addresses the recipient.
    pub recipient: String,
    pub valid_minutes: u64,
}

/// The sender organisation named in every code e-mail.
pub open spec fn company_of_mail() -> Seq<char> {
    "My Company"@
}

/// `m` is the code e-mail with these parts.
pub open spec fn mail_is(m: Mail, to: Seq<char>, subject: Seq<char>, otp: Seq<char>, recipient: Seq<char>) -> bool {
    &&& m.to@ == to
    &&& m.subject@ == subject
    &&& m.company@ == company_of_mail()
    &&& m.otp@ == otp
    &&& m.recipient@ == recipient
    &&& m.valid_minutes == CODE_VALID_MINUTES
}

/// Builds the code e-mail sent to `to`.
pub fn otp_mail(to: String, subject: &str, otp: String, recipient: String) -> (m: Mail)
    ensures
        mail_is(m, to@, subject@, otp@, recipient@),
{
    Mail {
        to,
        subject: String::from_str(subject),
        company: String::from_str("My Company"),
        otp,
        recipient,
        valid_minutes: CODE_VALID_MINUTES,
    }
}

/// One outside operation that a handler asks for, or its final answer.
#[allow(inconsistent_fields)]
#[derive(Debug)]
pub enum Effect {
    /// Read the stored password hash of a user:
    /// `SELECT pwd FROM users WHERE email = $1;`. Answered by [`Outcome::PwdRow`].
    FindUserPwd { email: String },
    /// Ask whether a user with this e-mail is registered. Answered by [`Outcome::Exists`].
    UserExists { email: String },
    /// Check a plain password against a stored hash. Answered by [`Outcome::HashChecked`].
    VerifyHash { plain: String, hash: String },
    /// Hash a plain password. Answered by [`Outcome::Hashed`].
    HashPassword { plain: String },
    /// Create a one-time code of `digits` digits for `user`, valid for
    /// `ttl_secs` seconds. Answered by [`Outcome::Otp`].
    GenerateOtp { user: String, digits: u32, ttl_secs: u64 },
    /// Check a one-time code given for `user`. Answered by [`Outcome::OtpChecked`].
    VerifyOtp { user: String, otp: String },
    /// Keep a pending sign-up in Redis under `key` for `ttl_secs` seconds. Answered by [`Outcome::Stored`].
    StoreSignup { key: String, session: TempSignup, ttl_secs: u64 },
    /// Keep a pending password reset in Redis under `key` for `ttl_secs` seconds. Answered by [`Outcome::Stored`].
    StoreReset { key: String, session: ForgottenPwd, ttl_secs: u64 },
    /// Read the pending sign-up under `key`. Answered by [`Outcome::LoadedSignup`].
    LoadSignup { key: String },
    /// Read the pending password reset under `key`. Answered by [`Outcome::LoadedReset`].
    LoadReset { key: String },
    /// Delete a Redis key; when `must_succeed`, a failed delete is fatal.
    /// Answered by [`Outcome::Deleted`].
    DeleteKey { key: String, must_succeed: bool },
    /// Replace a user's password hash:
    /// `UPDATE users SET pwd = $1 WHERE email = $2;`. Answered by [`Outcome::Updated`].
    UpdatePwd { email: String, hash: String },
    /// Register a user:
    /// `INSERT INTO users (name, email, pwd) VALUES ($1, $2, $3)`. Answered by [`Outcome::Inserted`].
    InsertUser { user: TempSignup },
    /// Send a code e-mail. Answered by [`Outcome::Sent`].
    SendEmail { mail: Mail },
    /// Answer the request; the handler is finished.
    Respond { reply: Reply },
}

/// What the password query found.
#[derive(Debug)]
pub enum UserRow {
    /// A user row, holding the stored password hash.
    Found(String),
    /// No user with that e-mail.
    Missing,
    /// The query itself failed.
    Failed,
}

/// What came back from the operation that an [`Effect`] asked for.
#[derive(Debug)]
pub enum Outcome {
    PwdRow(UserRow),
    Exists(bool),
    /// `None` when the check itself failed.
    HashChecked(Option<bool>),
    Hashed(String),
    Otp(String),
    /// `None` when the check itself failed.
    OtpChecked(Option<bool>),
    Stored,
    /// `None` when nothing readable is stored under the key.
    LoadedSignup(Option<TempSignup>),
    /// `None` when nothing readable is stored under the key.
    LoadedReset(Option<ForgottenPwd>),
    Deleted,
    /// Whether the statement succeeded.
    Updated(bool),
    Inserted,
    /// Whether the e-mail was handed to the mail server.
    Sent(bool),
}

/// The effect `e` is the final answer, with status `status` and body `msg`.
pub open spec fn responds(e: Effect, status: crate::reply::Status, msg: Seq<char>) -> bool {
    e matches Effect::Respond { reply } && crate::reply::reply_is(reply, status, msg)
}

} // verus!

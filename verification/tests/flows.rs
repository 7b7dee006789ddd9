use chatapp::utils::verification_email;
use chatapp::effect::{Effect, Outcome, UserRow, OTP_DIGITS, OTP_TTL_SECS, SESSION_TTL_SECS};
use chatapp::keys::{reset_key, signup_key};
use chatapp::reply::{http_bad, http_ok, Reply, Status};
use chatapp::{
    change_pwd, forgotten_pwd, login, signup, verify_fpwd, verify_signup, ChangePwd, ChangePwdFlow,
    ForgottenPwd, ForgottenPwdFlow, LoginFlow, LoginUser, SignupFlow, TempSignup, VerifyFpwdFlow,
    VerifyOtp, VerifySignupFlow,
};

fn s(x: &str) -> String {
    x.to_string()
}

fn expect_reply(e: Effect, status: Status, body: &str) {
    match e {
        Effect::Respond { reply } => {
            assert_eq!(reply.status, status);
            assert_eq!(reply.body, body);
        }
        other => panic!("expected an answer, got {:?}", other),
    }
}

fn login_req() -> LoginUser {
    LoginUser { email: s("a@x.io"), pwd: s("secret") }
}

#[test]
fn replies_carry_status_and_body() {
    let r: Reply = http_ok("fine");
    assert_eq!(r.status, Status::Success);
    assert_eq!(r.body, "fine");
    let r = http_bad("nope");
    assert_eq!(r.status, Status::BadRequest);
    assert_eq!(r.body, "nope");
}

#[test]
fn session_keys() {
    assert_eq!(signup_key("a@x.io"), "signup:a@x.io");
    assert_eq!(reset_key("a@x.io"), "fpwd:a@x.io");
    assert_ne!(signup_key("a@x.io"), reset_key("a@x.io"));
    assert_ne!(signup_key("a@x.io"), signup_key("b@x.io"));
}

#[test]
fn login_success() {
    let (flow, e) = login(login_req());
    match e {
        Effect::FindUserPwd { email } => assert_eq!(email, "a@x.io"),
        other => panic!("{:?}", other),
    }
    let o = Outcome::PwdRow(UserRow::Found(s("H")));
    assert!(flow.accepts(&o));
    let (flow, e) = flow.step(o);
    match e {
        Effect::VerifyHash { plain, hash } => {
            assert_eq!(plain, "secret");
            assert_eq!(hash, "H");
        }
        other => panic!("{:?}", other),
    }
    let (flow, e) = flow.step(Outcome::HashChecked(Some(true)));
    assert!(matches!(flow, LoginFlow::Done));
    expect_reply(e, Status::Success, "Login successful!");
}

#[test]
fn login_unknown_user_and_failed_query() {
    let (flow, _) = login(login_req());
    let (_, e) = flow.step(Outcome::PwdRow(UserRow::Missing));
    expect_reply(e, Status::BadRequest, "User not found.");
    let (flow, _) = login(login_req());
    let (_, e) = flow.step(Outcome::PwdRow(UserRow::Failed));
    expect_reply(e, Status::BadRequest, "User not found.");
}

#[test]
fn login_wrong_password_or_failed_check() {
    for verdict in [Some(false), None] {
        let (flow, _) = login(login_req());
        let (flow, _) = flow.step(Outcome::PwdRow(UserRow::Found(s("H"))));
        let (_, e) = flow.step(Outcome::HashChecked(verdict));
        expect_reply(e, Status::BadRequest, "Invalid credentials.");
    }
}

#[test]
fn login_refuses_mismatched_outcome() {
    let (flow, _) = login(login_req());
    assert!(!flow.accepts(&Outcome::Stored));
    assert!(!LoginFlow::Done.accepts(&Outcome::HashChecked(Some(true))));
}

fn signup_req() -> TempSignup {
    TempSignup { name: s("Ann"), email: s("ann@x.io"), pwd: s("plain") }
}

#[test]
fn signup_full_path() {
    let (flow, e) = signup(signup_req());
    match e {
        Effect::UserExists { email } => assert_eq!(email, "ann@x.io"),
        other => panic!("{:?}", other),
    }
    let (flow, e) = flow.step(Outcome::Exists(false));
    match e {
        Effect::GenerateOtp { user, digits, ttl_secs } => {
            assert_eq!(user, "ann@x.io");
            assert_eq!(digits, 6);
            assert_eq!(digits, OTP_DIGITS);
            assert_eq!(ttl_secs, OTP_TTL_SECS);
            assert_eq!(ttl_secs, 300);
        }
        other => panic!("{:?}", other),
    }
    let (flow, e) = flow.step(Outcome::Otp(s("123456")));
    match e {
        Effect::HashPassword { plain } => assert_eq!(plain, "plain"),
        other => panic!("{:?}", other),
    }
    let (flow, e) = flow.step(Outcome::Hashed(s("HASH")));
    match e {
        Effect::StoreSignup { key, session, ttl_secs } => {
            assert_eq!(key, "signup:ann@x.io");
            assert_eq!(session.name, "Ann");
            assert_eq!(session.email, "ann@x.io");
            assert_eq!(session.pwd, "HASH");
            assert_eq!(ttl_secs, SESSION_TTL_SECS);
            assert_eq!(ttl_secs, 300);
        }
        other => panic!("{:?}", other),
    }
    let (flow, e) = flow.step(Outcome::Stored);
    match e {
        Effect::SendEmail { mail } => {
            assert_eq!(mail.to, "ann@x.io");
            assert_eq!(mail.subject, "Verify Your Account");
            assert_eq!(mail.company, "My Company");
            assert_eq!(mail.otp, "123456");
            assert_eq!(mail.recipient, "Ann");
            assert_eq!(mail.valid_minutes, 5);
        }
        other => panic!("{:?}", other),
    }
    let (flow, e) = flow.step(Outcome::Sent(true));
    assert!(matches!(flow, SignupFlow::Done));
    expect_reply(e, Status::Success, "Signup initiated. Please check your email for the OTP!");
}

#[test]
fn signup_existing_user() {
    let (flow, _) = signup(signup_req());
    let (flow, e) = flow.step(Outcome::Exists(true));
    assert!(matches!(flow, SignupFlow::Done));
    expect_reply(e, Status::BadRequest, "User already exists with this email.");
}

#[test]
fn signup_mail_failure() {
    let (flow, _) = signup(signup_req());
    let (flow, _) = flow.step(Outcome::Exists(false));
    let (flow, _) = flow.step(Outcome::Otp(s("1")));
    let (flow, _) = flow.step(Outcome::Hashed(s("H")));
    let (flow, _) = flow.step(Outcome::Stored);
    let (_, e) = flow.step(Outcome::Sent(false));
    expect_reply(e, Status::BadRequest, "Failed to send verification email.");
}

fn otp_req(email: &str, otp: &str) -> VerifyOtp {
    VerifyOtp { email: s(email), otp: s(otp) }
}

#[test]
fn verify_signup_full_path() {
    let (flow, e) = verify_signup(otp_req("ann@x.io", "123456"));
    match e {
        Effect::LoadSignup { key } => assert_eq!(key, "signup:ann@x.io"),
        other => panic!("{:?}", other),
    }
    let pending = TempSignup { name: s("Ann"), email: s("ann@x.io"), pwd: s("HASH") };
    let (flow, e) = flow.step(Outcome::LoadedSignup(Some(pending)));
    match e {
        Effect::VerifyOtp { user, otp } => {
            assert_eq!(user, "ann@x.io");
            assert_eq!(otp, "123456");
        }
        other => panic!("{:?}", other),
    }
    let (flow, e) = flow.step(Outcome::OtpChecked(Some(true)));
    match e {
        Effect::InsertUser { user } => {
            assert_eq!(user.name, "Ann");
            assert_eq!(user.email, "ann@x.io");
            assert_eq!(user.pwd, "HASH");
        }
        other => panic!("{:?}", other),
    }
    let (flow, e) = flow.step(Outcome::Inserted);
    match e {
        Effect::DeleteKey { key, must_succeed } => {
            assert_eq!(key, "signup:ann@x.io");
            assert!(must_succeed);
        }
        other => panic!("{:?}", other),
    }
    let (flow, e) = flow.step(Outcome::Deleted);
    assert!(matches!(flow, VerifySignupFlow::Done));
    expect_reply(e, Status::Success, "Signup successful!");
}

#[test]
fn verify_signup_expired_and_bad_code() {
    let (flow, _) = verify_signup(otp_req("ann@x.io", "1"));
    let (_, e) = flow.step(Outcome::LoadedSignup(None));
    expect_reply(e, Status::BadRequest, "Session expired or email not found. Please sign up again.");
    for verdict in [Some(false), None] {
        let (flow, _) = verify_signup(otp_req("ann@x.io", "1"));
        let pending = TempSignup { name: s("Ann"), email: s("ann@x.io"), pwd: s("HASH") };
        let (flow, _) = flow.step(Outcome::LoadedSignup(Some(pending)));
        let (_, e) = flow.step(Outcome::OtpChecked(verdict));
        expect_reply(e, Status::BadRequest, "Invalid or expired OTP.");
    }
}

#[test]
fn forgotten_pwd_full_path() {
    let (flow, e) = forgotten_pwd(ForgottenPwd { email: s("bo@x.io"), new_pwd: s("new") });
    match e {
        Effect::UserExists { email } => assert_eq!(email, "bo@x.io"),
        other => panic!("{:?}", other),
    }
    let (flow, e) = flow.step(Outcome::Exists(true));
    assert!(matches!(e, Effect::GenerateOtp { digits: 6, ttl_secs: 300, .. }));
    let (flow, e) = flow.step(Outcome::Otp(s("654321")));
    match e {
        Effect::HashPassword { plain } => assert_eq!(plain, "new"),
        other => panic!("{:?}", other),
    }
    let (flow, e) = flow.step(Outcome::Hashed(s("NH")));
    match e {
        Effect::StoreReset { key, session, ttl_secs } => {
            assert_eq!(key, "fpwd:bo@x.io");
            assert_eq!(session.email, "bo@x.io");
            assert_eq!(session.new_pwd, "NH");
            assert_eq!(ttl_secs, 300);
        }
        other => panic!("{:?}", other),
    }
    let (flow, e) = flow.step(Outcome::Stored);
    match e {
        Effect::SendEmail { mail } => {
            assert_eq!(mail.to, "bo@x.io");
            assert_eq!(mail.subject, "Password Reset OTP");
            assert_eq!(mail.company, "My Company");
            assert_eq!(mail.otp, "654321");
            assert_eq!(mail.recipient, "User");
            assert_eq!(mail.valid_minutes, 5);
        }
        other => panic!("{:?}", other),
    }
    let (flow, e) = flow.step(Outcome::Sent(true));
    assert!(matches!(flow, ForgottenPwdFlow::Done));
    expect_reply(e, Status::Success, "OTP sent to your email.");
}

#[test]
fn forgotten_pwd_unknown_user_and_mail_failure() {
    let (flow, _) = forgotten_pwd(ForgottenPwd { email: s("no@x.io"), new_pwd: s("n") });
    let (_, e) = flow.step(Outcome::Exists(false));
    expect_reply(e, Status::BadRequest, "If this email exists, an OTP has been sent.");
    let (flow, _) = forgotten_pwd(ForgottenPwd { email: s("bo@x.io"), new_pwd: s("n") });
    let (flow, _) = flow.step(Outcome::Exists(true));
    let (flow, _) = flow.step(Outcome::Otp(s("1")));
    let (flow, _) = flow.step(Outcome::Hashed(s("H")));
    let (flow, _) = flow.step(Outcome::Stored);
    let (_, e) = flow.step(Outcome::Sent(false));
    expect_reply(e, Status::BadRequest, "Failed to send OTP email.");
}

#[test]
fn verify_fpwd_full_path() {
    let (flow, e) = verify_fpwd(otp_req("bo@x.io", "654321"));
    match e {
        Effect::LoadReset { key } => assert_eq!(key, "fpwd:bo@x.io"),
        other => panic!("{:?}", other),
    }
    let pending = ForgottenPwd { email: s("bo@x.io"), new_pwd: s("NH") };
    let (flow, e) = flow.step(Outcome::LoadedReset(Some(pending)));
    match e {
        Effect::VerifyOtp { user, otp } => {
            assert_eq!(user, "bo@x.io");
            assert_eq!(otp, "654321");
        }
        other => panic!("{:?}", other),
    }
    let (flow, e) = flow.step(Outcome::OtpChecked(Some(true)));
    match e {
        Effect::UpdatePwd { email, hash } => {
            assert_eq!(email, "bo@x.io");
            assert_eq!(hash, "NH");
        }
        other => panic!("{:?}", other),
    }
    let (flow, e) = flow.step(Outcome::Updated(true));
    match e {
        Effect::DeleteKey { key, must_succeed } => {
            assert_eq!(key, "fpwd:bo@x.io");
            assert!(!must_succeed);
        }
        other => panic!("{:?}", other),
    }
    let (flow, e) = flow.step(Outcome::Deleted);
    assert!(matches!(flow, VerifyFpwdFlow::Done));
    expect_reply(e, Status::Success, "Password reset successfully!");
}

#[test]
fn verify_fpwd_failures() {
    let (flow, _) = verify_fpwd(otp_req("bo@x.io", "1"));
    let (_, e) = flow.step(Outcome::LoadedReset(None));
    expect_reply(e, Status::BadRequest, "Session expired. Please request a new password reset.");

    let pending = || ForgottenPwd { email: s("bo@x.io"), new_pwd: s("NH") };
    let (flow, _) = verify_fpwd(otp_req("bo@x.io", "1"));
    let (flow, _) = flow.step(Outcome::LoadedReset(Some(pending())));
    let (_, e) = flow.step(Outcome::OtpChecked(None));
    expect_reply(e, Status::BadRequest, "Invalid or expired OTP.");

    let (flow, _) = verify_fpwd(otp_req("bo@x.io", "1"));
    let (flow, _) = flow.step(Outcome::LoadedReset(Some(pending())));
    let (flow, _) = flow.step(Outcome::OtpChecked(Some(true)));
    let (flow, e) = flow.step(Outcome::Updated(false));
    assert!(matches!(flow, VerifyFpwdFlow::Done));
    expect_reply(e, Status::BadRequest, "Database update failed.");
}

fn change_req() -> ChangePwd {
    ChangePwd { email: s("cy@x.io"), old_pwd: s("old"), new_pwd: s("new") }
}

#[test]
fn change_pwd_full_path() {
    let (flow, e) = change_pwd(change_req());
    match e {
        Effect::FindUserPwd { email } => assert_eq!(email, "cy@x.io"),
        other => panic!("{:?}", other),
    }
    let (flow, e) = flow.step(Outcome::PwdRow(UserRow::Found(s("OH"))));
    match e {
        Effect::VerifyHash { plain, hash } => {
            assert_eq!(plain, "old");
            assert_eq!(hash, "OH");
        }
        other => panic!("{:?}", other),
    }
    let (flow, e) = flow.step(Outcome::HashChecked(Some(true)));
    match e {
        Effect::HashPassword { plain } => assert_eq!(plain, "new"),
        other => panic!("{:?}", other),
    }
    let (flow, e) = flow.step(Outcome::Hashed(s("NH")));
    match e {
        Effect::UpdatePwd { email, hash } => {
            assert_eq!(email, "cy@x.io");
            assert_eq!(hash, "NH");
        }
        other => panic!("{:?}", other),
    }
    // The outcome of the write is not looked at.
    let (flow, e) = flow.step(Outcome::Updated(false));
    assert!(matches!(flow, ChangePwdFlow::Done));
    expect_reply(e, Status::Success, "Password changed successfully!");
}

#[test]
fn change_pwd_failures() {
    let (flow, _) = change_pwd(change_req());
    let (_, e) = flow.step(Outcome::PwdRow(UserRow::Missing));
    expect_reply(e, Status::BadRequest, "User not found.");
    let (flow, _) = change_pwd(change_req());
    let (flow, _) = flow.step(Outcome::PwdRow(UserRow::Found(s("OH"))));
    let (_, e) = flow.step(Outcome::HashChecked(Some(false)));
    expect_reply(e, Status::BadRequest, "Incorrect old password.");
}

#[test]
fn reset_round_trip_writes_stored_hash() {
    // What the reset stores is what the confirmation writes.
    let (flow, _) = forgotten_pwd(ForgottenPwd { email: s("d@x.io"), new_pwd: s("p") });
    let (flow, _) = flow.step(Outcome::Exists(true));
    let (flow, _) = flow.step(Outcome::Otp(s("9")));
    let (_, e) = flow.step(Outcome::Hashed(s("HP")));
    let (stored_key, stored) = match e {
        Effect::StoreReset { key, session, .. } => (key, session),
        other => panic!("{:?}", other),
    };
    let (flow, e) = verify_fpwd(otp_req("d@x.io", "9"));
    match e {
        Effect::LoadReset { key } => assert_eq!(key, stored_key),
        other => panic!("{:?}", other),
    }
    let (flow, _) = flow.step(Outcome::LoadedReset(Some(stored)));
    let (_, e) = flow.step(Outcome::OtpChecked(Some(true)));
    match e {
        Effect::UpdatePwd { email, hash } => {
            assert_eq!(email, "d@x.io");
            assert_eq!(hash, "HP");
        }
        other => panic!("{:?}", other),
    }
}

#[test]
fn signup_round_trip_registers_pending_user() {
    let (flow, _) = signup(signup_req());
    let (flow, _) = flow.step(Outcome::Exists(false));
    let (flow, _) = flow.step(Outcome::Otp(s("777777")));
    let (_, e) = flow.step(Outcome::Hashed(s("HX")));
    let (stored_key, stored) = match e {
        Effect::StoreSignup { key, session, .. } => (key, session),
        other => panic!("{:?}", other),
    };
    assert_ne!(stored.pwd, "plain");
    let (flow, e) = verify_signup(otp_req("ann@x.io", "777777"));
    match e {
        Effect::LoadSignup { key } => assert_eq!(key, stored_key),
        other => panic!("{:?}", other),
    }
    let (flow, _) = flow.step(Outcome::LoadedSignup(Some(stored)));
    let (_, e) = flow.step(Outcome::OtpChecked(Some(true)));
    match e {
        Effect::InsertUser { user } => {
            assert_eq!(user.name, "Ann");
            assert_eq!(user.email, "ann@x.io");
            assert_eq!(user.pwd, "HX");
        }
        other => panic!("{:?}", other),
    }
}

#[test]
fn verification_email_text() {
    assert_eq!(
        verification_email("My Company", "123456", "Ann", 5),
        "Hello Ann,\n\nYour verification code is: 123456\nIt expires in 5 minutes.\n\nMy Company"
    );
    assert!(verification_email("C", "1", "N", 120).contains("It expires in 120 minutes."));
    assert!(verification_email("C", "1", "N", 0).contains("It expires in 0 minutes."));
}

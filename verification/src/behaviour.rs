//! What each handler does, stated over whole runs: from the request and the
//! outcomes of the outside operations to the operations asked for and the
//! final answer.

use vstd::prelude::*;

use crate::effect::{Effect, Outcome, UserRow};
use crate::keys::{reset_key_of, signup_key_of};
use crate::reply::Status;
use crate::routes::change_pwd::{change_pwd_starts, ChangePwd, ChangePwdFlow};
use crate::routes::forgotten_pwd::{forgotten_pwd_starts, ForgottenPwd, ForgottenPwdFlow};
use crate::routes::login::{login_starts, LoginFlow, LoginUser};
use crate::routes::signup::{signup_starts, SignupFlow, TempSignup};
use crate::routes::verify_fpwd::{verify_fpwd_starts, VerifyFpwdFlow, VerifyOtp};
use crate::routes::verify_signup::{verify_signup_starts, VerifySignupFlow};
use crate::utils::{decimal, digit, verification_email_text};
use crate::ws::ws_handler::{command_ops, ws_opens, ws_step, ClientCommand, WsAction, WsEvent, WsOp, WsOpen};

verus! {

/// The effect `e` ends the request with status `status` and body `text`.
pub open spec fn answer_is(e: Effect, status: Status, text: Seq<char>) -> bool {
    &&& e is Respond
    &&& e->reply.status == status
    &&& e->reply.body@ == text
}

// ---------------------------------------------------------------- login

/// A login looks up the e-mail it was given, checks exactly the given
/// password against exactly the stored hash, and succeeds exactly when that
/// check says yes.
pub proof fn law_login_checks_given_password(
    request: LoginUser, stored: String, verdict: Option<bool>,
    r0: (LoginFlow, Effect), r1: (LoginFlow, Effect), r2: (LoginFlow, Effect),
)
    requires
        login_starts(request, r0),
        r0.0.next(Outcome::PwdRow(UserRow::Found(stored)), r1),
        r1.0.next(Outcome::HashChecked(verdict), r2),
    ensures
        r0.1 is FindUserPwd && r0.1->FindUserPwd_email@ == request.email@,
        r1.1 is VerifyHash && r1.1->VerifyHash_plain@ == request.pwd@ && r1.1->VerifyHash_hash@ == stored@,
        verdict == Some(true) ==> answer_is(r2.1, Status::Success, "Login successful!"@),
        verdict != Some(true) ==> answer_is(r2.1, Status::BadRequest, "Invalid credentials."@),
{
}

/// A login for an e-mail without a user row (or whose query failed) is
/// refused with "User not found." and checks no password.
pub proof fn law_login_unknown_user(request: LoginUser, row: UserRow, r0: (LoginFlow, Effect), r1: (LoginFlow, Effect))
    requires
        login_starts(request, r0),
        !(row is Found),
        r0.0.next(Outcome::PwdRow(row), r1),
    ensures
        answer_is(r1.1, Status::BadRequest, "User not found."@),
        r1.0 is Done,
{
}

// ---------------------------------------------------------------- change_pwd

/// Once a found user's old password checked out, the new password (exactly
/// the one given) is hashed, exactly that hash is written for exactly that
/// e-mail, and the answer is 200 "Password changed successfully!" whatever
/// the outcome of the write.
pub proof fn law_change_pwd_run(
    request: ChangePwd, stored: String, new_hash: String, written: bool,
    r0: (ChangePwdFlow, Effect), r1: (ChangePwdFlow, Effect), r2: (ChangePwdFlow, Effect),
    r3: (ChangePwdFlow, Effect), r4: (ChangePwdFlow, Effect),
)
    requires
        change_pwd_starts(request, r0),
        r0.0.next(Outcome::PwdRow(UserRow::Found(stored)), r1),
        r1.0.next(Outcome::HashChecked(Some(true)), r2),
        r2.0.next(Outcome::Hashed(new_hash), r3),
        r3.0.next(Outcome::Updated(written), r4),
    ensures
        r0.1 is FindUserPwd && r0.1->FindUserPwd_email@ == request.email@,
        r1.1 is VerifyHash && r1.1->VerifyHash_plain@ == request.old_pwd@ && r1.1->VerifyHash_hash@ == stored@,
        r2.1 is HashPassword && r2.1->HashPassword_plain@ == request.new_pwd@,
        r3.1 is UpdatePwd && r3.1->UpdatePwd_email@ == request.email@ && r3.1->UpdatePwd_hash@ == new_hash@,
        answer_is(r4.1, Status::Success, "Password changed successfully!"@),
        r4.0 is Done,
{
}

/// A change is refused with "User not found." when there is no user row,
/// and with "Incorrect old password." when the old password does not check
/// out; in neither case is anything hashed or written.
pub proof fn law_change_pwd_refusals(
    request: ChangePwd, row: UserRow, stored: String, verdict: Option<bool>,
    r0: (ChangePwdFlow, Effect), r1: (ChangePwdFlow, Effect),
    s1: (ChangePwdFlow, Effect), s2: (ChangePwdFlow, Effect),
)
    requires
        change_pwd_starts(request, r0),
        !(row is Found),
        r0.0.next(Outcome::PwdRow(row), r1),
        r0.0.next(Outcome::PwdRow(UserRow::Found(stored)), s1),
        verdict != Some(true),
        s1.0.next(Outcome::HashChecked(verdict), s2),
    ensures
        answer_is(r1.1, Status::BadRequest, "User not found."@) && r1.0 is Done,
        answer_is(s2.1, Status::BadRequest, "Incorrect old password."@) && s2.0 is Done,
{
}

/// Every 200 answer to a password change comes right after the write of the
/// new hash.
pub proof fn law_change_pwd_success_only_after_write(s: ChangePwdFlow, o: Outcome, r: (ChangePwdFlow, Effect))
    requires
        s.next(o, r),
        r.1 is Respond && r.1->reply.status == Status::Success,
    ensures
        s is AwaitUpdate && o is Updated,
{
}

// ---------------------------------------------------------------- verify_fpwd

/// A reset confirmation reads `fpwd:<email>`; with a pending reset it checks
/// exactly the given code for exactly the given e-mail. A code that does not
/// check out is answered 400 "Invalid or expired OTP." and nothing is
/// written; one that does writes exactly the pending hash for that e-mail; a
/// failed write is answered 400 "Database update failed."; a successful one
/// deletes the pending reset and is answered 200 "Password reset successfully!".
pub proof fn law_verify_fpwd_run(
    request: VerifyOtp, pending: ForgottenPwd, verdict: Option<bool>, written: bool,
    r0: (VerifyFpwdFlow, Effect), r1: (VerifyFpwdFlow, Effect), r2: (VerifyFpwdFlow, Effect),
    r3: (VerifyFpwdFlow, Effect), r4: (VerifyFpwdFlow, Effect),
)
    requires
        verify_fpwd_starts(request, r0),
        r0.0.next(Outcome::LoadedReset(Some(pending)), r1),
        r1.0.next(Outcome::OtpChecked(verdict), r2),
        verdict == Some(true) ==> r2.0.next(Outcome::Updated(written), r3),
        verdict == Some(true) && written ==> r3.0.next(Outcome::Deleted, r4),
    ensures
        r0.1 is LoadReset && r0.1->LoadReset_key@ == reset_key_of(request.email@),
        r1.1 is VerifyOtp && r1.1->VerifyOtp_user@ == request.email@ && r1.1->VerifyOtp_otp@ == request.otp@,
        verdict != Some(true) ==> answer_is(r2.1, Status::BadRequest, "Invalid or expired OTP."@) && r2.0 is Done,
        verdict == Some(true) ==> r2.1 is UpdatePwd && r2.1->UpdatePwd_email@ == request.email@
            && r2.1->UpdatePwd_hash@ == pending.new_pwd@,
        verdict == Some(true) && !written ==> answer_is(r3.1, Status::BadRequest, "Database update failed."@),
        verdict == Some(true) && written ==> r3.1 is DeleteKey && r3.1->DeleteKey_key@ == reset_key_of(request.email@)
            && !r3.1->must_succeed,
        verdict == Some(true) && written ==> answer_is(r4.1, Status::Success, "Password reset successfully!"@),
{
}

/// A reset confirmation without a pending reset is answered 400
/// "Session expired. Please request a new password reset." and checks no code.
pub proof fn law_verify_fpwd_expired(request: VerifyOtp, r0: (VerifyFpwdFlow, Effect), r1: (VerifyFpwdFlow, Effect))
    requires
        verify_fpwd_starts(request, r0),
        r0.0.next(Outcome::LoadedReset(None), r1),
    ensures
        answer_is(r1.1, Status::BadRequest, "Session expired. Please request a new password reset."@),
        r1.0 is Done,
{
}

/// A reset confirmation answers 200 only after its pending reset was
/// deleted; it is waiting for that delete only after a successful write; it
/// writes only after the code checked out.
pub proof fn law_verify_fpwd_success_needs_code_and_write(s: VerifyFpwdFlow, o: Outcome, r: (VerifyFpwdFlow, Effect))
    requires
        s.next(o, r),
    ensures
        r.1 is Respond && r.1->reply.status == Status::Success ==> s is AwaitDelete && o is Deleted,
        r.0 is AwaitDelete ==> s is AwaitUpdate && o == Outcome::Updated(true),
        r.0 is AwaitUpdate ==> s is AwaitOtp && o == Outcome::OtpChecked(Some(true)),
        s is AwaitOtp && o != Outcome::OtpChecked(Some(true))
            ==> answer_is(r.1, Status::BadRequest, "Invalid or expired OTP."@),
{
}

// ---------------------------------------------------------------- signup

/// A sign-up of an unregistered e-mail asks for a six-digit code for exactly
/// that e-mail, valid 300 seconds; hashes exactly the given password; keeps
/// the name, e-mail and that hash for 300 seconds under `signup:<email>`;
/// e-mails exactly the generated code to exactly that e-mail, addressed by
/// the given name, under "Verify Your Account"; and answers by whether the
/// e-mail went out.
pub proof fn law_signup_run(
    request: TempSignup, code: String, hash: String, sent: bool,
    r0: (SignupFlow, Effect), r1: (SignupFlow, Effect), r2: (SignupFlow, Effect),
    r3: (SignupFlow, Effect), r4: (SignupFlow, Effect), r5: (SignupFlow, Effect),
)
    requires
        signup_starts(request, r0),
        r0.0.next(Outcome::Exists(false), r1),
        r1.0.next(Outcome::Otp(code), r2),
        r2.0.next(Outcome::Hashed(hash), r3),
        r3.0.next(Outcome::Stored, r4),
        r4.0.next(Outcome::Sent(sent), r5),
    ensures
        r0.1 is UserExists && r0.1->UserExists_email@ == request.email@,
        r1.1 is GenerateOtp && r1.1->GenerateOtp_user@ == request.email@
            && r1.1->GenerateOtp_digits == 6 && r1.1->GenerateOtp_ttl_secs == 300,
        r2.1 is HashPassword && r2.1->HashPassword_plain@ == request.pwd@,
        r3.1 is StoreSignup && r3.1->StoreSignup_key@ == signup_key_of(request.email@)
            && r3.1->StoreSignup_session.name@ == request.name@
            && r3.1->StoreSignup_session.email@ == request.email@
            && r3.1->StoreSignup_session.pwd@ == hash@
            && r3.1->StoreSignup_ttl_secs == 300,
        r4.1 is SendEmail && r4.1->mail.otp@ == code@ && r4.1->mail.to@ == request.email@
            && r4.1->mail.recipient@ == request.name@ && r4.1->mail.subject@ == "Verify Your Account"@
            && r4.1->mail.company@ == "My Company"@ && r4.1->mail.valid_minutes == 5,
        sent ==> answer_is(r5.1, Status::Success, "Signup initiated. Please check your email for the OTP!"@),
        !sent ==> answer_is(r5.1, Status::BadRequest, "Failed to send verification email."@),
{
}

/// A sign-up of a registered e-mail is refused with "User already exists
/// with this email." and makes no code.
pub proof fn law_signup_existing(request: TempSignup, r0: (SignupFlow, Effect), r1: (SignupFlow, Effect))
    requires
        signup_starts(request, r0),
        r0.0.next(Outcome::Exists(true), r1),
    ensures
        answer_is(r1.1, Status::BadRequest, "User already exists with this email."@),
        r1.0 is Done,
{
}

// ---------------------------------------------------------------- forgotten_pwd

/// A reset for a registered e-mail asks for a six-digit code for exactly that
/// e-mail, valid 300 seconds; hashes exactly the new password; keeps the
/// e-mail and that hash for 300 seconds under `fpwd:<email>`; e-mails exactly
/// the generated code to that e-mail, addressed "User", under "Password Reset
/// OTP"; and answers by whether the e-mail went out. An unknown e-mail is
/// answered 400 with the neutral message and gets no code.
pub proof fn law_forgotten_pwd_run(
    request: ForgottenPwd, code: String, hash: String, sent: bool,
    r0: (ForgottenPwdFlow, Effect), r1: (ForgottenPwdFlow, Effect), r2: (ForgottenPwdFlow, Effect),
    r3: (ForgottenPwdFlow, Effect), r4: (ForgottenPwdFlow, Effect), r5: (ForgottenPwdFlow, Effect),
    u1: (ForgottenPwdFlow, Effect),
)
    requires
        forgotten_pwd_starts(request, r0),
        r0.0.next(Outcome::Exists(true), r1),
        r1.0.next(Outcome::Otp(code), r2),
        r2.0.next(Outcome::Hashed(hash), r3),
        r3.0.next(Outcome::Stored, r4),
        r4.0.next(Outcome::Sent(sent), r5),
        r0.0.next(Outcome::Exists(false), u1),
    ensures
        r0.1 is UserExists && r0.1->UserExists_email@ == request.email@,
        r1.1 is GenerateOtp && r1.1->GenerateOtp_user@ == request.email@
            && r1.1->GenerateOtp_digits == 6 && r1.1->GenerateOtp_ttl_secs == 300,
        r2.1 is HashPassword && r2.1->HashPassword_plain@ == request.new_pwd@,
        r3.1 is StoreReset && r3.1->StoreReset_key@ == reset_key_of(request.email@)
            && r3.1->StoreReset_session.email@ == request.email@
            && r3.1->StoreReset_session.new_pwd@ == hash@
            && r3.1->StoreReset_ttl_secs == 300,
        r4.1 is SendEmail && r4.1->mail.otp@ == code@ && r4.1->mail.to@ == request.email@
            && r4.1->mail.recipient@ == "User"@ && r4.1->mail.subject@ == "Password Reset OTP"@
            && r4.1->mail.company@ == "My Company"@ && r4.1->mail.valid_minutes == 5,
        sent ==> answer_is(r5.1, Status::Success, "OTP sent to your email."@),
        !sent ==> answer_is(r5.1, Status::BadRequest, "Failed to send OTP email."@),
        answer_is(u1.1, Status::BadRequest, "If this email exists, an OTP has been sent."@) && u1.0 is Done,
{
}

// ---------------------------------------------------------------- verify_signup

/// A sign-up confirmation reads `signup:<email>`; with a pending sign-up it
/// checks exactly the given code for the pending e-mail. A code that does not
/// check out is answered 400 "Invalid or expired OTP." and registers nobody;
/// one that does registers exactly the pending user, then deletes exactly the
/// key it read, and is answered 200 "Signup successful!". Without a pending
/// sign-up the session has expired.
pub proof fn law_verify_signup_run(
    request: VerifyOtp, pending: TempSignup, verdict: Option<bool>,
    r0: (VerifySignupFlow, Effect), r1: (VerifySignupFlow, Effect), r2: (VerifySignupFlow, Effect),
    r3: (VerifySignupFlow, Effect), r4: (VerifySignupFlow, Effect), u1: (VerifySignupFlow, Effect),
)
    requires
        verify_signup_starts(request, r0),
        r0.0.next(Outcome::LoadedSignup(Some(pending)), r1),
        r1.0.next(Outcome::OtpChecked(verdict), r2),
        verdict == Some(true) ==> r2.0.next(Outcome::Inserted, r3),
        verdict == Some(true) ==> r3.0.next(Outcome::Deleted, r4),
        r0.0.next(Outcome::LoadedSignup(None), u1),
    ensures
        r0.1 is LoadSignup && r0.1->LoadSignup_key@ == signup_key_of(request.email@),
        r1.1 is VerifyOtp && r1.1->VerifyOtp_user@ == pending.email@ && r1.1->VerifyOtp_otp@ == request.otp@,
        verdict != Some(true) ==> answer_is(r2.1, Status::BadRequest, "Invalid or expired OTP."@) && r2.0 is Done,
        verdict == Some(true) ==> r2.1 is InsertUser && r2.1->InsertUser_user == pending,
        verdict == Some(true) ==> r3.1 is DeleteKey && r3.1->DeleteKey_key@ == signup_key_of(request.email@)
            && r3.1->must_succeed,
        verdict == Some(true) ==> answer_is(r4.1, Status::Success, "Signup successful!"@),
        answer_is(u1.1, Status::BadRequest, "Session expired or email not found. Please sign up again."@),
{
}

// ---------------------------------------------------------------- websocket

/// Every client command becomes manager operations that carry the command's
/// own texts unchanged; room messages are sent in the name of the user who
/// sent them, to the room named.
pub proof fn law_commands_keep_their_texts(user: Seq<char>, command: ClientCommand, ops: Seq<WsOp>)
    requires
        command_ops(user, command, ops),
    ensures
        command is Join ==> ops.len() == 1 && ops[0] is JoinRoom
            && ops[0]->JoinRoom_user@ == user && ops[0]->JoinRoom_room@ == command->Join_room@,
        command is Leave ==> ops.len() == 1 && ops[0] is LeaveRoom
            && ops[0]->LeaveRoom_user@ == user && ops[0]->LeaveRoom_room@ == command->Leave_room@,
        command is DropRoom ==> ops.len() == 2
            && ops[0] is ShowRoomHistory && ops[0]->ShowRoomHistory_room@ == command->DropRoom_room@
            && ops[1] is DropRoom && ops[1]->DropRoom_room@ == command->DropRoom_room@,
        command is MsgUser ==> ops.len() == 1 && ops[0] is MsgUser
            && ops[0]->target@ == command->target_id@ && ops[0]->MsgUser_msg@ == command->MsgUser_msg@,
        command is MsgRoom ==> ops.len() == 1 && ops[0] is MsgRoom
            && ops[0]->MsgRoom_room@ == command->MsgRoom_room@
            && ops[0]->MsgRoom_msg.msg@ == command->MsgRoom_msg@
            && ops[0]->MsgRoom_msg.from@ == user
            && ops[0]->MsgRoom_msg.to@ == command->MsgRoom_room@,
        command is Broadcast ==> ops.len() == 1 && ops[0] is Broadcast
            && ops[0]->Broadcast_msg@ == command->Broadcast_msg@,
{
}

/// On a live connection, a pushed message is sent to the client unchanged,
/// client text is handed on unchanged, a ping is answered with its own bytes,
/// other frames do nothing, and all of these keep the connection; a failed
/// push, a close frame or the end of the stream close it and clean up exactly
/// the connection's user.
pub proof fn law_connection_events(user: String, ev: WsEvent)
    ensures
        ev is Outbound ==> ws_step(user, ev).0 && ws_step(user, ev).1 is SendText
            && ws_step(user, ev).1->SendText_0@ == ev->Outbound_0@,
        ev matches WsEvent::Inbound(crate::ws::ws_handler::Frame::Text(t)) ==> ws_step(user, ev).0
            && ws_step(user, ev).1 is HandleText && ws_step(user, ev).1->HandleText_0@ == t@,
        ev matches WsEvent::Inbound(crate::ws::ws_handler::Frame::Ping(b)) ==> ws_step(user, ev).0
            && ws_step(user, ev).1 is Pong && ws_step(user, ev).1->Pong_0@ == b@,
        ev matches WsEvent::Inbound(crate::ws::ws_handler::Frame::Other) ==> ws_step(user, ev).0
            && ws_step(user, ev).1 is Nothing,
        (ev is SendFailed || ev is StreamEnded || ev matches WsEvent::Inbound(crate::ws::ws_handler::Frame::Close))
            ==> !ws_step(user, ev).0 && ws_step(user, ev).1 == WsAction::Cleanup(user),
{
}


/// A failed handshake is refused with 400 "Internal Server Error!" and opens
/// nothing; a successful one registers exactly the requesting user and opens
/// a live connection for exactly that user.
pub proof fn law_upgrade(user_id: String, ok: bool, r: WsOpen)
    requires
        ws_opens(user_id, ok, r),
    ensures
        !ok ==> r is Refused && r->Refused_0.status == Status::BadRequest
            && r->Refused_0.body@ == "Internal Server Error!"@,
        ok ==> r is Upgrade && r->register@ == user_id@ && r->session.user_id@ == user_id@ && r->session.open,
{
}

// ---------------------------------------------------------------- keys and text

/// `signup:<email>` and `fpwd:<email>` are the e-mail behind a fixed
/// prefix: the key ends with the whole e-mail and is 7 (resp. 5)
/// characters longer.
pub proof fn law_key_shapes(email: Seq<char>)
    ensures
        signup_key_of(email).len() == email.len() + 7,
        signup_key_of(email).subrange(7, signup_key_of(email).len() as int) == email,
        signup_key_of(email).subrange(0, 7) == "signup:"@,
        reset_key_of(email).len() == email.len() + 5,
        reset_key_of(email).subrange(5, reset_key_of(email).len() as int) == email,
        reset_key_of(email).subrange(0, 5) == "fpwd:"@,
{
    reveal_strlit("signup:");
    reveal_strlit("fpwd:");
    assert(signup_key_of(email).subrange(7, signup_key_of(email).len() as int) =~= email);
    assert(signup_key_of(email).subrange(0, 7) =~= "signup:"@);
    assert(reset_key_of(email).subrange(5, reset_key_of(email).len() as int) =~= email);
    assert(reset_key_of(email).subrange(0, 5) =~= "fpwd:"@);
}

/// The value of a string of decimal digits.
pub open spec fn digits_value(s: Seq<char>) -> int
    decreases s.len(),
{
    if s.len() == 0 {
        0
    } else {
        digits_value(s.drop_last()) * 10 + (s.last() as int - '0' as int)
    }
}

/// Writing a number in decimal and reading it back gives the number, with
/// only digit characters and no leading zero.
pub proof fn law_decimal_round_trip(n: nat)
    ensures
        digits_value(decimal(n)) == n,
        forall|i: int| 0 <= i < decimal(n).len() ==> '0' <= #[trigger] decimal(n)[i] <= '9',
        decimal(n).len() > 1 ==> decimal(n)[0] != '0',
    decreases n,
{
    if n < 10 {
        assert(decimal(n).drop_last() =~= Seq::<char>::empty());
        assert(digit(n) as int - '0' as int == n);
        assert(digits_value(decimal(n)) == digits_value(Seq::<char>::empty()) * 10 + (digit(n) as int - '0' as int));
    } else {
        let q = n / 10;
        let d = n % 10;
        law_decimal_round_trip(q);
        assert(decimal(n).drop_last() =~= decimal(q));
        assert(decimal(n).last() == digit(d));
        assert(digit(d) as int - '0' as int == d);
        assert(q * 10 + d == n) by (nonlinear_arith)
            requires
                q == n / 10,
                d == n % 10,
        ;
        assert(decimal(q).len() >= 1) by {
            if q >= 10 {} else {}
        }
        assert(digits_value(decimal(n)) == digits_value(decimal(q)) * 10 + (digit(d) as int - '0' as int));
        assert(decimal(n)[0] == decimal(q)[0]);
        if decimal(q).len() == 1 {
            assert(q < 10) by {
                if q >= 10 {
                    assert(decimal(q).len() == decimal(q / 10).len() + 1);
                    law_decimal_len(q / 10);
                }
            }
            assert(q >= 1);
        }
    }
}

/// A decimal numeral has at least one digit.
proof fn law_decimal_len(n: nat)
    ensures
        decimal(n).len() >= 1,
    decreases n,
{
    if n >= 10 {
        law_decimal_len(n / 10);
    }
}


/// The code e-mail greets the recipient by name, then gives exactly the code,
/// then the validity in minutes written in decimal, and ends with the sender
/// organisation.
pub proof fn law_email_carries_code(company: Seq<char>, otp: Seq<char>, name: Seq<char>, minutes: nat)
    ensures
        ({
            let body = verification_email_text(company, otp, name, minutes);
            let head = "Hello "@ + name + ",\n\nYour verification code is: "@;
            let mid = head + otp + "\nIt expires in "@;
            &&& body.subrange(0, head.len() as int) == head
            &&& body.subrange(head.len() as int, (head.len() + otp.len()) as int) == otp
            &&& body.subrange(mid.len() as int, (mid.len() + decimal(minutes).len()) as int) == decimal(minutes)
            &&& body.subrange(body.len() - company.len(), body.len() as int) == company
        }),
{
    let body = verification_email_text(company, otp, name, minutes);
    let head = "Hello "@ + name + ",\n\nYour verification code is: "@;
    let mid = head + otp + "\nIt expires in "@;
    assert(body.subrange(0, head.len() as int) =~= head);
    assert(body.subrange(head.len() as int, (head.len() + otp.len()) as int) =~= otp);
    assert(body.subrange(mid.len() as int, (mid.len() + decimal(minutes).len()) as int) =~= decimal(minutes));
    assert(body.subrange(body.len() - company.len(), body.len() as int) =~= company);
}

} // verus!

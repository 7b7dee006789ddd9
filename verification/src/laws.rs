use vstd::prelude::*;

use crate::effect::{responds, Effect, Outcome};
use crate::keys::{reset_key_of, signup_key_of};
use crate::reply::Status;
use crate::routes::change_pwd::ChangePwdFlow;
use crate::routes::forgotten_pwd::{ForgottenPwd, ForgottenPwdFlow};
use crate::routes::login::LoginFlow;
use crate::routes::signup::{SignupFlow, TempSignup};
use crate::routes::verify_fpwd::{verify_fpwd_starts, VerifyFpwdFlow, VerifyOtp};
use crate::routes::verify_signup::{verify_signup_starts, VerifySignupFlow};
use crate::ws::ws_handler::{ws_run, ws_step, WsAction, WsEvent};

verus! {

/// Pending sign-ups and pending password resets never share a Redis key,
/// and each e-mail has its own key in each of the two spaces.
pub proof fn lemma_session_keys_distinct(a: Seq<char>, b: Seq<char>)
    ensures
        signup_key_of(a) != reset_key_of(b),
        signup_key_of(a) == signup_key_of(b) ==> a == b,
        reset_key_of(a) == reset_key_of(b) ==> a == b,
{
    reveal_strlit("signup:");
    reveal_strlit("fpwd:");
    assert(signup_key_of(a)[0] == 's');
    assert(reset_key_of(b)[0] == 'f');
    if signup_key_of(a) == signup_key_of(b) {
        assert(a =~= signup_key_of(a).subrange(7, signup_key_of(a).len() as int));
        assert(b =~= signup_key_of(b).subrange(7, signup_key_of(b).len() as int));
    }
    if reset_key_of(a) == reset_key_of(b) {
        assert(a =~= reset_key_of(a).subrange(5, reset_key_of(a).len() as int));
        assert(b =~= reset_key_of(b).subrange(5, reset_key_of(b).len() as int));
    }
}

/// A confirmation for an e-mail reads the very key under which the sign-up
/// of that e-mail stored its pending user.
pub proof fn lemma_signup_key_found(s: SignupFlow, o: Outcome, r: (SignupFlow, Effect), q: VerifyOtp, r2: (VerifySignupFlow, Effect))
    requires
        s.next(o, r),
        r.1 matches Effect::StoreSignup { session, .. } && session.email@ == q.email@,
        verify_signup_starts(q, r2),
    ensures
        r.1 matches Effect::StoreSignup { key, .. } && r2.1 matches Effect::LoadSignup { key: k } && k@ == key@,
{
}

/// A confirmation for an e-mail reads the very key under which the password
/// reset of that e-mail stored its pending reset.
pub proof fn lemma_reset_key_found(s: ForgottenPwdFlow, o: Outcome, r: (ForgottenPwdFlow, Effect), q: VerifyOtp, r2: (VerifyFpwdFlow, Effect))
    requires
        s.next(o, r),
        r.1 matches Effect::StoreReset { session, .. } && session.email@ == q.email@,
        verify_fpwd_starts(q, r2),
    ensures
        r.1 matches Effect::StoreReset { key, .. } && r2.1 matches Effect::LoadReset { key: k } && k@ == key@,
{
}

/// What a sign-up keeps as pending holds the hash it was given, not the
/// plain password; the same holds for a pending password reset.
pub proof fn lemma_only_hashes_kept(
    s: SignupFlow, o: Outcome, r: (SignupFlow, Effect),
    t: ForgottenPwdFlow, p: Outcome, u: (ForgottenPwdFlow, Effect),
)
    requires
        s.next(o, r),
        t.next(p, u),
    ensures
        r.1 matches Effect::StoreSignup { session, .. } ==> o matches Outcome::Hashed(h) && session.pwd == h,
        u.1 matches Effect::StoreReset { session, .. } ==> p matches Outcome::Hashed(h) && session.new_pwd == h,
{
}

/// Confirming a password reset with a code that checks out writes, for the
/// requesting e-mail, exactly the hash that the reset stored.
pub proof fn lemma_reset_writes_stored_hash(
    s: ForgottenPwdFlow, o: Outcome, r: (ForgottenPwdFlow, Effect), stored: ForgottenPwd,
    q: VerifyOtp, key: String, r2: (VerifyFpwdFlow, Effect), r3: (VerifyFpwdFlow, Effect),
)
    requires
        s.next(o, r),
        r.1 matches Effect::StoreReset { session, .. } && session == stored,
        (VerifyFpwdFlow::AwaitSession { request: q, key }).next(Outcome::LoadedReset(Some(stored)), r2),
        r2.0.next(Outcome::OtpChecked(Some(true)), r3),
    ensures
        o matches Outcome::Hashed(h) && r3.1 matches Effect::UpdatePwd { email, hash } && hash == h && email == q.email,
{
}

/// Confirming a sign-up with a code that checks out registers exactly the
/// pending user that the sign-up stored: its name, e-mail and password hash.
pub proof fn lemma_signup_registers_stored_user(
    s: SignupFlow, o: Outcome, r: (SignupFlow, Effect), stored: TempSignup,
    otp: String, key: String, r2: (VerifySignupFlow, Effect), r3: (VerifySignupFlow, Effect),
)
    requires
        s.next(o, r),
        r.1 matches Effect::StoreSignup { session, .. } && session == stored,
        (VerifySignupFlow::AwaitSession { otp, key }).next(Outcome::LoadedSignup(Some(stored)), r2),
        r2.0.next(Outcome::OtpChecked(Some(true)), r3),
    ensures
        s matches SignupFlow::AwaitHash { request, .. }
            && o matches Outcome::Hashed(h)
            && r3.1 matches Effect::InsertUser { user }
            && user.name == request.name && user.email == request.email && user.pwd == h,
{
}

/// Users are registered, and reset passwords written, only right after a
/// one-time code checked out.
pub proof fn lemma_writes_need_code(
    s: VerifySignupFlow, o: Outcome, r: (VerifySignupFlow, Effect),
    t: VerifyFpwdFlow, p: Outcome, u: (VerifyFpwdFlow, Effect),
)
    requires
        s.next(o, r),
        t.next(p, u),
    ensures
        r.1 is InsertUser ==> s is AwaitOtp && o == Outcome::OtpChecked(Some(true)),
        u.1 is UpdatePwd ==> t is AwaitOtp && p == Outcome::OtpChecked(Some(true)),
{
}

/// A changed password is hashed, and then written, only after the old
/// password checked out against the stored hash.
pub proof fn lemma_change_needs_old_password(s: ChangePwdFlow, o: Outcome, r: (ChangePwdFlow, Effect))
    requires
        s.next(o, r),
    ensures
        r.0 is AwaitHash ==> s is AwaitCheck && o == Outcome::HashChecked(Some(true)),
        r.1 is UpdatePwd ==> s is AwaitHash && o is Hashed,
{
}

/// A login succeeds exactly when the password check of a found user
/// succeeded; a found user is the only way to reach that check.
pub proof fn lemma_login_success(s: LoginFlow, o: Outcome, r: (LoginFlow, Effect))
    requires
        s.next(o, r),
    ensures
        (r.1 matches Effect::Respond { reply } && reply.status == Status::Success)
            <==> (s is AwaitCheck && o == Outcome::HashChecked(Some(true))),
        r.0 is AwaitCheck ==> o matches Outcome::PwdRow(crate::effect::UserRow::Found(_)),
{
}

/// A one-time code is made for a password reset only when the e-mail is
/// registered, and for a sign-up only when it is not.
pub proof fn lemma_codes_only_when_due(
    s: ForgottenPwdFlow, o: Outcome, r: (ForgottenPwdFlow, Effect),
    t: SignupFlow, p: Outcome, u: (SignupFlow, Effect),
)
    requires
        s.next(o, r),
        t.next(p, u),
    ensures
        r.1 is GenerateOtp ==> o == Outcome::Exists(true),
        u.1 is GenerateOtp ==> p == Outcome::Exists(false),
{
}

/// Number of cleanups among `acts`.
pub open spec fn cleanups(acts: Seq<WsAction>) -> nat
    decreases acts.len(),
{
    if acts.len() == 0 {
        0
    } else {
        (if acts[0] is Cleanup { 1nat } else { 0nat }) + cleanups(acts.drop_first())
    }
}

/// Whatever the events on a connection, its user is cleaned up at most once,
/// and a cleanup is the last thing done; once an event ends the connection,
/// the user is cleaned up.
pub proof fn lemma_cleanup_once(user: String, evs: Seq<WsEvent>)
    ensures
        cleanups(ws_run(user, evs)) <= 1,
        cleanups(ws_run(user, evs)) == 1 ==> ws_run(user, evs).last() == WsAction::Cleanup(user),
        (exists|i: int| 0 <= i < evs.len() && !(#[trigger] ws_step(user, evs[i])).0)
            ==> cleanups(ws_run(user, evs)) == 1,
    decreases evs.len(),
{
    if evs.len() > 0 {
        let (open, a) = ws_step(user, evs[0]);
        let rest = ws_run(user, evs.drop_first());
        lemma_cleanup_once(user, evs.drop_first());
        if open {
            assert(ws_run(user, evs) == seq![a] + rest);
            assert((seq![a] + rest).drop_first() =~= rest);
            assert(!(a is Cleanup));
            assert(cleanups(seq![a] + rest) == cleanups(rest));
            if exists|i: int| 0 <= i < evs.len() && !(#[trigger] ws_step(user, evs[i])).0 {
                let i = choose|i: int| 0 <= i < evs.len() && !(#[trigger] ws_step(user, evs[i])).0;
                assert(i != 0);
                assert(evs.drop_first()[i - 1] == evs[i]);
                assert(!ws_step(user, evs.drop_first()[i - 1]).0);
            }
            if cleanups(rest) == 1 {
                assert(rest.len() > 0);
                assert((seq![a] + rest).last() == rest.last());
            }
        } else {
            assert(ws_run(user, evs) == seq![a]);
            assert(a == WsAction::Cleanup(user));
            assert(seq![a].drop_first() =~= Seq::<WsAction>::empty());
            assert(cleanups(seq![a]) == 1 + cleanups(Seq::<WsAction>::empty()));
        }
    }
}


/// A confirmed sign-up deletes exactly the entry it read, `signup:<email>`,
/// and a confirmed password reset deletes exactly `fpwd:<email>`: the entries
/// that a second confirmation for the same e-mail would read.
pub proof fn lemma_confirmation_deletes_what_it_read(
    q: VerifyOtp, user: TempSignup,
    r0: (VerifySignupFlow, Effect), r1: (VerifySignupFlow, Effect),
    r2: (VerifySignupFlow, Effect), r3: (VerifySignupFlow, Effect),
    p: VerifyOtp, reset: ForgottenPwd,
    u0: (VerifyFpwdFlow, Effect), u1: (VerifyFpwdFlow, Effect),
    u2: (VerifyFpwdFlow, Effect), u3: (VerifyFpwdFlow, Effect),
)
    requires
        verify_signup_starts(q, r0),
        r0.0.next(Outcome::LoadedSignup(Some(user)), r1),
        r1.0.next(Outcome::OtpChecked(Some(true)), r2),
        r2.0.next(Outcome::Inserted, r3),
        verify_fpwd_starts(p, u0),
        u0.0.next(Outcome::LoadedReset(Some(reset)), u1),
        u1.0.next(Outcome::OtpChecked(Some(true)), u2),
        u2.0.next(Outcome::Updated(true), u3),
    ensures
        r3.1 matches Effect::DeleteKey { key, .. } && key@ == signup_key_of(q.email@),
        u3.1 matches Effect::DeleteKey { key, .. } && key@ == reset_key_of(p.email@),
{
}

/// When the pending entry reads back empty (as after a confirmation deleted
/// it), a second confirmation answers that the session expired, and
/// registers no user and writes no password.
pub proof fn lemma_second_confirmation_refused(
    otp: String, key: String, r: (VerifySignupFlow, Effect),
    q: VerifyOtp, key2: String, u: (VerifyFpwdFlow, Effect),
)
    requires
        (VerifySignupFlow::AwaitSession { otp, key }).next(Outcome::LoadedSignup(None), r),
        (VerifyFpwdFlow::AwaitSession { request: q, key: key2 }).next(Outcome::LoadedReset(None), u),
    ensures
        r.0 is Done,
        responds(r.1, Status::BadRequest, "Session expired or email not found. Please sign up again."@),
        u.0 is Done,
        responds(u.1, Status::BadRequest, "Session expired. Please request a new password reset."@),
{
}

/// The messages pushed to a user, in the order they arrived.
pub open spec fn outbound_msgs(evs: Seq<WsEvent>) -> Seq<String>
    decreases evs.len(),
{
    if evs.len() == 0 {
        seq![]
    } else {
        match evs[0] {
            WsEvent::Outbound(m) => seq![m] + outbound_msgs(evs.drop_first()),
            _ => outbound_msgs(evs.drop_first()),
        }
    }
}

/// The texts sent to the client, in order.
pub open spec fn sent_texts(acts: Seq<WsAction>) -> Seq<String>
    decreases acts.len(),
{
    if acts.len() == 0 {
        seq![]
    } else {
        match acts[0] {
            WsAction::SendText(m) => seq![m] + sent_texts(acts.drop_first()),
            _ => sent_texts(acts.drop_first()),
        }
    }
}

/// While a connection stays open, every message pushed to its user is sent
/// to the client exactly once, unchanged, and in arrival order.
pub proof fn lemma_outbound_in_order(user: String, evs: Seq<WsEvent>)
    requires
        forall|i: int| 0 <= i < evs.len() ==> (#[trigger] ws_step(user, evs[i])).0,
    ensures
        sent_texts(ws_run(user, evs)) == outbound_msgs(evs),
    decreases evs.len(),
{
    if evs.len() > 0 {
        let (open, a) = ws_step(user, evs[0]);
        assert(open);
        let rest = ws_run(user, evs.drop_first());
        assert forall|i: int| 0 <= i < evs.drop_first().len() implies (#[trigger] ws_step(user, evs.drop_first()[i])).0 by {
            assert(evs.drop_first()[i] == evs[i + 1]);
            assert(ws_step(user, evs[i + 1]).0);
        }
        lemma_outbound_in_order(user, evs.drop_first());
        assert(ws_run(user, evs) == seq![a] + rest);
        assert((seq![a] + rest).drop_first() =~= rest);
        assert((seq![a] + rest)[0] == a);
    }
}

} // verus!

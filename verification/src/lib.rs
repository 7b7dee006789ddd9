//! Request handling for a small chat server: account sign-up with e-mail
//! one-time codes, login, password reset and change, and the per-user
//! WebSocket session with its room commands.
//!
//! Every request handler is a state machine: it names the next outside
//! operation to perform (a database query, a Redis command, a hash, an
//! e-mail) as an [`effect::Effect`], takes what came back as an
//! [`effect::Outcome`], and finally answers with a [`reply::Reply`].
//! The executor that performs the operations lives outside this crate.

pub mod reply;
pub mod keys;
pub mod effect;
pub mod routes;
pub mod ws;
pub mod laws;
pub mod behaviour;
pub mod utils;

pub use routes::login::{login, LoginFlow, LoginUser};
pub use routes::signup::{signup, SignupFlow, TempSignup};
pub use routes::forgotten_pwd::{forgotten_pwd, ForgottenPwd, ForgottenPwdFlow};
pub use routes::change_pwd::{change_pwd, ChangePwd, ChangePwdFlow};
pub use routes::verify_fpwd::{verify_fpwd, VerifyFpwdFlow, VerifyOtp};
pub use routes::verify_signup::{verify_signup, VerifySignupFlow};

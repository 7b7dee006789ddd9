pub mod signup;
pub mod verify_signup;
pub mod login;
pub mod forgotten_pwd;
pub mod verify_fpwd;
pub mod change_pwd;

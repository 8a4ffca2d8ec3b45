//! What users send to register and to log in, and the role that a
//! registration earns.

use crate::account::password::{password_matches, verify_password};
use crate::text::{same_text, trim, trimmed};
use vstd::prelude::*;
use vstd::string::*;

verus! {

/// The role of an administrator.
pub const ADMIN_ROLE_ID: i32 = 1;

/// The role of an ordinary user.
pub const USER_ROLE_ID: i32 = 2;

/// A request to register.
#[derive(Clone, Debug, PartialEq, Eq)]
pub struct RegisterForm {
    pub username: String,
    pub email: String,
    pub password: String,
    pub access_code: Option<String>,
}

/// The mathematical content of a [`RegisterForm`].
pub struct RegisterFormView {
    pub username: Seq<char>,
    pub email: Seq<char>,
    pub password: Seq<char>,
    pub access_code: Option<Seq<char>>,
}

impl DeepView for RegisterForm {
    type V = RegisterFormView;

    open spec fn deep_view(&self) -> RegisterFormView {
        RegisterFormView {
            username: self.username@,
            email: self.email@,
            password: self.password@,
            access_code: self.access_code.deep_view(),
        }
    }
}

impl View for RegisterForm {
    type V = RegisterFormView;

    open spec fn view(&self) -> RegisterFormView {
        self.deep_view()
    }
}

/// A request to log in.
#[derive(Clone, Debug, PartialEq, Eq)]
pub struct LoginForm {
    pub email: String,
    pub password: String,
}

/// The mathematical content of a [`LoginForm`].
pub struct LoginFormView {
    pub email: Seq<char>,
    pub password: Seq<char>,
}

impl DeepView for LoginForm {
    type V = LoginFormView;

    open spec fn deep_view(&self) -> LoginFormView {
        LoginFormView { email: self.email@, password: self.password@ }
    }
}

impl View for LoginForm {
    type V = LoginFormView;

    open spec fn view(&self) -> LoginFormView {
        self.deep_view()
    }
}

/// The role of someone who registers: administrator if the form carries the
/// administrators' code, white space at either end of both aside; ordinary
/// user otherwise.
pub open spec fn registered_role(access_code: Option<Seq<char>>, admin_code: Seq<char>) -> i32 {
    match access_code {
        Some(code) => if trimmed(code) == trimmed(admin_code) {
            ADMIN_ROLE_ID
        } else {
            USER_ROLE_ID
        },
        None => USER_ROLE_ID,
    }
}

/// The role of an account that an administrator makes: administrator if the
/// form carries the administrators' code exactly; ordinary user otherwise.
pub open spec fn assigned_role(access_code: Option<Seq<char>>, admin_code: Seq<char>) -> i32 {
    match access_code {
        Some(code) => if code == admin_code {
            ADMIN_ROLE_ID
        } else {
            USER_ROLE_ID
        },
        None => USER_ROLE_ID,
    }
}

impl RegisterForm {
    /// Decides the role of someone who registers with this form.
    pub fn registered_role(&self, admin_code: &str) -> (role: i32)
        ensures
            role == registered_role(self@.access_code, admin_code@),
    {
        match &self.access_code {
            Some(code) => {
                let given = trim(code.as_str());
                let wanted = trim(admin_code);
                if same_text(given.as_str(), wanted.as_str()) {
                    ADMIN_ROLE_ID
                } else {
                    USER_ROLE_ID
                }
            },
            None => USER_ROLE_ID,
        }
    }

    /// Decides the role of an account that an administrator makes or
    /// changes with this form.
    pub fn assigned_role(&self, admin_code: &str) -> (role: i32)
        ensures
            role == assigned_role(self@.access_code, admin_code@),
    {
        match &self.access_code {
            Some(code) => {
                if same_text(code.as_str(), admin_code) {
                    ADMIN_ROLE_ID
                } else {
                    USER_ROLE_ID
                }
            },
            None => USER_ROLE_ID,
        }
    }
}

impl LoginForm {
    /// Tests the form's password against the hash stored for the account.
    pub fn password_accepted(&self, stored_hash: &str) -> (accepted: bool)
        ensures
            accepted == password_matches(self@.password, stored_hash@),
    {
        verify_password(self.password.as_str(), stored_hash)
    }
}

} // verus!

//! Field rules of the two submitted forms, and the messages shown when a
//! rule is broken.

use vstd::prelude::*;

verus! {

/// Shown when the e-mail field does not hold an address.
pub const INVALID_EMAIL: &'static str = "Invalid email format";

/// Shown when the password is too short.
pub const SHORT_PASSWORD: &'static str = "Password must be at least 8 characters long";

/// Shown when the name is too short.
pub const SHORT_NAME: &'static str = "Name must be at least 4 characters long";

/// Shown when the password and its repetition differ.
pub const PASSWORD_MISMATCH: &'static str = "Passwords do not match";

/// Fewest characters of a password.
pub const MIN_PASSWORD_CHARS: u64 = 8;

/// Fewest characters of a name.
pub const MIN_NAME_CHARS: u64 = 4;

/// Whether the `validator` crate takes `email` for an e-mail address.
pub uninterp spec fn valid_email(email: Seq<char>) -> bool;

/// Trusted: `validator::ValidateEmail::validate_email` on a string slice.
/// The answer depends on the text alone, and `valid_email` names it.
#[verifier::external_body]
fn email_is_valid(email: &str) -> (ok: bool)
    ensures
        ok == valid_email(email@),
{
    validator::ValidateEmail::validate_email(&email)
}

/// Trusted: `validator::ValidateLength::validate_length` on a string slice
/// with a lower bound only. It counts characters, not bytes, and accepts
/// exactly the texts that have at least `min` of them.
#[verifier::external_body]
fn has_min_chars(text: &str, min: u64) -> (ok: bool)
    ensures
        ok == (text@.len() >= min),
{
    validator::ValidateLength::validate_length(&text, Some(min), None, None)
}

/// Trusted: `validator::validate_must_match` on two string slices, which
/// compares them with `==`: true exactly when they hold the same text.
#[verifier::external_body]
fn same_text(left: &str, right: &str) -> (ok: bool)
    ensures
        ok == (left@ == right@),
{
    validator::validate_must_match(left, right)
}

/// What a sign-in form holds, as mathematical text.
pub struct LoginView {
    pub email: Seq<char>,
    pub password: Seq<char>,
}

/// A submitted sign-in form.
#[derive(Debug, PartialEq, Eq)]
pub struct LoginData {
    pub email: String,
    pub password: String,
}

impl View for LoginData {
    type V = LoginView;

    open spec fn view(&self) -> LoginView {
        LoginView { email: self.email@, password: self.password@ }
    }
}

impl DeepView for LoginData {
    type V = LoginView;

    open spec fn deep_view(&self) -> LoginView {
        self@
    }
}

impl Clone for LoginData {
    fn clone(&self) -> (copy: LoginData)
        ensures
            copy@ == self@,
    {
        LoginData { email: self.email.clone(), password: self.password.clone() }
    }
}

/// The message for the e-mail field: none when the address is accepted.
pub open spec fn email_violation(email: Seq<char>) -> Seq<Seq<char>> {
    if valid_email(email) {
        Seq::empty()
    } else {
        seq![INVALID_EMAIL@]
    }
}

/// The message for the password field: none when it is long enough.
pub open spec fn password_violation(password: Seq<char>) -> Seq<Seq<char>> {
    if password.len() >= MIN_PASSWORD_CHARS {
        Seq::empty()
    } else {
        seq![SHORT_PASSWORD@]
    }
}

/// Every message a sign-in form earns, in the order of its fields.
pub open spec fn login_violations(data: LoginView) -> Seq<Seq<char>> {
    email_violation(data.email) + password_violation(data.password)
}

/// The rules a sign-in form must keep: an accepted address and a password
/// of at least eight characters.
pub open spec fn login_acceptable(data: LoginView) -> bool {
    &&& valid_email(data.email)
    &&& data.password.len() >= MIN_PASSWORD_CHARS
}

/// A sign-in form earns no message exactly when it keeps every rule, and
/// never more than one message per field.
pub proof fn login_violations_match_rules(data: LoginView)
    ensures
        login_violations(data).len() == 0 <==> login_acceptable(data),
        login_violations(data).len() <= 2,
        !valid_email(data.email) ==> login_violations(data)[0] == INVALID_EMAIL@,
        data.password.len() < MIN_PASSWORD_CHARS ==> login_violations(data).last()
            == SHORT_PASSWORD@,
{
}

impl LoginData {
    /// Checks every field and reports every broken rule, in field order.
    pub fn validate(&self) -> (outcome: Result<(), Vec<String>>)
        ensures
            outcome is Ok <==> login_acceptable(self@),
            outcome matches Err(messages) ==> messages.deep_view() == login_violations(self@)
                && messages.len() > 0,
    {
        let mut messages: Vec<String> = Vec::new();
        if !email_is_valid(self.email.as_str()) {
            messages.push(INVALID_EMAIL.to_owned());
        }
        if !has_min_chars(self.password.as_str(), MIN_PASSWORD_CHARS) {
            messages.push(SHORT_PASSWORD.to_owned());
        }
        if messages.len() == 0 {
            Ok(())
        } else {
            Err(messages)
        }
    }
}

/// What a sign-up form holds, as mathematical text.
pub struct RegisterView {
    pub name: Seq<char>,
    pub email: Seq<char>,
    pub password: Seq<char>,
    pub confirm_password: Seq<char>,
}

impl RegisterView {
    /// The form with every field blank.
    pub open spec fn blank() -> RegisterView {
        RegisterView {
            name: Seq::empty(),
            email: Seq::empty(),
            password: Seq::empty(),
            confirm_password: Seq::empty(),
        }
    }
}

/// A submitted sign-up form.
#[derive(Debug, PartialEq, Eq)]
pub struct RegisterData {
    pub name: String,
    pub email: String,
    pub password: String,
    /// The password typed a second time. It is read for validation and for
    /// nothing else.
    pub confirm_password: String,
}

impl View for RegisterData {
    type V = RegisterView;

    open spec fn view(&self) -> RegisterView {
        RegisterView {
            name: self.name@,
            email: self.email@,
            password: self.password@,
            confirm_password: self.confirm_password@,
        }
    }
}

impl DeepView for RegisterData {
    type V = RegisterView;

    open spec fn deep_view(&self) -> RegisterView {
        self@
    }
}

impl Clone for RegisterData {
    fn clone(&self) -> (copy: RegisterData)
        ensures
            copy@ == self@,
    {
        RegisterData {
            name: self.name.clone(),
            email: self.email.clone(),
            password: self.password.clone(),
            confirm_password: self.confirm_password.clone(),
        }
    }
}

impl Default for RegisterData {
    /// The blank form.
    fn default() -> (form: RegisterData)
        ensures
            form@ == RegisterView::blank(),
    {
        RegisterData {
            name: String::new(),
            email: String::new(),
            password: String::new(),
            confirm_password: String::new(),
        }
    }
}

/// The message for the name field: none when it is long enough.
pub open spec fn name_violation(name: Seq<char>) -> Seq<Seq<char>> {
    if name.len() >= MIN_NAME_CHARS {
        Seq::empty()
    } else {
        seq![SHORT_NAME@]
    }
}

/// The message for the repeated password: none when it equals the password.
pub open spec fn confirmation_violation(password: Seq<char>, confirm_password: Seq<char>) -> Seq<
    Seq<char>,
> {
    if confirm_password == password {
        Seq::empty()
    } else {
        seq![PASSWORD_MISMATCH@]
    }
}

/// Every message a sign-up form earns, in the order of its fields.
pub open spec fn register_violations(data: RegisterView) -> Seq<Seq<char>> {
    name_violation(data.name) + email_violation(data.email) + password_violation(data.password)
        + confirmation_violation(data.password, data.confirm_password)
}

/// The rules a sign-up form must keep.
pub open spec fn register_acceptable(data: RegisterView) -> bool {
    &&& data.name.len() >= MIN_NAME_CHARS
    &&& valid_email(data.email)
    &&& data.password.len() >= MIN_PASSWORD_CHARS
    &&& data.confirm_password == data.password
}

/// A sign-up form earns no message exactly when it keeps every rule, and
/// never more than one message per field.
pub proof fn register_violations_match_rules(data: RegisterView)
    ensures
        register_violations(data).len() == 0 <==> register_acceptable(data),
        register_violations(data).len() <= 4,
        data.name.len() < MIN_NAME_CHARS ==> register_violations(data)[0] == SHORT_NAME@,
{
}

/// A password that differs from its repetition is always reported, whatever
/// else is wrong with the form, and the report comes last.
pub proof fn mismatch_is_reported(data: RegisterView)
    requires
        data.password != data.confirm_password,
    ensures
        register_violations(data).contains(PASSWORD_MISMATCH@),
        register_violations(data).last() == PASSWORD_MISMATCH@,
        !register_acceptable(data),
{
    let found = register_violations(data);
    assert(found[found.len() - 1] == PASSWORD_MISMATCH@);
}

impl RegisterData {
    /// Checks every field and reports every broken rule, in field order.
    pub fn validate(&self) -> (outcome: Result<(), Vec<String>>)
        ensures
            outcome is Ok <==> register_acceptable(self@),
            outcome matches Err(messages) ==> messages.deep_view() == register_violations(self@)
                && messages.len() > 0,
    {
        let mut messages: Vec<String> = Vec::new();
        if !has_min_chars(self.name.as_str(), MIN_NAME_CHARS) {
            messages.push(SHORT_NAME.to_owned());
        }
        if !email_is_valid(self.email.as_str()) {
            messages.push(INVALID_EMAIL.to_owned());
        }
        if !has_min_chars(self.password.as_str(), MIN_PASSWORD_CHARS) {
            messages.push(SHORT_PASSWORD.to_owned());
        }
        if !same_text(self.confirm_password.as_str(), self.password.as_str()) {
            messages.push(PASSWORD_MISMATCH.to_owned());
        }
        if messages.len() == 0 {
            Ok(())
        } else {
            Err(messages)
        }
    }
}

} // verus!

//! The decisions of each request: what a submitted form or a reply of the
//! credential store does to the session, and where the browser goes next.
//!
//! The credential store is the caller's. A flow that needs it returns a
//! step that says so; the caller asks the store and hands the reply to the
//! next function of the flow.

use crate::flash::{FlashView, Level};
use crate::session::{carried, Session, SessionView};
use crate::validation::{
    login_acceptable, login_violations, mismatch_is_reported, register_acceptable,
    register_violations, valid_email, LoginData, LoginView, RegisterData, RegisterView,
    INVALID_EMAIL, PASSWORD_MISMATCH,
};
use vstd::prelude::*;

verus! {

/// Title of the sign-in page.
pub const LOGIN_TITLE: &'static str = "Login Page";

/// Title of the sign-up page.
pub const REGISTER_TITLE: &'static str = "Register Page";

/// Shown when the store does not know the credentials, or fails.
pub const INVALID_CREDENTIALS: &'static str = "Invalid credentials";

/// Shown when the store cannot say whether an address is taken.
pub const LOOKUP_FAILED: &'static str = "Something went wrong";

/// Shown when the address belongs to an account already.
pub const EMAIL_TAKEN: &'static str = "Email already exists";

/// Where a request sends the browser.
#[derive(Debug, Clone, Copy, PartialEq, Eq, Structural)]
pub enum Route {
    Home,
    Login,
    Register,
}

impl Route {
    /// The path of the page.
    pub open spec fn path_text(self) -> Seq<char> {
        match self {
            Route::Home => "/"@,
            Route::Login => "/login"@,
            Route::Register => "/register"@,
        }
    }

    /// The path of the page.
    pub fn path(self) -> (path: &'static str)
        ensures
            path@ == self.path_text(),
    {
        match self {
            Route::Home => "/",
            Route::Login => "/login",
            Route::Register => "/register",
        }
    }
}

/// What a sign-in request does next.
#[derive(Debug, Clone, Copy, PartialEq, Eq, Structural)]
pub enum LoginStep {
    /// The request is over: answer with a redirect.
    Redirect(Route),
    /// Ask the store for the user of these credentials.
    CheckCredentials,
}

/// What a sign-up request does next.
#[derive(Debug, Clone, Copy, PartialEq, Eq, Structural)]
pub enum RegisterStep {
    /// The request is over: answer with a redirect.
    Redirect(Route),
    /// Ask the store whether the address is taken.
    CheckEmail,
    /// Ask the store to create the account.
    CreateUser,
}

/// A sign-in form arrives. A form that breaks a rule leaves one error
/// notice per broken rule and goes back to the sign-in page; any other form
/// goes to the store, and the session stays as it was.
pub open spec fn login_submitted<U>(before: SessionView<U>, data: LoginView) -> (
    SessionView<U>,
    LoginStep,
) {
    if login_violations(data).len() == 0 {
        (before, LoginStep::CheckCredentials)
    } else {
        (before.with_errors(login_violations(data)), LoginStep::Redirect(Route::Login))
    }
}

/// The store answers a sign-in. A user is signed in and sent home; any
/// failure leaves the same notice, whatever its cause, and goes back to the
/// sign-in page.
pub open spec fn login_answered<U, E>(before: SessionView<U>, reply: Result<U, E>) -> (
    SessionView<U>,
    Route,
) {
    match reply {
        Ok(user) => (before.signed_in(user), Route::Home),
        Err(_) => (before.with_message(Level::Error, INVALID_CREDENTIALS@), Route::Login),
    }
}

/// A sign-up form arrives. A form that breaks a rule leaves one error notice
/// per broken rule, is kept for the next page, and goes back to the sign-up
/// page; any other form goes to the store, and the session stays as it was.
pub open spec fn register_submitted<U>(before: SessionView<U>, data: RegisterView) -> (
    SessionView<U>,
    RegisterStep,
) {
    if register_violations(data).len() == 0 {
        (before, RegisterStep::CheckEmail)
    } else {
        (
            before.with_errors(register_violations(data)).stashed(data),
            RegisterStep::Redirect(Route::Register),
        )
    }
}

/// The store answers whether the address is taken. A free address goes on
/// to the creation of the account; a taken one, or a failure, leaves a
/// notice and goes back to the sign-up page. The form is not kept here.
pub open spec fn email_answered<U, E>(before: SessionView<U>, reply: Result<bool, E>) -> (
    SessionView<U>,
    RegisterStep,
) {
    match reply {
        Ok(false) => (before, RegisterStep::CreateUser),
        Ok(true) => (
            before.with_message(Level::Error, EMAIL_TAKEN@),
            RegisterStep::Redirect(Route::Register),
        ),
        Err(_) => (
            before.with_message(Level::Error, LOOKUP_FAILED@),
            RegisterStep::Redirect(Route::Register),
        ),
    }
}

/// The store answers the creation of an account. The new user is signed in
/// and sent home; a failure goes back to the sign-up page and leaves no
/// notice.
pub open spec fn register_answered<U, E>(before: SessionView<U>, reply: Result<U, E>) -> (
    SessionView<U>,
    Route,
) {
    match reply {
        Ok(user) => (before.signed_in(user), Route::Home),
        Err(_) => (before, Route::Register),
    }
}

/// A whole sign-in request: the form, then the store's reply if the form
/// got that far.
pub open spec fn login_run<U, E>(before: SessionView<U>, data: LoginView, reply: Result<U, E>) -> (
    SessionView<U>,
    Route,
) {
    match login_submitted(before, data).1 {
        LoginStep::Redirect(route) => (login_submitted(before, data).0, route),
        LoginStep::CheckCredentials => login_answered(login_submitted(before, data).0, reply),
    }
}

/// A whole sign-up request: the form, then each reply of the store that the
/// request got to.
pub open spec fn register_run<U, E>(
    before: SessionView<U>,
    data: RegisterView,
    taken: Result<bool, E>,
    created: Result<U, E>,
) -> (SessionView<U>, Route) {
    match register_submitted(before, data).1 {
        RegisterStep::Redirect(route) => (register_submitted(before, data).0, route),
        _ => match email_answered(register_submitted(before, data).0, taken).1 {
            RegisterStep::Redirect(route) => (
                email_answered(register_submitted(before, data).0, taken).0,
                route,
            ),
            _ => register_answered(
                email_answered(register_submitted(before, data).0, taken).0,
                created,
            ),
        },
    }
}

/// A sign-up form whose two passwords differ never reaches the store and
/// signs nobody in: the request goes back to the sign-up page, the last
/// notice says that the passwords do not match, and the form is kept.
pub proof fn mismatch_stops_registration<U>(before: SessionView<U>, data: RegisterView)
    requires
        data.password != data.confirm_password,
    ensures
        register_violations(data).contains(PASSWORD_MISMATCH@),
        register_submitted(before, data).1 == RegisterStep::Redirect(Route::Register),
        register_submitted(before, data).0.auth_user == before.auth_user,
        register_submitted(before, data).0.form_data == Some(carried(data)),
        register_submitted(before, data).0.messages.last() == (FlashView {
            level: Level::Error,
            text: PASSWORD_MISMATCH@,
        }),
{
    mismatch_is_reported(data);
}

/// A sign-in form whose address is not an e-mail address never reaches the
/// store: the request goes back to the sign-in page with the notice for
/// the address ahead of any other new notice, and nobody is signed in.
pub proof fn invalid_email_stops_login<U>(before: SessionView<U>, data: LoginView)
    requires
        !valid_email(data.email),
    ensures
        login_submitted(before, data).1 == LoginStep::Redirect(Route::Login),
        login_submitted(before, data).0.auth_user == before.auth_user,
        login_submitted(before, data).0.messages.len() > before.messages.len(),
        login_submitted(before, data).0.messages[before.messages.len() as int] == (FlashView {
            level: Level::Error,
            text: INVALID_EMAIL@,
        }),
{
}

/// The store is asked about a sign-in exactly when the form keeps every
/// rule, and the session is then as it was. A rejected form leaves one
/// notice per broken rule behind those already waiting, all of them errors.
pub proof fn login_store_is_asked_only_for_valid_forms<U>(before: SessionView<U>, data: LoginView)
    ensures
        login_submitted(before, data).1 == LoginStep::CheckCredentials <==> login_acceptable(data),
        login_acceptable(data) ==> login_submitted(before, data).0 == before,
        !login_acceptable(data) ==> login_submitted(before, data).1 == LoginStep::Redirect(
            Route::Login,
        ),
        login_submitted(before, data).0.messages.len() == before.messages.len()
            + login_violations(data).len(),
        forall|i: int|
            before.messages.len() <= i < login_submitted(before, data).0.messages.len() ==> (
            #[trigger] login_submitted(before, data).0.messages[i]).level == Level::Error,
{
}

/// The store is asked about a sign-up exactly when the form keeps every
/// rule, and the session is then as it was. A rejected form leaves one
/// notice per broken rule and is kept for the next page.
pub proof fn register_store_is_asked_only_for_valid_forms<U>(
    before: SessionView<U>,
    data: RegisterView,
)
    ensures
        register_submitted(before, data).1 == RegisterStep::CheckEmail <==> register_acceptable(
            data,
        ),
        register_acceptable(data) ==> register_submitted(before, data).0 == before,
        !register_acceptable(data) ==> register_submitted(before, data).1 == RegisterStep::Redirect(
            Route::Register,
        ),
        !register_acceptable(data) ==> register_submitted(before, data).0.form_data == Some(
            carried(data),
        ),
        register_submitted(before, data).0.messages.len() == before.messages.len()
            + register_violations(data).len(),
{
}

/// A sign-in ends at home exactly when the form keeps every rule and the
/// store knows the user, who is then signed in with nothing else changed.
/// Every other sign-in ends at the sign-in page with at least one new
/// notice and the signed-in user as before.
pub proof fn login_run_outcomes<U, E>(before: SessionView<U>, data: LoginView, reply: Result<U, E>)
    ensures
        login_run(before, data, reply).1 == Route::Home <==> login_acceptable(data) && reply is Ok,
        login_run(before, data, reply).1 == Route::Home ==> login_run(before, data, reply).0
            == before.signed_in(reply->Ok_0),
        login_run(before, data, reply).1 != Route::Home ==> {
            &&& login_run(before, data, reply).1 == Route::Login
            &&& login_run(before, data, reply).0.auth_user == before.auth_user
            &&& login_run(before, data, reply).0.form_data == before.form_data
            &&& login_run(before, data, reply).0.messages.len() > before.messages.len()
        },
        login_acceptable(data) && reply is Err ==> login_run(before, data, reply).0
            == before.with_message(Level::Error, INVALID_CREDENTIALS@),
{
}

/// A sign-up ends at home exactly when the form keeps every rule, the store
/// says that the address is free, and the store creates the account; the
/// new user is then signed in with nothing else changed. Every other
/// sign-up ends at the sign-up page with the signed-in user as before.
pub proof fn register_run_outcomes<U, E>(
    before: SessionView<U>,
    data: RegisterView,
    taken: Result<bool, E>,
    created: Result<U, E>,
)
    ensures
        register_run(before, data, taken, created).1 == Route::Home <==> register_acceptable(data)
            && taken == Ok::<bool, E>(false) && created is Ok,
        register_run(before, data, taken, created).1 == Route::Home ==> register_run(
            before,
            data,
            taken,
            created,
        ).0 == before.signed_in(created->Ok_0),
        register_run(before, data, taken, created).1 != Route::Home ==> {
            &&& register_run(before, data, taken, created).1 == Route::Register
            &&& register_run(before, data, taken, created).0.auth_user == before.auth_user
        },
{
}

/// An address that is taken, or a store that cannot say, ends the sign-up
/// before any account is created: whatever the creation would have
/// answered, the request ends at the sign-up page with one new notice and
/// no form kept by this step.
pub proof fn taken_email_never_creates<U, E>(
    before: SessionView<U>,
    data: RegisterView,
    taken: Result<bool, E>,
    created: Result<U, E>,
)
    requires
        register_acceptable(data),
        taken != Ok::<bool, E>(false),
    ensures
        email_answered(before, taken).1 == RegisterStep::Redirect(Route::Register),
        register_run(before, data, taken, created).1 == Route::Register,
        register_run(before, data, taken, created).0 == before.with_message(
            Level::Error,
            if taken is Ok {
                EMAIL_TAKEN@
            } else {
                LOOKUP_FAILED@
            },
        ),
        register_run(before, data, taken, created).0.form_data == before.form_data,
{
}

/// What the sign-in page shows.
#[derive(Debug)]
pub struct LoginPage {
    pub title: String,
    pub messages: Vec<String>,
}

/// What the sign-up page shows.
#[derive(Debug)]
pub struct RegisterPage {
    pub title: String,
    pub messages: Vec<String>,
    pub form_data: RegisterData,
}

/// Renders the sign-in page: shows the waiting notices and leaves none
/// waiting. Who is signed in and the kept form stay as they were.
pub fn login<U>(session: &mut Session<U>) -> (page: LoginPage)
    ensures
        page.title@ == LOGIN_TITLE@,
        page.messages.deep_view() == old(session)@.pending_lines(),
        page.messages.len() == old(session)@.messages.len(),
        final(session)@ == old(session)@.drained(),
{
    let messages = session.drain_messages();
    LoginPage { title: LOGIN_TITLE.to_owned(), messages }
}

/// Renders the sign-up page: shows the waiting notices and the kept form,
/// or the blank form when none is kept, and leaves neither behind. Who is
/// signed in stays as it was.
pub fn register<U>(session: &mut Session<U>) -> (page: RegisterPage)
    ensures
        page.title@ == REGISTER_TITLE@,
        page.messages.deep_view() == old(session)@.pending_lines(),
        page.messages.len() == old(session)@.messages.len(),
        page.form_data@ == old(session)@.pending_form(),
        final(session)@ == old(session)@.drained().popped(),
{
    let messages = session.drain_messages();
    let form_data = session.pop_form();
    RegisterPage { title: REGISTER_TITLE.to_owned(), messages, form_data }
}

/// Takes a submitted sign-in form. Says whether to ask the store or to
/// redirect, and leaves the notices of a rejected form in the session.
pub fn post_login<U>(session: &mut Session<U>, data: &LoginData) -> (step: LoginStep)
    ensures
        (final(session)@, step) == login_submitted(old(session)@, data@),
{
    match data.validate() {
        Ok(()) => LoginStep::CheckCredentials,
        Err(messages) => {
            session.add_errors(&messages);
            LoginStep::Redirect(Route::Login)
        },
    }
}

/// Takes the store's reply to a sign-in: signs the user in, or leaves the
/// notice of a failed sign-in. Says where to redirect.
pub fn complete_login<U, E>(session: &mut Session<U>, reply: Result<U, E>) -> (route: Route)
    ensures
        (final(session)@, route) == login_answered(old(session)@, reply),
{
    match reply {
        Ok(user) => {
            session.sign_in(user);
            Route::Home
        },
        Err(_) => {
            session.add_message(Level::Error, INVALID_CREDENTIALS.to_owned());
            Route::Login
        },
    }
}

/// Takes a submitted sign-up form. Says whether to ask the store or to
/// redirect, and leaves the notices of a rejected form, and the form, in
/// the session.
pub fn post_register<U>(session: &mut Session<U>, data: &RegisterData) -> (step: RegisterStep)
    ensures
        (final(session)@, step) == register_submitted(old(session)@, data@),
{
    match data.validate() {
        Ok(()) => RegisterStep::CheckEmail,
        Err(messages) => {
            session.add_errors(&messages);
            session.stash_form(data);
            RegisterStep::Redirect(Route::Register)
        },
    }
}

/// Takes the store's reply on whether the address is taken. Says whether to
/// create the account or to redirect, and leaves the notice of a taken
/// address or of a failed lookup.
pub fn email_checked<U, E>(session: &mut Session<U>, reply: Result<bool, E>) -> (step: RegisterStep)
    ensures
        (final(session)@, step) == email_answered(old(session)@, reply),
{
    match reply {
        Ok(false) => RegisterStep::CreateUser,
        Ok(true) => {
            session.add_message(Level::Error, EMAIL_TAKEN.to_owned());
            RegisterStep::Redirect(Route::Register)
        },
        Err(_) => {
            session.add_message(Level::Error, LOOKUP_FAILED.to_owned());
            RegisterStep::Redirect(Route::Register)
        },
    }
}

/// Takes the store's reply to the creation of an account: signs the new
/// user in, or leaves the session as it is. Says where to redirect.
pub fn complete_register<U, E>(session: &mut Session<U>, reply: Result<U, E>) -> (route: Route)
    ensures
        (final(session)@, route) == register_answered(old(session)@, reply),
{
    match reply {
        Ok(user) => {
            session.sign_in(user);
            Route::Home
        },
        Err(_) => Route::Register,
    }
}

/// Signs out: forgets the whole session, whatever it held, and redirects to
/// the sign-in page.
pub fn logout<U>(session: &mut Session<U>) -> (route: Route)
    ensures
        final(session)@ == SessionView::<U>::fresh(),
        final(session)@.auth_user is None,
        route == Route::Login,
{
    session.flush();
    Route::Login
}

} // verus!

//! What the flows keep between two requests: who is signed in, the notices
//! waiting for the next page, and a rejected sign-up form to show again.

use crate::flash::{errors_of, rendered, rendered_all, FlashMessage, FlashView, Level};
use crate::validation::{RegisterData, RegisterView};
use vstd::prelude::*;

verus! {

/// A session as mathematical values. `U` is the record of a signed-in user,
/// which the flows carry and never read.
pub struct SessionView<U> {
    pub auth_user: Option<U>,
    pub messages: Seq<FlashView>,
    pub form_data: Option<RegisterView>,
}

/// What of a rejected sign-up form is kept for the next page: everything but
/// the repeated password, which is left blank.
pub open spec fn carried(form: RegisterView) -> RegisterView {
    RegisterView { confirm_password: Seq::empty(), ..form }
}

impl<U> SessionView<U> {
    /// The session nobody has touched yet, and the one left by a sign-out.
    pub open spec fn fresh() -> SessionView<U> {
        SessionView { auth_user: None, messages: Seq::empty(), form_data: None }
    }

    /// The session with one more notice waiting, behind the others.
    pub open spec fn with_message(self, level: Level, text: Seq<char>) -> SessionView<U> {
        SessionView { messages: self.messages.push(FlashView { level, text }), ..self }
    }

    /// The session with one more error notice for each text, in order.
    pub open spec fn with_errors(self, texts: Seq<Seq<char>>) -> SessionView<U> {
        SessionView { messages: self.messages + errors_of(texts), ..self }
    }

    /// The lines that the next page shows.
    pub open spec fn pending_lines(self) -> Seq<Seq<char>> {
        rendered_all(self.messages)
    }

    /// The session once its notices were shown.
    pub open spec fn drained(self) -> SessionView<U> {
        SessionView { messages: Seq::empty(), ..self }
    }

    /// The session that keeps `form` for the next page, in place of any
    /// form kept before.
    pub open spec fn stashed(self, form: RegisterView) -> SessionView<U> {
        SessionView { form_data: Some(carried(form)), ..self }
    }

    /// The form that the next page shows: the kept one, else the blank one.
    pub open spec fn pending_form(self) -> RegisterView {
        match self.form_data {
            Some(form) => form,
            None => RegisterView::blank(),
        }
    }

    /// The session once its kept form was shown.
    pub open spec fn popped(self) -> SessionView<U> {
        SessionView { form_data: None, ..self }
    }

    /// The session in which `user` is signed in.
    pub open spec fn signed_in(self, user: U) -> SessionView<U> {
        SessionView { auth_user: Some(user), ..self }
    }
}

/// Showing the notices twice in a row shows all of them the first time, in
/// the order they came, and none the second time.
pub proof fn second_drain_is_empty<U>(session: SessionView<U>)
    ensures
        session.pending_lines().len() == session.messages.len(),
        forall|i: int|
            0 <= i < session.messages.len() ==> session.pending_lines()[i] == rendered(
                session.messages[i],
            ),
        session.drained().pending_lines() == Seq::<Seq<char>>::empty(),
        session.drained().drained() == session.drained(),
{
    assert(session.drained().pending_lines() =~= Seq::<Seq<char>>::empty());
}

/// A notice added to a session is the last line of the next page, behind
/// every line that was waiting already.
pub proof fn added_message_comes_last<U>(session: SessionView<U>, level: Level, text: Seq<char>)
    ensures
        session.with_message(level, text).pending_lines() == session.pending_lines().push(
            rendered(FlashView { level, text }),
        ),
{
    assert(session.with_message(level, text).pending_lines() =~= session.pending_lines().push(
        rendered(FlashView { level, text }),
    ));
}

/// A kept form comes back once: the next page shows its name, address and
/// password with the repeated password blank, whatever was kept before, and
/// the page after that shows the blank form.
pub proof fn stashed_form_pops_once<U>(session: SessionView<U>, form: RegisterView)
    ensures
        session.stashed(form).pending_form() == carried(form),
        session.stashed(form).pending_form().name == form.name,
        session.stashed(form).pending_form().email == form.email,
        session.stashed(form).pending_form().password == form.password,
        session.stashed(form).popped().pending_form() == RegisterView::blank(),
        session.stashed(form).popped() == session.popped(),
{
}

/// A session between two requests.
#[derive(Debug)]
pub struct Session<U> {
    pub auth_user: Option<U>,
    pub messages: Vec<FlashMessage>,
    pub form_data: Option<RegisterData>,
}

impl<U> View for Session<U> {
    type V = SessionView<U>;

    open spec fn view(&self) -> SessionView<U> {
        SessionView {
            auth_user: self.auth_user,
            messages: self.messages.deep_view(),
            form_data: self.form_data.deep_view(),
        }
    }
}

impl<U> Session<U> {
    /// A session with nobody signed in and nothing waiting.
    pub fn new() -> (session: Session<U>)
        ensures
            session@ == SessionView::<U>::fresh(),
    {
        let session = Session { auth_user: None, messages: Vec::new(), form_data: None };
        assert(session.messages.deep_view() =~= Seq::<FlashView>::empty());
        session
    }

    /// Leaves a notice for the next page, behind those already waiting.
    pub fn add_message(&mut self, level: Level, text: String)
        ensures
            final(self)@ == old(self)@.with_message(level, text@),
    {
        self.messages.push(FlashMessage { level, text });
        assert(self.messages.deep_view() =~= old(self).messages.deep_view().push(
            FlashView { level, text: text@ },
        ));
    }

    /// Leaves an error notice for each text, in order, behind the notices
    /// already waiting.
    pub fn add_errors(&mut self, texts: &Vec<String>)
        ensures
            final(self)@ == old(self)@.with_errors(texts.deep_view()),
    {
        let mut at: usize = 0;
        while at < texts.len()
            invariant
                at <= texts.len(),
                self@ == old(self)@.with_errors(texts.deep_view().take(at as int)),
            decreases texts.len() - at,
        {
            self.add_message(Level::Error, texts[at].clone());
            at += 1;
            assert(self@.messages =~= old(self)@.messages + errors_of(
                texts.deep_view().take(at as int),
            ));
        }
        assert(texts.deep_view().take(at as int) =~= texts.deep_view());
    }

    /// Hands out the line of every waiting notice, oldest first, and leaves
    /// none waiting.
    pub fn drain_messages(&mut self) -> (lines: Vec<String>)
        ensures
            lines.deep_view() == old(self)@.pending_lines(),
            lines.len() == old(self)@.messages.len(),
            final(self)@ == old(self)@.drained(),
    {
        let mut waiting: Vec<FlashMessage> = Vec::new();
        std::mem::swap(&mut self.messages, &mut waiting);
        let mut lines: Vec<String> = Vec::new();
        let mut at: usize = 0;
        while at < waiting.len()
            invariant
                at <= waiting.len(),
                lines.len() == at,
                forall|i: int| 0 <= i < at ==> lines[i]@ == rendered(#[trigger] waiting[i]@),
            decreases waiting.len() - at,
        {
            lines.push(waiting[at].render());
            at += 1;
        }
        assert(lines.deep_view() =~= rendered_all(waiting.deep_view()));
        assert(self.messages.deep_view() =~= Seq::<FlashView>::empty());
        lines
    }

    /// Keeps a rejected sign-up form for the next page, without the repeated
    /// password, in place of any form kept before.
    pub fn stash_form(&mut self, data: &RegisterData)
        ensures
            final(self)@ == old(self)@.stashed(data@),
    {
        self.form_data = Some(
            RegisterData {
                name: data.name.clone(),
                email: data.email.clone(),
                password: data.password.clone(),
                confirm_password: String::new(),
            },
        );
    }

    /// Hands out the kept form, or the blank form when none is kept, and
    /// keeps none from then on.
    pub fn pop_form(&mut self) -> (form: RegisterData)
        ensures
            form@ == old(self)@.pending_form(),
            final(self)@ == old(self)@.popped(),
    {
        let mut kept: Option<RegisterData> = None;
        std::mem::swap(&mut self.form_data, &mut kept);
        match kept {
            Some(form) => form,
            None => RegisterData::default(),
        }
    }

    /// Records `user` as signed in.
    pub fn sign_in(&mut self, user: U)
        ensures
            final(self)@ == old(self)@.signed_in(user),
    {
        self.auth_user = Some(user);
    }

    /// Forgets everything: who is signed in, the waiting notices, the kept
    /// form.
    pub fn flush(&mut self)
        ensures
            final(self)@ == SessionView::<U>::fresh(),
    {
        self.auth_user = None;
        self.messages = Vec::new();
        self.form_data = None;
        assert(self.messages.deep_view() =~= Seq::<FlashView>::empty());
    }
}

} // verus!

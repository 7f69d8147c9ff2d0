//! One-shot notices: a level, a text, and the line shown for the pair.

use vstd::prelude::*;

verus! {

/// How serious a notice is.
#[derive(Debug, Clone, Copy, PartialEq, Eq, Structural)]
pub enum Level {
    Debug,
    Info,
    Success,
    Warning,
    Error,
}

/// What stands between a level's label and the text of a notice.
pub const SEPARATOR: &'static str = ": ";

impl Level {
    /// The label a level is shown under.
    pub open spec fn label_text(self) -> Seq<char> {
        match self {
            Level::Debug => "debug"@,
            Level::Info => "info"@,
            Level::Success => "success"@,
            Level::Warning => "warning"@,
            Level::Error => "error"@,
        }
    }

    /// The label a level is shown under.
    pub fn label(self) -> (name: &'static str)
        ensures
            name@ == self.label_text(),
    {
        match self {
            Level::Debug => "debug",
            Level::Info => "info",
            Level::Success => "success",
            Level::Warning => "warning",
            Level::Error => "error",
        }
    }
}

/// A notice as mathematical text.
pub struct FlashView {
    pub level: Level,
    pub text: Seq<char>,
}

/// A notice waiting in a session for the next page.
#[derive(Debug, PartialEq, Eq)]
pub struct FlashMessage {
    pub level: Level,
    pub text: String,
}

impl View for FlashMessage {
    type V = FlashView;

    open spec fn view(&self) -> FlashView {
        FlashView { level: self.level, text: self.text@ }
    }
}

impl DeepView for FlashMessage {
    type V = FlashView;

    open spec fn deep_view(&self) -> FlashView {
        self@
    }
}

impl Clone for FlashMessage {
    fn clone(&self) -> (copy: FlashMessage)
        ensures
            copy@ == self@,
    {
        FlashMessage { level: self.level, text: self.text.clone() }
    }
}

/// The line shown for a notice: its label, the separator, its text.
pub open spec fn rendered(message: FlashView) -> Seq<char> {
    message.level.label_text() + SEPARATOR@ + message.text
}

/// The lines shown for a run of notices, in their order.
pub open spec fn rendered_all(messages: Seq<FlashView>) -> Seq<Seq<char>> {
    messages.map_values(|message: FlashView| rendered(message))
}

/// The notices that a run of texts makes at the level `Error`, in order.
pub open spec fn errors_of(texts: Seq<Seq<char>>) -> Seq<FlashView> {
    texts.map_values(|text: Seq<char>| FlashView { level: Level::Error, text })
}

/// A line begins with its level's label and ends with the notice's text,
/// and holds nothing but these and the separator.
pub proof fn rendered_line_shape(message: FlashView)
    ensures
        rendered(message).len() == message.level.label_text().len() + SEPARATOR@.len()
            + message.text.len(),
        message.level.label_text().is_prefix_of(rendered(message)),
        message.text.is_suffix_of(rendered(message)),
{
    let label = message.level.label_text();
    let line = rendered(message);
    assert(line.subrange(0, label.len() as int) =~= label);
    assert(line.subrange(line.len() - message.text.len(), line.len() as int) =~= message.text);
}

impl FlashMessage {
    /// The line shown for this notice.
    pub fn render(&self) -> (line: String)
        ensures
            line@ == rendered(self@),
    {
        let mut line = self.level.label().to_owned();
        line.append(SEPARATOR);
        line.append(self.text.as_str());
        line
    }
}

} // verus!

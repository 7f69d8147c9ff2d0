use auth_flow::flash::{FlashMessage, Level};
use auth_flow::session::Session;
use auth_flow::validation::RegisterData;

fn form(name: &str, email: &str, password: &str, confirm_password: &str) -> RegisterData {
    RegisterData {
        name: name.to_string(),
        email: email.to_string(),
        password: password.to_string(),
        confirm_password: confirm_password.to_string(),
    }
}

#[test]
fn new_session_is_empty() {
    let session: Session<u32> = Session::new();
    assert_eq!(session.auth_user, None);
    assert!(session.messages.is_empty());
    assert_eq!(session.form_data, None);
}

#[test]
fn each_level_has_its_label() {
    assert_eq!(Level::Debug.label(), "debug");
    assert_eq!(Level::Info.label(), "info");
    assert_eq!(Level::Success.label(), "success");
    assert_eq!(Level::Warning.label(), "warning");
    assert_eq!(Level::Error.label(), "error");
}

#[test]
fn a_notice_renders_as_label_colon_text() {
    let notice = FlashMessage { level: Level::Error, text: "Invalid credentials".to_string() };
    assert_eq!(notice.render(), "error: Invalid credentials");
    let notice = FlashMessage { level: Level::Info, text: String::new() };
    assert_eq!(notice.render(), "info: ");
    let notice = FlashMessage { level: Level::Success, text: "a: b".to_string() };
    assert_eq!(notice.render(), "success: a: b");
    assert_eq!(notice.clone(), notice);
}

#[test]
fn notices_come_out_in_the_order_they_went_in() {
    let mut session: Session<u32> = Session::new();
    session.add_message(Level::Info, "first".to_string());
    session.add_message(Level::Error, "second".to_string());
    session.add_message(Level::Warning, "third".to_string());
    assert_eq!(
        session.drain_messages(),
        vec!["info: first".to_string(), "error: second".to_string(), "warning: third".to_string()]
    );
}

#[test]
fn second_drain_yields_nothing() {
    let mut session: Session<u32> = Session::new();
    session.add_message(Level::Error, "one".to_string());
    session.add_message(Level::Error, "two".to_string());
    assert_eq!(session.drain_messages(), vec!["error: one".to_string(), "error: two".to_string()]);
    assert_eq!(session.drain_messages(), Vec::<String>::new());
    assert!(session.messages.is_empty());
}

#[test]
fn draining_an_empty_session_is_no_failure() {
    let mut session: Session<u32> = Session::new();
    assert_eq!(session.drain_messages(), Vec::<String>::new());
    assert_eq!(session.drain_messages(), Vec::<String>::new());
}

#[test]
fn draining_leaves_user_and_form_alone() {
    let mut session: Session<u32> = Session::new();
    session.sign_in(9);
    session.stash_form(&form("Alice", "a@b.com", "longenough", "x"));
    session.add_message(Level::Debug, "seen".to_string());
    assert_eq!(session.drain_messages(), vec!["debug: seen".to_string()]);
    assert_eq!(session.auth_user, Some(9));
    assert_eq!(session.form_data, Some(form("Alice", "a@b.com", "longenough", "")));
}

#[test]
fn add_errors_appends_one_error_per_text() {
    let mut session: Session<u32> = Session::new();
    session.add_message(Level::Info, "old".to_string());
    session.add_errors(&vec!["a".to_string(), "b".to_string()]);
    session.add_errors(&Vec::new());
    assert_eq!(
        session.messages,
        vec![
            FlashMessage { level: Level::Info, text: "old".to_string() },
            FlashMessage { level: Level::Error, text: "a".to_string() },
            FlashMessage { level: Level::Error, text: "b".to_string() },
        ]
    );
}

#[test]
fn stashed_form_comes_back_once() {
    let mut session: Session<u32> = Session::new();
    session.stash_form(&form("Alice", "a@b.com", "longenough", "different"));
    let shown = session.pop_form();
    assert_eq!(shown.name, "Alice");
    assert_eq!(shown.email, "a@b.com");
    assert_eq!(shown.password, "longenough");
    assert_eq!(shown, form("Alice", "a@b.com", "longenough", ""));
    assert_eq!(session.pop_form(), RegisterData::default());
    assert_eq!(session.form_data, None);
}

#[test]
fn repeated_password_is_never_kept() {
    let mut session: Session<u32> = Session::new();
    session.stash_form(&form("Alice", "a@b.com", "longenough", "longenough"));
    assert_eq!(session.pop_form().confirm_password, "");
}

#[test]
fn pop_without_stash_gives_the_blank_form() {
    let mut session: Session<u32> = Session::new();
    assert_eq!(session.pop_form(), form("", "", "", ""));
}

#[test]
fn stash_overwrites_the_form_kept_before() {
    let mut session: Session<u32> = Session::new();
    session.stash_form(&form("Alice", "a@b.com", "longenough", "x"));
    session.stash_form(&form("Bob", "b@c.org", "otherpass", "y"));
    assert_eq!(session.pop_form(), form("Bob", "b@c.org", "otherpass", ""));
    assert_eq!(session.pop_form(), RegisterData::default());
}

#[test]
fn stash_and_pop_leave_user_and_notices_alone() {
    let mut session: Session<u32> = Session::new();
    session.sign_in(4);
    session.add_message(Level::Error, "kept".to_string());
    session.stash_form(&form("Alice", "a@b.com", "longenough", "x"));
    session.pop_form();
    assert_eq!(session.auth_user, Some(4));
    assert_eq!(session.messages, vec![FlashMessage { level: Level::Error, text: "kept".to_string() }]);
}

#[test]
fn sign_in_replaces_the_user() {
    let mut session: Session<u32> = Session::new();
    session.sign_in(1);
    session.sign_in(2);
    assert_eq!(session.auth_user, Some(2));
}

#[test]
fn flush_forgets_everything() {
    let mut session: Session<u32> = Session::new();
    session.sign_in(1);
    session.add_message(Level::Error, "gone".to_string());
    session.stash_form(&form("Alice", "a@b.com", "longenough", "x"));
    session.flush();
    assert_eq!(session.auth_user, None);
    assert!(session.messages.is_empty());
    assert_eq!(session.form_data, None);
}

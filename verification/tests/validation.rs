use auth_flow::validation::{
    LoginData, RegisterData, INVALID_EMAIL, PASSWORD_MISMATCH, SHORT_NAME, SHORT_PASSWORD,
};

fn sign_in(email: &str, password: &str) -> LoginData {
    LoginData { email: email.to_string(), password: password.to_string() }
}

fn sign_up(name: &str, email: &str, password: &str, confirm_password: &str) -> RegisterData {
    RegisterData {
        name: name.to_string(),
        email: email.to_string(),
        password: password.to_string(),
        confirm_password: confirm_password.to_string(),
    }
}

#[test]
fn login_form_that_keeps_every_rule_is_valid() {
    assert_eq!(sign_in("a@b.com", "longenough").validate(), Ok(()));
}

#[test]
fn login_reports_a_bad_email() {
    assert_eq!(
        sign_in("not-an-email", "longenough").validate(),
        Err(vec!["Invalid email format".to_string()])
    );
}

#[test]
fn login_reports_a_short_password() {
    assert_eq!(
        sign_in("a@b.com", "short").validate(),
        Err(vec!["Password must be at least 8 characters long".to_string()])
    );
}

#[test]
fn login_reports_both_fields_in_field_order() {
    assert_eq!(
        sign_in("nobody", "1234567").validate(),
        Err(vec![INVALID_EMAIL.to_string(), SHORT_PASSWORD.to_string()])
    );
}

#[test]
fn empty_login_form_breaks_both_rules() {
    assert_eq!(
        sign_in("", "").validate(),
        Err(vec![INVALID_EMAIL.to_string(), SHORT_PASSWORD.to_string()])
    );
}

#[test]
fn password_of_eight_characters_is_long_enough() {
    assert_eq!(sign_in("a@b.com", "12345678").validate(), Ok(()));
    assert_eq!(
        sign_in("a@b.com", "1234567").validate(),
        Err(vec![SHORT_PASSWORD.to_string()])
    );
}

#[test]
fn password_length_counts_characters_not_bytes() {
    // Seven characters in twenty-one bytes, then eight in twenty-four.
    assert_eq!(
        sign_in("a@b.com", "日本語日本語日").validate(),
        Err(vec![SHORT_PASSWORD.to_string()])
    );
    assert_eq!(sign_in("a@b.com", "日本語日本語日本").validate(), Ok(()));
}

#[test]
fn email_rule_follows_the_address_grammar() {
    for good in ["a@b.com", "first.last@example.org", "x+tag@sub.domain.io", "email@[127.0.0.1]"] {
        assert_eq!(sign_in(good, "longenough").validate(), Ok(()), "{}", good);
    }
    for bad in ["", "a", "a@", "@b.com", "a b@c.com", "a@b@c@", "a@b_c.com", "a@b.com\n"] {
        assert_eq!(
            sign_in(bad, "longenough").validate(),
            Err(vec![INVALID_EMAIL.to_string()]),
            "{:?}",
            bad
        );
    }
}

#[test]
fn register_form_that_keeps_every_rule_is_valid() {
    assert_eq!(sign_up("Alice", "a@b.com", "longenough", "longenough").validate(), Ok(()));
}

#[test]
fn register_reports_a_short_name() {
    assert_eq!(
        sign_up("Al", "a@b.com", "longenough", "longenough").validate(),
        Err(vec!["Name must be at least 4 characters long".to_string()])
    );
}

#[test]
fn name_of_four_characters_is_long_enough() {
    assert_eq!(sign_up("Anna", "a@b.com", "longenough", "longenough").validate(), Ok(()));
    assert_eq!(
        sign_up("Ann", "a@b.com", "longenough", "longenough").validate(),
        Err(vec![SHORT_NAME.to_string()])
    );
    assert_eq!(sign_up("日本語四", "a@b.com", "longenough", "longenough").validate(), Ok(()));
}

#[test]
fn register_reports_a_bad_email() {
    assert_eq!(
        sign_up("Alice", "a.b.com", "longenough", "longenough").validate(),
        Err(vec![INVALID_EMAIL.to_string()])
    );
}

#[test]
fn register_reports_a_short_password() {
    assert_eq!(
        sign_up("Alice", "a@b.com", "short", "short").validate(),
        Err(vec![SHORT_PASSWORD.to_string()])
    );
}

#[test]
fn register_reports_mismatched_passwords() {
    assert_eq!(
        sign_up("Alice", "a@b.com", "longenough", "different").validate(),
        Err(vec!["Passwords do not match".to_string()])
    );
}

#[test]
fn mismatch_is_reported_whatever_else_is_wrong() {
    let forms = [
        sign_up("Alice", "a@b.com", "longenough", "Longenough"),
        sign_up("", "", "", "x"),
        sign_up("Al", "a@b.com", "short", "shore"),
        sign_up("Alice", "nobody", "longenough", ""),
        sign_up("Alice", "a@b.com", "longenough", "longenough "),
    ];
    for form in forms {
        let messages = form.validate().unwrap_err();
        assert!(messages.contains(&PASSWORD_MISMATCH.to_string()), "{:?}", form);
        assert_eq!(messages.last(), Some(&PASSWORD_MISMATCH.to_string()));
    }
}

#[test]
fn register_reports_every_broken_rule_in_field_order() {
    assert_eq!(
        sign_up("Al", "nobody", "short", "other").validate(),
        Err(vec![
            SHORT_NAME.to_string(),
            INVALID_EMAIL.to_string(),
            SHORT_PASSWORD.to_string(),
            PASSWORD_MISMATCH.to_string(),
        ])
    );
    assert_eq!(
        sign_up("Al", "a@b.com", "longenough", "other").validate(),
        Err(vec![SHORT_NAME.to_string(), PASSWORD_MISMATCH.to_string()])
    );
    assert_eq!(
        sign_up("Alice", "nobody", "short", "short").validate(),
        Err(vec![INVALID_EMAIL.to_string(), SHORT_PASSWORD.to_string()])
    );
}

#[test]
fn blank_register_form_is_the_default() {
    let blank = RegisterData::default();
    assert_eq!(blank, sign_up("", "", "", ""));
    assert_eq!(
        blank.validate(),
        Err(vec![SHORT_NAME.to_string(), INVALID_EMAIL.to_string(), SHORT_PASSWORD.to_string()])
    );
}

#[test]
fn validation_is_repeatable_and_leaves_the_form_alone() {
    let form = sign_up("Al", "a@b.com", "longenough", "longenough");
    let copy = form.clone();
    assert_eq!(form.validate(), form.validate());
    assert_eq!(form, copy);
    let login = sign_in("a@b.com", "short");
    assert_eq!(login.clone(), login);
    assert_eq!(login.validate(), login.clone().validate());
}

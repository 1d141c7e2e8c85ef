use mosh_client::options::{parse_prediction_mode, parse_user_host, PredictionMode};

fn parsed(input: &str, user: Option<&str>, username: Option<&str>) -> (String, String) {
    parse_user_host(input, user.map(String::from), username.map(String::from))
}

fn pair(user: &str, host: &str) -> (String, String) {
    (user.to_string(), host.to_string())
}

#[test]
fn user_and_host() {
    assert_eq!(parsed("bob@example.org", Some("me"), Some("you")), pair("bob", "example.org"));
    assert_eq!(parsed("b\u{f6}b@h\u{f6}st", None, None), pair("b\u{f6}b", "h\u{f6}st"));
}

#[test]
fn splits_at_the_first_at_sign() {
    assert_eq!(parsed("a@b@c", None, None), pair("a", "b@c"));
    assert_eq!(parsed("@host", Some("me"), None), pair("", "host"));
    assert_eq!(parsed("user@", Some("me"), None), pair("user", ""));
    assert_eq!(parsed("@", Some("me"), None), pair("", ""));
}

#[test]
fn absent_user_falls_back() {
    assert_eq!(parsed("host", Some("me"), Some("you")), pair("me", "host"));
    assert_eq!(parsed("host", None, Some("you")), pair("you", "host"));
    assert_eq!(parsed("host", None, None), pair("root", "host"));
    assert_eq!(parsed("host", Some(""), Some("you")), pair("", "host"));
    assert_eq!(parsed("", None, None), pair("root", ""));
}

#[test]
fn prediction_modes() {
    assert_eq!(parse_prediction_mode("always"), PredictionMode::Always);
    assert_eq!(parse_prediction_mode("never"), PredictionMode::Never);
    assert_eq!(parse_prediction_mode("adaptive"), PredictionMode::Adaptive);
    assert_eq!(parse_prediction_mode("Always"), PredictionMode::Adaptive);
    assert_eq!(parse_prediction_mode(""), PredictionMode::Adaptive);
}

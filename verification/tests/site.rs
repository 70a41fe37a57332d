use docrender::body::Base64Body;
use docrender::config::{parse_port, AppState, ConfigError, State};
use docrender::contact::Message;
use docrender::layout::Header;

#[test]
fn floating_header_is_sticky() {
    let header = Header::Floating(Some("Blog"));
    assert!(header.is_floating());
    assert_eq!(header.position_class(), "sticky");
    assert_eq!(header.title(), Some("Blog"));
}

#[test]
fn static_header_is_relative() {
    let header = Header::Static(None);
    assert!(!header.is_floating());
    assert_eq!(header.position_class(), "relative");
    assert_eq!(header.title(), None);
    assert_eq!(Header::Static(Some("Deck")).title(), Some("Deck"));
    assert_eq!(Header::Floating(None).title(), None);
}

#[test]
fn thanks_with_and_without_a_name() {
    let named = Message {
        name: Some("Ada".to_string()),
        email: None,
        message: "hi".to_string(),
    };
    assert_eq!(named.thanks_text(), "Thanks for reaching out, Ada! I'll get back to you soon :)");
    assert_eq!(
        Message::default().thanks_text(),
        "Thanks for reaching out! I'll get back to you soon :)"
    );
}

#[test]
fn default_message_is_empty() {
    assert_eq!(Message::default(), Message { name: None, email: None, message: String::new() });
}

#[test]
fn sender_and_reply_address() {
    let message = Message {
        name: Some("Ada".to_string()),
        email: Some("ada@example.com".to_string()),
        message: "hi".to_string(),
    };
    assert_eq!(message.sender_name(), "Ada");
    assert_eq!(message.mailto(), Some("mailto:ada@example.com".to_string()));
    assert_eq!(Message::default().sender_name(), "Missing");
    assert_eq!(Message::default().mailto(), None);
}

#[test]
fn ports_that_parse() {
    assert_eq!(parse_port("3000"), Some(3000));
    assert_eq!(parse_port("0"), Some(0));
    assert_eq!(parse_port("65535"), Some(65535));
    assert_eq!(parse_port("+80"), Some(80));
    assert_eq!(parse_port("00080"), Some(80));
    assert_eq!(parse_port("0000000000000000000000065535"), Some(65535));
}

#[test]
fn ports_that_do_not_parse() {
    for text in ["", "+", "65536", "99999999999999999999", "-1", " 80", "80 ", "8o", "++8", "8+"] {
        assert_eq!(parse_port(text), None);
    }
}

#[test]
fn ports_parse_as_the_standard_library_reads_them() {
    for text in ["3000", "0", "65535", "65536", "+80", "", "+", "-0", "1e3", "０", "702000"] {
        assert_eq!(parse_port(text), text.parse::<u16>().ok());
    }
}

#[test]
fn settings_with_defaults() {
    let state = State::from_values(None, None, Some("static"), Some("data")).unwrap();
    assert_eq!(
        state,
        State {
            port: 3000,
            host: "0.0.0.0".to_string(),
            static_dir: "static".to_string(),
            data_dir: "data".to_string(),
        }
    );
}

#[test]
fn settings_from_the_environment() {
    let state =
        State::from_values(Some("8080"), Some("127.0.0.1"), Some("/srv/static"), Some("/srv/data"))
            .unwrap();
    assert_eq!(state.port, 8080);
    assert_eq!(state.host, "127.0.0.1");
    assert_eq!(state.static_dir, "/srv/static");
    assert_eq!(state.data_dir, "/srv/data");
}

#[test]
fn settings_fail_on_the_first_thing_missing() {
    assert_eq!(
        State::from_values(Some("http"), None, None, None),
        Err(ConfigError::InvalidPort)
    );
    assert_eq!(State::from_values(None, None, None, None), Err(ConfigError::MissingStaticDir));
    assert_eq!(
        State::from_values(None, None, Some("static"), None),
        Err(ConfigError::MissingDataDir)
    );
}

#[test]
fn app_state_shares_the_settings() {
    let state = State::from_values(None, None, Some("static"), Some("data")).unwrap();
    let app = AppState::new(state);
    let copy = app.clone();
    assert_eq!(copy.config.port, 3000);
    assert_eq!(app.config.data_dir, "data");
}

#[test]
fn body_in_base64() {
    let body = Base64Body("<p>hi</p>".to_string());
    assert_eq!(body.render(), "PHA+aGk8L3A+");
    let mut buffer = "data:".to_string();
    body.render_to(&mut buffer);
    assert_eq!(buffer, "data:PHA+aGk8L3A+");
}

#[test]
fn body_in_base64_is_padded() {
    assert_eq!(Base64Body("a".to_string()).render(), "YQ==");
    assert_eq!(Base64Body(String::new()).render(), "");
}

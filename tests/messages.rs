use cli_notifier::config::{
    choose_config_source, Config, ConfigError, ConfigSource, DesktopConfig, Notifiers,
};
use cli_notifier::desktop::DesktopNotifier;
use cli_notifier::message::{completion_message, join_words};
use cli_notifier::notifier::{Delivery, Notifier};
use cli_notifier::webhook::WebhookNotifier;

fn words(ws: &[&str]) -> Vec<String> {
    ws.iter().map(|w| w.to_string()).collect()
}

#[test]
fn message_for_echo_hi() {
    let m = completion_message(&words(&["echo", "hi"]), "exit status: 0");
    assert_eq!(m, "Command `echo hi` completed with status: exit status: 0");
}

#[test]
fn message_keeps_hyphen_arguments() {
    let m = completion_message(&words(&["ls", "-la", "--color"]), "exit status: 2");
    assert_eq!(m, "Command `ls -la --color` completed with status: exit status: 2");
}

#[test]
fn join_edge_cases() {
    assert_eq!(join_words(&words(&[])), "");
    assert_eq!(join_words(&words(&["make"])), "make");
    assert_eq!(join_words(&words(&["a", "", "b"])), "a  b");
}

#[test]
fn desktop_delivery_has_fixed_title() {
    match Notifier::Desktop(DesktopNotifier).delivery("done") {
        Delivery::Popup { summary, body } => {
            assert_eq!(summary, "Command Completed");
            assert_eq!(body, "done");
        }
        _ => panic!("expected a popup"),
    }
}

#[test]
fn webhook_delivery_is_authenticated_json_post() {
    let n = Notifier::Webhook(WebhookNotifier::new(
        "https://example.test/hook".to_string(),
        "tok".to_string(),
    ));
    match n.delivery("Command `echo hi` completed") {
        Delivery::Post { url, authorization, content_type, body } => {
            assert_eq!(url, "https://example.test/hook");
            assert_eq!(authorization, "Bearer tok");
            assert_eq!(content_type, "application/json");
            assert_eq!(body, "{\"text\":\"Command `echo hi` completed\"}");
        }
        _ => panic!("expected a post"),
    }
}

#[test]
fn webhook_body_escapes_the_message() {
    assert_eq!(
        WebhookNotifier::body("say \"hi\"\n"),
        "{\"text\":\"say \\\"hi\\\"\\n\"}"
    );
    assert_eq!(WebhookNotifier::body(""), "{\"text\":\"\"}");
    assert_eq!(
        WebhookNotifier::body("a\\b\t\u{8}\u{c}\r\u{1}\u{1f}\u{7f}é"),
        "{\"text\":\"a\\\\b\\t\\b\\f\\r\\u0001\\u001f\u{7f}é\"}"
    );
    assert_eq!(WebhookNotifier::body_of_encoded("\"x\""), "{\"text\":\"x\"}");
}

#[test]
fn missing_notifiers_section_is_a_config_error() {
    let r = Config::from_document(None);
    assert!(matches!(r, Err(ConfigError::MissingNotifiers)));
}

#[test]
fn present_notifiers_section_is_kept() {
    let r = Config::from_document(Some(Notifiers {
        desktop: Some(DesktopConfig {}),
        pushbullet: None,
        webhook: None,
    }));
    match r {
        Ok(c) => {
            assert!(c.notifiers.desktop.is_some());
            assert!(c.notifiers.webhook.is_none());
        }
        Err(_) => panic!("expected settings"),
    }
}

#[test]
fn user_dir_wins_over_working_dir() {
    assert!(matches!(choose_config_source(true, true), Ok(ConfigSource::UserDir)));
    assert!(matches!(choose_config_source(true, false), Ok(ConfigSource::UserDir)));
    assert!(matches!(choose_config_source(false, true), Ok(ConfigSource::WorkingDir)));
}

#[test]
fn no_config_file_anywhere_fails_startup() {
    let r = choose_config_source(false, false);
    assert!(matches!(r, Err(ConfigError::NotFound)));
    assert_eq!(
        r.unwrap_err().describe(),
        "Configuration file 'config.toml' not found in home directory (~/.config/cli-notifier) or current directory."
    );
    assert_eq!(
        ConfigError::MissingNotifiers.describe(),
        "Configuration file has no [notifiers] section."
    );
}

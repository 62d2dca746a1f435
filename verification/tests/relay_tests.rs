use gotify_relay::model::{Config, DeliveryError, InboundReport};
use gotify_relay::relay::{
    build_message_url, classify_status, finish_report, handle_report, is_debug_mode, redact_value,
    HandlerStep,
};

fn sample_report() -> InboundReport {
    InboundReport {
        deleted_files: 0,
        added_files: 3,
        examined_files: 100,
        size_of_added_files: 2048,
        main_operation: String::from("Backup"),
        parsed_result: String::from("Success"),
        duration: String::from("00:01:23"),
        operation_name: String::from("Backup"),
        machine_name: String::from("host1"),
        backup_name: String::from("nightly"),
    }
}

fn default_config() -> Config {
    Config {
        success_message: None,
        warning_message: None,
        error_message: None,
        message_items: None,
        priority: None,
        debug_mode: None,
    }
}

#[test]
fn end_to_end_success() {
    let r = sample_report();
    let c = default_config();
    let payload = match handle_report(&r, &c) {
        HandlerStep::Send(p) => p,
        HandlerStep::Reject(_) => panic!("a recognized result must be sent"),
    };
    assert!(payload
        .title
        .starts_with("\u{1f4be}\u{1f7e2} Duplicati "));
    assert!(payload.title.contains("Backup: nightly"));
    assert!(payload.message.contains("Added Files: 3\n"));
    assert!(payload.message.contains("Examined Files: 100\n"));
    assert_eq!(payload.priority, 10);
    let reply = finish_report(&classify_status(200));
    assert_eq!(reply.status, 200);
    assert_eq!(reply.body, "Notification sent successfully");
}

#[test]
fn end_to_end_unknown_result_rejects_without_sending() {
    let mut r = sample_report();
    r.parsed_result = String::from("Unknown");
    let c = default_config();
    match handle_report(&r, &c) {
        HandlerStep::Send(_) => panic!("an unrecognized result must not be sent"),
        HandlerStep::Reject(reply) => {
            assert_eq!(reply.status, 500);
            assert_eq!(reply.body, "Failed to construct Gotify payload");
        }
    }
}

#[test]
fn end_to_end_upstream_failure_yields_server_error() {
    let reply = finish_report(&classify_status(401));
    assert_eq!(reply.status, 500);
    assert_eq!(reply.body, "Failed to send Gotify notification");
}

#[test]
fn status_success_class() {
    assert!(classify_status(200).is_ok());
    assert!(classify_status(204).is_ok());
    assert!(classify_status(299).is_ok());
}

#[test]
fn status_failure_is_classified_with_its_code() {
    assert_eq!(classify_status(199).unwrap_err(), DeliveryError::HttpStatus(199));
    assert_eq!(classify_status(300).unwrap_err(), DeliveryError::HttpStatus(300));
    assert_eq!(classify_status(401).unwrap_err(), DeliveryError::HttpStatus(401));
    assert_eq!(classify_status(500).unwrap_err(), DeliveryError::HttpStatus(500));
}

#[test]
fn network_failure_yields_server_error() {
    let reply = finish_report(&Err(DeliveryError::NetworkError));
    assert_eq!(reply.status, 500);
    assert_eq!(reply.body, "Failed to send Gotify notification");
}

#[test]
fn message_url_is_base_plus_token() {
    let url = build_message_url("http://gotify.local", "t0k3n");
    assert_eq!(url, "http://gotify.local/message?token=t0k3n");
}

#[test]
fn redacts_fully_by_default() {
    assert_eq!(redact_value("secret1234", false), "**********");
    assert_eq!(redact_value("", false), "");
}

#[test]
fn redacts_all_but_last_four_when_revealing() {
    assert_eq!(redact_value("secret1234", true), "******1234");
    assert_eq!(redact_value("abcd", true), "abcd");
    assert_eq!(redact_value("abc", true), "abc");
    assert_eq!(redact_value("abcde", true), "*bcde");
}

#[test]
fn debug_mode_unset_is_off() {
    let c = default_config();
    assert!(!is_debug_mode(&c));
}

#[test]
fn debug_mode_true_in_any_case() {
    let mut c = default_config();
    c.debug_mode = Some(String::from("true"));
    assert!(is_debug_mode(&c));
    c.debug_mode = Some(String::from("TRUE"));
    assert!(is_debug_mode(&c));
    c.debug_mode = Some(String::from("True"));
    assert!(is_debug_mode(&c));
    c.debug_mode = Some(String::from("tRuE"));
    assert!(is_debug_mode(&c));
}

#[test]
fn debug_mode_other_values_are_off() {
    let mut c = default_config();
    c.debug_mode = Some(String::from("false"));
    assert!(!is_debug_mode(&c));
    c.debug_mode = Some(String::from("1"));
    assert!(!is_debug_mode(&c));
    c.debug_mode = Some(String::from("truex"));
    assert!(!is_debug_mode(&c));
    c.debug_mode = Some(String::from(""));
    assert!(!is_debug_mode(&c));
}

use health_monitor::alert::render_alert_text;
use health_monitor::alert::AlertMessage;

#[test]
fn alert_text_embeds_count_and_url() {
    let text = render_alert_text(3, "https://example.com/health");
    assert_eq!(
        text,
        "Health check failed 3 times in a row for URL https://example.com/health"
    );
}

#[test]
fn alert_text_renders_multi_digit_counts() {
    assert_eq!(
        render_alert_text(0, "x"),
        "Health check failed 0 times in a row for URL x"
    );
    assert_eq!(
        render_alert_text(10, "x"),
        "Health check failed 10 times in a row for URL x"
    );
    assert_eq!(
        render_alert_text(40960, "x"),
        "Health check failed 40960 times in a row for URL x"
    );
    assert_eq!(
        render_alert_text(u32::MAX, "x"),
        "Health check failed 4294967295 times in a row for URL x"
    );
}

#[test]
fn payload_is_a_json_object_with_content_field() {
    let msg = AlertMessage {
        failures: 3,
        target_url: String::from("https://example.com/health"),
    };
    assert_eq!(
        msg.payload(),
        "{\"content\":\"Health check failed 3 times in a row for URL https://example.com/health\"}"
    );
}

#[test]
fn payload_escapes_the_target_url() {
    let msg = AlertMessage {
        failures: 3,
        target_url: String::from("https://example.com/a\"b\\c"),
    };
    assert_eq!(
        msg.payload(),
        "{\"content\":\"Health check failed 3 times in a row for URL https://example.com/a\\\"b\\\\c\"}"
    );
}

#[test]
fn payload_parses_back_as_json() {
    let msg = AlertMessage {
        failures: 3,
        target_url: String::from("https://example.com/health?x=1&y=\"2\""),
    };
    let v: serde_json::Value = serde_json::from_str(&msg.payload()).unwrap();
    assert_eq!(
        v.get("content").unwrap().as_str().unwrap(),
        "Health check failed 3 times in a row for URL https://example.com/health?x=1&y=\"2\""
    );
}

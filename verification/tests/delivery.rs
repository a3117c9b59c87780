use chrono::Timelike;
use mcp_notifications::channel::{channel_name, gateway_env_key, parse_channel};
use mcp_notifications::delivery::{
    finish_delivery, plan_delivery, slack_message, DeliveryPayload, DeliveryStep, HttpReply,
};
use mcp_notifications::domain::{Channel, DeliveryStatus};
use mcp_notifications::endpoint::{configured_endpoint, safe_recipient};
use mcp_notifications::quiet_hours::{parse_quiet_hours, quiet_hours_active, quiet_hours_active_at};
use mcp_notifications::server::NotificationServer;

#[test]
fn unconfigured_email_is_failed_not_sent() {
    let server = NotificationServer::seeded();
    let step = server.begin_delivery(Channel::Email, "person@example.test", Some("Hello"), "Body", None, true);
    let outcome = match step {
        DeliveryStep::Done(outcome) => outcome,
        DeliveryStep::Send(_) => panic!("no request may be sent without a delivery path"),
    };
    assert_eq!(outcome.status, DeliveryStatus::Failed);
    assert!(outcome.detail.contains("no delivery path configured"));
}

#[test]
fn accepted_webhook_is_delivered_and_secret_path_is_redacted() {
    let address = "127.0.0.1:48213";
    let endpoint = format!("http://{address}/secret/token");
    let server = NotificationServer::seeded();
    let step = server.begin_delivery(Channel::Webhook, &endpoint, Some("Hello"), "Body", None, true);
    let request = match step {
        DeliveryStep::Send(request) => request,
        DeliveryStep::Done(_) => panic!("a webhook recipient is a delivery path"),
    };
    assert_eq!(request.endpoint, endpoint);
    let reply = HttpReply::Status { code: 204, text: "204 No Content".to_string() };
    let outcome = finish_delivery(request, reply, "2026-01-01T00:00:00+00:00".to_string());
    assert_eq!(outcome.status, DeliveryStatus::Delivered);
    assert_eq!(safe_recipient(&endpoint), format!("http://{address}/…"));
}

#[test]
fn disabled_channel_is_suppressed_without_a_delivery_attempt() {
    let server = NotificationServer::seeded();
    let step = server.begin_delivery(Channel::Sms, "user-2", None, "Body", None, true);
    let outcome = match step {
        DeliveryStep::Done(outcome) => outcome,
        DeliveryStep::Send(_) => panic!("a suppressed delivery sends nothing"),
    };
    assert_eq!(outcome.status, DeliveryStatus::Suppressed);
    assert_eq!(outcome.attempted_at, None);
    assert_eq!(outcome.path, "preference_policy");
}

#[test]
fn quiet_hours_handle_windows_that_cross_midnight() {
    assert!(!quiet_hours_active("invalid"));
    assert_eq!(parse_quiet_hours("22:00-22:00"), None);
    let now = chrono::Local::now();
    let start = (now.hour() + 23) % 24;
    let end = (now.hour() + 1) % 24;
    assert!(quiet_hours_active(&format!("{start:02}:00-{end:02}:59")));
}

#[test]
fn quiet_hours_parse_exact_minutes() {
    assert_eq!(parse_quiet_hours("22:00-07:00"), Some((1320, 420)));
    assert_eq!(parse_quiet_hours("00:00-23:59"), Some((0, 1439)));
    assert_eq!(parse_quiet_hours("+1:05-07:00"), None);
    assert_eq!(parse_quiet_hours("07:00-+8:00"), None);
    assert_eq!(parse_quiet_hours("07:+5-08:00"), None);
    assert_eq!(parse_quiet_hours("24:00-07:00"), None);
    assert_eq!(parse_quiet_hours("07:60-08:00"), None);
    assert_eq!(parse_quiet_hours("7:00-08:00"), None);
    assert_eq!(parse_quiet_hours("07:00"), None);
    assert_eq!(parse_quiet_hours("07:00-08:00-09:00"), None);
    assert_eq!(parse_quiet_hours("ab:cd-08:00"), None);
}

#[test]
fn quiet_hours_window_is_half_open_and_wraps() {
    assert!(quiet_hours_active_at("22:00-07:00", 1320));
    assert!(quiet_hours_active_at("22:00-07:00", 0));
    assert!(quiet_hours_active_at("22:00-07:00", 419));
    assert!(!quiet_hours_active_at("22:00-07:00", 420));
    assert!(!quiet_hours_active_at("22:00-07:00", 1319));
    assert!(quiet_hours_active_at("09:00-17:00", 540));
    assert!(!quiet_hours_active_at("09:00-17:00", 1020));
    assert!(!quiet_hours_active_at("invalid", 600));
}

#[test]
fn channels_read_their_names() {
    for channel in [Channel::Email, Channel::Sms, Channel::Push, Channel::InApp, Channel::Webhook, Channel::Slack] {
        assert_eq!(parse_channel(channel_name(channel)), Ok(channel));
    }
    assert_eq!(channel_name(Channel::InApp), "in_app");
    assert_eq!(parse_channel("fax"), Err("unsupported channel: fax".to_string()));
    assert_eq!(parse_channel("Email"), Err("unsupported channel: Email".to_string()));
}

#[test]
fn gateway_keys_are_upper_case() {
    assert_eq!(gateway_env_key(Channel::Email), "MCP_NOTIFICATIONS_EMAIL_ENDPOINT");
    assert_eq!(gateway_env_key(Channel::InApp), "MCP_NOTIFICATIONS_IN_APP_ENDPOINT");
    assert_eq!(gateway_env_key(Channel::Slack), "MCP_NOTIFICATIONS_SLACK_ENDPOINT");
}

#[test]
fn recipients_are_redacted_only_when_they_are_urls() {
    assert_eq!(safe_recipient("person@example.test"), "person@example.test");
    assert_eq!(safe_recipient("user-1"), "user-1");
    assert_eq!(safe_recipient("https://hooks.example.test/services/T000/B000/XXXX"), "https://hooks.example.test/…");
    assert_eq!(safe_recipient("https://hooks.example.test:8443/a/b?c=d"), "https://hooks.example.test:8443/…");
    assert_eq!(safe_recipient("https://hooks.example.test:443/a"), "https://hooks.example.test/…");
    assert_eq!(safe_recipient("mailto:person@example.test"), "mailto://redacted/…");
}

#[test]
fn endpoints_need_https_or_a_gateway() {
    assert_eq!(configured_endpoint(Channel::InApp, "user-1", None, false), Ok(None));
    assert_eq!(
        configured_endpoint(Channel::Webhook, "https://hooks.example.test/x", None, false),
        Ok(Some(("https://hooks.example.test/x".to_string(), "recipient_webhook".to_string())))
    );
    assert_eq!(
        configured_endpoint(Channel::Webhook, "http://hooks.example.test/x", None, false),
        Err("delivery endpoints must use HTTPS (HTTP is accepted only in debug builds)".to_string())
    );
    assert_eq!(
        configured_endpoint(Channel::Webhook, "http://hooks.example.test/x", None, true),
        Ok(Some(("http://hooks.example.test/x".to_string(), "recipient_webhook".to_string())))
    );
    assert_eq!(
        configured_endpoint(Channel::Webhook, "not a url", None, true),
        Err("invalid delivery endpoint: relative URL without a base".to_string())
    );
    assert_eq!(
        configured_endpoint(Channel::Slack, "https://hooks.slack.test/T/B", None, false),
        Ok(Some(("https://hooks.slack.test/T/B".to_string(), "recipient_slack_webhook".to_string())))
    );
    assert_eq!(
        configured_endpoint(Channel::Slack, "#ops", Some("https://gw.example.test/slack".to_string()), false),
        Ok(Some(("https://gw.example.test/slack".to_string(), "configured_slack_gateway".to_string())))
    );
    assert_eq!(
        configured_endpoint(Channel::Sms, "+15550100", None, false),
        Err("no delivery path configured; set MCP_NOTIFICATIONS_SMS_ENDPOINT or use channel=webhook with an HTTPS recipient".to_string())
    );
}

#[test]
fn replies_decide_the_outcome() {
    let plan = || {
        match plan_delivery(
            None,
            Channel::Email,
            "person@example.test",
            Some("Hi"),
            "Body",
            Some("https://gw.example.test/email".to_string()),
            false,
            "2026-01-01T00:00:00+00:00".to_string(),
        ) {
            DeliveryStep::Send(request) => request,
            DeliveryStep::Done(_) => panic!("a configured gateway is a delivery path"),
        }
    };
    let request = plan();
    assert_eq!(request.path, "configured_email_gateway");
    match &request.payload {
        DeliveryPayload::Gateway { channel, recipient, subject, body } => {
            assert_eq!(channel, "email");
            assert_eq!(recipient, "person@example.test");
            assert_eq!(subject.as_deref(), Some("Hi"));
            assert_eq!(body, "Body");
        }
        DeliveryPayload::SlackText { .. } => panic!("email goes to a gateway"),
    }
    let failed = finish_delivery(plan(), HttpReply::Status { code: 500, text: "500 Internal Server Error".to_string() }, "t".to_string());
    assert_eq!(failed.status, DeliveryStatus::Failed);
    assert_eq!(failed.detail, "delivery endpoint returned HTTP 500 Internal Server Error");
    assert_eq!(failed.delivered_at, None);
    assert_eq!(failed.attempted_at.as_deref(), Some("2026-01-01T00:00:00+00:00"));
    let broken = finish_delivery(plan(), HttpReply::TransportError { text: "connection refused".to_string() }, "t".to_string());
    assert_eq!(broken.status, DeliveryStatus::Failed);
    assert_eq!(broken.detail, "delivery request failed: connection refused");
    let accepted = finish_delivery(plan(), HttpReply::Status { code: 200, text: "200 OK".to_string() }, "later".to_string());
    assert_eq!(accepted.status, DeliveryStatus::Delivered);
    assert_eq!(accepted.detail, "delivery endpoint accepted the request with HTTP 200 OK");
    assert_eq!(accepted.delivered_at.as_deref(), Some("later"));
    let redirected = finish_delivery(plan(), HttpReply::Status { code: 302, text: "302 Found".to_string() }, "t".to_string());
    assert_eq!(redirected.status, DeliveryStatus::Failed);
}

#[test]
fn in_app_is_queued_locally() {
    let step = plan_delivery(None, Channel::InApp, "user-3", None, "Body", None, false, "t".to_string());
    match step {
        DeliveryStep::Done(outcome) => {
            assert_eq!(outcome.status, DeliveryStatus::Queued);
            assert_eq!(outcome.path, "local_in_app_queue");
            assert_eq!(outcome.attempted_at, None);
        }
        DeliveryStep::Send(_) => panic!("in-app delivery is local"),
    }
}

#[test]
fn slack_messages_bold_the_subject() {
    assert_eq!(slack_message(Some("Deploy"), "v2.1 is live"), "*Deploy*\nv2.1 is live");
    assert_eq!(slack_message(None, "v2.1 is live"), "v2.1 is live");
    let step = plan_delivery(None, Channel::Slack, "https://hooks.slack.test/T/B", Some("Deploy"), "live", None, false, "t".to_string());
    match step {
        DeliveryStep::Send(request) => match request.payload {
            DeliveryPayload::SlackText { text } => assert_eq!(text, "*Deploy*\nlive"),
            DeliveryPayload::Gateway { .. } => panic!("a Slack webhook takes a text"),
        },
        DeliveryStep::Done(_) => panic!("an HTTPS Slack webhook is a delivery path"),
    }
}

#[test]
fn suppression_reasons_name_the_cause() {
    let server = NotificationServer::seeded();
    assert_eq!(server.suppression_reason_at(Channel::Sms, "user-2", 600), Some("sms delivery is disabled by user preference".to_string()));
    assert_eq!(server.suppression_reason_at(Channel::Email, "user-1", 1380), Some("suppressed during local quiet hours 22:00-07:00".to_string()));
    assert_eq!(server.suppression_reason_at(Channel::Email, "user-1", 600), None);
    assert_eq!(server.suppression_reason_at(Channel::Webhook, "user-2", 600), None);
    assert_eq!(server.suppression_reason_at(Channel::Sms, "stranger", 600), None);
}

#[test]
fn completed_deliveries_are_stamped_now() {
    let request = match plan_delivery(None, Channel::Webhook, "https://hooks.example.test/x", None, "b", None, false, "t0".to_string()) {
        DeliveryStep::Send(request) => request,
        DeliveryStep::Done(_) => panic!("an HTTPS webhook is a delivery path"),
    };
    let outcome = mcp_notifications::delivery::complete_delivery(request, HttpReply::Status { code: 202, text: "202 Accepted".to_string() });
    assert_eq!(outcome.status, DeliveryStatus::Delivered);
    let stamp = outcome.delivered_at.expect("a delivered notification has a delivery time");
    assert!(stamp.len() >= 20 && stamp.contains('T'));
    assert_eq!(outcome.attempted_at.as_deref(), Some("t0"));
}

#[test]
fn transport_errors_do_not_show_the_endpoint() {
    let plan = |endpoint: &str| match plan_delivery(None, Channel::Webhook, endpoint, None, "b", None, true, "t0".to_string()) {
        DeliveryStep::Send(request) => request,
        DeliveryStep::Done(_) => panic!("a webhook URL is a delivery path"),
    };
    let fail = |endpoint: &str, text: &str| {
        finish_delivery(plan(endpoint), HttpReply::TransportError { text: text.to_string() }, "t".to_string())
    };
    let request = plan("https://hooks.example.test/secret/token?key=abc");
    let patterns: Vec<&str> = request.redactions.iter().map(|(p, _)| p.as_str()).collect();
    assert_eq!(
        patterns,
        [
            "https://hooks.example.test/secret/token?key=abc",
            "https://hooks.example.test/secret/token?key=abc",
            "/secret/token",
            "key=abc",
        ]
    );
    let failed = fail(
        "https://hooks.example.test/secret/token?key=abc",
        "error sending request for url (https://hooks.example.test/secret/token?key=abc)",
    );
    assert_eq!(failed.status, DeliveryStatus::Failed);
    assert_eq!(failed.detail, "delivery request failed: error sending request for url (https://hooks.example.test/…)");

    let failed = fail(
        "HTTPS://Hooks.Example.test:8443/secret",
        "timed out for url (https://hooks.example.test:8443/secret)",
    );
    assert_eq!(failed.detail, "delivery request failed: timed out for url (https://hooks.example.test:8443/…)");

    // a redirect from HTTP to HTTPS keeps the path and query
    let failed = fail(
        "http://hooks.example.test/secret/token?key=abc",
        "operation timed out for url (https://hooks.example.test/secret/token?key=abc)",
    );
    assert_eq!(failed.detail, "delivery request failed: operation timed out for url (https://hooks.example.test/…?…)");
    assert!(!failed.detail.contains("secret") && !failed.detail.contains("abc"));

    // an endpoint without path or query hides nothing beyond its shown form
    let failed = fail("https://hooks.example.test/", "connection refused for url (https://hooks.example.test/)");
    assert_eq!(failed.detail, "delivery request failed: connection refused for url (https://hooks.example.test/)");
}

#[test]
fn quiet_hours_round_trip_through_their_text() {
    for (a, b) in [(0u32, 1u32), (1320, 420), (1439, 0), (61, 600), (599, 1200)] {
        let text = format!("{:02}:{:02}-{:02}:{:02}", a / 60, a % 60, b / 60, b % 60);
        assert_eq!(parse_quiet_hours(&text), Some((a, b)));
    }
}

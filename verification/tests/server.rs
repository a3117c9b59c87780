use mcp_notifications::delivery::DeliveryOutcome;
use mcp_notifications::domain::{Channel, DeliveryStatus, Notification};
use mcp_notifications::inputs::{CreateTemplateInput, PreferenceInput, SendInput, SendTemplateInput};
use mcp_notifications::server::{NotificationServer, RetryRefusal};
use mcp_notifications::template::{render, replace_text, TemplateVariable};

fn outcome(status: DeliveryStatus) -> DeliveryOutcome {
    DeliveryOutcome {
        status,
        path: "recipient_webhook".to_string(),
        detail: "detail".to_string(),
        attempted_at: Some("t0".to_string()),
        delivered_at: None,
    }
}

fn note(status: DeliveryStatus, recipient: &str) -> Notification {
    NotificationServer::attempt(Channel::Webhook, recipient.to_string(), None, "Body".to_string(), None, outcome(status))
}

#[test]
fn seeded_service_has_demo_data() {
    let server = NotificationServer::seeded();
    assert!(server.notifications.is_empty());
    let ids: Vec<&str> = server.templates.iter().map(|t| t.id.as_str()).collect();
    assert_eq!(ids, ["tpl-welcome", "tpl-otp", "tpl-alert"]);
    assert_eq!(server.templates[0].variables, ["name", "company", "url"]);
    assert_eq!(server.preferences.len(), 2);
    assert_eq!(server.preferences[0].quiet_hours.as_deref(), Some("22:00-07:00"));
    assert!(!server.preferences[1].sms_enabled);
}

#[test]
fn attempts_get_fresh_short_ids() {
    let a = note(DeliveryStatus::Delivered, "https://x.test/a");
    assert_eq!(a.id.len(), 14);
    assert!(a.id.starts_with("notif-"));
    assert!(a.id[6..].chars().all(|c| c.is_ascii_hexdigit() && !c.is_ascii_uppercase()));
    assert_eq!(a.status, DeliveryStatus::Delivered);
    assert_eq!(a.delivery_path, "recipient_webhook");
}

#[test]
fn recording_reports_ok_unless_failed_and_redacts() {
    let mut server = NotificationServer::seeded();
    let report = server.record_delivery(note(DeliveryStatus::Failed, "https://hooks.test/secret/path"));
    assert!(!report.ok);
    assert_eq!(report.notification.recipient, "https://hooks.test/…");
    assert_eq!(server.notifications[0].recipient, "https://hooks.test/secret/path");
    let report = server.record_delivery(note(DeliveryStatus::Suppressed, "user-2"));
    assert!(report.ok);
    assert_eq!(server.notifications.len(), 2);
}

#[test]
fn broadcast_counts_add_up() {
    let mut server = NotificationServer::seeded();
    let created = vec![
        note(DeliveryStatus::Delivered, "https://a.test/1"),
        note(DeliveryStatus::Queued, "user-1"),
        note(DeliveryStatus::Suppressed, "user-2"),
        note(DeliveryStatus::Failed, "user-3"),
        note(DeliveryStatus::Delivered, "https://b.test/2"),
    ];
    let report = server.record_broadcast(created);
    assert_eq!(report.count, 5);
    assert_eq!(report.delivered, 2);
    assert_eq!(report.queued, 1);
    assert_eq!(report.suppressed, 1);
    assert_eq!(report.failed, 1);
    assert!(!report.ok);
    assert_eq!(report.notifications[0].recipient, "https://a.test/…");
    assert_eq!(server.notifications.len(), 5);
    let stats = server.get_delivery_stats();
    assert_eq!((stats.total, stats.delivered, stats.failed, stats.queued, stats.suppressed), (5, 2, 1, 1, 1));
    let clean = server.record_broadcast(vec![note(DeliveryStatus::Queued, "user-1")]);
    assert!(clean.ok);
    assert_eq!(clean.failed, 0);
}

#[test]
fn broadcast_records_follow_the_recipients() {
    let recipients = vec!["user-1".to_string(), "https://hooks.test/a".to_string(), "user-2".to_string()];
    let outcomes = vec![outcome(DeliveryStatus::Queued), outcome(DeliveryStatus::Failed), outcome(DeliveryStatus::Suppressed)];
    let subject = Some("Maintenance".to_string());
    let body = "in 1 hour".to_string();
    let records = NotificationServer::broadcast_records(Channel::Push, &recipients, &subject, &body, outcomes);
    assert_eq!(records.len(), 3);
    for (record, recipient) in records.iter().zip(&recipients) {
        assert_eq!(&record.recipient, recipient);
        assert_eq!(record.channel, Channel::Push);
        assert_eq!(record.subject.as_deref(), Some("Maintenance"));
        assert_eq!(record.body, "in 1 hour");
        assert_eq!(record.template_id, None);
        assert!(record.id.starts_with("notif-"));
    }
    let statuses: Vec<DeliveryStatus> = records.iter().map(|r| r.status).collect();
    assert_eq!(statuses, [DeliveryStatus::Queued, DeliveryStatus::Failed, DeliveryStatus::Suppressed]);
}

#[test]
fn list_filter_uses_channel_names() {
    let mut server = NotificationServer::seeded();
    let input = |channel: &str| SendInput {
        channel: channel.to_string(),
        recipient: "user-1".to_string(),
        subject: None,
        body: "Body".to_string(),
    };
    server.schedule_notification(input("in_app")).unwrap();
    server.schedule_notification(input("email")).unwrap();
    assert_eq!(server.list_notifications(None).len(), 2);
    assert_eq!(server.list_notifications(Some("email")).len(), 1);
    assert_eq!(server.list_notifications(Some("in_app")).len(), 1);
    assert_eq!(server.list_notifications(Some("inapp")).len(), 0);
    assert_eq!(server.list_notifications(Some("sms")).len(), 0);
}

#[test]
fn scheduling_queues_a_record_only() {
    let mut server = NotificationServer::seeded();
    let id = server
        .schedule_notification(SendInput {
            channel: "sms".to_string(),
            recipient: "+15550100".to_string(),
            subject: None,
            body: "Later".to_string(),
        })
        .unwrap();
    assert!(id.starts_with("notif-"));
    let n = server.get_status(&id).unwrap();
    assert_eq!(n.status, DeliveryStatus::Queued);
    assert_eq!(n.delivery_path, "scheduler_not_implemented");
    assert_eq!(n.status_detail, "queued as a record only; no scheduler is running");
    assert_eq!(n.attempted_at, None);
    let refused = server.schedule_notification(SendInput {
        channel: "fax".to_string(),
        recipient: "x".to_string(),
        subject: None,
        body: "b".to_string(),
    });
    assert_eq!(refused, Err("unsupported channel: fax".to_string()));
    assert_eq!(server.notifications.len(), 1);
}

#[test]
fn lookups_report_missing_records() {
    let server = NotificationServer::seeded();
    assert_eq!(server.get_status("notif-0").err(), Some("notification notif-0 not found".to_string()));
    assert_eq!(server.get_template("tpl-x").err(), Some("template tpl-x not found".to_string()));
    assert_eq!(server.get_preferences("nobody").err(), Some("no preferences for user nobody".to_string()));
    assert_eq!(server.get_template("tpl-otp").unwrap().name, "OTP SMS");
    assert_eq!(server.list_templates().len(), 3);
}

#[test]
fn created_templates_can_be_read_back() {
    let mut server = NotificationServer::seeded();
    let message = server
        .create_template(CreateTemplateInput {
            name: "Digest".to_string(),
            channel: "email".to_string(),
            subject: Some("Digest for {{day}}".to_string()),
            body_template: "{{items}}".to_string(),
            variables: vec!["day".to_string(), "items".to_string()],
        })
        .unwrap();
    let id = server.templates[3].id.clone();
    assert!(id.starts_with("tpl-") && id.len() == 12);
    assert_eq!(message, format!("Created template 'Digest' (id: {id})"));
    let template = server.get_template(&id).unwrap();
    assert_eq!(template.channel, Channel::Email);
    assert_eq!(template.body_template, "{{items}}");
    let refused = server.create_template(CreateTemplateInput {
        name: "Bad".to_string(),
        channel: "pigeon".to_string(),
        subject: None,
        body_template: "x".to_string(),
        variables: vec![],
    });
    assert_eq!(refused, Err("unsupported channel: pigeon".to_string()));
    assert_eq!(server.templates.len(), 4);
}

#[test]
fn templates_render_their_variables() {
    let server = NotificationServer::seeded();
    let var = |name: &str, value: Option<&str>| TemplateVariable {
        name: name.to_string(),
        value: value.map(|v| v.to_string()),
    };
    let input = SendTemplateInput {
        template_id: "tpl-welcome".to_string(),
        recipient: "frank@zavora.ai".to_string(),
        variables: Some(vec![
            var("company", Some("Zavora")),
            var("name", Some("Frank")),
            var("url", None),
        ]),
    };
    let message = server.prepare_template_send(&input).unwrap();
    assert_eq!(message.channel, Channel::Email);
    assert_eq!(message.subject.as_deref(), Some("Welcome to Zavora!"));
    assert_eq!(message.body, "Hi Frank, welcome to Zavora. Get started at .");
    let bare = SendTemplateInput { template_id: "tpl-otp".to_string(), recipient: "x".to_string(), variables: None };
    let message = server.prepare_template_send(&bare).unwrap();
    assert_eq!(message.subject, None);
    assert_eq!(message.body, "Your verification code is {{code}}. Expires in 5 minutes.");
    let missing = SendTemplateInput { template_id: "tpl-none".to_string(), recipient: "x".to_string(), variables: None };
    assert_eq!(server.prepare_template_send(&missing).err(), Some("template tpl-none not found".to_string()));
}

#[test]
fn replacement_scans_left_to_right() {
    assert_eq!(replace_text("aaaa", "aa", "b"), "bb");
    assert_eq!(replace_text("{{x}}{{x}}", "{{x}}", "{{x}}"), "{{x}}{{x}}");
    assert_eq!(replace_text("héllo {{n}}!", "{{n}}", "wörld"), "héllo wörld!");
    let vars = vec![
        TemplateVariable { name: "a".to_string(), value: Some("{{b}}".to_string()) },
        TemplateVariable { name: "b".to_string(), value: Some("B".to_string()) },
    ];
    assert_eq!(render("{{a}}-{{b}}", &vars), "B-B");
    assert_eq!(render("no placeholders here", &vars), "no placeholders here");
    assert_eq!(replace_text("{{a}", "{{a}}", "x"), "{{a}");
}

#[test]
fn preferences_update_create_and_validate() {
    let mut server = NotificationServer::seeded();
    let input = |user: &str, sms: Option<bool>, quiet: Option<&str>| PreferenceInput {
        user_id: user.to_string(),
        email_enabled: None,
        sms_enabled: sms,
        push_enabled: None,
        in_app_enabled: Some(false),
        quiet_hours: quiet.map(|q| q.to_string()),
    };
    assert_eq!(
        server.update_preferences(input("user-1", None, Some("22:00-22:00"))),
        Err("quiet_hours must be HH:MM-HH:MM with valid, different start and end times".to_string())
    );
    assert_eq!(server.update_preferences(input("user-2", Some(true), Some("01:00-02:00"))), Ok("Updated preferences for user-2".to_string()));
    let p = server.get_preferences("user-2").unwrap();
    assert!(p.sms_enabled && p.email_enabled && !p.in_app_enabled);
    assert_eq!(p.quiet_hours.as_deref(), Some("01:00-02:00"));
    assert_eq!(server.update_preferences(input("user-9", None, None)), Ok("Created preferences for user-9".to_string()));
    let p = server.get_preferences("user-9").unwrap();
    assert!(p.email_enabled && p.sms_enabled && p.push_enabled && !p.in_app_enabled);
    assert_eq!(p.quiet_hours, None);
    assert_eq!(server.preferences.len(), 3);
    assert!(server.get_preferences("user-1").unwrap().in_app_enabled);
}

#[test]
fn only_failed_notifications_are_retried() {
    let mut server = NotificationServer::seeded();
    server.record_delivery(note(DeliveryStatus::Failed, "https://hooks.test/x/y"));
    server.record_delivery(note(DeliveryStatus::Delivered, "https://hooks.test/z"));
    let failed_id = server.notifications[0].id.clone();
    let delivered_id = server.notifications[1].id.clone();
    match server.retry_target(&delivered_id) {
        Err(RetryRefusal::NotFailed { message, status }) => {
            assert_eq!(message, format!("notification {delivered_id} is not failed"));
            assert_eq!(status, DeliveryStatus::Delivered);
        }
        _ => panic!("a delivered notification is not retried"),
    }
    match server.retry_target("notif-missing") {
        Err(RetryRefusal::NotFound { message }) => assert_eq!(message, "notification notif-missing not found"),
        _ => panic!("a missing notification is not retried"),
    }
    let target = server.retry_target(&failed_id).ok().expect("a failed notification is retried");
    assert_eq!(target.recipient, "https://hooks.test/x/y");
    let mut delivered = outcome(DeliveryStatus::Delivered);
    delivered.delivered_at = Some("t1".to_string());
    let report = server.apply_retry(&failed_id, delivered);
    assert!(report.ok);
    assert_eq!(report.notification.recipient, "https://hooks.test/…");
    assert_eq!(server.notifications[0].status, DeliveryStatus::Delivered);
    assert_eq!(server.notifications[0].delivered_at.as_deref(), Some("t1"));
    assert_eq!(server.notifications[0].id, failed_id);
    assert_eq!(server.notifications.len(), 2);
}

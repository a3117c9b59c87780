use vstd::prelude::*;

use crate::channel::{channel_label, channel_name, parse_channel, unsupported_channel_text};
use crate::clock::{local_hour_minute, utc_now_rfc3339};
use crate::delivery::{plan_delivery, planned_step, opt_str, DeliveryOutcome, DeliveryStep, OutcomeModel};
use crate::domain::{copy_opt_text, opt_text, texts, Channel, DeliveryStatus, Notification, NotificationModel, Preference, PreferenceModel, Template, TemplateModel};
use crate::endpoint::{redacted_text, safe_recipient, url_parse_result};
use crate::ids::{fresh_id, is_short_id};
use crate::inputs::{CreateTemplateInput, PreferenceInput, SendInput, SendTemplateInput};
use crate::quiet_hours::{parse_quiet_hours, quiet_at, quiet_hours_active_at, quiet_window};
use crate::template::{render, render_text, variable_pairs, TemplateVariable};
use crate::text::{concat, same_text};

verus! {

/// The position of the first element of `s` for which `p` holds.
pub open spec fn first_index<T>(s: Seq<T>, p: spec_fn(T) -> bool) -> Option<int> {
    if exists|i: int| 0 <= i < s.len() && #[trigger] p(s[i]) {
        Some(
            choose|i: int|
                0 <= i < s.len() && #[trigger] p(s[i]) && forall|j: int| 0 <= j < i ==> !p(s[j]),
        )
    } else {
        None
    }
}

/// A position at which `p` first holds is what `first_index` gives.
pub proof fn lemma_first_index_is<T>(s: Seq<T>, p: spec_fn(T) -> bool, i: int)
    requires
        0 <= i < s.len(),
        p(s[i]),
        forall|j: int| 0 <= j < i ==> !p(s[j]),
    ensures
        first_index(s, p) == Some(i),
{
    let k = choose|k: int|
        0 <= k < s.len() && #[trigger] p(s[k]) && forall|j: int| 0 <= j < k ==> !p(s[j]);
    assert(0 <= k < s.len() && p(s[k]) && forall|j: int| 0 <= j < k ==> !p(s[j]));
    if k < i {
        assert(!p(s[k]));
    } else if k > i {
        assert(!p(s[i]));
    }
}

/// Where `p` holds somewhere, there is a first such position.
proof fn lemma_first_position_exists<T>(s: Seq<T>, p: spec_fn(T) -> bool, i: int)
    requires
        0 <= i < s.len(),
        p(s[i]),
    ensures
        exists|k: int| 0 <= k < s.len() && #[trigger] p(s[k]) && forall|j: int| 0 <= j < k ==> !p(s[j]),
    decreases i,
{
    if exists|j: int| 0 <= j < i && #[trigger] p(s[j]) {
        let j = choose|j: int| 0 <= j < i && #[trigger] p(s[j]);
        lemma_first_position_exists(s, p, j);
    } else {
        assert(forall|j: int| 0 <= j < i ==> !p(s[j]));
    }
}

/// What `first_index` gives is a position at which `p` first holds.
pub proof fn lemma_first_index_some<T>(s: Seq<T>, p: spec_fn(T) -> bool)
    requires
        first_index(s, p) is Some,
    ensures
        0 <= first_index(s, p)->0 < s.len(),
        p(s[first_index(s, p)->0]),
        forall|j: int| 0 <= j < first_index(s, p)->0 ==> !p(s[j]),
{
    let i = choose|i: int| 0 <= i < s.len() && #[trigger] p(s[i]);
    lemma_first_position_exists(s, p, i);
}

/// Where `p` holds nowhere, `first_index` gives nothing.
pub proof fn lemma_first_index_none<T>(s: Seq<T>, p: spec_fn(T) -> bool)
    requires
        forall|j: int| 0 <= j < s.len() ==> !p(s[j]),
    ensures
        first_index(s, p) is None,
{
}

/// The notification with identifier `id`.
pub open spec fn has_notification_id(id: Seq<char>) -> spec_fn(NotificationModel) -> bool {
    |n: NotificationModel| n.id == id
}

/// The template with identifier `id`.
pub open spec fn has_template_id(id: Seq<char>) -> spec_fn(TemplateModel) -> bool {
    |t: TemplateModel| t.id == id
}

/// The preferences of user `id`.
pub open spec fn has_user_id(id: Seq<char>) -> spec_fn(PreferenceModel) -> bool {
    |p: PreferenceModel| p.user_id == id
}

/// The state of the service as values.
pub struct ServerModel {
    pub notifications: Seq<NotificationModel>,
    pub templates: Seq<TemplateModel>,
    pub preferences: Seq<PreferenceModel>,
}

/// The notification service: the notification log, the templates and the
/// users' preferences.
pub struct NotificationServer {
    pub notifications: Vec<Notification>,
    pub templates: Vec<Template>,
    pub preferences: Vec<Preference>,
}

/// The values of a list of notifications.
pub open spec fn notification_models(s: Seq<Notification>) -> Seq<NotificationModel> {
    s.map_values(|n: Notification| n@)
}

/// The values of a list of templates.
pub open spec fn template_models(s: Seq<Template>) -> Seq<TemplateModel> {
    s.map_values(|t: Template| t@)
}

/// The values of a list of preferences.
pub open spec fn preference_models(s: Seq<Preference>) -> Seq<PreferenceModel> {
    s.map_values(|p: Preference| p@)
}

impl View for NotificationServer {
    type V = ServerModel;

    open spec fn view(&self) -> ServerModel {
        ServerModel {
            notifications: notification_models(self.notifications@),
            templates: template_models(self.templates@),
            preferences: preference_models(self.preferences@),
        }
    }
}

/// A notification as it is shown: the recipient in its redacted form.
pub open spec fn shown(n: NotificationModel) -> NotificationModel {
    NotificationModel { recipient: redacted_text(n.recipient, url_parse_result(n.recipient)), ..n }
}

/// A notification as it is shown in results: a webhook recipient keeps only
/// its scheme, host and port.
pub fn notification_view(notification: &Notification) -> (r: Notification)
    ensures
        r@ == shown(notification@),
{
    let mut r = notification.duplicate();
    r.recipient = safe_recipient(notification.recipient.as_str());
    r
}

impl NotificationServer {
    /// The position of the first notification with identifier `id`.
    pub fn find_notification(&self, id: &str) -> (r: Option<usize>)
        ensures
            match r {
                Some(i) => i < self.notifications@.len() && first_index(self@.notifications, has_notification_id(id@)) == Some(i as int),
                None => first_index(self@.notifications, has_notification_id(id@)) is None,
            },
    {
        let ghost s = self@.notifications;
        for i in 0..self.notifications.len()
            invariant
                s == notification_models(self.notifications@),
                forall|j: int| 0 <= j < i ==> !has_notification_id(id@)(s[j]),
        {
            if same_text(self.notifications[i].id.as_str(), id) {
                proof {
                    lemma_first_index_is(s, has_notification_id(id@), i as int);
                }
                return Some(i);
            }
        }
        proof {
            lemma_first_index_none(s, has_notification_id(id@));
        }
        None
    }

    /// The position of the first template with identifier `id`.
    pub fn find_template(&self, id: &str) -> (r: Option<usize>)
        ensures
            match r {
                Some(i) => i < self.templates@.len() && first_index(self@.templates, has_template_id(id@)) == Some(i as int),
                None => first_index(self@.templates, has_template_id(id@)) is None,
            },
    {
        let ghost s = self@.templates;
        for i in 0..self.templates.len()
            invariant
                s == template_models(self.templates@),
                forall|j: int| 0 <= j < i ==> !has_template_id(id@)(s[j]),
        {
            if same_text(self.templates[i].id.as_str(), id) {
                proof {
                    lemma_first_index_is(s, has_template_id(id@), i as int);
                }
                return Some(i);
            }
        }
        proof {
            lemma_first_index_none(s, has_template_id(id@));
        }
        None
    }

    /// The position of the first preferences of user `id`.
    pub fn find_preference(&self, id: &str) -> (r: Option<usize>)
        ensures
            match r {
                Some(i) => i < self.preferences@.len() && first_index(self@.preferences, has_user_id(id@)) == Some(i as int),
                None => first_index(self@.preferences, has_user_id(id@)) is None,
            },
    {
        let ghost s = self@.preferences;
        for i in 0..self.preferences.len()
            invariant
                s == preference_models(self.preferences@),
                forall|j: int| 0 <= j < i ==> !has_user_id(id@)(s[j]),
        {
            if same_text(self.preferences[i].user_id.as_str(), id) {
                proof {
                    lemma_first_index_is(s, has_user_id(id@), i as int);
                }
                return Some(i);
            }
        }
        proof {
            lemma_first_index_none(s, has_user_id(id@));
        }
        None
    }
}

/// The templates that a new service starts with.
pub open spec fn seeded_templates() -> Seq<TemplateModel> {
    seq![
        TemplateModel {
            id: "tpl-welcome"@,
            name: "Welcome Email"@,
            channel: Channel::Email,
            subject: Some("Welcome to {{company}}!"@),
            body_template: "Hi {{name}}, welcome to {{company}}. Get started at {{url}}."@,
            variables: seq!["name"@, "company"@, "url"@],
        },
        TemplateModel {
            id: "tpl-otp"@,
            name: "OTP SMS"@,
            channel: Channel::Sms,
            subject: None,
            body_template: "Your verification code is {{code}}. Expires in 5 minutes."@,
            variables: seq!["code"@],
        },
        TemplateModel {
            id: "tpl-alert"@,
            name: "System Alert"@,
            channel: Channel::Push,
            subject: Some("Alert: {{title}}"@),
            body_template: "{{message}}"@,
            variables: seq!["title"@, "message"@],
        },
    ]
}

/// The preferences that a new service starts with.
pub open spec fn seeded_preferences() -> Seq<PreferenceModel> {
    seq![
        PreferenceModel {
            user_id: "user-1"@,
            email_enabled: true,
            sms_enabled: true,
            push_enabled: true,
            in_app_enabled: true,
            quiet_hours: Some("22:00-07:00"@),
        },
        PreferenceModel {
            user_id: "user-2"@,
            email_enabled: true,
            sms_enabled: false,
            push_enabled: true,
            in_app_enabled: true,
            quiet_hours: None,
        },
    ]
}

/// Whether a user's preferences let `channel` deliver; webhooks and Slack
/// are never turned off.
pub open spec fn channel_enabled(p: PreferenceModel, channel: Channel) -> bool {
    match channel {
        Channel::Email => p.email_enabled,
        Channel::Sms => p.sms_enabled,
        Channel::Push => p.push_enabled,
        Channel::InApp => p.in_app_enabled,
        Channel::Webhook | Channel::Slack => true,
    }
}

/// Why a delivery to `recipient` over `channel` is suppressed at the minute
/// of the day `now`, if it is: the recipient's stored preferences (the first
/// with that user id) disable the channel, or their quiet hours are active.
pub open spec fn suppression_at(
    prefs: Seq<PreferenceModel>,
    channel: Channel,
    recipient: Seq<char>,
    now: int,
) -> Option<Seq<char>> {
    match first_index(prefs, has_user_id(recipient)) {
        None => None,
        Some(i) => {
            let p = prefs[i];
            if !channel_enabled(p, channel) {
                Some(channel_label(channel) + " delivery is disabled by user preference"@)
            } else {
                match p.quiet_hours {
                    None => None,
                    Some(q) => if quiet_at(q, now) {
                        Some("suppressed during local quiet hours "@ + q)
                    } else {
                        None
                    },
                }
            }
        },
    }
}

/// A notification made from a delivery outcome.
pub open spec fn attempted(
    id: Seq<char>,
    channel: Channel,
    recipient: Seq<char>,
    subject: Option<Seq<char>>,
    body: Seq<char>,
    template_id: Option<Seq<char>>,
    outcome: OutcomeModel,
) -> NotificationModel {
    NotificationModel {
        id,
        channel,
        recipient,
        subject,
        body,
        status: outcome.status,
        delivery_path: outcome.path,
        status_detail: outcome.detail,
        template_id,
        attempted_at: outcome.attempted_at,
        delivered_at: outcome.delivered_at,
    }
}

/// The notification record of a delivery outcome, with identifier `id`.
pub fn notification_from(
    id: String,
    channel: Channel,
    recipient: String,
    subject: Option<String>,
    body: String,
    template_id: Option<String>,
    outcome: DeliveryOutcome,
) -> (r: Notification)
    ensures
        r@ == attempted(
            id@,
            channel,
            recipient@,
            opt_text(subject),
            body@,
            opt_text(template_id),
            outcome@,
        ),
{
    Notification {
        id,
        channel,
        recipient,
        subject,
        body,
        status: outcome.status,
        delivery_path: outcome.path,
        status_detail: outcome.detail,
        template_id,
        attempted_at: outcome.attempted_at,
        delivered_at: outcome.delivered_at,
    }
}

impl NotificationServer {
    /// A service with the demo templates and preferences and no notifications.
    pub fn seeded() -> (r: NotificationServer)
        ensures
            r@.notifications == Seq::<NotificationModel>::empty(),
            r@.templates == seeded_templates(),
            r@.preferences == seeded_preferences(),
    {
        let templates = vec![
            Template {
                id: String::from_str("tpl-welcome"),
                name: String::from_str("Welcome Email"),
                channel: Channel::Email,
                subject: Some(String::from_str("Welcome to {{company}}!")),
                body_template: String::from_str(
                    "Hi {{name}}, welcome to {{company}}. Get started at {{url}}.",
                ),
                variables: vec![
                    String::from_str("name"),
                    String::from_str("company"),
                    String::from_str("url"),
                ],
            },
            Template {
                id: String::from_str("tpl-otp"),
                name: String::from_str("OTP SMS"),
                channel: Channel::Sms,
                subject: None,
                body_template: String::from_str(
                    "Your verification code is {{code}}. Expires in 5 minutes.",
                ),
                variables: vec![String::from_str("code")],
            },
            Template {
                id: String::from_str("tpl-alert"),
                name: String::from_str("System Alert"),
                channel: Channel::Push,
                subject: Some(String::from_str("Alert: {{title}}")),
                body_template: String::from_str("{{message}}"),
                variables: vec![String::from_str("title"), String::from_str("message")],
            },
        ];
        let preferences = vec![
            Preference {
                user_id: String::from_str("user-1"),
                email_enabled: true,
                sms_enabled: true,
                push_enabled: true,
                in_app_enabled: true,
                quiet_hours: Some(String::from_str("22:00-07:00")),
            },
            Preference {
                user_id: String::from_str("user-2"),
                email_enabled: true,
                sms_enabled: false,
                push_enabled: true,
                in_app_enabled: true,
                quiet_hours: None,
            },
        ];
        let r = NotificationServer { notifications: Vec::new(), templates, preferences };
        assert(texts(r.templates@[0].variables@) =~= seq!["name"@, "company"@, "url"@]);
        assert(texts(r.templates@[1].variables@) =~= seq!["code"@]);
        assert(texts(r.templates@[2].variables@) =~= seq!["title"@, "message"@]);
        assert(r@.notifications =~= Seq::<NotificationModel>::empty());
        assert(r@.templates =~= seeded_templates());
        assert(r@.preferences =~= seeded_preferences());
        r
    }

    /// Why a delivery to `recipient` over `channel` is suppressed at the
    /// minute of the day `now`, if it is.
    pub fn suppression_reason_at(&self, channel: Channel, recipient: &str, now: u32) -> (r: Option<
        String,
    >)
        ensures
            opt_text(r) == suppression_at(self@.preferences, channel, recipient@, now as int),
    {
        let i = match self.find_preference(recipient) {
            None => return None,
            Some(i) => i,
        };
        let p = &self.preferences[i];
        let enabled = match channel {
            Channel::Email => p.email_enabled,
            Channel::Sms => p.sms_enabled,
            Channel::Push => p.push_enabled,
            Channel::InApp => p.in_app_enabled,
            Channel::Webhook | Channel::Slack => true,
        };
        if !enabled {
            return Some(concat(channel_name(channel), " delivery is disabled by user preference"));
        }
        match &p.quiet_hours {
            None => None,
            Some(q) => {
                if quiet_hours_active_at(q.as_str(), now) {
                    Some(concat("suppressed during local quiet hours ", q.as_str()))
                } else {
                    None
                }
            },
        }
    }

    /// Why a delivery to `recipient` over `channel` is suppressed now, in
    /// local time, if it is.
    pub fn suppression_reason(&self, channel: Channel, recipient: &str) -> (r: Option<String>)
        ensures
            exists|now: int|
                0 <= now < 1440 && opt_text(r) == suppression_at(
                    self@.preferences,
                    channel,
                    recipient@,
                    now,
                ),
    {
        let (hour, minute) = local_hour_minute();
        let now = hour * 60 + minute;
        let r = self.suppression_reason_at(channel, recipient, now);
        assert(0 <= now < 1440);
        r
    }

    /// The first step of a delivery: the recipient's preferences are
    /// consulted now, and an attempt is stamped with the current UTC time.
    pub fn begin_delivery(
        &self,
        channel: Channel,
        recipient: &str,
        subject: Option<&str>,
        body: &str,
        gateway: Option<String>,
        allow_http: bool,
    ) -> (r: DeliveryStep)
        ensures
            exists|now: int, at: Seq<char>|
                0 <= now < 1440 && planned_step(
                    r,
                    suppression_at(self@.preferences, channel, recipient@, now),
                    channel,
                    recipient@,
                    opt_str(subject),
                    body@,
                    opt_text(gateway),
                    allow_http,
                    at,
                ),
    {
        let suppression = self.suppression_reason(channel, recipient);
        let attempted_at = utc_now_rfc3339();
        let ghost at = attempted_at@;
        let ghost g = opt_text(gateway);
        let ghost sup = opt_text(suppression);
        let r = plan_delivery(
            suppression,
            channel,
            recipient,
            subject,
            body,
            gateway,
            allow_http,
            attempted_at,
        );
        assert(planned_step(r, sup, channel, recipient@, opt_str(subject), body@, g, allow_http, at));
        r
    }

    /// The notification record of a delivery outcome, under a fresh
    /// identifier `notif-` and eight hex digits.
    pub fn attempt(
        channel: Channel,
        recipient: String,
        subject: Option<String>,
        body: String,
        template_id: Option<String>,
        outcome: DeliveryOutcome,
    ) -> (r: Notification)
        ensures
            is_short_id(r.id@, "notif-"@),
            r@ == attempted(
                r.id@,
                channel,
                recipient@,
                opt_text(subject),
                body@,
                opt_text(template_id),
                outcome@,
            ),
    {
        let id = fresh_id("notif-");
        notification_from(id, channel, recipient, subject, body, template_id, outcome)
    }

    /// The records of a broadcast: one per recipient, in order, each with the
    /// broadcast's channel, subject and body, that recipient's delivery
    /// outcome, no template, and a fresh identifier.
    pub fn broadcast_records(
        channel: Channel,
        recipients: &Vec<String>,
        subject: &Option<String>,
        body: &String,
        outcomes: Vec<DeliveryOutcome>,
    ) -> (r: Vec<Notification>)
        requires
            recipients@.len() == outcomes@.len(),
        ensures
            r@.len() == recipients@.len(),
            forall|i: int|
                0 <= i < r@.len() ==> {
                    &&& is_short_id(#[trigger] r@[i].id@, "notif-"@)
                    &&& r@[i]@ == attempted(
                        r@[i].id@,
                        channel,
                        recipients@[i]@,
                        opt_text(*subject),
                        body@,
                        None,
                        outcomes@[i]@,
                    )
                },
    {
        let ghost all = outcomes@;
        let mut rest = outcomes;
        let mut r: Vec<Notification> = Vec::new();
        let n = recipients.len();
        for i in 0..n
            invariant
                n == recipients@.len(),
                n == all.len(),
                rest@ == all.skip(i as int),
                r@.len() == i,
                forall|k: int|
                    0 <= k < i ==> {
                        &&& is_short_id(#[trigger] r@[k].id@, "notif-"@)
                        &&& r@[k]@ == attempted(
                            r@[k].id@,
                            channel,
                            recipients@[k]@,
                            opt_text(*subject),
                            body@,
                            None,
                            all[k]@,
                        )
                    },
        {
            let outcome = rest.remove(0);
            assert(outcome == all[i as int]);
            assert(rest@ =~= all.skip(i + 1));
            let record = NotificationServer::attempt(
                channel,
                recipients[i].clone(),
                copy_opt_text(subject),
                body.clone(),
                None,
                outcome,
            );
            r.push(record);
        }
        r
    }
}

/// The result of recording a delivered, queued, suppressed or failed
/// notification: `ok` unless it failed, and the notification as shown.
pub struct SendReport {
    pub ok: bool,
    pub notification: Notification,
}

/// The result of a broadcast: the counts by status and the notifications as
/// shown; `ok` when none failed.
pub struct BroadcastReport {
    pub ok: bool,
    pub count: usize,
    pub delivered: usize,
    pub queued: usize,
    pub suppressed: usize,
    pub failed: usize,
    pub notifications: Vec<Notification>,
}

/// Counts of the notification log by status.
pub struct DeliveryStats {
    pub total: usize,
    pub delivered: usize,
    pub failed: usize,
    pub queued: usize,
    pub suppressed: usize,
}

/// What a template gives for one recipient: its channel and the subject and
/// body with the variables substituted.
pub struct TemplateMessage {
    pub channel: Channel,
    pub subject: Option<String>,
    pub body: String,
}

/// Why a notification cannot be retried.
pub enum RetryRefusal {
    /// There is no notification with the identifier.
    NotFound { message: String },
    /// The notification did not fail; its status.
    NotFailed { message: String, status: DeliveryStatus },
}

/// How many notifications of `s` have status `status`.
pub open spec fn count_status(s: Seq<NotificationModel>, status: DeliveryStatus) -> nat
    decreases s.len(),
{
    if s.len() == 0 {
        0
    } else {
        count_status(s.drop_last(), status) + if s.last().status == status {
            1nat
        } else {
            0nat
        }
    }
}

/// The notifications of `s` as shown.
pub open spec fn shown_all(s: Seq<NotificationModel>) -> Seq<NotificationModel> {
    s.map_values(|n: NotificationModel| shown(n))
}

/// Whether a notification passes the channel filter, which names its
/// channel (`email`, `sms`, `push`, `in_app`, `webhook` or `slack`).
pub open spec fn passes_filter(n: NotificationModel, filter: Option<Seq<char>>) -> bool {
    match filter {
        None => true,
        Some(f) => channel_label(n.channel) == f,
    }
}

/// The notifications of `s` that pass the filter, in order, as shown.
pub open spec fn listed(s: Seq<NotificationModel>, filter: Option<Seq<char>>) -> Seq<
    NotificationModel,
>
    decreases s.len(),
{
    if s.len() == 0 {
        Seq::empty()
    } else if passes_filter(s.last(), filter) {
        listed(s.drop_last(), filter).push(shown(s.last()))
    } else {
        listed(s.drop_last(), filter)
    }
}

/// The template variables as pairs; none when none were given.
pub open spec fn input_pairs(vars: Option<Vec<TemplateVariable>>) -> Seq<(Seq<char>, Seq<char>)> {
    match vars {
        Some(v) => variable_pairs(v@),
        None => Seq::empty(),
    }
}

/// The error text for an identifier that names no template.
pub open spec fn template_not_found(id: Seq<char>) -> Seq<char> {
    "template "@ + id + " not found"@
}

/// The error text for an identifier that names no notification.
pub open spec fn notification_not_found(id: Seq<char>) -> Seq<char> {
    "notification "@ + id + " not found"@
}

/// The error text for a user without preferences.
pub open spec fn no_preferences(id: Seq<char>) -> Seq<char> {
    "no preferences for user "@ + id
}

/// The error text for quiet hours that name no valid window.
pub open spec fn invalid_quiet_hours_text() -> Seq<char> {
    "quiet_hours must be HH:MM-HH:MM with valid, different start and end times"@
}

/// A stored preference with the given fields of `input` applied.
pub open spec fn updated_preference(p: PreferenceModel, input: PreferenceInput) -> PreferenceModel {
    PreferenceModel {
        user_id: p.user_id,
        email_enabled: match input.email_enabled {
            Some(v) => v,
            None => p.email_enabled,
        },
        sms_enabled: match input.sms_enabled {
            Some(v) => v,
            None => p.sms_enabled,
        },
        push_enabled: match input.push_enabled {
            Some(v) => v,
            None => p.push_enabled,
        },
        in_app_enabled: match input.in_app_enabled {
            Some(v) => v,
            None => p.in_app_enabled,
        },
        quiet_hours: match input.quiet_hours {
            Some(q) => Some(q@),
            None => p.quiet_hours,
        },
    }
}

/// The preference created from `input`: every channel not given is enabled.
pub open spec fn created_preference(input: PreferenceInput) -> PreferenceModel {
    PreferenceModel {
        user_id: input.user_id@,
        email_enabled: match input.email_enabled {
            Some(v) => v,
            None => true,
        },
        sms_enabled: match input.sms_enabled {
            Some(v) => v,
            None => true,
        },
        push_enabled: match input.push_enabled {
            Some(v) => v,
            None => true,
        },
        in_app_enabled: match input.in_app_enabled {
            Some(v) => v,
            None => true,
        },
        quiet_hours: opt_text(input.quiet_hours),
    }
}

/// The preferences after an accepted update of `input`: the first stored
/// preferences of the user updated, or new ones appended.
pub open spec fn preferences_after_update(prefs: Seq<PreferenceModel>, input: PreferenceInput) -> Seq<
    PreferenceModel,
> {
    match first_index(prefs, has_user_id(input.user_id@)) {
        Some(i) => prefs.update(i, updated_preference(prefs[i], input)),
        None => prefs.push(created_preference(input)),
    }
}

/// Whether the quiet hours of `input`, if given, name a valid window.
pub open spec fn quiet_hours_valid(input: PreferenceInput) -> bool {
    match input.quiet_hours {
        Some(q) => quiet_window(q@) is Some,
        None => true,
    }
}

/// A template created from `input` under `id`, on `channel`.
pub open spec fn created_template(id: Seq<char>, input: CreateTemplateInput, channel: Channel) -> TemplateModel {
    TemplateModel {
        id,
        name: input.name@,
        channel,
        subject: opt_text(input.subject),
        body_template: input.body_template@,
        variables: texts(input.variables@),
    }
}

/// The message for a created template.
pub open spec fn created_template_text(name: Seq<char>, id: Seq<char>) -> Seq<char> {
    "Created template '"@ + name + "' (id: "@ + id + ")"@
}

/// A notification queued for a scheduler, under `id`, on `channel`.
pub open spec fn scheduled(id: Seq<char>, input: SendInput, channel: Channel) -> NotificationModel {
    NotificationModel {
        id,
        channel,
        recipient: input.recipient@,
        subject: opt_text(input.subject),
        body: input.body@,
        status: DeliveryStatus::Queued,
        delivery_path: "scheduler_not_implemented"@,
        status_detail: "queued as a record only; no scheduler is running"@,
        template_id: None,
        attempted_at: None,
        delivered_at: None,
    }
}

/// A notification with a new delivery outcome.
pub open spec fn retried(n: NotificationModel, outcome: OutcomeModel) -> NotificationModel {
    NotificationModel {
        status: outcome.status,
        delivery_path: outcome.path,
        status_detail: outcome.detail,
        attempted_at: outcome.attempted_at,
        delivered_at: outcome.delivered_at,
        ..n
    }
}

proof fn lemma_push_models(s: Seq<Notification>, n: Notification)
    ensures
        notification_models(s.push(n)) == notification_models(s).push(n@),
{
    assert(notification_models(s.push(n)) =~= notification_models(s).push(n@));
}

/// Counts by status add over an appended log: the statistics after a
/// broadcast are those before it plus the broadcast's own counts.
pub proof fn law_counts_add_over_append(a: Seq<NotificationModel>, b: Seq<NotificationModel>, st: DeliveryStatus)
    ensures
        count_status(a + b, st) == count_status(a, st) + count_status(b, st),
    decreases b.len(),
{
    if b.len() == 0 {
        assert(a + b =~= a);
    } else {
        law_counts_add_over_append(a, b.drop_last(), st);
        assert((a + b).drop_last() =~= a + b.drop_last());
    }
}

/// The four counts by status add up to the number of notifications.
pub proof fn law_status_counts_total(s: Seq<NotificationModel>)
    ensures
        count_status(s, DeliveryStatus::Delivered) + count_status(s, DeliveryStatus::Failed)
            + count_status(s, DeliveryStatus::Queued) + count_status(s, DeliveryStatus::Suppressed)
            == s.len(),
    decreases s.len(),
{
    if s.len() > 0 {
        law_status_counts_total(s.drop_last());
    }
}

proof fn lemma_count_status_bound(s: Seq<NotificationModel>, st: DeliveryStatus)
    ensures
        count_status(s, st) <= s.len(),
    decreases s.len(),
{
    if s.len() > 0 {
        lemma_count_status_bound(s.drop_last(), st);
    }
}

/// Counts, by status, the notifications of `v`.
fn count_by_status(v: &Vec<Notification>) -> (r: (usize, usize, usize, usize))
    ensures
        r.0 == count_status(notification_models(v@), DeliveryStatus::Delivered),
        r.1 == count_status(notification_models(v@), DeliveryStatus::Failed),
        r.2 == count_status(notification_models(v@), DeliveryStatus::Queued),
        r.3 == count_status(notification_models(v@), DeliveryStatus::Suppressed),
{
    let ghost s = notification_models(v@);
    let mut delivered: usize = 0;
    let mut failed: usize = 0;
    let mut queued: usize = 0;
    let mut suppressed: usize = 0;
    for i in 0..v.len()
        invariant
            s == notification_models(v@),
            delivered == count_status(s.take(i as int), DeliveryStatus::Delivered),
            failed == count_status(s.take(i as int), DeliveryStatus::Failed),
            queued == count_status(s.take(i as int), DeliveryStatus::Queued),
            suppressed == count_status(s.take(i as int), DeliveryStatus::Suppressed),
    {
        proof {
            assert(s.take(i + 1).drop_last() =~= s.take(i as int));
            lemma_count_status_bound(s.take(i as int), DeliveryStatus::Delivered);
            lemma_count_status_bound(s.take(i as int), DeliveryStatus::Failed);
            lemma_count_status_bound(s.take(i as int), DeliveryStatus::Queued);
            lemma_count_status_bound(s.take(i as int), DeliveryStatus::Suppressed);
        }
        match v[i].status {
            DeliveryStatus::Delivered => delivered = delivered + 1,
            DeliveryStatus::Failed => failed = failed + 1,
            DeliveryStatus::Queued => queued = queued + 1,
            DeliveryStatus::Suppressed => suppressed = suppressed + 1,
        }
    }
    assert(s.take(v.len() as int) =~= s);
    (delivered, failed, queued, suppressed)
}

/// The notifications of `v` as shown.
fn views_of(v: &Vec<Notification>) -> (r: Vec<Notification>)
    ensures
        notification_models(r@) == shown_all(notification_models(v@)),
{
    let mut r: Vec<Notification> = Vec::new();
    for i in 0..v.len()
        invariant
            r@.len() == i,
            forall|j: int| 0 <= j < i ==> #[trigger] r@[j]@ == shown(v@[j]@),
    {
        r.push(notification_view(&v[i]));
    }
    assert(notification_models(r@) =~= shown_all(notification_models(v@)));
    r
}

/// The text of a message made of three parts.
fn join3(a: &str, b: &str, c: &str) -> (r: String)
    ensures
        r@ == a@ + b@ + c@,
{
    let mut r = String::from_str(a);
    r.append(b);
    r.append(c);
    r
}

impl NotificationServer {
    /// Records an attempted notification in the log; the result is `ok`
    /// unless the notification failed, and shows it redacted.
    pub fn record_delivery(&mut self, notification: Notification) -> (r: SendReport)
        ensures
            final(self)@.notifications == old(self)@.notifications.push(notification@),
            final(self)@.templates == old(self)@.templates,
            final(self)@.preferences == old(self)@.preferences,
            r.ok == (notification.status != DeliveryStatus::Failed),
            r.notification@ == shown(notification@),
    {
        let view = notification_view(&notification);
        let ok = notification.status != DeliveryStatus::Failed;
        proof {
            lemma_push_models(self.notifications@, notification);
        }
        self.notifications.push(notification);
        SendReport { ok, notification: view }
    }

    /// What the template `input.template_id` gives with the input's
    /// variables: its channel and the rendered subject and body.
    pub fn prepare_template_send(&self, input: &SendTemplateInput) -> (r: Result<TemplateMessage, String>)
        ensures
            match first_index(self@.templates, has_template_id(input.template_id@)) {
                None => r matches Err(e) && e@ == template_not_found(input.template_id@),
                Some(i) => r matches Ok(m) && {
                    let t = self@.templates[i];
                    let pairs = input_pairs(input.variables);
                    &&& m.channel == t.channel
                    &&& m.body@ == render_text(t.body_template, pairs)
                    &&& opt_text(m.subject) == match t.subject {
                        Some(s) => Some(render_text(s, pairs)),
                        None => None,
                    }
                },
            },
    {
        let i = match self.find_template(input.template_id.as_str()) {
            None => return Err(join3("template ", input.template_id.as_str(), " not found")),
            Some(i) => i,
        };
        let t = &self.templates[i];
        let empty: Vec<TemplateVariable> = Vec::new();
        let vars = match &input.variables {
            Some(v) => v,
            None => &empty,
        };
        assert(variable_pairs(vars@) == input_pairs(input.variables)) by {
            if input.variables is None {
                assert(variable_pairs(vars@) =~= Seq::empty());
            }
        }
        let body = render(t.body_template.as_str(), vars);
        let subject = match &t.subject {
            Some(s) => Some(render(s.as_str(), vars)),
            None => None,
        };
        Ok(TemplateMessage { channel: t.channel, subject, body })
    }

    /// Records the notifications of a broadcast and counts them by status.
    pub fn record_broadcast(&mut self, created: Vec<Notification>) -> (r: BroadcastReport)
        ensures
            final(self)@.notifications == old(self)@.notifications + notification_models(created@),
            final(self)@.templates == old(self)@.templates,
            final(self)@.preferences == old(self)@.preferences,
            r.count == created@.len(),
            r.delivered == count_status(notification_models(created@), DeliveryStatus::Delivered),
            r.queued == count_status(notification_models(created@), DeliveryStatus::Queued),
            r.suppressed == count_status(notification_models(created@), DeliveryStatus::Suppressed),
            r.failed == created@.len() - r.delivered - r.queued - r.suppressed,
            r.failed == count_status(notification_models(created@), DeliveryStatus::Failed),
            r.ok == (r.failed == 0),
            notification_models(r.notifications@) == shown_all(notification_models(created@)),
    {
        let mut created = created;
        let (delivered, failed_count, queued, suppressed) = count_by_status(&created);
        proof {
            law_status_counts_total(notification_models(created@));
        }
        let count = created.len();
        let failed = count - delivered - queued - suppressed;
        let views = views_of(&created);
        let ghost added = created@;
        self.notifications.append(&mut created);
        assert(notification_models(old(self).notifications@ + added) =~= old(self)@.notifications
            + notification_models(added));
        BroadcastReport { ok: failed == 0, count, delivered, queued, suppressed, failed, notifications: views }
    }

    /// The notifications, as shown, whose channel is named `channel`, or all
    /// of them.
    pub fn list_notifications(&self, channel: Option<&str>) -> (r: Vec<Notification>)
        ensures
            notification_models(r@) == listed(self@.notifications, opt_str(channel)),
    {
        let ghost s = self@.notifications;
        let mut r: Vec<Notification> = Vec::new();
        for i in 0..self.notifications.len()
            invariant
                s == notification_models(self.notifications@),
                notification_models(r@) == listed(s.take(i as int), opt_str(channel)),
        {
            let n = &self.notifications[i];
            let keep = match channel {
                None => true,
                Some(c) => same_text(channel_name(n.channel), c),
            };
            proof {
                assert(s.take(i + 1).drop_last() =~= s.take(i as int));
                assert(s.take(i + 1).last() == n@);
            }
            if keep {
                let ghost prev = r@;
                r.push(notification_view(n));
                proof {
                    lemma_push_models(prev, r@.last());
                    assert(r@ == prev.push(r@.last()));
                }
            }
        }
        assert(s.take(self.notifications.len() as int) =~= s);
        r
    }

    /// The notification with identifier `id`, as shown.
    pub fn get_status(&self, id: &str) -> (r: Result<Notification, String>)
        ensures
            match first_index(self@.notifications, has_notification_id(id@)) {
                None => r matches Err(e) && e@ == notification_not_found(id@),
                Some(i) => r matches Ok(n) && n@ == shown(self@.notifications[i]),
            },
    {
        match self.find_notification(id) {
            None => Err(join3("notification ", id, " not found")),
            Some(i) => Ok(notification_view(&self.notifications[i])),
        }
    }

    /// All templates.
    pub fn list_templates(&self) -> (r: Vec<Template>)
        ensures
            template_models(r@) == self@.templates,
    {
        let mut r: Vec<Template> = Vec::new();
        for i in 0..self.templates.len()
            invariant
                r@.len() == i,
                forall|j: int| 0 <= j < i ==> #[trigger] r@[j]@ == self.templates@[j]@,
        {
            r.push(self.templates[i].duplicate());
        }
        assert(template_models(r@) =~= self@.templates);
        r
    }

    /// The template with identifier `id`.
    pub fn get_template(&self, id: &str) -> (r: Result<Template, String>)
        ensures
            match first_index(self@.templates, has_template_id(id@)) {
                None => r matches Err(e) && e@ == template_not_found(id@),
                Some(i) => r matches Ok(t) && t@ == self@.templates[i],
            },
    {
        match self.find_template(id) {
            None => Err(join3("template ", id, " not found")),
            Some(i) => Ok(self.templates[i].duplicate()),
        }
    }

    /// The preferences of user `id`.
    pub fn get_preferences(&self, id: &str) -> (r: Result<Preference, String>)
        ensures
            match first_index(self@.preferences, has_user_id(id@)) {
                None => r matches Err(e) && e@ == no_preferences(id@),
                Some(i) => r matches Ok(p) && p@ == self@.preferences[i],
            },
    {
        match self.find_preference(id) {
            None => Err(concat("no preferences for user ", id)),
            Some(i) => Ok(self.preferences[i].duplicate()),
        }
    }

    /// Counts of all notifications by status.
    pub fn get_delivery_stats(&self) -> (r: DeliveryStats)
        ensures
            r.total == self@.notifications.len(),
            r.delivered == count_status(self@.notifications, DeliveryStatus::Delivered),
            r.failed == count_status(self@.notifications, DeliveryStatus::Failed),
            r.queued == count_status(self@.notifications, DeliveryStatus::Queued),
            r.suppressed == count_status(self@.notifications, DeliveryStatus::Suppressed),
    {
        let (delivered, failed, queued, suppressed) = count_by_status(&self.notifications);
        DeliveryStats { total: self.notifications.len(), delivered, failed, queued, suppressed }
    }
}

proof fn lemma_push_templates(s: Seq<Template>, t: Template)
    ensures
        template_models(s.push(t)) == template_models(s).push(t@),
{
    assert(template_models(s.push(t)) =~= template_models(s).push(t@));
}

proof fn lemma_push_preferences(s: Seq<Preference>, p: Preference)
    ensures
        preference_models(s.push(p)) == preference_models(s).push(p@),
{
    assert(preference_models(s.push(p)) =~= preference_models(s).push(p@));
}

proof fn lemma_set_preferences(s: Seq<Preference>, i: int, p: Preference)
    requires
        0 <= i < s.len(),
    ensures
        preference_models(s.update(i, p)) == preference_models(s).update(i, p@),
{
    assert(preference_models(s.update(i, p)) =~= preference_models(s).update(i, p@));
}

proof fn lemma_set_notifications(s: Seq<Notification>, i: int, n: Notification)
    requires
        0 <= i < s.len(),
    ensures
        notification_models(s.update(i, n)) == notification_models(s).update(i, n@),
{
    assert(notification_models(s.update(i, n)) =~= notification_models(s).update(i, n@));
}

impl NotificationServer {
    /// Creates a template under the identifier `id`; on a name that is no
    /// channel, the state is unchanged and the error names it.
    pub fn create_template_with_id(&mut self, input: CreateTemplateInput, id: String) -> (r: Result<
        String,
        String,
    >)
        ensures
            match r {
                Ok(message) => exists|channel: Channel| {
                    &&& channel_label(channel) == input.channel@
                    &&& final(self)@.templates == old(self)@.templates.push(
                        created_template(id@, input, channel),
                    )
                    &&& message@ == created_template_text(input.name@, id@)
                },
                Err(e) => {
                    &&& forall|channel: Channel| channel_label(channel) != input.channel@
                    &&& e@ == unsupported_channel_text(input.channel@)
                    &&& final(self)@.templates == old(self)@.templates
                },
            },
            final(self)@.notifications == old(self)@.notifications,
            final(self)@.preferences == old(self)@.preferences,
    {
        let channel = match parse_channel(input.channel.as_str()) {
            Ok(channel) => channel,
            Err(error) => return Err(error),
        };
        let mut message = join3("Created template '", input.name.as_str(), "' (id: ");
        message.append(id.as_str());
        message.append(")");
        let CreateTemplateInput { name, channel: _, subject, body_template, variables } = input;
        let template = Template { id, name, channel, subject, body_template, variables };
        proof {
            lemma_push_templates(self.templates@, template);
        }
        self.templates.push(template);
        Ok(message)
    }

    /// Creates a template under a fresh identifier `tpl-` and eight hex digits.
    pub fn create_template(&mut self, input: CreateTemplateInput) -> (r: Result<String, String>)
        ensures
            match r {
                Ok(message) => exists|channel: Channel, id: Seq<char>| {
                    &&& is_short_id(id, "tpl-"@)
                    &&& channel_label(channel) == input.channel@
                    &&& final(self)@.templates == old(self)@.templates.push(
                        created_template(id, input, channel),
                    )
                    &&& message@ == created_template_text(input.name@, id)
                },
                Err(e) => {
                    &&& forall|channel: Channel| channel_label(channel) != input.channel@
                    &&& e@ == unsupported_channel_text(input.channel@)
                    &&& final(self)@.templates == old(self)@.templates
                },
            },
            final(self)@.notifications == old(self)@.notifications,
            final(self)@.preferences == old(self)@.preferences,
    {
        let id = fresh_id("tpl-");
        let ghost gid = id@;
        let r = self.create_template_with_id(input, id);
        assert(is_short_id(gid, "tpl-"@));
        r
    }

    /// Updates the preferences of `input.user_id` with the fields given, or
    /// creates them with every channel not given enabled; refused, with the
    /// state unchanged, when the quiet hours given name no valid window.
    pub fn update_preferences(&mut self, input: PreferenceInput) -> (r: Result<String, String>)
        ensures
            !quiet_hours_valid(input) ==> {
                &&& r matches Err(e) && e@ == invalid_quiet_hours_text()
                &&& final(self)@.preferences == old(self)@.preferences
            },
            quiet_hours_valid(input) ==> final(self)@.preferences == preferences_after_update(
                old(self)@.preferences,
                input,
            ),
            quiet_hours_valid(input) ==> (r matches Ok(m) && m@ == if first_index(
                old(self)@.preferences,
                has_user_id(input.user_id@),
            ) is Some {
                "Updated preferences for "@ + input.user_id@
            } else {
                "Created preferences for "@ + input.user_id@
            }),
            final(self)@.notifications == old(self)@.notifications,
            final(self)@.templates == old(self)@.templates,
    {
        if let Some(q) = &input.quiet_hours {
            if parse_quiet_hours(q.as_str()).is_none() {
                return Err(
                    String::from_str(
                        "quiet_hours must be HH:MM-HH:MM with valid, different start and end times",
                    ),
                );
            }
        }
        match self.find_preference(input.user_id.as_str()) {
            Some(i) => {
                let old_p = &self.preferences[i];
                let p = Preference {
                    user_id: old_p.user_id.clone(),
                    email_enabled: match input.email_enabled {
                        Some(v) => v,
                        None => old_p.email_enabled,
                    },
                    sms_enabled: match input.sms_enabled {
                        Some(v) => v,
                        None => old_p.sms_enabled,
                    },
                    push_enabled: match input.push_enabled {
                        Some(v) => v,
                        None => old_p.push_enabled,
                    },
                    in_app_enabled: match input.in_app_enabled {
                        Some(v) => v,
                        None => old_p.in_app_enabled,
                    },
                    quiet_hours: match &input.quiet_hours {
                        Some(q) => Some(q.clone()),
                        None => copy_opt_text(&old_p.quiet_hours),
                    },
                };
                proof {
                    lemma_set_preferences(self.preferences@, i as int, p);
                }
                self.preferences.set(i, p);
                Ok(concat("Updated preferences for ", input.user_id.as_str()))
            },
            None => {
                let message = concat("Created preferences for ", input.user_id.as_str());
                let p = Preference {
                    user_id: input.user_id,
                    email_enabled: match input.email_enabled {
                        Some(v) => v,
                        None => true,
                    },
                    sms_enabled: match input.sms_enabled {
                        Some(v) => v,
                        None => true,
                    },
                    push_enabled: match input.push_enabled {
                        Some(v) => v,
                        None => true,
                    },
                    in_app_enabled: match input.in_app_enabled {
                        Some(v) => v,
                        None => true,
                    },
                    quiet_hours: input.quiet_hours,
                };
                proof {
                    lemma_push_preferences(self.preferences@, p);
                }
                self.preferences.push(p);
                Ok(message)
            },
        }
    }

    /// Queues a notification record under `id` for a scheduler; no delivery
    /// is attempted. On a name that is no channel, nothing is recorded.
    pub fn schedule_notification_with_id(&mut self, input: SendInput, id: String) -> (r: Result<
        String,
        String,
    >)
        ensures
            match r {
                Ok(given) => exists|channel: Channel| {
                    &&& channel_label(channel) == input.channel@
                    &&& given@ == id@
                    &&& final(self)@.notifications == old(self)@.notifications.push(
                        scheduled(id@, input, channel),
                    )
                },
                Err(e) => {
                    &&& forall|channel: Channel| channel_label(channel) != input.channel@
                    &&& e@ == unsupported_channel_text(input.channel@)
                    &&& final(self)@.notifications == old(self)@.notifications
                },
            },
            final(self)@.templates == old(self)@.templates,
            final(self)@.preferences == old(self)@.preferences,
    {
        let channel = match parse_channel(input.channel.as_str()) {
            Ok(channel) => channel,
            Err(error) => return Err(error),
        };
        let given = id.clone();
        let SendInput { channel: _, recipient, subject, body } = input;
        let notification = Notification {
            id,
            channel,
            recipient,
            subject,
            body,
            status: DeliveryStatus::Queued,
            delivery_path: String::from_str("scheduler_not_implemented"),
            status_detail: String::from_str("queued as a record only; no scheduler is running"),
            template_id: None,
            attempted_at: None,
            delivered_at: None,
        };
        proof {
            lemma_push_models(self.notifications@, notification);
        }
        self.notifications.push(notification);
        Ok(given)
    }

    /// Queues a notification record for a scheduler under a fresh identifier
    /// `notif-` and eight hex digits, which it returns.
    pub fn schedule_notification(&mut self, input: SendInput) -> (r: Result<String, String>)
        ensures
            match r {
                Ok(id) => exists|channel: Channel| {
                    &&& is_short_id(id@, "notif-"@)
                    &&& channel_label(channel) == input.channel@
                    &&& final(self)@.notifications == old(self)@.notifications.push(
                        scheduled(id@, input, channel),
                    )
                },
                Err(e) => {
                    &&& forall|channel: Channel| channel_label(channel) != input.channel@
                    &&& e@ == unsupported_channel_text(input.channel@)
                    &&& final(self)@.notifications == old(self)@.notifications
                },
            },
            final(self)@.templates == old(self)@.templates,
            final(self)@.preferences == old(self)@.preferences,
    {
        let id = fresh_id("notif-");
        let ghost gid = id@;
        let r = self.schedule_notification_with_id(input, id);
        assert(is_short_id(gid, "notif-"@));
        r
    }

    /// The notification `id`, whole, when it may be retried: only a failed
    /// notification may.
    pub fn retry_target(&self, id: &str) -> (r: Result<Notification, RetryRefusal>)
        ensures
            match first_index(self@.notifications, has_notification_id(id@)) {
                None => r matches Err(RetryRefusal::NotFound { message }) && message@
                    == notification_not_found(id@),
                Some(i) => if self@.notifications[i].status == DeliveryStatus::Failed {
                    r matches Ok(n) && n@ == self@.notifications[i]
                } else {
                    r matches Err(RetryRefusal::NotFailed { message, status }) && message@
                        == "notification "@ + id@ + " is not failed"@ && status
                        == self@.notifications[i].status
                },
            },
    {
        match self.find_notification(id) {
            None => Err(RetryRefusal::NotFound { message: join3("notification ", id, " not found") }),
            Some(i) => {
                let n = &self.notifications[i];
                if n.status != DeliveryStatus::Failed {
                    Err(
                        RetryRefusal::NotFailed {
                            message: join3("notification ", id, " is not failed"),
                            status: n.status,
                        },
                    )
                } else {
                    Ok(n.duplicate())
                }
            },
        }
    }

    /// Stores the outcome of a retried delivery in the notification `id`;
    /// the result is `ok` unless it failed again, and shows the notification.
    pub fn apply_retry(&mut self, id: &str, outcome: DeliveryOutcome) -> (r: SendReport)
        requires
            first_index(old(self)@.notifications, has_notification_id(id@)) is Some,
        ensures
            ({
                let i = first_index(old(self)@.notifications, has_notification_id(id@))->0;
                let n = retried(old(self)@.notifications[i], outcome@);
                &&& final(self)@.notifications == old(self)@.notifications.update(i, n)
                &&& r.ok == (outcome.status != DeliveryStatus::Failed)
                &&& r.notification@ == shown(n)
            }),
            final(self)@.templates == old(self)@.templates,
            final(self)@.preferences == old(self)@.preferences,
    {
        proof {
            lemma_first_index_some(self@.notifications, has_notification_id(id@));
        }
        let i = match self.find_notification(id) {
            Some(i) => i,
            None => {
                // ruled out by the requirement
                assert(false);
                0
            },
        };
        let old_n = &self.notifications[i];
        let ok = outcome.status != DeliveryStatus::Failed;
        let DeliveryOutcome { status, path, detail, attempted_at, delivered_at } = outcome;
        let n = Notification {
            id: old_n.id.clone(),
            channel: old_n.channel,
            recipient: old_n.recipient.clone(),
            subject: copy_opt_text(&old_n.subject),
            body: old_n.body.clone(),
            status,
            delivery_path: path,
            status_detail: detail,
            template_id: copy_opt_text(&old_n.template_id),
            attempted_at,
            delivered_at,
        };
        let view = notification_view(&n);
        proof {
            lemma_set_notifications(self.notifications@, i as int, n);
        }
        self.notifications.set(i, n);
        SendReport { ok, notification: view }
    }
}

} // verus!

use vstd::prelude::*;

verus! {

/// A delivery channel.
#[derive(Debug, Clone, Copy, PartialEq, Eq, Structural)]
pub enum Channel {
    Email,
    Sms,
    Push,
    InApp,
    Webhook,
    Slack,
}

/// Where a notification stands.
#[derive(Debug, Clone, Copy, PartialEq, Eq, Structural)]
pub enum DeliveryStatus {
    /// A local in-app or scheduler record; no delivery was attempted.
    Queued,
    /// A delivery endpoint answered with a 2xx status.
    Delivered,
    /// A channel preference or quiet hours prevented an attempt.
    Suppressed,
    /// No delivery path, a transport failure, or a non-2xx answer.
    Failed,
}

/// A notification record.
#[derive(Debug)]
pub struct Notification {
    pub id: String,
    pub channel: Channel,
    pub recipient: String,
    pub subject: Option<String>,
    pub body: String,
    pub status: DeliveryStatus,
    pub delivery_path: String,
    pub status_detail: String,
    pub template_id: Option<String>,
    pub attempted_at: Option<String>,
    pub delivered_at: Option<String>,
}

/// A notification template with `{{name}}` placeholders.
#[derive(Debug)]
pub struct Template {
    pub id: String,
    pub name: String,
    pub channel: Channel,
    pub subject: Option<String>,
    pub body_template: String,
    pub variables: Vec<String>,
}

/// The channel preferences and quiet hours of one user.
#[derive(Debug)]
pub struct Preference {
    pub user_id: String,
    pub email_enabled: bool,
    pub sms_enabled: bool,
    pub push_enabled: bool,
    pub in_app_enabled: bool,
    pub quiet_hours: Option<String>,
}

/// The characters of an optional string.
pub open spec fn opt_text(o: Option<String>) -> Option<Seq<char>> {
    match o {
        Some(s) => Some(s@),
        None => None,
    }
}

/// A notification as values.
pub struct NotificationModel {
    pub id: Seq<char>,
    pub channel: Channel,
    pub recipient: Seq<char>,
    pub subject: Option<Seq<char>>,
    pub body: Seq<char>,
    pub status: DeliveryStatus,
    pub delivery_path: Seq<char>,
    pub status_detail: Seq<char>,
    pub template_id: Option<Seq<char>>,
    pub attempted_at: Option<Seq<char>>,
    pub delivered_at: Option<Seq<char>>,
}

/// A template as values.
pub struct TemplateModel {
    pub id: Seq<char>,
    pub name: Seq<char>,
    pub channel: Channel,
    pub subject: Option<Seq<char>>,
    pub body_template: Seq<char>,
    pub variables: Seq<Seq<char>>,
}

/// A preference as values.
pub struct PreferenceModel {
    pub user_id: Seq<char>,
    pub email_enabled: bool,
    pub sms_enabled: bool,
    pub push_enabled: bool,
    pub in_app_enabled: bool,
    pub quiet_hours: Option<Seq<char>>,
}

impl View for Notification {
    type V = NotificationModel;

    open spec fn view(&self) -> NotificationModel {
        NotificationModel {
            id: self.id@,
            channel: self.channel,
            recipient: self.recipient@,
            subject: opt_text(self.subject),
            body: self.body@,
            status: self.status,
            delivery_path: self.delivery_path@,
            status_detail: self.status_detail@,
            template_id: opt_text(self.template_id),
            attempted_at: opt_text(self.attempted_at),
            delivered_at: opt_text(self.delivered_at),
        }
    }
}

/// The characters of each string in a sequence.
pub open spec fn texts(s: Seq<String>) -> Seq<Seq<char>> {
    s.map_values(|t: String| t@)
}

impl View for Template {
    type V = TemplateModel;

    open spec fn view(&self) -> TemplateModel {
        TemplateModel {
            id: self.id@,
            name: self.name@,
            channel: self.channel,
            subject: opt_text(self.subject),
            body_template: self.body_template@,
            variables: texts(self.variables@),
        }
    }
}

impl View for Preference {
    type V = PreferenceModel;

    open spec fn view(&self) -> PreferenceModel {
        PreferenceModel {
            user_id: self.user_id@,
            email_enabled: self.email_enabled,
            sms_enabled: self.sms_enabled,
            push_enabled: self.push_enabled,
            in_app_enabled: self.in_app_enabled,
            quiet_hours: opt_text(self.quiet_hours),
        }
    }
}

/// A copy of an optional string.
pub fn copy_opt_text(o: &Option<String>) -> (r: Option<String>)
    ensures
        opt_text(r) == opt_text(*o),
{
    match o {
        Some(s) => Some(s.clone()),
        None => None,
    }
}

/// A copy of a list of strings.
pub fn copy_texts(v: &Vec<String>) -> (r: Vec<String>)
    ensures
        texts(r@) == texts(v@),
{
    let mut r: Vec<String> = Vec::new();
    for i in 0..v.len()
        invariant
            r@.len() == i,
            forall|j: int| 0 <= j < i ==> #[trigger] r@[j]@ == v@[j]@,
    {
        r.push(v[i].clone());
    }
    assert(texts(r@) =~= texts(v@));
    r
}

impl Notification {
    /// A copy of this notification.
    pub fn duplicate(&self) -> (r: Notification)
        ensures
            r@ == self@,
    {
        Notification {
            id: self.id.clone(),
            channel: self.channel,
            recipient: self.recipient.clone(),
            subject: copy_opt_text(&self.subject),
            body: self.body.clone(),
            status: self.status,
            delivery_path: self.delivery_path.clone(),
            status_detail: self.status_detail.clone(),
            template_id: copy_opt_text(&self.template_id),
            attempted_at: copy_opt_text(&self.attempted_at),
            delivered_at: copy_opt_text(&self.delivered_at),
        }
    }
}

impl Template {
    /// A copy of this template.
    pub fn duplicate(&self) -> (r: Template)
        ensures
            r@ == self@,
    {
        Template {
            id: self.id.clone(),
            name: self.name.clone(),
            channel: self.channel,
            subject: copy_opt_text(&self.subject),
            body_template: self.body_template.clone(),
            variables: copy_texts(&self.variables),
        }
    }
}

impl Preference {
    /// A copy of this preference.
    pub fn duplicate(&self) -> (r: Preference)
        ensures
            r@ == self@,
    {
        Preference {
            user_id: self.user_id.clone(),
            email_enabled: self.email_enabled,
            sms_enabled: self.sms_enabled,
            push_enabled: self.push_enabled,
            in_app_enabled: self.in_app_enabled,
            quiet_hours: copy_opt_text(&self.quiet_hours),
        }
    }
}

} // verus!

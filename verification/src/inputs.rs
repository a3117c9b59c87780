use vstd::prelude::*;

use crate::template::TemplateVariable;

verus! {

/// A request without arguments.
pub struct EmptyInput {}

/// A request naming one record by its identifier.
pub struct IdInput {
    pub id: String,
}

/// A request to send (or schedule) one notification.
pub struct SendInput {
    /// `email`, `sms`, `push`, `in_app`, `webhook` or `slack`.
    pub channel: String,
    pub recipient: String,
    pub subject: Option<String>,
    pub body: String,
}

/// A request to send a notification made from a template.
pub struct SendTemplateInput {
    pub template_id: String,
    pub recipient: String,
    /// The variables of a JSON object, in its order; `None` when none or no
    /// object was given.
    pub variables: Option<Vec<TemplateVariable>>,
}

/// A request to send one notification to several recipients.
pub struct BroadcastInput {
    pub channel: String,
    pub recipients: Vec<String>,
    pub subject: Option<String>,
    pub body: String,
}

/// A request to create a template.
pub struct CreateTemplateInput {
    pub name: String,
    pub channel: String,
    pub subject: Option<String>,
    pub body_template: String,
    pub variables: Vec<String>,
}

/// A request to update (or create) the preferences of a user; each field
/// left out keeps its value (or defaults to enabled for a new user).
pub struct PreferenceInput {
    pub user_id: String,
    pub email_enabled: Option<bool>,
    pub sms_enabled: Option<bool>,
    pub push_enabled: Option<bool>,
    pub in_app_enabled: Option<bool>,
    pub quiet_hours: Option<String>,
}

/// A request to list notifications, optionally of one channel.
pub struct ChannelFilterInput {
    pub channel: Option<String>,
}

} // verus!

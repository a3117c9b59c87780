use vstd::prelude::*;

use crate::domain::Channel;
use crate::text::{concat, push_char, same_text};

verus! {

/// The name of a channel in requests and payloads.
pub open spec fn channel_label(channel: Channel) -> Seq<char> {
    match channel {
        Channel::Email => "email"@,
        Channel::Sms => "sms"@,
        Channel::Push => "push"@,
        Channel::InApp => "in_app"@,
        Channel::Webhook => "webhook"@,
        Channel::Slack => "slack"@,
    }
}

/// The error text for a name that is no channel.
pub open spec fn unsupported_channel_text(name: Seq<char>) -> Seq<char> {
    "unsupported channel: "@ + name
}

/// Reads a channel from its name: `email`, `sms`, `push`, `in_app`,
/// `webhook` or `slack`.
pub fn parse_channel(s: &str) -> (r: Result<Channel, String>)
    ensures
        match r {
            Ok(channel) => channel_label(channel) == s@,
            Err(message) => {
                &&& forall|channel: Channel| channel_label(channel) != s@
                &&& message@ == unsupported_channel_text(s@)
            },
        },
{
    if same_text(s, "email") {
        Ok(Channel::Email)
    } else if same_text(s, "sms") {
        Ok(Channel::Sms)
    } else if same_text(s, "push") {
        Ok(Channel::Push)
    } else if same_text(s, "in_app") {
        Ok(Channel::InApp)
    } else if same_text(s, "webhook") {
        Ok(Channel::Webhook)
    } else if same_text(s, "slack") {
        Ok(Channel::Slack)
    } else {
        Err(concat("unsupported channel: ", s))
    }
}

/// The name of a channel.
pub fn channel_name(channel: Channel) -> (r: &'static str)
    ensures
        r@ == channel_label(channel),
{
    match channel {
        Channel::Email => "email",
        Channel::Sms => "sms",
        Channel::Push => "push",
        Channel::InApp => "in_app",
        Channel::Webhook => "webhook",
        Channel::Slack => "slack",
    }
}

/// A character in ASCII upper case.
pub open spec fn upper_char(c: char) -> char {
    if 'a' <= c <= 'z' {
        ((c as u32) - 32) as char
    } else {
        c
    }
}

/// A string in ASCII upper case.
pub open spec fn ascii_upper(s: Seq<char>) -> Seq<char> {
    s.map_values(|c: char| upper_char(c))
}

/// The string in ASCII upper case.
pub fn to_ascii_upper(s: &str) -> (r: String)
    ensures
        r@ == ascii_upper(s@),
{
    let mut r = String::new();
    for c in it: s.chars()
        invariant
            r@ == ascii_upper(it.seq().take(it.index())),
    {
        let ghost prev = it.seq().take(it.index());
        let u = if 'a' <= c && c <= 'z' {
            ((c as u8) - 32) as char
        } else {
            c
        };
        push_char(&mut r, u);
        assert(it.seq().take(it.index() + 1) =~= prev.push(c));
        assert(ascii_upper(prev.push(c)) =~= ascii_upper(prev).push(upper_char(c)));
    }
    r
}

/// The name of the environment variable that holds a channel's gateway
/// endpoint: `MCP_NOTIFICATIONS_<CHANNEL>_ENDPOINT`.
pub open spec fn gateway_key_text(channel: Channel) -> Seq<char> {
    "MCP_NOTIFICATIONS_"@ + ascii_upper(channel_label(channel)) + "_ENDPOINT"@
}

/// The name of the environment variable that holds a channel's gateway endpoint.
pub fn gateway_env_key(channel: Channel) -> (r: String)
    ensures
        r@ == gateway_key_text(channel),
{
    let upper = to_ascii_upper(channel_name(channel));
    let mut key = String::from_str("MCP_NOTIFICATIONS_");
    key.append(upper.as_str());
    key.append("_ENDPOINT");
    key
}

/// Two channels have the same name only if they are the same channel, so
/// reading the name of a channel gives that channel back.
pub proof fn law_channel_names_distinct(a: Channel, b: Channel)
    requires
        channel_label(a) == channel_label(b),
    ensures
        a == b,
{
    reveal_strlit("email");
    reveal_strlit("sms");
    reveal_strlit("push");
    reveal_strlit("in_app");
    reveal_strlit("webhook");
    reveal_strlit("slack");
    let x = channel_label(a);
    assert(x[0] == channel_label(b)[0] && x[1] == channel_label(b)[1]);
    match a {
        Channel::Email => assert(x[0] == 'e' && x[1] == 'm'),
        Channel::Sms => assert(x[0] == 's' && x[1] == 'm'),
        Channel::Push => assert(x[0] == 'p'),
        Channel::InApp => assert(x[0] == 'i'),
        Channel::Webhook => assert(x[0] == 'w'),
        Channel::Slack => assert(x[0] == 's' && x[1] == 'l'),
    }
    match b {
        Channel::Email => assert(channel_label(b)[0] == 'e' && channel_label(b)[1] == 'm'),
        Channel::Sms => assert(channel_label(b)[0] == 's' && channel_label(b)[1] == 'm'),
        Channel::Push => assert(channel_label(b)[0] == 'p'),
        Channel::InApp => assert(channel_label(b)[0] == 'i'),
        Channel::Webhook => assert(channel_label(b)[0] == 'w'),
        Channel::Slack => assert(channel_label(b)[0] == 's' && channel_label(b)[1] == 'l'),
    }
}

} // verus!

use vstd::prelude::*;

use crate::delivery::{
    law_scrubbed_hides_redacted, pair_texts, planned_step, redaction_pairs, scrubbed_reply,
    suppressed_outcome, DeliveryRequest, DeliveryStep, HttpReply, OutcomeModel,
};
use crate::endpoint::{redacted_text, url_parse_result};
use crate::domain::{Channel, DeliveryStatus, NotificationModel, PreferenceModel, TemplateModel};
use crate::endpoint::endpoint_decision;
use crate::quiet_hours::{quiet_at, quiet_window};
use crate::server::{
    created_preference, first_index, preferences_after_update, has_notification_id, has_template_id, has_user_id,
    lemma_first_index_is, lemma_first_index_none, lemma_first_index_some, retried,
    updated_preference,
};
use crate::inputs::PreferenceInput;
use crate::delivery::{reply_outcome, reply_text};
use crate::server::{count_status, listed, shown, suppression_at};
use crate::delivery::{payload_for, PayloadModel};
use crate::endpoint::{endpoint_candidate, endpoint_check, UrlModel};
use crate::channel::channel_label;
use crate::template::{occurs_in, placeholder, render_text, replace_all};
use crate::text::has_prefix;

verus! {

/// No delivery is decided as delivered before a request was sent: a planned
/// step that is already done is suppressed, queued or failed.
pub proof fn law_plan_never_delivers(
    step: DeliveryStep,
    suppression: Option<Seq<char>>,
    channel: Channel,
    recipient: Seq<char>,
    subject: Option<Seq<char>>,
    body: Seq<char>,
    gateway: Option<Seq<char>>,
    allow_http: bool,
    attempted_at: Seq<char>,
)
    requires
        planned_step(step, suppression, channel, recipient, subject, body, gateway, allow_http, attempted_at),
    ensures
        step matches DeliveryStep::Done(o) ==> o.status != DeliveryStatus::Delivered,
{
}

/// A delivery that the recipient's preferences suppress is decided at
/// once: no request is made for it.
pub proof fn law_suppression_comes_first(
    step: DeliveryStep,
    detail: Seq<char>,
    channel: Channel,
    recipient: Seq<char>,
    subject: Option<Seq<char>>,
    body: Seq<char>,
    gateway: Option<Seq<char>>,
    allow_http: bool,
    attempted_at: Seq<char>,
)
    requires
        planned_step(step, Some(detail), channel, recipient, subject, body, gateway, allow_http, attempted_at),
    ensures
        step matches DeliveryStep::Done(o) && o@ == suppressed_outcome(detail),
{
}

/// A suppressed or queued delivery carries no attempt time: no request was
/// made for it.
pub proof fn law_no_attempt_without_request(
    step: DeliveryStep,
    suppression: Option<Seq<char>>,
    channel: Channel,
    recipient: Seq<char>,
    subject: Option<Seq<char>>,
    body: Seq<char>,
    gateway: Option<Seq<char>>,
    allow_http: bool,
    attempted_at: Seq<char>,
)
    requires
        planned_step(step, suppression, channel, recipient, subject, body, gateway, allow_http, attempted_at),
    ensures
        step matches DeliveryStep::Done(o) ==> (o.status == DeliveryStatus::Suppressed
            || o.status == DeliveryStatus::Queued) ==> o.attempted_at is None,
        step matches DeliveryStep::Done(o) ==> o.delivered_at is None,
{
}

/// A delivery that preferences do not suppress and that has no usable
/// endpoint fails; it is never simulated as sent.
pub proof fn law_missing_path_fails(
    step: DeliveryStep,
    channel: Channel,
    recipient: Seq<char>,
    subject: Option<Seq<char>>,
    body: Seq<char>,
    gateway: Option<Seq<char>>,
    allow_http: bool,
    attempted_at: Seq<char>,
)
    requires
        planned_step(step, None, channel, recipient, subject, body, gateway, allow_http, attempted_at),
        channel != Channel::InApp,
        endpoint_decision(channel, recipient, gateway, allow_http) is Err,
    ensures
        step matches DeliveryStep::Done(o) && o.status == DeliveryStatus::Failed,
{
}

/// The reply text that enters the detail of a sent request never shows the
/// endpoint: not its text, not its serialization, not its path (beyond `/`)
/// and not its query, also when the reply names another URL (a redirect
/// target) with that path or query. (A text that the shown form itself
/// holds reveals nothing more and is exempt.)
pub proof fn law_detail_hides_endpoint(request: DeliveryRequest, reply: HttpReply, endpoint: Seq<char>)
    requires
        pair_texts(request.redactions@) == redaction_pairs(endpoint, url_parse_result(endpoint)),
        url_parse_result(endpoint) is Ok,
    ensures
        ({
            let t = scrubbed_reply(request, reply);
            let (_, _, _, serialization, path, query) = url_parse_result(endpoint)->Ok_0;
            let shown = redacted_text(endpoint, url_parse_result(endpoint));
            &&& endpoint.len() > 0 && !occurs_in(endpoint, shown) ==> !occurs_in(endpoint, t)
            &&& serialization.len() > 0 && !occurs_in(serialization, shown) ==> !occurs_in(serialization, t)
            &&& path.len() > 1 && !occurs_in(path, "/…"@) ==> !occurs_in(path, t)
            &&& (query matches Some(q) && q.len() > 0 && !occurs_in(q, "…"@)) ==> !occurs_in(query->0, t)
        }),
{
    let ps = pair_texts(request.redactions@);
    let t = scrubbed_reply(request, reply);
    let (_, _, _, serialization, path, query) = url_parse_result(endpoint)->Ok_0;
    assert(ps.len() == 4);
    let shown = redacted_text(endpoint, url_parse_result(endpoint));
    if serialization.len() > 0 && !occurs_in(serialization, shown) {
        law_scrubbed_hides_redacted(crate::delivery::reply_text(reply), ps, 0);
    }
    if endpoint.len() > 0 && !occurs_in(endpoint, shown) {
        law_scrubbed_hides_redacted(crate::delivery::reply_text(reply), ps, 1);
    }
    if path.len() > 1 && !occurs_in(path, "/…"@) {
        law_scrubbed_hides_redacted(crate::delivery::reply_text(reply), ps, 2);
    }
    if query matches Some(q) && q.len() > 0 && !occurs_in(q, "…"@) {
        law_scrubbed_hides_redacted(crate::delivery::reply_text(reply), ps, 3);
    }
}

/// Quiet hours include their start minute and exclude their end minute,
/// also when the window wraps past midnight; text that names no valid
/// window is never active.
pub proof fn law_quiet_window_bounds(s: Seq<char>, now: int)
    ensures
        quiet_window(s) matches Some((start, end)) ==> quiet_at(s, start) && !quiet_at(s, end),
        quiet_window(s) is None ==> !quiet_at(s, now),
{
}

/// A window that wraps past midnight is active at midnight.
pub proof fn law_quiet_window_wraps_midnight(s: Seq<char>)
    requires
        quiet_window(s) matches Some((start, end)) && start > end && end > 0,
    ensures
        quiet_at(s, 0),
{
}

/// Reading the preferences of a user after updating them gives the updated
/// (or newly created) preferences.
pub proof fn law_preferences_read_after_update(prefs: Seq<PreferenceModel>, input: PreferenceInput)
    ensures
        first_index(preferences_after_update(prefs, input), has_user_id(input.user_id@)) matches Some(
            j,
        ) && preferences_after_update(prefs, input)[j] == match first_index(
            prefs,
            has_user_id(input.user_id@),
        ) {
            Some(i) => updated_preference(prefs[i], input),
            None => created_preference(input),
        },
{
    let p = has_user_id(input.user_id@);
    let after = preferences_after_update(prefs, input);
    match first_index(prefs, p) {
        Some(i) => {
            lemma_first_index_some(prefs, p);
            assert forall|j: int| 0 <= j < i implies !p(after[j]) by {
                assert(after[j] == prefs[j]);
            }
            lemma_first_index_is(after, p, i);
        },
        None => {
            assert forall|j: int| 0 <= j < prefs.len() implies !p(after[j]) by {
                assert(after[j] == prefs[j]);
                if p(prefs[j]) {
                    lemma_first_position(prefs, p, j);
                }
            }
            lemma_first_index_is(after, p, prefs.len() as int);
        },
    }
}

/// Where `p` holds at some position, `first_index` gives one.
proof fn lemma_first_position<T>(s: Seq<T>, p: spec_fn(T) -> bool, j: int)
    requires
        0 <= j < s.len(),
        p(s[j]),
    ensures
        first_index(s, p) is Some,
{
}

/// Updating the preferences of one user leaves what is read for every other
/// user unchanged.
pub proof fn law_preferences_update_isolated(
    prefs: Seq<PreferenceModel>,
    input: PreferenceInput,
    other: Seq<char>,
)
    requires
        other != input.user_id@,
    ensures
        match first_index(prefs, has_user_id(other)) {
            Some(i) => first_index(preferences_after_update(prefs, input), has_user_id(other))
                == Some(i) && preferences_after_update(prefs, input)[i] == prefs[i],
            None => first_index(preferences_after_update(prefs, input), has_user_id(other)) is None,
        },
{
    let q = has_user_id(other);
    let p = has_user_id(input.user_id@);
    let after = preferences_after_update(prefs, input);
    match first_index(prefs, p) {
        Some(k) => {
            lemma_first_index_some(prefs, p);
            assert(after.len() == prefs.len());
            assert forall|j: int| 0 <= j < prefs.len() implies #[trigger] after[j].user_id
                == prefs[j].user_id by {
                if j == k {
                } else {
                    assert(after[j] == prefs[j]);
                }
            }
        },
        None => {
            assert(after.len() == prefs.len() + 1);
            assert(after[prefs.len() as int].user_id == input.user_id@);
            assert forall|j: int| 0 <= j < prefs.len() implies #[trigger] after[j].user_id
                == prefs[j].user_id by {
                assert(after[j] == prefs[j]);
            }
        },
    }
    assert forall|j: int| 0 <= j < after.len() implies #[trigger] q(after[j]) == (j < prefs.len()
        && q(prefs[j])) by {
        if j < prefs.len() {
            assert(after[j].user_id == prefs[j].user_id);
        }
    }
    match first_index(prefs, q) {
        Some(i) => {
            lemma_first_index_some(prefs, q);
            assert(q(after[i]));
            assert forall|j: int| 0 <= j < i implies !q(#[trigger] after[j]) by {
                assert(q(after[j]) == (j < prefs.len() && q(prefs[j])));
            }
            lemma_first_index_is(after, q, i);
            match first_index(prefs, p) {
                Some(k) => {
                    lemma_first_index_some(prefs, p);
                    assert(k != i);
                },
                None => {},
            }
        },
        None => {
            assert forall|j: int| 0 <= j < after.len() implies !q(#[trigger] after[j]) by {
                assert(q(after[j]) == (j < prefs.len() && q(prefs[j])));
                if j < prefs.len() && q(prefs[j]) {
                    lemma_first_position(prefs, q, j);
                }
            }
            lemma_first_index_none(after, q);
        },
    }
}

/// A template created under an identifier that no stored template has is
/// what a lookup of that identifier then finds.
pub proof fn law_created_template_found(templates: Seq<TemplateModel>, created: TemplateModel)
    requires
        first_index(templates, has_template_id(created.id)) is None,
    ensures
        first_index(templates.push(created), has_template_id(created.id)) == Some(
            templates.len() as int,
        ),
{
    let p = has_template_id(created.id);
    let after = templates.push(created);
    assert forall|j: int| 0 <= j < templates.len() implies !p(after[j]) by {
        assert(after[j] == templates[j]);
        if p(templates[j]) {
            lemma_first_position(templates, p, j);
        }
    }
    lemma_first_index_is(after, p, templates.len() as int);
}

/// After a retry, a lookup of the notification finds it with its new
/// outcome and its identity, channel, recipient, subject, body and template
/// unchanged.
pub proof fn law_retry_read_back(notifications: Seq<NotificationModel>, id: Seq<char>, outcome: OutcomeModel)
    requires
        first_index(notifications, has_notification_id(id)) is Some,
    ensures
        ({
            let i = first_index(notifications, has_notification_id(id))->0;
            let after = notifications.update(i, retried(notifications[i], outcome));
            &&& first_index(after, has_notification_id(id)) == Some(i)
            &&& after[i].status == outcome.status
            &&& after[i].id == notifications[i].id
            &&& after[i].channel == notifications[i].channel
            &&& after[i].recipient == notifications[i].recipient
            &&& after[i].subject == notifications[i].subject
            &&& after[i].body == notifications[i].body
            &&& after[i].template_id == notifications[i].template_id
            &&& after.len() == notifications.len()
        }),
{
    let p = has_notification_id(id);
    lemma_first_index_some(notifications, p);
    let i = first_index(notifications, p)->0;
    let after = notifications.update(i, retried(notifications[i], outcome));
    assert forall|j: int| 0 <= j < i implies !p(after[j]) by {
        assert(after[j] == notifications[j]);
    }
    lemma_first_index_is(after, p, i);
}

/// Replacing a pattern that does not occur leaves the text as it is.
pub proof fn law_replace_absent_pattern(s: Seq<char>, pattern: Seq<char>, with: Seq<char>)
    requires
        !occurs_in(pattern, s),
    ensures
        replace_all(s, pattern, with) == s,
    decreases s.len(),
{
    if s.len() == 0 || pattern.len() == 0 {
    } else {
        assert(s.skip(0) =~= s);
        assert(!has_prefix(s.skip(0), pattern));
        assert(!occurs_in(pattern, s.skip(1))) by {
            assert forall|i: int| 0 <= i <= s.skip(1).len() implies !has_prefix(#[trigger] s.skip(1).skip(i), pattern) by {
                assert(s.skip(1).skip(i) =~= s.skip(i + 1));
                assert(!has_prefix(s.skip(i + 1), pattern));
            }
        }
        law_replace_absent_pattern(s.skip(1), pattern, with);
        assert(seq![s[0]] + s.skip(1) =~= s);
    }
}

/// A template text without placeholders renders as it is, whatever the
/// variables.
pub proof fn law_render_without_placeholders(text: Seq<char>, vars: Seq<(Seq<char>, Seq<char>)>)
    requires
        forall|k: int| 0 <= k < vars.len() ==> !occurs_in(placeholder(#[trigger] vars[k].0), text),
    ensures
        render_text(text, vars) == text,
    decreases vars.len(),
{
    if vars.len() > 0 {
        assert forall|k: int| 0 <= k < vars.drop_last().len() implies !occurs_in(
            placeholder(#[trigger] vars.drop_last()[k].0),
            text,
        ) by {
            assert(vars.drop_last()[k] == vars[k]);
        }
        law_render_without_placeholders(text, vars.drop_last());
        assert(vars.last() == vars[vars.len() - 1]);
        law_replace_absent_pattern(text, placeholder(vars.last().0), vars.last().1);
    }
}

/// A sent request counts as delivered exactly when the endpoint answered
/// with a status code from 200 to 299; any other code, and a request that got
/// no response, fails. A delivered outcome carries the delivery time.
pub proof fn law_delivered_exactly_on_2xx(
    path: Seq<char>,
    attempted_at: Seq<char>,
    code: u16,
    text: Seq<char>,
    delivered_at: Seq<char>,
)
    ensures
        200 <= code <= 299 ==> {
            let o = reply_outcome(path, attempted_at, Some(code), text, delivered_at);
            &&& o.status == DeliveryStatus::Delivered
            &&& o.detail == "delivery endpoint accepted the request with HTTP "@ + text
            &&& o.delivered_at == Some(delivered_at)
            &&& o.attempted_at == Some(attempted_at)
            &&& o.path == path
        },
        !(200 <= code <= 299) ==> {
            let o = reply_outcome(path, attempted_at, Some(code), text, delivered_at);
            &&& o.status == DeliveryStatus::Failed
            &&& o.detail == "delivery endpoint returned HTTP "@ + text
            &&& o.delivered_at is None
            &&& o.attempted_at == Some(attempted_at)
            &&& o.path == path
        },
        ({
            let o = reply_outcome(path, attempted_at, None, text, delivered_at);
            &&& o.status == DeliveryStatus::Failed
            &&& o.detail == "delivery request failed: "@ + text
            &&& o.delivered_at is None
            &&& o.attempted_at == Some(attempted_at)
        }),
{
}

/// Replacing texts none of which occurs leaves the text as it is.
proof fn lemma_replace_each_absent(text: Seq<char>, pairs: Seq<(Seq<char>, Seq<char>)>)
    requires
        forall|k: int| 0 <= k < pairs.len() && pairs[k].0.len() > 0 ==> !occurs_in(#[trigger] pairs[k].0, text),
    ensures
        crate::delivery::replace_each(text, pairs) == text,
    decreases pairs.len(),
{
    if pairs.len() > 0 {
        let rest = pairs.drop_last();
        assert forall|k: int| 0 <= k < rest.len() && rest[k].0.len() > 0 implies !occurs_in(#[trigger] rest[k].0, text) by {
            assert(rest[k] == pairs[k]);
        }
        lemma_replace_each_absent(text, rest);
        assert(pairs.last() == pairs[pairs.len() - 1]);
        if pairs.last().0.len() > 0 {
            law_replace_absent_pattern(text, pairs.last().0, pairs.last().1);
        }
    }
}

/// A reply text that shows nothing of the endpoint enters the outcome as it
/// came: scrubbing it changes nothing.
pub proof fn law_clean_reply_kept(request: DeliveryRequest, reply: HttpReply)
    requires
        forall|k: int|
            0 <= k < request.redactions@.len() && #[trigger] pair_texts(request.redactions@)[k].0.len() > 0
                ==> !occurs_in(pair_texts(request.redactions@)[k].0, reply_text(reply)),
    ensures
        scrubbed_reply(request, reply) == reply_text(reply),
{
    let pairs = pair_texts(request.redactions@);
    assert forall|k: int| 0 <= k < pairs.len() && pairs[k].0.len() > 0 implies !occurs_in(#[trigger] pairs[k].0, reply_text(reply)) by {}
    lemma_replace_each_absent(reply_text(reply), pairs);
}

/// What quiet hours suppress, written out from a stored preference: the
/// quiet-hours reason when its quiet hours are active at `now`, else none.
pub open spec fn quiet_reason(p: PreferenceModel, now: int) -> Option<Seq<char>> {
    match p.quiet_hours {
        None => None,
        Some(q) => if quiet_at(q, now) {
            Some("suppressed during local quiet hours "@ + q)
        } else {
            None
        },
    }
}

/// The first stored preferences of a recipient decide suppression: a
/// channel whose flag is off (email, sms, push, in_app) is suppressed as
/// disabled; a channel whose flag is on, and a webhook or Slack channel,
/// is suppressed only by active quiet hours; a recipient without stored
/// preferences is never suppressed.
pub proof fn law_disabled_channels_are_suppressed(
    prefs: Seq<PreferenceModel>,
    recipient: Seq<char>,
    now: int,
)
    ensures
        first_index(prefs, has_user_id(recipient)) is None ==> {
            &&& suppression_at(prefs, Channel::Email, recipient, now) is None
            &&& suppression_at(prefs, Channel::Sms, recipient, now) is None
            &&& suppression_at(prefs, Channel::Push, recipient, now) is None
            &&& suppression_at(prefs, Channel::InApp, recipient, now) is None
            &&& suppression_at(prefs, Channel::Webhook, recipient, now) is None
            &&& suppression_at(prefs, Channel::Slack, recipient, now) is None
        },
        first_index(prefs, has_user_id(recipient)) matches Some(i) ==> {
            let p = prefs[i];
            &&& suppression_at(prefs, Channel::Email, recipient, now) == if !p.email_enabled {
                Some("email delivery is disabled by user preference"@)
            } else {
                quiet_reason(p, now)
            }
            &&& suppression_at(prefs, Channel::Sms, recipient, now) == if !p.sms_enabled {
                Some("sms delivery is disabled by user preference"@)
            } else {
                quiet_reason(p, now)
            }
            &&& suppression_at(prefs, Channel::Push, recipient, now) == if !p.push_enabled {
                Some("push delivery is disabled by user preference"@)
            } else {
                quiet_reason(p, now)
            }
            &&& suppression_at(prefs, Channel::InApp, recipient, now) == if !p.in_app_enabled {
                Some("in_app delivery is disabled by user preference"@)
            } else {
                quiet_reason(p, now)
            }
            &&& suppression_at(prefs, Channel::Webhook, recipient, now) == quiet_reason(p, now)
            &&& suppression_at(prefs, Channel::Slack, recipient, now) == quiet_reason(p, now)
        },
{
    reveal_strlit("email");
    reveal_strlit("sms");
    reveal_strlit("push");
    reveal_strlit("in_app");
    assert("email"@ + " delivery is disabled by user preference"@ =~= "email delivery is disabled by user preference"@) by {
        reveal_strlit(" delivery is disabled by user preference");
        reveal_strlit("email delivery is disabled by user preference");
    }
    assert("sms"@ + " delivery is disabled by user preference"@ =~= "sms delivery is disabled by user preference"@) by {
        reveal_strlit(" delivery is disabled by user preference");
        reveal_strlit("sms delivery is disabled by user preference");
    }
    assert("push"@ + " delivery is disabled by user preference"@ =~= "push delivery is disabled by user preference"@) by {
        reveal_strlit(" delivery is disabled by user preference");
        reveal_strlit("push delivery is disabled by user preference");
    }
    assert("in_app"@ + " delivery is disabled by user preference"@ =~= "in_app delivery is disabled by user preference"@) by {
        reveal_strlit(" delivery is disabled by user preference");
        reveal_strlit("in_app delivery is disabled by user preference");
    }
}

/// Valid quiet hours from `start` to `end` are active at exactly the
/// minutes `start <= now < end`, or, for a window that wraps past midnight
/// (`start > end`), at the minutes from `start` on and before `end`.
pub proof fn law_quiet_window_membership(s: Seq<char>, now: int)
    ensures
        quiet_window(s) matches Some((start, end)) ==> {
            &&& start < end ==> (quiet_at(s, now) <==> (start <= now && now < end))
            &&& start > end ==> (quiet_at(s, now) <==> (now >= start || now < end))
            &&& start != end
        },
{
}

/// Counting by status starts from nothing and adds one for each
/// notification with exactly that status; so a log of one notification
/// counts its own status once and every other status not at all.
pub proof fn law_count_status_steps(s: Seq<NotificationModel>, n: NotificationModel, st: DeliveryStatus)
    ensures
        count_status(Seq::empty(), st) == 0,
        count_status(s.push(n), st) == count_status(s, st) + if n.status == st { 1int } else { 0int },
        count_status(seq![n], st) == if n.status == st { 1int } else { 0int },
{
    assert(s.push(n).drop_last() =~= s);
    assert(seq![n].drop_last() =~= Seq::<NotificationModel>::empty());
    assert(count_status(Seq::<NotificationModel>::empty(), st) == 0);
    assert(seq![n].last() == n);
    assert(count_status(seq![n], st) == count_status(seq![n].drop_last(), st) + if n.status == st { 1nat } else { 0nat });
}

/// An accepted preference update of a stored user changes exactly the
/// fields the input gives and keeps every other field, the quiet hours
/// included; for a new user, each channel not given is enabled and the
/// quiet hours are those given (or none). Nothing else is stored or lost.
pub proof fn law_update_changes_only_given_fields(prefs: Seq<PreferenceModel>, input: PreferenceInput)
    ensures
        first_index(prefs, has_user_id(input.user_id@)) matches Some(i) ==> {
            let after = preferences_after_update(prefs, input);
            let a = after[i];
            let p = prefs[i];
            &&& after.len() == prefs.len()
            &&& forall|j: int| 0 <= j < prefs.len() && j != i ==> after[j] == prefs[j]
            &&& a.user_id == p.user_id
            &&& a.email_enabled == if input.email_enabled is Some { input.email_enabled->0 } else { p.email_enabled }
            &&& a.sms_enabled == if input.sms_enabled is Some { input.sms_enabled->0 } else { p.sms_enabled }
            &&& a.push_enabled == if input.push_enabled is Some { input.push_enabled->0 } else { p.push_enabled }
            &&& a.in_app_enabled == if input.in_app_enabled is Some { input.in_app_enabled->0 } else { p.in_app_enabled }
            &&& input.quiet_hours is None ==> a.quiet_hours == p.quiet_hours
            &&& input.quiet_hours matches Some(q) ==> a.quiet_hours == Some(q@)
        },
        first_index(prefs, has_user_id(input.user_id@)) is None ==> {
            let after = preferences_after_update(prefs, input);
            let a = after[prefs.len() as int];
            &&& after.len() == prefs.len() + 1
            &&& forall|j: int| 0 <= j < prefs.len() ==> after[j] == prefs[j]
            &&& a.user_id == input.user_id@
            &&& a.email_enabled == (input.email_enabled != Some(false))
            &&& a.sms_enabled == (input.sms_enabled != Some(false))
            &&& a.push_enabled == (input.push_enabled != Some(false))
            &&& a.in_app_enabled == (input.in_app_enabled != Some(false))
            &&& input.quiet_hours is None ==> a.quiet_hours is None
            &&& input.quiet_hours matches Some(q) ==> a.quiet_hours == Some(q@)
        },
{
    if first_index(prefs, has_user_id(input.user_id@)) is Some {
        lemma_first_index_some(prefs, has_user_id(input.user_id@));
    }
}

/// How a delivery is decided before any request: suppressed by preference
/// (path `preference_policy`, no attempt), queued locally for in-app (path
/// `local_in_app_queue`, no attempt), failed for want of an endpoint (path
/// `unconfigured`, the reason as detail, stamped as attempted), or sent to
/// the endpoint with the attempt time.
pub proof fn law_plan_outcomes(
    step: DeliveryStep,
    suppression: Option<Seq<char>>,
    channel: Channel,
    recipient: Seq<char>,
    subject: Option<Seq<char>>,
    body: Seq<char>,
    gateway: Option<Seq<char>>,
    allow_http: bool,
    attempted_at: Seq<char>,
)
    requires
        planned_step(step, suppression, channel, recipient, subject, body, gateway, allow_http, attempted_at),
    ensures
        suppression matches Some(d) ==> (step matches DeliveryStep::Done(o) && o.status
            == DeliveryStatus::Suppressed && o.path@ == "preference_policy"@ && o.detail@ == d
            && o.attempted_at is None && o.delivered_at is None),
        suppression is None && channel == Channel::InApp ==> (step matches DeliveryStep::Done(o)
            && o.status == DeliveryStatus::Queued && o.path@ == "local_in_app_queue"@
            && o.attempted_at is None && o.delivered_at is None),
        suppression is None && channel != Channel::InApp ==> match endpoint_decision(
            channel,
            recipient,
            gateway,
            allow_http,
        ) {
            Err(reason) => step matches DeliveryStep::Done(o) && o.status == DeliveryStatus::Failed
                && o.path@ == "unconfigured"@ && o.detail@ == reason && o@.attempted_at == Some(
                attempted_at,
            ) && o.delivered_at is None,
            Ok(Some((endpoint, path))) => step matches DeliveryStep::Send(r) && r.endpoint@ == endpoint
                && r.path@ == path && r.attempted_at@ == attempted_at,
            Ok(None) => false,
        },
{
}

/// What is sent: to Slack a text with the subject as a bold first line; to
/// any other channel the channel name, recipient, subject and body as given.
pub proof fn law_payload_contents(
    channel: Channel,
    recipient: Seq<char>,
    subject: Option<Seq<char>>,
    body: Seq<char>,
)
    ensures
        channel == Channel::Slack ==> payload_for(channel, recipient, subject, body) == (
        PayloadModel::SlackText {
            text: match subject {
                Some(title) => "*"@ + title + "*\n"@ + body,
                None => body,
            },
        }),
        channel != Channel::Slack ==> payload_for(channel, recipient, subject, body) == (
        PayloadModel::Gateway { channel: channel_label(channel), recipient, subject, body }),
{
}

/// Where a delivery goes: a webhook to its recipient; Slack to a recipient
/// that begins with `https://`; anything else to the channel's configured
/// gateway, and without one there is no delivery path.
pub proof fn law_endpoint_choice(channel: Channel, recipient: Seq<char>, gateway: Option<Seq<char>>)
    ensures
        channel == Channel::Webhook ==> (endpoint_candidate(channel, recipient, gateway) matches Ok(
            (e, _),
        ) && e == recipient),
        channel == Channel::Slack && recipient.len() >= 8 && recipient.take(8) == "https://"@
            ==> (endpoint_candidate(channel, recipient, gateway) matches Ok((e, _)) && e == recipient),
        channel != Channel::Webhook && !(channel == Channel::Slack && recipient.len() >= 8
            && recipient.take(8) == "https://"@) ==> match gateway {
            Some(g) => (endpoint_candidate(channel, recipient, gateway) matches Ok((e, _)) && e == g),
            None => endpoint_candidate(channel, recipient, gateway) is Err,
        },
{
    reveal_strlit("https://");
}

/// An endpoint is used only over HTTPS, or over plain HTTP where that is
/// allowed; an unparsable endpoint is never used.
pub proof fn law_endpoint_scheme(
    candidate: Seq<char>,
    path: Seq<char>,
    parsed: Result<UrlModel, Seq<char>>,
    allow_http: bool,
)
    ensures
        endpoint_check(candidate, path, parsed, allow_http) is Ok <==> (parsed matches Ok(
            (scheme, _, _, _, _, _),
        ) && (scheme == "https"@ || (allow_http && scheme == "http"@))),
        endpoint_check(candidate, path, parsed, allow_http) matches Ok((e, p)) ==> (e == candidate
            && p == path),
{
}

/// Listing with a channel filter keeps, in order, exactly the notifications
/// of that channel (by its name); without a filter it keeps them all; each
/// is shown redacted.
pub proof fn law_list_filter(s: Seq<NotificationModel>, n: NotificationModel, filter: Option<Seq<char>>)
    ensures
        listed(Seq::empty(), filter) == Seq::<NotificationModel>::empty(),
        listed(s.push(n), filter) == if filter is None || channel_label(n.channel) == filter->0 {
            listed(s, filter).push(shown(n))
        } else {
            listed(s, filter)
        },
{
    assert(s.push(n).drop_last() =~= s);
}

} // verus!

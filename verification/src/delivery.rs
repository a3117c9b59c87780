use vstd::prelude::*;

use crate::channel::{channel_label, channel_name};
use crate::clock::utc_now_rfc3339;
use crate::domain::{opt_text, Channel, DeliveryStatus};
use crate::endpoint::{
    check_endpoint, choose_endpoint, endpoint_decision, parse_url, parts_model, redact_recipient,
    redacted_text, url_parse_result, UrlModel, UrlParts,
};
use crate::template::{contains_text, occurs_in, replace_all, replace_text};
use crate::text::{concat, has_prefix};

verus! {

/// What one delivery came to.
pub struct DeliveryOutcome {
    pub status: DeliveryStatus,
    pub path: String,
    pub detail: String,
    pub attempted_at: Option<String>,
    pub delivered_at: Option<String>,
}

/// A delivery outcome as values.
pub struct OutcomeModel {
    pub status: DeliveryStatus,
    pub path: Seq<char>,
    pub detail: Seq<char>,
    pub attempted_at: Option<Seq<char>>,
    pub delivered_at: Option<Seq<char>>,
}

impl View for DeliveryOutcome {
    type V = OutcomeModel;

    open spec fn view(&self) -> OutcomeModel {
        OutcomeModel {
            status: self.status,
            path: self.path@,
            detail: self.detail@,
            attempted_at: opt_text(self.attempted_at),
            delivered_at: opt_text(self.delivered_at),
        }
    }
}

/// The body of a delivery request, before it is written as JSON.
pub enum DeliveryPayload {
    /// A Slack incoming-webhook message: `{"text": text}`.
    SlackText { text: String },
    /// A gateway message: `{"channel", "recipient", "subject", "body"}`.
    Gateway { channel: String, recipient: String, subject: Option<String>, body: String },
}

/// A delivery payload as values.
pub enum PayloadModel {
    SlackText { text: Seq<char> },
    Gateway {
        channel: Seq<char>,
        recipient: Seq<char>,
        subject: Option<Seq<char>>,
        body: Seq<char>,
    },
}

impl View for DeliveryPayload {
    type V = PayloadModel;

    open spec fn view(&self) -> PayloadModel {
        match self {
            DeliveryPayload::SlackText { text } => PayloadModel::SlackText { text: text@ },
            DeliveryPayload::Gateway { channel, recipient, subject, body } => PayloadModel::Gateway {
                channel: channel@,
                recipient: recipient@,
                subject: opt_text(*subject),
                body: body@,
            },
        }
    }
}

/// A request that is to be sent to a delivery endpoint.
pub struct DeliveryRequest {
    /// The endpoint URL text.
    pub endpoint: String,
    /// The name of the delivery path.
    pub path: String,
    pub payload: DeliveryPayload,
    /// When the attempt began (RFC 3339).
    pub attempted_at: String,
    /// What a reply text must not show of the endpoint, each with what
    /// stands for it: the endpoint's serialization and text (by its shown
    /// form), its path beyond `/` (by `/…`) and its query (by `…`).
    pub redactions: Vec<(String, String)>,
}

/// What an endpoint answered to a request.
pub enum HttpReply {
    /// An HTTP response: its status code and the status as text (`204 No Content`).
    Status { code: u16, text: String },
    /// The request failed before a response came: the error's text.
    TransportError { text: String },
}

/// The next step of a delivery: it is decided, or a request is to be sent.
pub enum DeliveryStep {
    Done(DeliveryOutcome),
    Send(DeliveryRequest),
}

/// The Slack message text: a bold title line when there is a subject.
pub open spec fn slack_text(subject: Option<Seq<char>>, body: Seq<char>) -> Seq<char> {
    match subject {
        Some(title) => "*"@ + title + "*\n"@ + body,
        None => body,
    }
}

/// The payload of a delivery to `channel`.
pub open spec fn payload_for(
    channel: Channel,
    recipient: Seq<char>,
    subject: Option<Seq<char>>,
    body: Seq<char>,
) -> PayloadModel {
    if channel == Channel::Slack {
        PayloadModel::SlackText { text: slack_text(subject, body) }
    } else {
        PayloadModel::Gateway {
            channel: channel_label(channel),
            recipient: recipient,
            subject: subject,
            body: body,
        }
    }
}

/// The outcome of a suppressed delivery.
pub open spec fn suppressed_outcome(detail: Seq<char>) -> OutcomeModel {
    OutcomeModel {
        status: DeliveryStatus::Suppressed,
        path: "preference_policy"@,
        detail: detail,
        attempted_at: None,
        delivered_at: None,
    }
}

/// The outcome of an in-app delivery, which stays in the local queue.
pub open spec fn in_app_outcome() -> OutcomeModel {
    OutcomeModel {
        status: DeliveryStatus::Queued,
        path: "local_in_app_queue"@,
        detail: "queued locally; no external delivery was attempted"@,
        attempted_at: None,
        delivered_at: None,
    }
}

/// The outcome of a delivery that has no usable path.
pub open spec fn unconfigured_outcome(detail: Seq<char>, attempted_at: Seq<char>) -> OutcomeModel {
    OutcomeModel {
        status: DeliveryStatus::Failed,
        path: "unconfigured"@,
        detail: detail,
        attempted_at: Some(attempted_at),
        delivered_at: None,
    }
}

/// Whether an HTTP status code is a success (2xx).
pub open spec fn is_success(code: u16) -> bool {
    200 <= code < 300
}

/// The outcome of a sent request, given the reply and the time of delivery.
pub open spec fn reply_outcome(
    path: Seq<char>,
    attempted_at: Seq<char>,
    code: Option<u16>,
    text: Seq<char>,
    delivered_at: Seq<char>,
) -> OutcomeModel {
    match code {
        Some(code) => if is_success(code) {
            OutcomeModel {
                status: DeliveryStatus::Delivered,
                path: path,
                detail: "delivery endpoint accepted the request with HTTP "@ + text,
                attempted_at: Some(attempted_at),
                delivered_at: Some(delivered_at),
            }
        } else {
            OutcomeModel {
                status: DeliveryStatus::Failed,
                path: path,
                detail: "delivery endpoint returned HTTP "@ + text,
                attempted_at: Some(attempted_at),
                delivered_at: None,
            }
        },
        None => OutcomeModel {
            status: DeliveryStatus::Failed,
            path: path,
            detail: "delivery request failed: "@ + text,
            attempted_at: Some(attempted_at),
            delivered_at: None,
        },
    }
}

/// The status code of a reply, if a response came.
pub open spec fn reply_code(reply: HttpReply) -> Option<u16> {
    match reply {
        HttpReply::Status { code, .. } => Some(code),
        HttpReply::TransportError { .. } => None,
    }
}

/// The text of a reply.
pub open spec fn reply_text(reply: HttpReply) -> Seq<char> {
    match reply {
        HttpReply::Status { text, .. } => text@,
        HttpReply::TransportError { text } => text@,
    }
}

/// The texts of redaction pairs.
pub open spec fn pair_texts(pairs: Seq<(String, String)>) -> Seq<(Seq<char>, Seq<char>)> {
    pairs.map_values(|p: (String, String)| (p.0@, p.1@))
}

/// A text to redact, kept only when what stands for it does not already
/// show it (then it reveals nothing more); empty otherwise.
pub open spec fn guarded(pattern: Seq<char>, with: Seq<char>) -> (Seq<char>, Seq<char>) {
    if occurs_in(pattern, with) {
        (Seq::empty(), with)
    } else {
        (pattern, with)
    }
}

/// What a reply text must not show of an endpoint, with what stands for it:
/// its serialization and its text by its shown form, its path (when longer
/// than `/`) by `/…`, its query by `…`. An empty text stands for nothing.
pub open spec fn redaction_pairs(
    endpoint: Seq<char>,
    parsed: Result<UrlModel, Seq<char>>,
) -> Seq<(Seq<char>, Seq<char>)> {
    let shown = redacted_text(endpoint, parsed);
    match parsed {
        Ok((_, _, _, serialization, path, query)) => seq![
            guarded(serialization, shown),
            guarded(endpoint, shown),
            guarded(if path.len() > 1 { path } else { Seq::empty() }, "/…"@),
            guarded(match query {
                Some(q) => q,
                None => Seq::empty(),
            }, "…"@),
        ],
        Err(_) => seq![guarded(endpoint, shown)],
    }
}

/// The pair of `pattern` and `with`, the pattern dropped where `with`
/// already shows it.
fn guard(pattern: String, with: String) -> (r: (String, String))
    ensures
        (r.0@, r.1@) == guarded(pattern@, with@),
{
    if contains_text(with.as_str(), pattern.as_str()) {
        (String::new(), with)
    } else {
        (pattern, with)
    }
}

/// `text` with the pairs' texts replaced, one pair after the other.
pub open spec fn replace_each(text: Seq<char>, pairs: Seq<(Seq<char>, Seq<char>)>) -> Seq<char>
    decreases pairs.len(),
{
    if pairs.len() == 0 {
        text
    } else {
        replace_all(replace_each(text, pairs.drop_last()), pairs.last().0, pairs.last().1)
    }
}

/// A reply text with the redacted texts replaced; should any of them still
/// occur after that, nothing of the reply text is kept.
pub open spec fn scrubbed(text: Seq<char>, pairs: Seq<(Seq<char>, Seq<char>)>) -> Seq<char> {
    let replaced = replace_each(text, pairs);
    if exists|k: int| 0 <= k < pairs.len() && pairs[k].0.len() > 0 && occurs_in(#[trigger] pairs[k].0, replaced) {
        Seq::empty()
    } else {
        replaced
    }
}

/// No redacted text occurs in a scrubbed reply text.
pub proof fn law_scrubbed_hides_redacted(text: Seq<char>, pairs: Seq<(Seq<char>, Seq<char>)>, k: int)
    requires
        0 <= k < pairs.len(),
        pairs[k].0.len() > 0,
    ensures
        !occurs_in(pairs[k].0, scrubbed(text, pairs)),
{
    let r = scrubbed(text, pairs);
    if r.len() == 0 {
        assert forall|i: int| 0 <= i <= r.len() implies !has_prefix(#[trigger] r.skip(i), pairs[k].0) by {}
    }
}

/// The reply text of a request, with the endpoint taken out.
pub open spec fn scrubbed_reply(request: DeliveryRequest, reply: HttpReply) -> Seq<char> {
    scrubbed(reply_text(reply), pair_texts(request.redactions@))
}

/// Whether `step` is the planned step of a delivery: suppression first, then
/// the local queue for in-app, then the endpoint; `suppression` is the reason
/// the recipient's preferences give, if any.
pub open spec fn planned_step(
    step: DeliveryStep,
    suppression: Option<Seq<char>>,
    channel: Channel,
    recipient: Seq<char>,
    subject: Option<Seq<char>>,
    body: Seq<char>,
    gateway: Option<Seq<char>>,
    allow_http: bool,
    attempted_at: Seq<char>,
) -> bool {
    match suppression {
        Some(detail) => step matches DeliveryStep::Done(o) && o@ == suppressed_outcome(detail),
        None => if channel == Channel::InApp {
            step matches DeliveryStep::Done(o) && o@ == in_app_outcome()
        } else {
            match endpoint_decision(channel, recipient, gateway, allow_http) {
                Err(detail) => step matches DeliveryStep::Done(o) && o@ == unconfigured_outcome(
                    detail,
                    attempted_at,
                ),
                Ok(Some((endpoint, path))) => step matches DeliveryStep::Send(request) && {
                    &&& request.endpoint@ == endpoint
                    &&& request.path@ == path
                    &&& request.payload@ == payload_for(channel, recipient, subject, body)
                    &&& request.attempted_at@ == attempted_at
                    &&& pair_texts(request.redactions@) == redaction_pairs(
                        endpoint,
                        url_parse_result(endpoint),
                    )
                },
                Ok(None) => false,
            }
        },
    }
}

/// The text of a Slack message.
pub fn slack_message(subject: Option<&str>, body: &str) -> (r: String)
    ensures
        r@ == slack_text(
            match subject {
                Some(t) => Some(t@),
                None => None,
            },
            body@,
        ),
{
    match subject {
        Some(title) => {
            let mut r = String::from_str("*");
            r.append(title);
            r.append("*\n");
            r.append(body);
            r
        },
        None => String::from_str(body),
    }
}

/// The spec form of an optional `&str`.
pub open spec fn opt_str(o: Option<&str>) -> Option<Seq<char>> {
    match o {
        Some(t) => Some(t@),
        None => None,
    }
}

/// Decides a delivery up to the request: suppressed by preference, queued
/// in-app, failed for want of an endpoint, or to be sent. `gateway` is the
/// channel's configured endpoint, `allow_http` admits HTTP endpoints, and
/// `attempted_at` is the time at which an attempt begins.
pub fn plan_delivery(
    suppression: Option<String>,
    channel: Channel,
    recipient: &str,
    subject: Option<&str>,
    body: &str,
    gateway: Option<String>,
    allow_http: bool,
    attempted_at: String,
) -> (r: DeliveryStep)
    ensures
        planned_step(
            r,
            opt_text(suppression),
            channel,
            recipient@,
            opt_str(subject),
            body@,
            opt_text(gateway),
            allow_http,
            attempted_at@,
        ),
{
    if let Some(detail) = suppression {
        return DeliveryStep::Done(
            DeliveryOutcome {
                status: DeliveryStatus::Suppressed,
                path: String::from_str("preference_policy"),
                detail,
                attempted_at: None,
                delivered_at: None,
            },
        );
    }
    if channel == Channel::InApp {
        return DeliveryStep::Done(
            DeliveryOutcome {
                status: DeliveryStatus::Queued,
                path: String::from_str("local_in_app_queue"),
                detail: String::from_str("queued locally; no external delivery was attempted"),
                attempted_at: None,
                delivered_at: None,
            },
        );
    }
    let (candidate, path) = match choose_endpoint(channel, recipient, gateway) {
        Err(detail) => return DeliveryStep::Done(
            DeliveryOutcome {
                status: DeliveryStatus::Failed,
                path: String::from_str("unconfigured"),
                detail,
                attempted_at: Some(attempted_at),
                delivered_at: None,
            },
        ),
        Ok(found) => found,
    };
    let parsed = parse_url(candidate.as_str());
    let redactions = redactions_for(candidate.as_str(), &parsed);
    match check_endpoint(candidate, path, &parsed, allow_http) {
        Err(detail) => DeliveryStep::Done(
            DeliveryOutcome {
                status: DeliveryStatus::Failed,
                path: String::from_str("unconfigured"),
                detail,
                attempted_at: Some(attempted_at),
                delivered_at: None,
            },
        ),
        Ok((endpoint, path)) => {
            let payload = if channel == Channel::Slack {
                DeliveryPayload::SlackText { text: slack_message(subject, body) }
            } else {
                DeliveryPayload::Gateway {
                    channel: String::from_str(channel_name(channel)),
                    recipient: String::from_str(recipient),
                    subject: match subject {
                        Some(t) => Some(String::from_str(t)),
                        None => None,
                    },
                    body: String::from_str(body),
                }
            };
            DeliveryStep::Send(
                DeliveryRequest {
                    endpoint,
                    path,
                    payload,
                    attempted_at,
                    redactions,
                },
            )
        },
    }
}

/// What a reply text must not show of `endpoint`, given what `parse_url`
/// made of it.
pub fn redactions_for(endpoint: &str, parsed: &Result<UrlParts, String>) -> (r: Vec<(String, String)>)
    ensures
        pair_texts(r@) == redaction_pairs(endpoint@, parts_model(*parsed)),
{
    let shown = redact_recipient(endpoint, parsed);
    let mut r: Vec<(String, String)> = Vec::new();
    match parsed {
        Ok(parts) => {
            r.push(guard(parts.serialization.clone(), shown.clone()));
            r.push(guard(String::from_str(endpoint), shown));
            let path = if parts.path.as_str().unicode_len() > 1 {
                parts.path.clone()
            } else {
                String::new()
            };
            r.push(guard(path, String::from_str("/…")));
            let query = match &parts.query {
                Some(q) => q.clone(),
                None => String::new(),
            };
            r.push(guard(query, String::from_str("…")));
        },
        Err(_) => {
            r.push(guard(String::from_str(endpoint), shown));
        },
    }
    assert(pair_texts(r@) =~= redaction_pairs(endpoint@, parts_model(*parsed)));
    r
}

/// The reply text `text` with the redacted texts of `pairs` replaced, or
/// nothing of it where one still occurs.
pub fn scrub_endpoint(text: &str, pairs: &Vec<(String, String)>) -> (r: String)
    ensures
        r@ == scrubbed(text@, pair_texts(pairs@)),
{
    let ghost ps = pair_texts(pairs@);
    let mut out = String::from_str(text);
    for i in 0..pairs.len()
        invariant
            ps == pair_texts(pairs@),
            out@ == replace_each(text@, ps.take(i as int)),
    {
        let pattern = pairs[i].0.as_str();
        let with = pairs[i].1.as_str();
        proof {
            assert(ps.take(i + 1).drop_last() =~= ps.take(i as int));
            assert(ps.take(i + 1).last() == ps[i as int]);
        }
        if pattern.unicode_len() > 0 {
            out = replace_text(out.as_str(), pattern, with);
        }
    }
    assert(ps.take(pairs.len() as int) =~= ps);
    for i in 0..pairs.len()
        invariant
            ps == pair_texts(pairs@),
            out@ == replace_each(text@, ps),
            forall|k: int| 0 <= k < i ==> !(ps[k].0.len() > 0 && #[trigger] occurs_in(ps[k].0, out@)),
    {
        let pattern = pairs[i].0.as_str();
        if pattern.unicode_len() > 0 && contains_text(out.as_str(), pattern) {
            assert(ps[i as int].0.len() > 0 && occurs_in(ps[i as int].0, replace_each(text@, ps)));
            return String::new();
        }
    }
    out
}

/// The outcome of a sent request: delivered exactly when the endpoint
/// answered with a 2xx status; `delivered_at` is the time of that answer.
/// The reply text enters the detail with the endpoint taken out.
pub fn finish_delivery(request: DeliveryRequest, reply: HttpReply, delivered_at: String) -> (r:
    DeliveryOutcome)
    ensures
        r@ == reply_outcome(
            request.path@,
            request.attempted_at@,
            reply_code(reply),
            scrubbed_reply(request, reply),
            delivered_at@,
        ),
        forall|k: int|
            0 <= k < request.redactions@.len() && #[trigger] pair_texts(request.redactions@)[k].0.len()
                > 0 ==> !occurs_in(pair_texts(request.redactions@)[k].0, scrubbed_reply(request, reply)),
        r.status == DeliveryStatus::Delivered <==> (reply_code(reply) matches Some(c) && 200 <= c && c <= 299),
{
    let text = match &reply {
        HttpReply::Status { text, .. } => text,
        HttpReply::TransportError { text } => text,
    };
    let text = scrub_endpoint(text.as_str(), &request.redactions);
    proof {
        assert forall|k: int|
            0 <= k < request.redactions@.len() && #[trigger] pair_texts(request.redactions@)[k].0.len()
                > 0 implies !occurs_in(pair_texts(request.redactions@)[k].0, scrubbed_reply(request, reply)) by {
            law_scrubbed_hides_redacted(reply_text(reply), pair_texts(request.redactions@), k);
        }
    }
    let DeliveryRequest { path, attempted_at, .. } = request;
    match reply {
        HttpReply::Status { code, .. } => {
            if 200 <= code && code < 300 {
                DeliveryOutcome {
                    status: DeliveryStatus::Delivered,
                    path,
                    detail: concat("delivery endpoint accepted the request with HTTP ", text.as_str()),
                    attempted_at: Some(attempted_at),
                    delivered_at: Some(delivered_at),
                }
            } else {
                DeliveryOutcome {
                    status: DeliveryStatus::Failed,
                    path,
                    detail: concat("delivery endpoint returned HTTP ", text.as_str()),
                    attempted_at: Some(attempted_at),
                    delivered_at: None,
                }
            }
        },
        HttpReply::TransportError { .. } => DeliveryOutcome {
            status: DeliveryStatus::Failed,
            path,
            detail: concat("delivery request failed: ", text.as_str()),
            attempted_at: Some(attempted_at),
            delivered_at: None,
        },
    }
}

/// The outcome of a sent request, with the current UTC time as the time of
/// delivery.
pub fn complete_delivery(request: DeliveryRequest, reply: HttpReply) -> (r: DeliveryOutcome)
    ensures
        exists|at: Seq<char>|
            r@ == reply_outcome(
                request.path@,
                request.attempted_at@,
                reply_code(reply),
                scrubbed_reply(request, reply),
                at,
            ),
        r.status == DeliveryStatus::Delivered <==> (reply_code(reply) matches Some(c) && 200 <= c && c <= 299),
{
    let now = utc_now_rfc3339();
    let ghost at = now@;
    let ghost clean = scrubbed_reply(request, reply);
    let r = finish_delivery(request, reply, now);
    assert(r@ == reply_outcome(request.path@, request.attempted_at@, reply_code(reply), clean, at));
    r
}

} // verus!

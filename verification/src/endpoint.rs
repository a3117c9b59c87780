use vstd::prelude::*;

use crate::channel::{channel_label, channel_name, gateway_env_key, gateway_key_text};
use crate::domain::{opt_text, Channel};
use crate::text::{concat, decimal, decimal_text, has_prefix, same_text, starts_with};

verus! {

/// The parts of an absolute URL that the library reads.
pub struct UrlParts {
    /// The scheme, lower-cased, without the `:`.
    pub scheme: String,
    /// The host, when the URL has one.
    pub host: Option<String>,
    /// The port, when the URL names one that is not its scheme's default.
    pub port: Option<u16>,
    /// The whole URL as `url` writes it (`Url::as_str`, also its `Display`).
    pub serialization: String,
    /// The path (`Url::path`).
    pub path: String,
    /// The query, without its `?` (`Url::query`).
    pub query: Option<String>,
}

/// A parsed URL as values: scheme, host, port, serialization, path and query.
pub type UrlModel = (Seq<char>, Option<Seq<char>>, Option<u16>, Seq<char>, Seq<char>, Option<Seq<char>>);

/// What `url::Url::parse` makes of a text: the scheme, host, port,
/// serialization, path and query of the URL, or the text of the parse error.
pub uninterp spec fn url_parse_result(text: Seq<char>) -> Result<UrlModel, Seq<char>>;

/// The serialization of a parsed URL; nothing for a parse error.
pub open spec fn url_serialization(parsed: Result<UrlModel, Seq<char>>) -> Seq<char> {
    match parsed {
        Ok((_, _, _, serialization, _, _)) => serialization,
        Err(_) => Seq::empty(),
    }
}

/// The parsed form of a `parse_url` result.
pub open spec fn parts_model(r: Result<UrlParts, String>) -> Result<UrlModel, Seq<char>> {
    match r {
        Ok(p) => Ok((p.scheme@, opt_text(p.host), p.port, p.serialization@, p.path@, opt_text(p.query))),
        Err(e) => Err(e@),
    }
}

/// Parses an absolute URL with `url::Url::parse` and reads its `scheme()`,
/// `host_str()`, `port()`, `as_str()`, `path()` and `query()`, or the
/// `Display` text of the `ParseError`.
/// Trusted: the result is `url_parse_result` of the text, a function of the
/// text alone; what that function is on given texts is not stated.
#[verifier::external_body]
pub(crate) fn parse_url(text: &str) -> (r: Result<UrlParts, String>)
    ensures
        parts_model(r) == url_parse_result(text@),
{
    match url::Url::parse(text) {
        Ok(url) => Ok(UrlParts {
            scheme: url.scheme().to_string(),
            host: url.host_str().map(str::to_string),
            port: url.port(),
            serialization: url.as_str().to_string(),
            path: url.path().to_string(),
            query: url.query().map(str::to_string),
        }),
        Err(error) => Err(error.to_string()),
    }
}

/// The form in which a recipient is shown: a URL keeps only its scheme,
/// host and port, followed by `/…`; any other text is shown as it is.
pub open spec fn redacted_text(
    recipient: Seq<char>,
    parsed: Result<UrlModel, Seq<char>>,
) -> Seq<char> {
    match parsed {
        Err(_) => recipient,
        Ok((scheme, host, port, _, _, _)) => {
            let host = match host {
                Some(h) => h,
                None => "redacted"@,
            };
            let authority = match port {
                Some(p) => host + ":"@ + decimal_text(p as nat),
                None => host,
            };
            scheme + "://"@ + authority + "/…"@
        },
    }
}

/// The shown form of `recipient`, given what `parse_url` made of it.
pub fn redact_recipient(recipient: &str, parsed: &Result<UrlParts, String>) -> (r: String)
    ensures
        r@ == redacted_text(recipient@, parts_model(*parsed)),
{
    match parsed {
        Err(_) => String::from_str(recipient),
        Ok(parts) => {
            let host = match &parts.host {
                Some(h) => h.clone(),
                None => String::from_str("redacted"),
            };
            let mut authority = host;
            match parts.port {
                Some(p) => {
                    authority.append(":");
                    let digits = decimal(p as u64);
                    authority.append(digits.as_str());
                },
                None => {},
            }
            let mut r = parts.scheme.clone();
            r.append("://");
            r.append(authority.as_str());
            r.append("/…");
            r
        },
    }
}

/// The shown form of a recipient: a webhook URL loses its path, so that
/// secrets in it do not leave the service.
pub fn safe_recipient(recipient: &str) -> (r: String)
    ensures
        r@ == redacted_text(recipient@, url_parse_result(recipient@)),
{
    let parsed = parse_url(recipient);
    redact_recipient(recipient, &parsed)
}

/// Where a delivery to `channel` and `recipient` would go before the URL is
/// checked: the endpoint text and the name of the path, or why there is none.
/// `gateway` is the channel's configured gateway endpoint, if any.
pub open spec fn endpoint_candidate(
    channel: Channel,
    recipient: Seq<char>,
    gateway: Option<Seq<char>>,
) -> Result<(Seq<char>, Seq<char>), Seq<char>> {
    if channel == Channel::Webhook {
        Ok((recipient, "recipient_webhook"@))
    } else if channel == Channel::Slack && has_prefix(recipient, "https://"@) {
        Ok((recipient, "recipient_slack_webhook"@))
    } else {
        match gateway {
            Some(endpoint) => Ok((endpoint, "configured_"@ + channel_label(channel) + "_gateway"@)),
            None => Err(
                "no delivery path configured; set "@ + gateway_key_text(channel)
                    + " or use channel=webhook with an HTTPS recipient"@,
            ),
        }
    }
}

/// The error text for an endpoint that is neither HTTPS nor allowed HTTP.
pub open spec fn insecure_endpoint_text() -> Seq<char> {
    "delivery endpoints must use HTTPS (HTTP is accepted only in debug builds)"@
}

/// The verdict on an endpoint text given what `url::Url::parse` made of it:
/// it is kept when its scheme is `https`, or `http` where `allow_http`.
pub open spec fn endpoint_check(
    candidate: Seq<char>,
    path: Seq<char>,
    parsed: Result<UrlModel, Seq<char>>,
    allow_http: bool,
) -> Result<(Seq<char>, Seq<char>), Seq<char>> {
    match parsed {
        Err(e) => Err("invalid delivery endpoint: "@ + e),
        Ok((scheme, _, _, _, _, _)) => if scheme != "https"@ && !(allow_http && scheme == "http"@) {
            Err(insecure_endpoint_text())
        } else {
            Ok((candidate, path))
        },
    }
}

/// The delivery endpoint for `channel` and `recipient`: none for in-app
/// delivery; otherwise the endpoint text and path name, or the reason that
/// there is none. `allow_http` admits plain HTTP endpoints (debug builds).
pub open spec fn endpoint_decision(
    channel: Channel,
    recipient: Seq<char>,
    gateway: Option<Seq<char>>,
    allow_http: bool,
) -> Result<Option<(Seq<char>, Seq<char>)>, Seq<char>> {
    if channel == Channel::InApp {
        Ok(None)
    } else {
        match endpoint_candidate(channel, recipient, gateway) {
            Err(e) => Err(e),
            Ok((candidate, path)) => match endpoint_check(
                candidate,
                path,
                url_parse_result(candidate),
                allow_http,
            ) {
                Ok(found) => Ok(Some(found)),
                Err(e) => Err(e),
            },
        }
    }
}

/// The spec form of an endpoint result.
pub open spec fn endpoint_model(r: Result<Option<(String, String)>, String>) -> Result<
    Option<(Seq<char>, Seq<char>)>,
    Seq<char>,
> {
    match r {
        Ok(Some((endpoint, path))) => Ok(Some((endpoint@, path@))),
        Ok(None) => Ok(None),
        Err(e) => Err(e@),
    }
}

/// Where a delivery would go before its URL is checked.
pub fn choose_endpoint(channel: Channel, recipient: &str, gateway: Option<String>) -> (r: Result<
    (String, String),
    String,
>)
    ensures
        match r {
            Ok((candidate, path)) => endpoint_candidate(channel, recipient@, opt_text(gateway))
                == Ok::<_, Seq<char>>((candidate@, path@)),
            Err(e) => endpoint_candidate(channel, recipient@, opt_text(gateway)) == Err::<
                (Seq<char>, Seq<char>),
                _,
            >(e@),
        },
{
    if channel == Channel::Webhook {
        Ok((String::from_str(recipient), String::from_str("recipient_webhook")))
    } else if channel == Channel::Slack && starts_with(recipient, "https://") {
        Ok((String::from_str(recipient), String::from_str("recipient_slack_webhook")))
    } else {
        match gateway {
            Some(endpoint) => {
                let mut path = String::from_str("configured_");
                path.append(channel_name(channel));
                path.append("_gateway");
                Ok((endpoint, path))
            },
            None => {
                let key = gateway_env_key(channel);
                let mut message = String::from_str("no delivery path configured; set ");
                message.append(key.as_str());
                message.append(" or use channel=webhook with an HTTPS recipient");
                Err(message)
            },
        }
    }
}

/// Keeps an endpoint text whose scheme is `https` (or `http` where
/// `allow_http`), given what `parse_url` made of it.
pub fn check_endpoint(
    candidate: String,
    path: String,
    parsed: &Result<UrlParts, String>,
    allow_http: bool,
) -> (r: Result<(String, String), String>)
    ensures
        match r {
            Ok((endpoint, name)) => endpoint_check(candidate@, path@, parts_model(*parsed), allow_http)
                == Ok::<_, Seq<char>>((endpoint@, name@)),
            Err(e) => endpoint_check(candidate@, path@, parts_model(*parsed), allow_http) == Err::<
                (Seq<char>, Seq<char>),
                _,
            >(e@),
        },
{
    match parsed {
        Err(e) => Err(concat("invalid delivery endpoint: ", e.as_str())),
        Ok(parts) => {
            let https = same_text(parts.scheme.as_str(), "https");
            let http = same_text(parts.scheme.as_str(), "http");
            if !https && !(allow_http && http) {
                Err(String::from_str(
                    "delivery endpoints must use HTTPS (HTTP is accepted only in debug builds)",
                ))
            } else {
                Ok((candidate, path))
            }
        },
    }
}

/// The delivery endpoint of a channel and recipient: the recipient itself for
/// webhooks and HTTPS Slack webhooks, else the configured gateway.
pub fn configured_endpoint(
    channel: Channel,
    recipient: &str,
    gateway: Option<String>,
    allow_http: bool,
) -> (r: Result<Option<(String, String)>, String>)
    ensures
        endpoint_model(r) == endpoint_decision(channel, recipient@, opt_text(gateway), allow_http),
{
    if channel == Channel::InApp {
        return Ok(None);
    }
    match choose_endpoint(channel, recipient, gateway) {
        Err(e) => Err(e),
        Ok((candidate, path)) => {
            let parsed = parse_url(candidate.as_str());
            match check_endpoint(candidate, path, &parsed, allow_http) {
                Ok(found) => Ok(Some(found)),
                Err(e) => Err(e),
            }
        },
    }
}

} // verus!

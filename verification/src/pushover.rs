//! The push-notification transport, modelled up to the wire.
//!
//! A `Notifier` can only be obtained when the settings carry the
//! notification credentials, so no caller can ask for a notification
//! without them. The notifier builds the exact JSON payload that is posted
//! to the delivery endpoint; the post itself is done outside the library.

use crate::config::Config;
use crate::text::json_escaped;
use crate::text::push_json_escaped;
use vstd::prelude::*;
use vstd::string::StringExecFns;

verus! {

/// The fixed notification-delivery endpoint.
pub const PUSHOVER_URL: &'static str = "https://api.pushover.net/1/messages.json";

/// A titled message awaiting delivery.
pub struct Notification {
    pub title: String,
    pub message: String,
}

/// The capability to build notification payloads: it exists only for
/// settings that carry notification credentials.
pub struct Notifier {
    pub app_token: String,
    pub device: Option<String>,
    pub user_token: String,
}

/// The view of an optional string.
pub open spec fn opt_text(o: Option<String>) -> Option<Seq<char>> {
    match o {
        Some(s) => Some(s@),
        None => None,
    }
}

/// The JSON body posted to the delivery endpoint: the device (or null),
/// the message, the title and both tokens, every text escaped.
pub open spec fn spec_payload(
    device: Option<Seq<char>>,
    message: Seq<char>,
    title: Seq<char>,
    token: Seq<char>,
    user: Seq<char>,
) -> Seq<char> {
    ("{\"device\":")@ + (match device {
        Some(d) => ("\"")@ + json_escaped(d) + ("\"")@,
        None => ("null")@,
    }) + (",\"message\":\"")@ + json_escaped(message) + ("\",\"title\":\"")@ + json_escaped(title)
        + ("\",\"token\":\"")@ + json_escaped(token) + ("\",\"user\":\"")@ + json_escaped(user) + (
    "\"}")@
}

impl Notifier {
    /// The notifier for these settings: present exactly when the settings
    /// hold notification credentials, and carrying those credentials.
    pub fn for_config(config: &Config) -> (r: Option<Notifier>)
        ensures
            r is Some <==> config.pushover is Some,
            r is Some ==> {
                &&& r->0.app_token == config.pushover->0.app_token
                &&& r->0.device == config.pushover->0.device
                &&& r->0.user_token == config.pushover->0.user_token
            },
    {
        match &config.pushover {
            Some(p) => {
                let d = p.duplicate();
                Some(Notifier { app_token: d.app_token, device: d.device, user_token: d.user_token })
            },
            None => None,
        }
    }

    /// The exact JSON payload that delivers `n` through these credentials.
    pub fn payload(&self, n: &Notification) -> (s: String)
        ensures
            s@ == spec_payload(
                opt_text(self.device),
                n.message@,
                n.title@,
                self.app_token@,
                self.user_token@,
            ),
    {
        let mut s = String::new();
        s.append("{\"device\":");
        match &self.device {
            Some(d) => {
                s.append("\"");
                push_json_escaped(&mut s, d.as_str());
                s.append("\"");
            },
            None => {
                s.append("null");
            },
        }
        s.append(",\"message\":\"");
        push_json_escaped(&mut s, n.message.as_str());
        s.append("\",\"title\":\"");
        push_json_escaped(&mut s, n.title.as_str());
        s.append("\",\"token\":\"");
        push_json_escaped(&mut s, self.app_token.as_str());
        s.append("\",\"user\":\"");
        push_json_escaped(&mut s, self.user_token.as_str());
        s.append("\"}");
        proof {
            assert(s@ =~= spec_payload(
                opt_text(self.device),
                n.message@,
                n.title@,
                self.app_token@,
                self.user_token@,
            ));
        }
        s
    }
}

} // verus!

//! Error reporting for provider failures.
//!
//! A failure never propagates: it becomes a report plan that says what to
//! write on the operator's error stream and whether to escalate the same
//! line as a notification. Escalation happens only in debug mode and only
//! when notification credentials exist, so the plan never asks for a
//! notification that could not be delivered.

use crate::config::Config;
use crate::pushover::Notification;
use crate::ERROR_TITLE;
use vstd::prelude::*;
use vstd::string::StringExecFns;

verus! {

/// The operator-visible error line: `[provider] message`.
pub open spec fn spec_report_line(provider: Seq<char>, message: Seq<char>) -> Seq<char> {
    ("[")@ + provider + ("] ")@ + message
}

/// What handling one provider failure amounts to.
pub struct ReportPlan {
    pub error_line: String,
    pub notification: Option<Notification>,
}

/// What a correct report of `message` under the provider tag looks like:
/// the error line reads `[provider] message`, and the same line is
/// escalated as a notification exactly when the settings are in debug mode
/// and carry notification credentials.
pub open spec fn spec_report_plan_matches(
    p: ReportPlan,
    provider: Seq<char>,
    message: Seq<char>,
    config: Config,
) -> bool {
    &&& p.error_line@ == spec_report_line(provider, message)
    &&& (p.notification is Some <==> (config.debug && config.pushover is Some))
    &&& (p.notification is Some ==> {
        &&& p.notification->0.title@ == ERROR_TITLE@
        &&& p.notification->0.message@ == spec_report_line(provider, message)
    })
}

/// The report plan for one provider failure: the error line always, and an
/// escalated notification exactly when the settings are in debug mode and
/// carry notification credentials.
pub fn report(provider: &str, message: String, config: &Config) -> (p: ReportPlan)
    ensures
        spec_report_plan_matches(p, provider@, message@, *config),
{
    let mut line = String::new();
    line.append("[");
    line.append(provider);
    line.append("] ");
    line.append(message.as_str());
    let notification: Option<Notification> = if config.debug && config.pushover.is_some() {
        Some(Notification { title: String::from_str(ERROR_TITLE), message: line.clone() })
    } else {
        None
    };
    ReportPlan { error_line: line, notification }
}

} // verus!

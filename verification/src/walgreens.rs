//! The Walgreens-style provider: request construction, response decoding
//! and interpretation.
//!
//! One poll is a four-stage pipeline. The request body for the day after
//! the current one is built here, exactly. The transport call happens
//! outside the library; what came back — a transport error or a response
//! body — is handed to the provider, which turns it into exactly one
//! outcome: a failure report, a no-availability log line, or an
//! availability notification. A failure never escapes as an error.

use crate::config::Config;
use crate::date::Date;
use crate::errors::report;
use crate::errors::spec_report_plan_matches;
use crate::errors::ReportPlan;
use crate::json::parse_response;
use crate::json::spec_parse_response;
use crate::json::AvailabilityResult;
use crate::pushover::Notification;
use crate::NOTIFY_TITLE;
use vstd::prelude::*;
use vstd::string::StringExecFns;

verus! {

/// The fixed availability-check endpoint.
pub const APPT_URL: &'static str =
    "https://www.walgreens.com/hcschedulersvc/svc/v1/immunizationLocations/availability";

/// The fixed search radius, in miles.
pub const RADIUS: u8 = 25;

/// The fixed service identifier of the immunization search.
pub const SERVICE_ID: &'static str = "99";

/// The tag this provider reports failures under.
pub const PROVIDER_TAG: &'static str = "walgreens";

/// What a gzip byte stream inflates to, if it is well formed; whether it
/// is, and to what, depend on the bytes alone.
pub uninterp spec fn gunzip_of(data: Seq<u8>) -> Option<Seq<u8>>;

/// Relies on `libflate::gzip::Decoder::new` and `std::io::Read::read_to_end`
/// over it: together they inflate a gzip stream, deterministically in the
/// input bytes, and fail exactly on the inputs that are not well-formed
/// gzip.
#[verifier::external_body]
fn gunzip(data: &Vec<u8>) -> (r: Result<Vec<u8>, String>)
    ensures
        r is Ok <==> gunzip_of(data@) is Some,
        r is Ok ==> r->Ok_0@ == gunzip_of(data@)->0,
{
    let mut decoder = match libflate::gzip::Decoder::new(&data[..]) {
        Ok(d) => d,
        Err(e) => {
            return Err(format!("{:?}", e));
        },
    };
    let mut buf = Vec::new();
    match std::io::Read::read_to_end(&mut decoder, &mut buf) {
        Ok(_) => Ok(buf),
        Err(e) => Err(format!("{:?}", e)),
    }
}

/// The exact JSON body of one availability search: the fixed service and
/// radius, the position and the start date.
pub open spec fn spec_search_body(latitude: Seq<char>, longitude: Seq<char>, start: Date) -> Seq<
    char,
> {
    ("{\"serviceId\":\"99\",\"position\":{\"latitude\":")@ + latitude + (",\"longitude\":")@
        + longitude + ("},\"appointmentAvailability\":{\"startDateTime\":\"")@ + start.spec_ymd()
        + ("\"},\"radius\":25}")@
}

/// The log line for a response that offers appointments.
pub open spec fn spec_avail_line(zip: Seq<char>) -> Seq<char> {
    ("[walgreens] Appointments available in ")@ + zip + ("!")@
}

/// The log line for a response that offers none.
pub open spec fn spec_no_avail_line(zip: Seq<char>) -> Seq<char> {
    ("[walgreens] No appointments available in ")@ + zip + (".")@
}

/// The body of an availability notification, naming the location.
pub open spec fn spec_notify_message(zip: Seq<char>) -> Seq<char> {
    ("Walgreens has availability in ")@ + zip + (".")@
}

/// Exactly one of these ends every poll: a reported failure, a logged
/// no-availability, or an availability notification. The type leaves no
/// way to both report a failure and notify availability in one poll.
pub enum PerformOutcome {
    /// The poll failed; the report plan carries the error line and, in
    /// debug mode with notification credentials, the escalation.
    Failed(ReportPlan),
    /// The upstream answered and offers nothing; the line to log.
    NoAvailability(String),
    /// The upstream offers appointments: the line to log and the
    /// notification to deliver.
    Available(String, Notification),
}

/// One upstream integration, bound to a settings snapshot.
pub struct Provider {
    pub config: Config,
}

impl Provider {
    /// A provider over the given settings snapshot.
    pub fn new(config: Config) -> (p: Provider)
        ensures
            p.config == config,
    {
        Provider { config }
    }

    /// The exact request body of one search starting at `start`. The
    /// address invariant keeps the spliced coordinates well formed.
    pub fn request_body(&self, start: &Date) -> (s: String)
        requires
            start.wf(),
            self.config.address.wf(),
        ensures
            s@ == spec_search_body(
                self.config.address.latitude@,
                self.config.address.longitude@,
                *start,
            ),
    {
        let mut s = String::new();
        s.append("{\"serviceId\":\"99\",\"position\":{\"latitude\":");
        s.append(self.config.address.latitude.as_str());
        s.append(",\"longitude\":");
        s.append(self.config.address.longitude.as_str());
        s.append("},\"appointmentAvailability\":{\"startDateTime\":\"");
        start.push_ymd(&mut s);
        s.append("\"},\"radius\":25}");
        proof {
            assert(s@ =~= spec_search_body(
                self.config.address.latitude@,
                self.config.address.longitude@,
                *start,
            ));
        }
        s
    }

    /// The outcome of a poll whose transport call failed: exactly one
    /// failure report under this provider's tag, naming the transport
    /// error; never an availability notification.
    pub fn on_transport_error(&self, detail: &str) -> (o: PerformOutcome)
        ensures
            o is Failed,
            spec_report_plan_matches(
                o->Failed_0,
                ("walgreens")@,
                ("Request error: ")@ + detail@,
                self.config,
            ),
    {
        let mut m = String::new();
        m.append("Request error: ");
        m.append(detail);
        PerformOutcome::Failed(report(PROVIDER_TAG, m, &self.config))
    }

    /// The outcome of a poll whose transport call answered with `body`:
    /// a decode failure is reported exactly once under this provider's
    /// tag; a decoded response yields exactly one notification, naming
    /// the location, when it offers appointments, and only a log line
    /// when it does not.
    pub fn on_response_body(&self, body: &Vec<u8>) -> (o: PerformOutcome)
        ensures
            gunzip_of(body@) is None ==> (o is Failed && exists|detail: Seq<char>|
                spec_report_plan_matches(
                    o->Failed_0,
                    ("walgreens")@,
                    ("Error decoding gzip: ")@ + detail,
                    self.config,
                )),
            gunzip_of(body@) matches Some(plain) ==> (spec_parse_response(plain) is None ==> (o
                is Failed && spec_report_plan_matches(
                o->Failed_0,
                ("walgreens")@,
                ("Invalid response: schema mismatch")@,
                self.config,
            ))),
            gunzip_of(body@) matches Some(plain) ==> (spec_parse_response(plain) matches Some(av)
                ==> (av.appointments_available ==> {
                &&& o is Available
                &&& o->Available_0@ == spec_avail_line(av.zip_code)
                &&& o->Available_1.title@ == NOTIFY_TITLE@
                &&& o->Available_1.message@ == spec_notify_message(av.zip_code)
            })),
            gunzip_of(body@) matches Some(plain) ==> (spec_parse_response(plain) matches Some(av)
                ==> (!av.appointments_available ==> (o is NoAvailability && o->NoAvailability_0@
                == spec_no_avail_line(av.zip_code)))),
    {
        let plain = match gunzip(body) {
            Err(detail) => {
                let mut m = String::new();
                m.append("Error decoding gzip: ");
                m.append(detail.as_str());
                let ghost d = detail@;
                let p = report(PROVIDER_TAG, m, &self.config);
                proof {
                    assert(spec_report_plan_matches(
                        p,
                        ("walgreens")@,
                        ("Error decoding gzip: ")@ + d,
                        self.config,
                    ));
                }
                return PerformOutcome::Failed(p);
            },
            Ok(p) => p,
        };
        let decoded: Option<AvailabilityResult> = parse_response(&plain);
        match decoded {
            None => PerformOutcome::Failed(
                report(PROVIDER_TAG, String::from_str("Invalid response: schema mismatch"), &self.config),
            ),
            Some(av) => {
                if av.appointments_available {
                    let mut line = String::new();
                    line.append("[walgreens] Appointments available in ");
                    line.append(av.zip_code.as_str());
                    line.append("!");
                    let mut msg = String::new();
                    msg.append("Walgreens has availability in ");
                    msg.append(av.zip_code.as_str());
                    msg.append(".");
                    PerformOutcome::Available(
                        line,
                        Notification { title: String::from_str(NOTIFY_TITLE), message: msg },
                    )
                } else {
                    let mut line = String::new();
                    line.append("[walgreens] No appointments available in ");
                    line.append(av.zip_code.as_str());
                    line.append(".");
                    PerformOutcome::NoAvailability(line)
                }
            },
        }
    }
}

/// Law: one poll ends in exactly one outcome kind — in particular, a poll
/// that reports a failure does not also raise an availability
/// notification, and a no-availability response raises neither.
pub proof fn lemma_outcome_exclusive(o: PerformOutcome)
    ensures
        o is Failed ==> !(o is Available) && !(o is NoAvailability),
        o is NoAvailability ==> !(o is Available) && !(o is Failed),
{
}

} // verus!

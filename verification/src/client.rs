use vstd::prelude::*;

use crate::hex::{generate_session_id, is_session_id};
use crate::report::{
    build_session_report, count_non_questions, module_report_matches, ContentItem, SessionReport,
};
use crate::strutil::{decimal_u16, spec_decimal};
use crate::times::{format_rfc3339_utc, generate_time_vec, now_epoch, render_times, rfc3339_of,
    MAX_FORMAT_EPOCH, MIN_FORMAT_EPOCH};

verus! {

/// True of the HTTP status codes treated as success: the 2xx class.
pub open spec fn spec_is_success(status: u16) -> bool {
    200 <= status < 300
}

/// Decides whether an HTTP status code is of the success class.
pub fn is_success_status(status: u16) -> (r: bool)
    ensures
        r == spec_is_success(status),
{
    200 <= status && status < 300
}

/// An error a remote reply raises in this library: an authentication
/// failure from the user-identity endpoint, a plain non-success status
/// from any other endpoint, or a success reply from the assignments
/// endpoint whose body lacks the assignment list. Transport failures
/// never reach this library; the caller surfaces them verbatim.
#[derive(Clone, Copy, Debug, PartialEq, Eq, Structural)]
pub enum ClientError {
    Auth { status: u16 },
    Status { status: u16 },
    MalformedReply,
}

impl ClientError {
    /// The remediation hint for an expired or invalid access key, present
    /// exactly when authentication failed with HTTP status 401.
    pub fn auth_hint(&self) -> (r: Option<String>)
        ensures
            r is Some <==> self matches ClientError::Auth { status: 401u16 },
            r matches Some(h) ==> h@
                == "Invalid access key. Double-check that you copied it correctly and that it hasn't expired. For more information, see https://github.com/ArcaEge/seneca-solver#expired-access-key"@,
    {
        match self {
            ClientError::Auth { status } => if *status == 401 {
                Some(
                    String::from_str(
                        "Invalid access key. Double-check that you copied it correctly and that it hasn't expired. For more information, see https://github.com/ArcaEge/seneca-solver#expired-access-key",
                    ),
                )
            } else {
                None
            },
            ClientError::Status { .. } => None,
            ClientError::MalformedReply => None,
        }
    }

    /// A short description of the failure: the HTTP status code in
    /// decimal, or the fixed text for a reply without its expected body.
    pub fn message(&self) -> (r: String)
        ensures
            self matches ClientError::Auth { status } ==> r@
                == "authentication failed with HTTP status "@ + spec_decimal(status as int),
            self matches ClientError::Status { status } ==> r@
                == "request failed with HTTP status "@ + spec_decimal(status as int),
            self is MalformedReply ==> r@ == "Failed to fetch assignments"@,
    {
        match self {
            ClientError::Auth { status } => {
                let mut m = String::from_str("authentication failed with HTTP status ");
                let digits = decimal_u16(*status);
                m.append(digits.as_str());
                m
            },
            ClientError::Status { status } => {
                let mut m = String::from_str("request failed with HTTP status ");
                let digits = decimal_u16(*status);
                m.append(digits.as_str());
                m
            },
            ClientError::MalformedReply => String::from_str("Failed to fetch assignments"),
        }
    }
}

/// The uppercase hexadecimal digit for a value below sixteen.
pub open spec fn spec_upper_hex_digit(n: u8) -> char
    recommends
        n < 16,
{
    if n == 0 { '0' } else if n == 1 { '1' } else if n == 2 { '2' } else if n == 3 { '3' }
    else if n == 4 { '4' } else if n == 5 { '5' } else if n == 6 { '6' } else if n == 7 { '7' }
    else if n == 8 { '8' } else if n == 9 { '9' } else if n == 10 { 'A' } else if n == 11 { 'B' }
    else if n == 12 { 'C' } else if n == 13 { 'D' } else if n == 14 { 'E' } else { 'F' }
}

/// True of the characters the form serializer passes through unchanged.
pub open spec fn urlencode_unchanged(c: char) -> bool {
    ||| c == '*'
    ||| c == '-'
    ||| c == '.'
    ||| c == '_'
    ||| ('0' <= c && c <= '9')
    ||| ('A' <= c && c <= 'Z')
    ||| ('a' <= c && c <= 'z')
}

/// How one ASCII character reads after form-urlencoding: unchanged, `+`
/// for a space, or a percent sign and two uppercase hexadecimal digits.
pub open spec fn urlencode_char(c: char) -> Seq<char>
    recommends
        (c as u32) < 128,
{
    if urlencode_unchanged(c) {
        seq![c]
    } else if c == ' ' {
        seq!['+']
    } else {
        seq!['%', spec_upper_hex_digit((c as u8) / 16), spec_upper_hex_digit((c as u8) % 16)]
    }
}

/// ASCII text after form-urlencoding, character by character.
pub open spec fn urlencoded(s: Seq<char>) -> Seq<char>
    decreases s.len(),
{
    if s.len() == 0 {
        Seq::<char>::empty()
    } else {
        urlencode_char(s[0]) + urlencoded(s.drop_first())
    }
}

/// Percent-encodes ASCII text as a form-urlencoded query value.
///
/// Relies on `url::form_urlencoded::byte_serialize`: the bytes `*`, `-`,
/// `.`, `_` and the alphanumerics pass unchanged, a space becomes `+`, and
/// every other byte becomes a percent sign followed by its two uppercase
/// hexadecimal digits.
#[verifier::external_body]
fn urlencode_ascii(s: &str) -> (r: String)
    requires
        vstd::string::is_ascii(s),
    ensures
        r@ == urlencoded(s@),
{
    url::form_urlencoded::byte_serialize(s.as_bytes()).collect()
}

/// The fixed header bundle sent with every authenticated request, varying
/// only in the host, the access key, and whether the assignments
/// endpoint's date header is included.
pub open spec fn header_bundle(host: Seq<char>, access_key: Seq<char>, amz_date: bool) -> Seq<
    (Seq<char>, Seq<char>),
> {
    let base = seq![
        ("Host"@, host),
        ("User-Agent"@, "Mozilla/5.0 (X11; Linux x86_64; rv:134.0) Gecko/20100101 Firefox/134.0"@),
        ("Accept"@, "*/*"@),
        ("Accept-Language"@, "en-GB,en;q=0.5"@),
        ("Accept-Encoding"@, "gzip, deflate, br, zstd"@),
        ("Referer"@, "https://app.senecalearning.com/"@),
        ("access-key"@, access_key),
        ("Content-Type"@, "application/json"@),
        ("correlationId"@, "1737330516472::76115c42-02c9-4d56-0000-000000000000"@),
        ("user-region"@, "GB"@),
        ("Origin"@, "https://app.senecalearning.com"@),
        ("DNT"@, "1"@),
        ("Sec-GPC"@, "1"@),
        ("Sec-Fetch-Dest"@, "empty"@),
        ("Sec-Fetch-Mode"@, "cors"@),
        ("Sec-Fetch-Site"@, "same-site"@),
        ("Connection"@, "keep-alive"@),
        ("host"@, host),
    ];
    if amz_date {
        base.push(("X-Amz-Date"@, "20250122T190413Z"@))
    } else {
        base
    }
}

/// A packaged submission: the endpoint, the header bundle, and the
/// fabricated report to send.
pub struct PreparedSession {
    pub url: String,
    pub headers: Vec<(String, String)>,
    pub report: SessionReport,
}

/// The client for the remote service: the access key presented on every
/// call and the user identity resolved once at construction, both
/// immutable afterwards.
pub struct SenecaClient {
    pub access_key: String,
    pub user_id: String,
}

impl SenecaClient {
    /// Builds the fixed header bundle for one host.
    pub fn assemble_headers(host: &str, access_key: &str, amz_date: bool) -> (r: Vec<
        (String, String),
    >)
        ensures
            r.deep_view() == header_bundle(host@, access_key@, amz_date),
    {
        let mut v: Vec<(String, String)> = Vec::new();
        v.push((String::from_str("Host"), String::from_str(host)));
        v.push(
            (
                String::from_str("User-Agent"),
                String::from_str(
                    "Mozilla/5.0 (X11; Linux x86_64; rv:134.0) Gecko/20100101 Firefox/134.0",
                ),
            ),
        );
        v.push((String::from_str("Accept"), String::from_str("*/*")));
        v.push((String::from_str("Accept-Language"), String::from_str("en-GB,en;q=0.5")));
        v.push((String::from_str("Accept-Encoding"), String::from_str("gzip, deflate, br, zstd")));
        v.push((String::from_str("Referer"), String::from_str("https://app.senecalearning.com/")));
        v.push((String::from_str("access-key"), String::from_str(access_key)));
        v.push((String::from_str("Content-Type"), String::from_str("application/json")));
        v.push(
            (
                String::from_str("correlationId"),
                String::from_str("1737330516472::76115c42-02c9-4d56-0000-000000000000"),
            ),
        );
        v.push((String::from_str("user-region"), String::from_str("GB")));
        v.push((String::from_str("Origin"), String::from_str("https://app.senecalearning.com")));
        v.push((String::from_str("DNT"), String::from_str("1")));
        v.push((String::from_str("Sec-GPC"), String::from_str("1")));
        v.push((String::from_str("Sec-Fetch-Dest"), String::from_str("empty")));
        v.push((String::from_str("Sec-Fetch-Mode"), String::from_str("cors")));
        v.push((String::from_str("Sec-Fetch-Site"), String::from_str("same-site")));
        v.push((String::from_str("Connection"), String::from_str("keep-alive")));
        v.push((String::from_str("host"), String::from_str(host)));
        if amz_date {
            v.push((String::from_str("X-Amz-Date"), String::from_str("20250122T190413Z")));
        }
        proof {
            assert(v.deep_view() =~~= header_bundle(host@, access_key@, amz_date));
        }
        v
    }

    /// Builds the client from the access key and the user-identity reply.
    /// Construction fails fast on a non-success status, so an
    /// authentication problem surfaces before any other call is attempted.
    pub fn new(access_key: String, status: u16, user_id: Option<String>) -> (r: Result<
        SenecaClient,
        ClientError,
    >)
        requires
            spec_is_success(status) ==> user_id is Some,
        ensures
            spec_is_success(status) ==> (r matches Ok(c) && c.access_key@ == access_key@
                && c.user_id@ == user_id.unwrap()@),
            !spec_is_success(status) ==> r == Result::<SenecaClient, ClientError>::Err(
                ClientError::Auth { status },
            ),
    {
        match Self::user_id_from_response(status, user_id) {
            Ok(resolved) => Ok(SenecaClient { access_key, user_id: resolved }),
            Err(e) => Err(e),
        }
    }

    /// The user-identity request: the fixed endpoint and its header
    /// bundle.
    pub fn user_info_request(&self) -> (r: (String, Vec<(String, String)>))
        ensures
            r.0@ == "https://user-info.app.senecalearning.com/api/user-info/me"@,
            r.1.deep_view() == header_bundle(
                "user-info.app.senecalearning.com"@,
                self.access_key@,
                false,
            ),
    {
        (
            String::from_str("https://user-info.app.senecalearning.com/api/user-info/me"),
            Self::assemble_headers(
                "user-info.app.senecalearning.com",
                self.access_key.as_str(),
                false,
            ),
        )
    }

    /// Reads the user-identity reply: the user identifier on success, an
    /// authentication error otherwise.
    pub fn user_id_from_response(status: u16, user_id: Option<String>) -> (r: Result<
        String,
        ClientError,
    >)
        requires
            spec_is_success(status) ==> user_id is Some,
        ensures
            spec_is_success(status) ==> (r matches Ok(u) && u@ == user_id.unwrap()@),
            !spec_is_success(status) ==> r == Result::<String, ClientError>::Err(
                ClientError::Auth { status },
            ),
    {
        if is_success_status(status) {
            Ok(user_id.unwrap())
        } else {
            Err(ClientError::Auth { status })
        }
    }

    /// The signed-URL request for a course and section: the parameterized
    /// endpoint and its header bundle.
    pub fn signed_url_request(&self, course_id: &str, section_id: &str) -> (r: (
        String,
        Vec<(String, String)>,
    ))
        ensures
            r.0@ == "https://course.app.senecalearning.com/api/courses/"@ + course_id@
                + "/signed-url?sectionId="@ + section_id@
                + "&contentTypes=standard,hardestQuestions"@,
            r.1.deep_view() == header_bundle(
                "course.app.senecalearning.com"@,
                self.access_key@,
                false,
            ),
    {
        let mut url = String::from_str("https://course.app.senecalearning.com/api/courses/");
        url.append(course_id);
        url.append("/signed-url?sectionId=");
        url.append(section_id);
        url.append("&contentTypes=standard,hardestQuestions");
        (
            url,
            Self::assemble_headers("course.app.senecalearning.com", self.access_key.as_str(), false),
        )
    }

    /// Reads the signed-URL reply: the one-time content URL on success, a
    /// status error otherwise.
    pub fn signed_url_from_response(status: u16, url_field: Option<String>) -> (r: Result<
        String,
        ClientError,
    >)
        requires
            spec_is_success(status) ==> url_field is Some,
        ensures
            spec_is_success(status) ==> (r matches Ok(u) && u@ == url_field.unwrap()@),
            !spec_is_success(status) ==> r == Result::<String, ClientError>::Err(
                ClientError::Status { status },
            ),
    {
        if is_success_status(status) {
            Ok(url_field.unwrap())
        } else {
            Err(ClientError::Status { status })
        }
    }

    /// Reads the section-contents reply fetched through the signed URL:
    /// the section's display number and title, each falling back to the
    /// empty string when absent, and its content items. A non-success
    /// status becomes a status error the caller can tell apart from a
    /// transport failure.
    pub fn get_contents(
        &self,
        status: u16,
        number: Option<String>,
        title: Option<String>,
        contents: Vec<ContentItem>,
    ) -> (r: Result<(String, String, Vec<ContentItem>), ClientError>)
        ensures
            spec_is_success(status) ==> (r matches Ok(t) && t.0@ == (if number is Some {
                number.unwrap()@
            } else {
                Seq::<char>::empty()
            }) && t.1@ == (if title is Some {
                title.unwrap()@
            } else {
                Seq::<char>::empty()
            }) && t.2 == contents),
            !spec_is_success(status) ==> (r matches Err(e) && e == (ClientError::Status {
                status,
            })),
    {
        if is_success_status(status) {
            let number_or = match number {
                Some(n) => n,
                None => String::new(),
            };
            let title_or = match title {
                Some(t) => t,
                None => String::new(),
            };
            Ok((number_or, title_or, contents))
        } else {
            Err(ClientError::Status { status })
        }
    }

    /// The assignments request: reads the clock and asks
    /// `assignments_request_at` for the request at that instant. Returns
    /// nothing exactly when the clock read an instant whose thirty-day
    /// lookback falls outside the years this library renders.
    pub fn assignments_request(&self) -> (r: Option<(String, Vec<(String, String)>)>)
        ensures
            r matches Some(p) ==> exists|t: int|
                (#[trigger] assignments_request_for(p, self, t)) && MIN_FORMAT_EPOCH + 2_592_000
                    <= t <= MAX_FORMAT_EPOCH,
    {
        let now: i64 = now_epoch();
        let r = self.assignments_request_at(now);
        proof {
            if r is Some {
                assert(assignments_request_for(r->0, self, now as int));
            }
        }
        r
    }

    /// The assignments request for the instant `now`: the endpoint asking
    /// for up to 500 unarchived assignments dated within the thirty days
    /// before `now`, and its header bundle including the fixed date
    /// header. Refuses exactly the instants whose thirty-day lookback
    /// falls outside the years this library renders.
    pub fn assignments_request_at(&self, now: i64) -> (r: Option<(String, Vec<(String, String)>)>)
        ensures
            r is Some <==> MIN_FORMAT_EPOCH + 2_592_000 <= now <= MAX_FORMAT_EPOCH,
            r matches Some(p) ==> assignments_request_for(p, self, now as int),
    {
        if now < MIN_FORMAT_EPOCH + 2_592_000 || now > MAX_FORMAT_EPOCH {
            return None;
        }
        let one_month_ago = now - 2_592_000;
        let url = Self::assignments_url(one_month_ago);
        let headers = Self::assemble_headers(
            "assignments.app.senecalearning.com",
            self.access_key.as_str(),
            true,
        );
        Some((url, headers))
    }

    /// The assignments endpoint for one filter date: up to 500 unarchived
    /// assignments dated at or after the urlencoded RFC 3339 rendering of
    /// `date_secs`.
    pub fn assignments_url(date_secs: i64) -> (r: String)
        requires
            MIN_FORMAT_EPOCH <= date_secs <= MAX_FORMAT_EPOCH,
        ensures
            r@ == spec_assignments_url(date_secs as int),
    {
        let date = format_rfc3339_utc(date_secs);
        let encoded = urlencode_ascii(date.as_str());
        let mut url = String::from_str(
            "https://assignments.app.senecalearning.com/api/students/me/assignments?limit=500&date=",
        );
        url.append(encoded.as_str());
        url.append("&archived=false");
        url
    }

    /// Reads the assignments reply: the assignment list on success, a
    /// status error otherwise. A success reply whose body lacks the list
    /// is an error of its own, never an empty list.
    pub fn get_assignments(&self, status: u16, items: Option<Vec<crate::select::Assignment>>) -> (r:
        Result<Vec<crate::select::Assignment>, ClientError>)
        ensures
            spec_is_success(status) && items is Some ==> (r matches Ok(v) && v == items.unwrap()),
            spec_is_success(status) && items is None ==> (r matches Err(e) && e
                == ClientError::MalformedReply),
            !spec_is_success(status) ==> (r matches Err(e) && e == (ClientError::Status {
                status,
            })),
    {
        if is_success_status(status) {
            match items {
                Some(list) => Ok(list),
                None => Err(ClientError::MalformedReply),
            }
        } else {
            Err(ClientError::Status { status })
        }
    }

    /// Packages one fabricated session for a content item: reads the
    /// clock and asks `run_solver_at` for the session ending at that
    /// instant. Returns nothing when the item holds more than a million
    /// modules, or when the clock read an instant too close to the edge
    /// of the years this library renders; no request should be made then.
    pub fn run_solver(&self, course_id: &str, section_id: &str, content: &ContentItem) -> (r:
        Option<PreparedSession>)
        ensures
            content.modules@.len() > 1_000_000 ==> r is None,
            r matches Some(p) ==> prepared_for(p, self, course_id@, section_id@, *content),
    {
        let now: i64 = now_epoch();
        let r = self.run_solver_at(course_id, section_id, content, now);
        proof {
            if r is Some {
                assert(prepared_at(r->0, self, course_id@, section_id@, *content, now as int));
                assert(prepared_for(r->0, self, course_id@, section_id@, *content));
            }
        }
        r
    }

    /// Packages one fabricated session ending at the instant `now`: a
    /// fresh random session identifier, a schedule of per-module
    /// boundaries whose last boundary is `now`, the full report, and the
    /// submission endpoint with its header bundle. Refuses exactly the
    /// items of more than a million modules and the instants within
    /// thirty-seven seconds per module of the edge of the years this
    /// library renders, where a drawn schedule could fall outside them.
    #[verifier::rlimit(100)]
    #[verifier::spinoff_prover]
    pub fn run_solver_at(
        &self,
        course_id: &str,
        section_id: &str,
        content: &ContentItem,
        now: i64,
    ) -> (r: Option<PreparedSession>)
        ensures
            r is Some <==> {
                &&& content.modules@.len() <= 1_000_000
                &&& MIN_FORMAT_EPOCH + 37 * content.modules@.len() <= now
                &&& now <= MAX_FORMAT_EPOCH - 37 * content.modules@.len()
            },
            r matches Some(p) ==> prepared_at(p, self, course_id@, section_id@, *content, now as int),
    {
        let len: usize = content.modules.len();
        if len > 1_000_000 {
            return None;
        }
        let len_i: i64 = len as i64;
        if now < MIN_FORMAT_EPOCH + 37 * len_i || now > MAX_FORMAT_EPOCH - 37 * len_i {
            return None;
        }
        proof {
            assert(vstd::math::abs(7int) + 30 == 37);
            assert(now + (len as int) * 37 <= i64::MAX);
            assert(i64::MIN <= now - (len as int) * 37);
        }
        let (_, times) = generate_time_vec(now, 7, 30, len);
        proof {
            assert(forall|i: int|
                0 <= i < times@.len() ==> MIN_FORMAT_EPOCH <= #[trigger] times@[i]
                    <= MAX_FORMAT_EPOCH);
        }
        let rendered = render_times(&times);
        let time_strings = match rendered {
            Some(v) => v,
            None => {
                proof {
                    assert(false);
                }
                return None;
            },
        };
        let session_id = generate_session_id();
        let report = build_session_report(
            self.user_id.as_str(),
            course_id,
            section_id,
            content,
            session_id.as_str(),
            &time_strings,
        );
        let headers = Self::assemble_headers(
            "stats.app.senecalearning.com",
            self.access_key.as_str(),
            false,
        );
        let url = String::from_str("https://stats.app.senecalearning.com/api/stats/sessions");
        let prepared = PreparedSession { url, headers, report };
        proof {
            let ts = times@;
            let len_g = content.modules@.len() as int;
            assert(time_strings@.len() == len_g + 1);
            assert(prepared.report.session.time_started@ == rfc3339_of(ts[0] as int));
            assert(prepared.report.session.time_finished@ == rfc3339_of(ts[len_g] as int));
            assert forall|i: int| 0 <= i < len_g implies module_report_matches(
                #[trigger] prepared.report.modules@[i],
                i,
                content.modules@[i],
                prepared.report.session.session_id@,
                course_id@,
                section_id@,
                content.id@,
                rfc3339_of(ts[i] as int),
                rfc3339_of(ts[i + 1] as int),
            ) by {
                assert(time_strings@[i]@ == rfc3339_of(ts[i] as int));
                assert(time_strings@[i + 1]@ == rfc3339_of(ts[i + 1] as int));
            }
            assert(prepared_with_schedule(prepared, self, course_id@, section_id@, *content, ts));
            assert(ts[content.modules@.len() as int] == now);
            assert(prepared_at(prepared, self, course_id@, section_id@, *content, now as int));
        }
        Some(prepared)
    }

    /// Reads the submission reply: success, or a status error that the
    /// caller must surface, never retried, since resubmission would file a
    /// duplicate session upstream.
    pub fn submit_outcome(status: u16) -> (r: Result<(), ClientError>)
        ensures
            spec_is_success(status) ==> r is Ok,
            !spec_is_success(status) ==> (r matches Err(e) && e == (ClientError::Status {
                status,
            })),
    {
        if is_success_status(status) {
            Ok(())
        } else {
            Err(ClientError::Status { status })
        }
    }
}

/// How the assignments request must read when the clock read the instant
/// `now`: the endpoint for the date thirty days before `now`, and the
/// authenticated header bundle with the fixed date header.
pub open spec fn assignments_request_for(
    p: (String, Vec<(String, String)>),
    client: &SenecaClient,
    now: int,
) -> bool {
    &&& p.0@ == spec_assignments_url(now - 2_592_000)
    &&& p.1.deep_view() == header_bundle(
        "assignments.app.senecalearning.com"@,
        client.access_key@,
        true,
    )
}

/// The assignments endpoint for a filter date: the fixed prefix, the
/// urlencoded RFC 3339 rendering of the date, and the fixed suffix.
pub open spec fn spec_assignments_url(date: int) -> Seq<char> {
    "https://assignments.app.senecalearning.com/api/students/me/assignments?limit=500&date="@
        + urlencoded(rfc3339_of(date)) + "&archived=false"@
}

/// True of a packaged submission built over some schedule of boundary
/// instants ending at `end`.
pub open spec fn prepared_at(
    p: PreparedSession,
    client: &SenecaClient,
    course_id: Seq<char>,
    section_id: Seq<char>,
    content: ContentItem,
    end: int,
) -> bool {
    exists|ts: Seq<i64>|
        (#[trigger] prepared_with_schedule(p, client, course_id, section_id, content, ts))
            && ts[content.modules@.len() as int] == end
}

/// True of a packaged submission built over some schedule of boundary
/// instants, whatever instant it ends at.
pub open spec fn prepared_for(
    p: PreparedSession,
    client: &SenecaClient,
    course_id: Seq<char>,
    section_id: Seq<char>,
    content: ContentItem,
) -> bool {
    exists|end: int| #[trigger] prepared_at(p, client, course_id, section_id, content, end)
}

/// How a freshly packaged submission must read for the schedule `ts`: the
/// report of `build_session_report` over this client's identity, a
/// session identifier of the random five-group shape, boundary gaps drawn
/// from the fixed sampling range of seven seconds give or take thirty,
/// and the fixed submission endpoint with its header bundle.
pub open spec fn prepared_with_schedule(
    p: PreparedSession,
    client: &SenecaClient,
    course_id: Seq<char>,
    section_id: Seq<char>,
    content: ContentItem,
    ts: Seq<i64>,
) -> bool {
    let len: int = content.modules@.len() as int;
    &&& ts.len() == len + 1
    &&& forall|i: int| 0 <= i < len ==> 7 - 30 <= ts[i + 1] - #[trigger] ts[i] < 7 + 30
    &&& is_session_id(p.report.session.session_id@)
    &&& p.report.platform@ == "seneca"@
    &&& p.report.client_version@ == "2.13.81"@
    &&& p.report.user_id@ == client.user_id@
    &&& p.report.user_level_feature_flag_value@ == "control"@
    &&& p.report.session.course_id@ == course_id
    &&& p.report.session.time_started@ == rfc3339_of(ts[0] as int)
    &&& p.report.session.time_finished@ == rfc3339_of(ts[len] as int)
    &&& p.report.session.starting_proficiency == 0
    &&& p.report.session.session_score == 1
    &&& p.report.session.completed
    &&& p.report.session.modules_correct == len - count_non_questions(content.modules@)
    &&& p.report.session.modules_tested == p.report.session.modules_correct
    &&& p.report.session.modules_incorrect == 0
    &&& p.report.session.modules_gave_up == 0
    &&& p.report.session.modules_studied == len
    &&& p.report.session.average_score == 1
    &&& p.report.session.session_type@ == "adaptive"@
    &&& p.report.session.section_ids@.len() == 1
    &&& p.report.session.section_ids@[0]@ == section_id
    &&& p.report.session.content_ids@.len() == 1
    &&& p.report.session.content_ids@[0]@ == content.id@
    &&& p.report.session.has_hardest_question_content == (content.content_type matches Some(t)
        && t@ == "hardestQuestions"@)
    &&& p.report.modules@.len() == len
    &&& forall|i: int|
        0 <= i < len ==> module_report_matches(
            #[trigger] p.report.modules@[i],
            i,
            content.modules@[i],
            p.report.session.session_id@,
            course_id,
            section_id,
            content.id@,
            rfc3339_of(ts[i] as int),
            rfc3339_of(ts[i + 1] as int),
        )
    &&& p.url@ == "https://stats.app.senecalearning.com/api/stats/sessions"@
    &&& p.headers.deep_view() == header_bundle(
        "stats.app.senecalearning.com"@,
        client.access_key@,
        false,
    )
}

} // verus!

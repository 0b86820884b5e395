//! The usage request: what is asked of the upstream service, and what its
//! answers come to.

use vstd::prelude::*;

use crate::clock::{
    has_fraction, is_utc_text, rfc3339_instant, rfc3339_utc, to_iso, FIRST_SECOND, LAST_SECOND,
    YEAR_0, YEAR_9999,
};
use crate::text::{decimal, joined, law_number_ends_at_non_digit, text_of};
use crate::types::ParsedUsage;

verus! {

/// A limit window of the upstream answer.
#[derive(Debug)]
pub struct UsageWindow {
    pub used_percent: u32,
    pub reset_at: i64,
}

/// The limit windows of the upstream answer: the session's, then the week's.
#[derive(Debug)]
pub struct RateLimit {
    pub primary_window: Option<UsageWindow>,
    pub secondary_window: Option<UsageWindow>,
}

/// The upstream answer.
#[derive(Debug)]
pub struct UpstreamUsage {
    pub email: String,
    pub plan_type: String,
    pub rate_limit: RateLimit,
}

/// A request for the usage of the account that a token belongs to.
#[derive(Debug)]
pub struct UsageRequest {
    pub url: String,
    pub bearer_token: String,
    pub timeout_secs: u64,
}

/// How to read the body of an answer.
#[derive(Debug, Clone, Copy, PartialEq, Eq, Structural)]
pub enum BodyStep {
    /// As the usage of the account.
    ReadUsage,
    /// As the text of a refusal.
    ReadRefusal,
}

/// The status codes of HTTP: three digits, the first one not zero.
pub open spec fn is_status_code(code: u16) -> bool {
    100 <= code <= 999
}

/// Whether a status code reports success.
pub open spec fn is_success_code(code: u16) -> bool {
    200 <= code < 300
}

/// How a status code is shown: the code, and the phrase that goes with it.
pub uninterp spec fn status_text(code: u16) -> Seq<char>;

/// The text of the moment at which a window ends.
pub open spec fn reset_text(window: Option<UsageWindow>) -> Option<Seq<char>> {
    match window {
        Some(w) => if FIRST_SECOND <= w.reset_at <= LAST_SECOND {
            Some(rfc3339_utc(w.reset_at, 0))
        } else {
            None
        },
        None => None,
    }
}

/// The used percentage of a window.
pub open spec fn used_percent(window: Option<UsageWindow>) -> Option<u32> {
    match window {
        Some(w) => Some(w.used_percent),
        None => None,
    }
}

/// The second at which a window ends.
pub open spec fn reset_at(window: Option<UsageWindow>) -> Option<i64> {
    match window {
        Some(w) => Some(w.reset_at),
        None => None,
    }
}

/// Whether a usage is what an upstream answer comes to: the primary window is
/// the session's, the secondary one the week's.
pub open spec fn is_usage_of(usage: ParsedUsage, upstream: UpstreamUsage) -> bool {
    let session = upstream.rate_limit.primary_window;
    let weekly = upstream.rate_limit.secondary_window;
    &&& usage.email@ == upstream.email@
    &&& usage.plan_type@ == upstream.plan_type@
    &&& usage.session_used_percent == used_percent(session)
    &&& usage.session_reset_at == reset_at(session)
    &&& text_of(usage.session_reset_at_iso) == reset_text(session)
    &&& usage.weekly_used_percent == used_percent(weekly)
    &&& usage.weekly_reset_at == reset_at(weekly)
    &&& text_of(usage.weekly_reset_at_iso) == reset_text(weekly)
}

/// Whether the text of a reset names the same moment as its second: it gives a
/// whole second in UTC, and where the year has four digits, the second can be read
/// back from it.
pub open spec fn names_reset(iso: Option<String>, reset_at: Option<i64>) -> bool {
    iso matches Some(t) ==> {
        &&& is_utc_text(t@) && !has_fraction(t@)
        &&& reset_at matches Some(r) ==> YEAR_0 <= r <= YEAR_9999 ==> rfc3339_instant(t@) == Some(
            (r, 0u32),
        )
    }
}

/// Calls `StatusCode::from_u16` of the http crate, under its name in reqwest,
/// then its `is_success`. Claimed: success is a code from 200 to 299.
#[verifier::external_body]
fn is_success(code: u16) -> (success: bool)
    requires
        is_status_code(code),
    ensures
        success == is_success_code(code),
{
    reqwest::StatusCode::from_u16(code).unwrap().is_success()
}

/// Calls `StatusCode::from_u16` of the http crate, under its name in reqwest,
/// then `to_string` through its `Display`. Claimed: the text depends on the code alone,
/// and begins with the code and a blank.
#[verifier::external_body]
fn show_status(code: u16) -> (text: String)
    requires
        is_status_code(code),
    ensures
        text@ == status_text(code),
        (decimal(code as nat) + " "@).is_prefix_of(text@),
{
    reqwest::StatusCode::from_u16(code).unwrap().to_string()
}

/// Whether a request asks for the usage of the account that a token belongs to.
pub open spec fn asks_for_usage(request: UsageRequest, access_token: Seq<char>) -> bool {
    &&& request.url@ == "https://chatgpt.com/backend-api/wham/usage"@
    &&& request.bearer_token@ == access_token
    &&& request.timeout_secs == 4
}

/// The request for the usage of the account that a token belongs to.
pub fn usage_request(access_token: &str) -> (request: UsageRequest)
    ensures
        asks_for_usage(request, access_token@),
{
    UsageRequest {
        url: "https://chatgpt.com/backend-api/wham/usage".to_string(),
        bearer_token: access_token.to_string(),
        timeout_secs: 4,
    }
}

/// The message of a request that failed before an answer came.
pub fn send_failure(error: &str) -> (message: String)
    ensures
        message@ == "request failed: "@ + error@,
{
    joined("request failed: ", error)
}

/// How to read the body of an answer with a status code.
pub fn after_head(code: u16) -> (step: BodyStep)
    requires
        is_status_code(code),
    ensures
        step == if is_success_code(code) {
            BodyStep::ReadUsage
        } else {
            BodyStep::ReadRefusal
        },
{
    if is_success(code) {
        BodyStep::ReadUsage
    } else {
        BodyStep::ReadRefusal
    }
}

/// The message of a refusal, from how its status is shown and from its body,
/// which may not have come.
pub fn refusal_message(status: &str, body: Option<String>) -> (message: String)
    ensures
        message@ == "upstream error "@ + status@ + ": "@ + (match body {
            Some(b) => b@,
            None => "<no upstream body>"@,
        }),
{
    let mut message = joined("upstream error ", status);
    message.append(": ");
    match body {
        Some(b) => message.append(b.as_str()),
        None => message.append("<no upstream body>"),
    }
    message
}

/// Whether a message tells of a refusal with a status code.
pub open spec fn tells_status(message: Seq<char>, code: u16) -> bool {
    ("upstream error "@ + decimal(code as nat) + " "@).is_prefix_of(message)
}

/// What a refusal comes to: a message with its status and its body.
pub fn after_refusal(code: u16, body: Option<String>) -> (message: String)
    requires
        is_status_code(code),
    ensures
        message@ == "upstream error "@ + status_text(code) + ": "@ + (match body {
            Some(b) => b@,
            None => "<no upstream body>"@,
        }),
        tells_status(message@, code),
{
    let status = show_status(code);
    let message = refusal_message(status.as_str(), body);
    proof {
        let shown = decimal(code as nat) + " "@;
        let begin = "upstream error "@ + decimal(code as nat) + " "@;
        assert(begin =~= "upstream error "@ + shown);
        assert(begin =~= message@.subrange(0, begin.len() as int)) by {
            assert(shown =~= status@.subrange(0, shown.len() as int));
        }
    }
    message
}

/// What the body of a success comes to: the usage, or what is wrong with the body.
pub fn after_usage(body: Result<UpstreamUsage, String>) -> (usage: Result<ParsedUsage, String>)
    ensures
        match body {
            Ok(upstream) => usage matches Ok(u) && is_usage_of(u, upstream) && names_reset(
                u.session_reset_at_iso,
                u.session_reset_at,
            ) && names_reset(u.weekly_reset_at_iso, u.weekly_reset_at),
            Err(e) => usage matches Err(message) && message@ == "invalid upstream json: "@ + e@,
        },
{
    match body {
        Ok(upstream) => Ok(parse_usage(upstream)),
        Err(e) => Err(joined("invalid upstream json: ", e.as_str())),
    }
}

fn window_iso(window: &Option<UsageWindow>) -> (text: Option<String>)
    ensures
        text_of(text) == reset_text(*window),
        names_reset(text, reset_at(*window)),
{
    match window {
        Some(w) => to_iso(w.reset_at),
        None => None,
    }
}

/// The usage that an upstream answer comes to.
pub fn parse_usage(upstream: UpstreamUsage) -> (usage: ParsedUsage)
    ensures
        is_usage_of(usage, upstream),
        names_reset(usage.session_reset_at_iso, usage.session_reset_at),
        names_reset(usage.weekly_reset_at_iso, usage.weekly_reset_at),
{
    let session_reset_at_iso = window_iso(&upstream.rate_limit.primary_window);
    let weekly_reset_at_iso = window_iso(&upstream.rate_limit.secondary_window);
    let (session_used_percent, session_reset_at): (Option<u32>, Option<i64>) =
        match &upstream.rate_limit.primary_window {
        Some(w) => (Some(w.used_percent), Some(w.reset_at)),
        None => (None, None),
    };
    let (weekly_used_percent, weekly_reset_at): (Option<u32>, Option<i64>) =
        match &upstream.rate_limit.secondary_window {
        Some(w) => (Some(w.used_percent), Some(w.reset_at)),
        None => (None, None),
    };
    ParsedUsage {
        email: upstream.email,
        plan_type: upstream.plan_type,
        session_used_percent,
        session_reset_at,
        session_reset_at_iso,
        weekly_used_percent,
        weekly_reset_at,
        weekly_reset_at_iso,
    }
}

/// The status code can be told from the message of a refusal.
pub proof fn law_refusal_tells_one_status(message: Seq<char>, code: u16, other: u16)
    requires
        tells_status(message, code),
        tells_status(message, other),
    ensures
        code == other,
{
    reveal_strlit("upstream error ");
    reveal_strlit(" ");
    let skipped = "upstream error "@.len() as int;
    let rest = message.skip(skipped);
    let n = decimal(code as nat);
    let m = decimal(other as nat);
    let begin = "upstream error "@ + n + " "@;
    let other_begin = "upstream error "@ + m + " "@;
    assert(begin =~= message.subrange(0, begin.len() as int));
    assert(other_begin =~= message.subrange(0, other_begin.len() as int));
    assert forall|i: int| 0 <= i < n.len() implies rest[i] == #[trigger] n[i] by {
        assert(begin[skipped + i] == n[i]);
        assert(message.subrange(0, begin.len() as int)[skipped + i] == rest[i]);
    }
    assert forall|i: int| 0 <= i < m.len() implies rest[i] == #[trigger] m[i] by {
        assert(other_begin[skipped + i] == m[i]);
        assert(message.subrange(0, other_begin.len() as int)[skipped + i] == rest[i]);
    }
    assert(begin[skipped + n.len()] == ' ');
    assert(message.subrange(0, begin.len() as int)[skipped + n.len()] == rest[n.len() as int]);
    assert(other_begin[skipped + m.len()] == ' ');
    assert(message.subrange(0, other_begin.len() as int)[skipped + m.len()] == rest[m.len() as int]);
    assert(n + rest.skip(n.len() as int) =~= rest);
    assert(m + rest.skip(m.len() as int) =~= rest);
    law_number_ends_at_non_digit(
        code as nat,
        rest.skip(n.len() as int),
        other as nat,
        rest.skip(m.len() as int),
    );
}

/// The primary window is the session's and the secondary one the week's: what is
/// known of a window is what the answer has of it, field by field, and of a window
/// that is missing nothing is known. The account is the one that the answer names.
pub proof fn law_windows_become_session_and_week(upstream: UpstreamUsage, usage: ParsedUsage)
    requires
        call_ensures(parse_usage, (upstream,), usage),
    ensures
        usage.email@ == upstream.email@,
        usage.plan_type@ == upstream.plan_type@,
        upstream.rate_limit.primary_window matches Some(w)
            ==> usage.session_used_percent == Some(w.used_percent),
        upstream.rate_limit.primary_window matches Some(w)
            ==> usage.session_reset_at == Some(w.reset_at),
        upstream.rate_limit.primary_window matches Some(w)
            ==> (usage.session_reset_at_iso is Some <==>
            -8_334_601_228_800 <= w.reset_at <= 8_210_266_876_799),
        upstream.rate_limit.primary_window matches Some(w)
            ==> (usage.session_reset_at_iso matches Some(t) ==> t@
            == rfc3339_utc(w.reset_at, 0)),
        upstream.rate_limit.primary_window is None
            ==> usage.session_used_percent is None && usage.session_reset_at is None
            && usage.session_reset_at_iso is None,
        upstream.rate_limit.secondary_window matches Some(w)
            ==> usage.weekly_used_percent == Some(w.used_percent),
        upstream.rate_limit.secondary_window matches Some(w)
            ==> usage.weekly_reset_at == Some(w.reset_at),
        upstream.rate_limit.secondary_window matches Some(w)
            ==> (usage.weekly_reset_at_iso is Some <==>
            -8_334_601_228_800 <= w.reset_at <= 8_210_266_876_799),
        upstream.rate_limit.secondary_window matches Some(w)
            ==> (usage.weekly_reset_at_iso matches Some(t) ==> t@
            == rfc3339_utc(w.reset_at, 0)),
        upstream.rate_limit.secondary_window is None
            ==> usage.weekly_used_percent is None && usage.weekly_reset_at is None
            && usage.weekly_reset_at_iso is None,
{
}

/// The same of any usage that an answer comes to.
pub proof fn law_usage_keeps_what_was_answered(upstream: UpstreamUsage, usage: ParsedUsage)
    requires
        is_usage_of(usage, upstream),
    ensures
        usage.email@ == upstream.email@,
        usage.plan_type@ == upstream.plan_type@,
        upstream.rate_limit.primary_window matches Some(w)
            ==> usage.session_used_percent == Some(w.used_percent),
        upstream.rate_limit.primary_window matches Some(w)
            ==> usage.session_reset_at == Some(w.reset_at),
        upstream.rate_limit.primary_window matches Some(w)
            ==> (usage.session_reset_at_iso is Some <==>
            -8_334_601_228_800 <= w.reset_at <= 8_210_266_876_799),
        upstream.rate_limit.primary_window matches Some(w)
            ==> (usage.session_reset_at_iso matches Some(t) ==> t@
            == rfc3339_utc(w.reset_at, 0)),
        upstream.rate_limit.primary_window is None
            ==> usage.session_used_percent is None && usage.session_reset_at is None
            && usage.session_reset_at_iso is None,
        upstream.rate_limit.secondary_window matches Some(w)
            ==> usage.weekly_used_percent == Some(w.used_percent),
        upstream.rate_limit.secondary_window matches Some(w)
            ==> usage.weekly_reset_at == Some(w.reset_at),
        upstream.rate_limit.secondary_window matches Some(w)
            ==> (usage.weekly_reset_at_iso is Some <==>
            -8_334_601_228_800 <= w.reset_at <= 8_210_266_876_799),
        upstream.rate_limit.secondary_window matches Some(w)
            ==> (usage.weekly_reset_at_iso matches Some(t) ==> t@
            == rfc3339_utc(w.reset_at, 0)),
        upstream.rate_limit.secondary_window is None
            ==> usage.weekly_used_percent is None && usage.weekly_reset_at is None
            && usage.weekly_reset_at_iso is None,
{
}

/// A body that could be read becomes the usage in it, and one that could not
/// becomes an error that says why.
pub proof fn law_body_becomes_usage(
    body: Result<UpstreamUsage, String>,
    usage: Result<ParsedUsage, String>,
)
    requires
        call_ensures(after_usage, (body,), usage),
    ensures
        body is Ok <==> usage is Ok,
        body matches Err(e) ==> (usage matches Err(message) && message@
            == "invalid upstream json: "@ + e@),
        body matches Ok(upstream) ==> (usage matches Ok(u) ==> {
            &&& u.email@ == upstream.email@
            &&& u.plan_type@ == upstream.plan_type@
            &&& upstream.rate_limit.primary_window matches Some(w)
                ==> u.session_used_percent == Some(w.used_percent)
            &&& upstream.rate_limit.primary_window matches Some(w)
                ==> u.session_reset_at == Some(w.reset_at)
            &&& upstream.rate_limit.primary_window matches Some(w)
                ==> (u.session_reset_at_iso is Some <==>
            -8_334_601_228_800 <= w.reset_at <= 8_210_266_876_799)
            &&& upstream.rate_limit.primary_window matches Some(w)
                ==> (u.session_reset_at_iso matches Some(t) ==> t@
            == rfc3339_utc(w.reset_at, 0))
            &&& upstream.rate_limit.primary_window is None
                ==> u.session_used_percent is None && u.session_reset_at is None
            && u.session_reset_at_iso is None
            &&& upstream.rate_limit.secondary_window matches Some(w)
                ==> u.weekly_used_percent == Some(w.used_percent)
            &&& upstream.rate_limit.secondary_window matches Some(w)
                ==> u.weekly_reset_at == Some(w.reset_at)
            &&& upstream.rate_limit.secondary_window matches Some(w)
                ==> (u.weekly_reset_at_iso is Some <==>
            -8_334_601_228_800 <= w.reset_at <= 8_210_266_876_799)
            &&& upstream.rate_limit.secondary_window matches Some(w)
                ==> (u.weekly_reset_at_iso matches Some(t) ==> t@
            == rfc3339_utc(w.reset_at, 0))
            &&& upstream.rate_limit.secondary_window is None
                ==> u.weekly_used_percent is None && u.weekly_reset_at is None
            && u.weekly_reset_at_iso is None
        }),
{
}

/// The text of a reset, where there is one, names its second: in UTC, without a
/// fraction, and so that the second can be read back where the year has four digits.
pub proof fn law_reset_text_names_its_second(upstream: UpstreamUsage, usage: ParsedUsage)
    requires
        call_ensures(parse_usage, (upstream,), usage),
    ensures
        usage.session_reset_at_iso matches Some(t) ==> "+00:00"@.is_suffix_of(t@) && !t@.contains(
            '.',
        ) && (usage.session_reset_at matches Some(r) && (-62_167_219_200 <= r <= 253_402_300_799
            ==> rfc3339_instant(t@) == Some((r, 0u32)))),
        usage.weekly_reset_at_iso matches Some(t) ==> "+00:00"@.is_suffix_of(t@) && !t@.contains(
            '.',
        ) && (usage.weekly_reset_at matches Some(r) && (-62_167_219_200 <= r <= 253_402_300_799
            ==> rfc3339_instant(t@) == Some((r, 0u32)))),
{
}

/// What a window holds is what is known of it.
pub proof fn law_window_is_known(window: UsageWindow)
    ensures
        used_percent(Some(window)) == Some(window.used_percent),
        reset_at(Some(window)) == Some(window.reset_at),
        used_percent(None) is None,
        reset_at(None) is None,
        reset_text(None) is None,
        -8_334_601_228_800 <= window.reset_at <= 8_210_266_876_799 ==> reset_text(Some(window))
            == Some(rfc3339_utc(window.reset_at, 0)),
        !(-8_334_601_228_800 <= window.reset_at <= 8_210_266_876_799) ==> reset_text(Some(window))
            is None,
{
}

/// The request goes to the one address, carries the token as it is, and waits for
/// four seconds.
pub proof fn law_request_carries_the_token(access_token: &str, request: UsageRequest)
    requires
        call_ensures(usage_request, (access_token,), request),
    ensures
        request.url@ == "https://chatgpt.com/backend-api/wham/usage"@,
        request.bearer_token@ == access_token@,
        request.timeout_secs == 4,
{
}

/// What it is for a request to ask for the usage of a token's account.
pub proof fn law_asking_names_address_and_token(request: UsageRequest, access_token: Seq<char>)
    ensures
        asks_for_usage(request, access_token) <==> request.url@
            == "https://chatgpt.com/backend-api/wham/usage"@ && request.bearer_token@
            == access_token && request.timeout_secs == 4,
{
}

/// The error of a request that was not answered ends with what went wrong.
pub proof fn law_send_failure_says_why(error: &str, message: String)
    requires
        call_ensures(send_failure, (error,), message),
    ensures
        message@ == "request failed: "@ + error@,
{
}

/// The body is read as the usage just where the status code is one from 200 to 299.
pub proof fn law_success_is_in_the_two_hundreds(code: u16, step: BodyStep)
    requires
        100 <= code <= 999,
        call_ensures(after_head, (code,), step),
    ensures
        step is ReadUsage <==> 200 <= code <= 299,
        step is ReadRefusal <==> code < 200 || code > 299,
{
}

/// The status codes, and those of success, in numbers.
pub proof fn law_status_codes_in_numbers(code: u16)
    ensures
        is_status_code(code) <==> 100 <= code <= 999,
        is_success_code(code) <==> 200 <= code <= 299,
{
}

/// A refusal is told with its status, then with its body, or with a note that none
/// came.
pub proof fn law_refusal_tells_status_and_body(
    status: &str,
    body: Option<String>,
    message: String,
)
    requires
        call_ensures(refusal_message, (status, body), message),
    ensures
        body matches Some(b) ==> message@ == "upstream error "@ + status@ + ": "@ + b@,
        body is None ==> message@ == "upstream error "@ + status@ + ": "@ + "<no upstream body>"@,
{
}

/// A refusal with a status code is told with the code, and with its body or a note
/// that none came.
pub proof fn law_refusal_tells_its_code(code: u16, body: Option<String>, message: String)
    requires
        100 <= code <= 999,
        call_ensures(after_refusal, (code, body), message),
    ensures
        ("upstream error "@ + decimal(code as nat) + " "@).is_prefix_of(message@),
        body matches Some(b) ==> message@ == "upstream error "@ + status_text(code) + ": "@ + b@,
        body is None ==> message@ == "upstream error "@ + status_text(code) + ": "@
            + "<no upstream body>"@,
{
}

} // verus!

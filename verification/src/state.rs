//! The state of the monitor, and what changes it.

use std::time::Instant;

use vstd::prelude::*;

use crate::auth::{auth_file_names, TOKEN_VARIABLE};
use crate::clock::{
    elapsed_nanos, format_rfc3339, instant_now, is_clock_reading, is_common_instant, is_elapsed,
    is_instant, is_utc_reading, is_utc_text, rfc3339_instant, rfc3339_utc, utc_now, LAST_SECOND,
    NANOS,
};
use crate::input::UserAction;
use crate::schedule::{
    interval_secs, is_due, law_base_intervals, law_due_in_numbers, refresh_due,
};
use crate::types::{ParsedUsage, UsageResponse};
use crate::upstream::{asks_for_usage, usage_request, UsageRequest};

verus! {

/// The error that is shown while there is no access token.
pub const MISSING_TOKEN: &'static str =
    "Set OPENAI_ACCESS_TOKEN or sign in via OpenCode (~/.local/share/opencode/auth.json)";

/// The state of the monitor.
#[derive(Debug)]
pub struct AppState {
    pub access_token: Option<String>,
    pub usage: Option<UsageResponse>,
    pub last_refresh: Option<Instant>,
    pub last_input: Instant,
    pub consecutive_failures: u32,
    pub last_error: Option<String>,
}

/// What is to be done after the user asked for something.
#[derive(Debug)]
pub enum Reaction {
    /// Leave.
    Quit,
    /// Send this request, and record what comes of it.
    Fetch(UsageRequest),
    /// Go on.
    Continue,
}

impl AppState {
    /// What holds of the monitor at any time: without a token nothing was ever
    /// fetched and the error says so; with one, the error tells of the failures
    /// since the last success; and there is a usage only after a fetch.
    pub open spec fn is_consistent(self) -> bool {
        &&& self.access_token is None ==> self.usage is None && self.consecutive_failures == 0
            && says_token_is_missing(self.last_error)
        &&& self.access_token is Some ==> (self.last_error is Some <==> self.consecutive_failures
            > 0)
        &&& self.last_refresh is None ==> self.usage is None && self.consecutive_failures == 0
    }
}

/// Whether an error says that there is no access token.
pub open spec fn says_token_is_missing(error: Option<String>) -> bool {
    error matches Some(e) && e@ == MISSING_TOKEN@
}

/// Whether a state is that of a monitor that starts at an instant.
pub open spec fn is_start(state: AppState, access_token: Option<String>, now: Instant) -> bool {
    &&& state.access_token == access_token
    &&& state.usage is None
    &&& state.last_refresh is None
    &&& state.last_input == now
    &&& state.consecutive_failures == 0
    &&& match access_token {
        Some(_) => state.last_error is None,
        None => says_token_is_missing(state.last_error),
    }
}

/// Whether a usage was synced at an instant, with this data.
pub open spec fn is_synced(usage: UsageResponse, data: ParsedUsage, secs: i64, nanos: u32) -> bool {
    &&& usage.data == data
    &&& usage.cache_age_seconds == 0
    &&& usage.last_sync_unix == secs
    &&& usage.last_sync_iso@ == rfc3339_utc(secs, nanos)
    &&& is_utc_text(usage.last_sync_iso@)
    &&& is_common_instant(secs, nanos) ==> rfc3339_instant(usage.last_sync_iso@) == Some(
        (secs, nanos),
    )
}

/// One more, as far as 32 bits go.
pub open spec fn one_more(failures: u32) -> u32 {
    if failures < u32::MAX {
        (failures + 1) as u32
    } else {
        failures
    }
}

/// How a fetch that succeeded changes the state: it replaces the usage and ends
/// the failures.
pub open spec fn has_succeeded(
    before: AppState,
    data: ParsedUsage,
    secs: i64,
    nanos: u32,
    at: Instant,
    after: AppState,
) -> bool {
    &&& after.access_token == before.access_token
    &&& after.last_input == before.last_input
    &&& after.last_refresh == Some(at)
    &&& after.usage matches Some(u) && is_synced(u, data, secs, nanos)
    &&& after.consecutive_failures == 0
    &&& after.last_error is None
}

/// How a fetch that failed changes the state: it keeps the usage, and is counted
/// and shown.
pub open spec fn has_failed(before: AppState, error: String, at: Instant, after: AppState) -> bool {
    after == (AppState {
        last_refresh: Some(at),
        consecutive_failures: one_more(before.consecutive_failures),
        last_error: Some(error),
        ..before
    })
}

/// How the end of a fetch changes the state, at instants that the clocks have shown.
pub open spec fn is_recorded(
    before: AppState,
    outcome: Result<ParsedUsage, String>,
    after: AppState,
) -> bool {
    match outcome {
        Ok(data) => exists|secs: i64, nanos: u32, at: Instant|
            0 <= secs <= LAST_SECOND && nanos < NANOS && is_utc_reading(secs, nanos)
                && is_clock_reading(at) && #[trigger] has_succeeded(
                before,
                data,
                secs,
                nanos,
                at,
                after,
            ),
        Err(error) => exists|at: Instant|
            is_clock_reading(at) && #[trigger] has_failed(before, error, at, after),
    }
}

/// How a refresh begins: with a token, a request is to be sent and nothing
/// changes yet; without one, the error says so.
pub open spec fn is_refresh(
    before: AppState,
    at: Instant,
    after: AppState,
    request: Option<UsageRequest>,
) -> bool {
    match before.access_token {
        Some(token) => {
            &&& after == before
            &&& request matches Some(r) && asks_for_usage(r, token@)
        },
        None => {
            &&& after == (AppState {
                last_refresh: Some(at),
                last_error: after.last_error,
                ..before
            })
            &&& says_token_is_missing(after.last_error)
            &&& request is None
        },
    }
}

/// How the state changes with what the user asks for, and what is to be done.
pub open spec fn is_reaction(
    before: AppState,
    action: UserAction,
    input_at: Instant,
    refresh_at: Instant,
    after: AppState,
    reaction: Reaction,
) -> bool {
    match action {
        UserAction::Quit => after == before && reaction is Quit,
        UserAction::Refresh => {
            let request = match reaction {
                Reaction::Fetch(r) => Some(r),
                _ => None,
            };
            &&& reaction !is Quit
            &&& is_refresh(
                AppState { last_input: input_at, ..before },
                refresh_at,
                after,
                request,
            )
        },
        UserAction::Activity => {
            &&& after == (AppState { last_input: input_at, ..before })
            &&& reaction is Continue
        },
        UserAction::Nothing => after == before && reaction is Continue,
    }
}

/// The request that is due, so many nanoseconds after the last key press and the
/// last fetch.
pub open spec fn is_due_request(
    state: AppState,
    since_input: u128,
    since_refresh: Option<u128>,
    request: Option<UsageRequest>,
) -> bool {
    let due = is_due(
        state.access_token is Some,
        since_input,
        since_refresh,
        state.consecutive_failures,
    );
    &&& request is Some <==> due
    &&& request matches Some(r) ==> state.access_token matches Some(token) && asks_for_usage(
        r,
        token@,
    )
}

impl AppState {
    /// A monitor that starts at an instant.
    pub fn new_at(access_token: Option<String>, now: Instant) -> (state: Self)
        ensures
            is_start(state, access_token, now),
            state.is_consistent(),
    {
        let last_error = if access_token.is_none() {
            Some(MISSING_TOKEN.to_string())
        } else {
            None
        };
        AppState {
            access_token,
            usage: None,
            last_refresh: None,
            last_input: now,
            consecutive_failures: 0,
            last_error,
        }
    }

    /// A monitor that starts now.
    pub fn new(access_token: Option<String>) -> (state: Self)
        ensures
            is_start(state, access_token, state.last_input),
            is_clock_reading(state.last_input),
            state.is_consistent(),
    {
        AppState::new_at(access_token, instant_now())
    }

    /// Begins a refresh at an instant: gives the request to send, or notes that
    /// there is no token.
    pub fn refresh_at(&mut self, at: Instant) -> (request: Option<UsageRequest>)
        ensures
            is_refresh(*old(self), at, *final(self), request),
            old(self).is_consistent() ==> final(self).is_consistent(),
    {
        if let Some(token) = &self.access_token {
            return Some(usage_request(token.as_str()));
        }
        self.last_error = Some(MISSING_TOKEN.to_string());
        self.last_refresh = Some(at);
        None
    }

    /// Begins a refresh now.
    pub fn refresh(&mut self) -> (request: Option<UsageRequest>)
        ensures
            exists|at: Instant|
                is_clock_reading(at) && #[trigger] is_refresh(
                    *old(self),
                    at,
                    *final(self),
                    request,
                ),
            old(self).is_consistent() ==> final(self).is_consistent(),
    {
        let at = instant_now();
        let request = self.refresh_at(at);
        assert(is_refresh(*old(self), at, *self, request));
        request
    }

    /// Records a fetch that succeeded, at an instant of the calendar and of the
    /// monotonic clock.
    pub fn succeed_at(&mut self, data: ParsedUsage, secs: i64, nanos: u32, at: Instant)
        requires
            is_instant(secs, nanos),
        ensures
            has_succeeded(*old(self), data, secs, nanos, at, *final(self)),
            old(self).is_consistent() && old(self).access_token is Some
                ==> final(self).is_consistent(),
    {
        let last_sync_iso = format_rfc3339(secs, nanos).unwrap();
        self.usage = Some(
            UsageResponse { data, cache_age_seconds: 0, last_sync_unix: secs, last_sync_iso },
        );
        self.consecutive_failures = 0;
        self.last_error = None;
        self.last_refresh = Some(at);
    }

    /// Records a fetch that failed, at an instant of the monotonic clock.
    pub fn fail_at(&mut self, error: String, at: Instant)
        ensures
            has_failed(*old(self), error, at, *final(self)),
            old(self).is_consistent() && old(self).access_token is Some
                ==> final(self).is_consistent(),
    {
        self.consecutive_failures = self.consecutive_failures.saturating_add(1);
        self.last_error = Some(error);
        self.last_refresh = Some(at);
    }

    /// Records what came of a fetch, now.
    pub fn finish_refresh(&mut self, outcome: Result<ParsedUsage, String>)
        ensures
            is_recorded(*old(self), outcome, *final(self)),
            old(self).is_consistent() && old(self).access_token is Some
                ==> final(self).is_consistent(),
    {
        match outcome {
            Ok(data) => {
                let (secs, nanos) = utc_now();
                let at = instant_now();
                self.succeed_at(data, secs, nanos, at);
                assert(has_succeeded(*old(self), data, secs, nanos, at, *self));
            },
            Err(error) => {
                let at = instant_now();
                let ghost given = error;
                self.fail_at(error, at);
                assert(has_failed(*old(self), given, at, *self));
            },
        }
    }

    /// The request that is due, so many nanoseconds after the last key press and
    /// the last fetch.
    pub fn maybe_auto_refresh_at(
        &self,
        since_input: u128,
        since_refresh: Option<u128>,
    ) -> (request: Option<UsageRequest>)
        ensures
            is_due_request(*self, since_input, since_refresh, request),
    {
        if let Some(token) = &self.access_token {
            if refresh_due(true, since_input, since_refresh, self.consecutive_failures) {
                return Some(usage_request(token.as_str()));
            }
        }
        None
    }

    /// The request that is due now.
    pub fn maybe_auto_refresh(&self) -> (request: Option<UsageRequest>)
        ensures
            exists|since_input: u128, since_refresh: Option<u128>|
                is_elapsed(self.last_input, since_input) && (match (
                    self.last_refresh,
                    since_refresh,
                ) {
                    (Some(at), Some(passed)) => is_elapsed(at, passed),
                    (None, None) => true,
                    _ => false,
                }) && #[trigger] is_due_request(*self, since_input, since_refresh, request),
    {
        let since_input: u128 = elapsed_nanos(&self.last_input);
        let since_refresh: Option<u128> = match &self.last_refresh {
            Some(at) => Some(elapsed_nanos(at)),
            None => None,
        };
        let request = self.maybe_auto_refresh_at(since_input, since_refresh);
        assert(is_due_request(*self, since_input, since_refresh, request));
        request
    }

    /// Does what the user asks for, at the instants of the key press and of the
    /// refresh.
    pub fn react_at(&mut self, action: UserAction, input_at: Instant, refresh_at: Instant) -> (reaction:
        Reaction)
        ensures
            is_reaction(*old(self), action, input_at, refresh_at, *final(self), reaction),
            old(self).is_consistent() ==> final(self).is_consistent(),
    {
        match action {
            UserAction::Quit => Reaction::Quit,
            UserAction::Refresh => {
                self.last_input = input_at;
                match self.refresh_at(refresh_at) {
                    Some(request) => Reaction::Fetch(request),
                    None => Reaction::Continue,
                }
            },
            UserAction::Activity => {
                self.last_input = input_at;
                Reaction::Continue
            },
            UserAction::Nothing => Reaction::Continue,
        }
    }

    /// Does what the user asks for, now.
    pub fn react(&mut self, action: UserAction) -> (reaction: Reaction)
        ensures
            exists|input_at: Instant, refresh_at: Instant|
                is_clock_reading(input_at) && is_clock_reading(refresh_at) && #[trigger] is_reaction(
                    *old(self),
                    action,
                    input_at,
                    refresh_at,
                    *final(self),
                    reaction,
                ),
            old(self).is_consistent() ==> final(self).is_consistent(),
    {
        let input_at = instant_now();
        let refresh_at = instant_now();
        let reaction = self.react_at(action, input_at, refresh_at);
        assert(is_reaction(*old(self), action, input_at, refresh_at, *self, reaction));
        reaction
    }
}

/// Whether a fetch that failed leads from one state to another.
pub open spec fn is_failure(before: AppState, after: AppState) -> bool {
    exists|error: String, at: Instant| #[trigger] has_failed(before, error, at, after)
}

/// Whether one state leads to another: by the end of a fetch that a token
/// allowed, by the begin of a refresh, or by what the user asks for.
pub open spec fn is_step(before: AppState, after: AppState) -> bool {
    ||| before.access_token is Some && is_failure(before, after)
    ||| before.access_token is Some && exists|
        data: ParsedUsage,
        secs: i64,
        nanos: u32,
        at: Instant,
    | #[trigger]
        has_succeeded(before, data, secs, nanos, at, after)
    ||| exists|at: Instant, request: Option<UsageRequest>| #[trigger]
        is_refresh(before, at, after, request)
    ||| exists|action: UserAction, input_at: Instant, refresh_at: Instant, reaction: Reaction|
        #[trigger]
        is_reaction(before, action, input_at, refresh_at, after, reaction)
}

/// The monitor is consistent at any time, and keeps the token that it started with.
pub proof fn law_monitor_stays_consistent(
    states: Seq<AppState>,
    access_token: Option<String>,
    now: Instant,
)
    requires
        states.len() > 0,
        is_start(states[0], access_token, now),
        forall|i: int, j: int|
            0 <= i && i + 1 == j && j < states.len() ==> #[trigger] is_step(states[i], states[j]),
    ensures
        states.last().is_consistent(),
        states.last().access_token == access_token,
    decreases states.len(),
{
    if states.len() > 1 {
        let earlier = states.drop_last();
        assert forall|i: int, j: int|
            0 <= i && i + 1 == j && j < earlier.len() implies #[trigger] is_step(
            earlier[i],
            earlier[j],
        ) by {
            assert(is_step(states[i], states[j]));
        }
        law_monitor_stays_consistent(earlier, access_token, now);
        assert(is_step(states[states.len() - 2], states[states.len() - 1]));
    }
}

/// Failures in a row are counted, as far as 32 bits go, and none of them touches
/// the usage that was last fetched. The last one is shown.
pub proof fn law_failures_in_a_row_are_counted(states: Seq<AppState>)
    requires
        states.len() > 1,
        forall|i: int, j: int|
            0 <= i && i + 1 == j && j < states.len() ==> #[trigger] is_failure(
                states[i],
                states[j],
            ),
    ensures
        states.last().usage == states[0].usage,
        states.last().last_error is Some,
        states.last().consecutive_failures == if states[0].consecutive_failures + states.len() - 1
            <= u32::MAX {
            states[0].consecutive_failures + states.len() - 1
        } else {
            u32::MAX as int
        },
    decreases states.len(),
{
    let earlier = states.drop_last();
    assert(is_failure(states[states.len() - 2], states[states.len() - 1]));
    if states.len() > 2 {
        assert forall|i: int, j: int|
            0 <= i && i + 1 == j && j < earlier.len() implies #[trigger] is_failure(
            earlier[i],
            earlier[j],
        ) by {
            assert(is_failure(states[i], states[j]));
        }
        law_failures_in_a_row_are_counted(earlier);
    }
}

/// A success ends the backoff: the next fetch comes after the base time again.
pub proof fn law_success_ends_backoff(
    before: AppState,
    data: ParsedUsage,
    secs: i64,
    nanos: u32,
    at: Instant,
    after: AppState,
)
    requires
        has_succeeded(before, data, secs, nanos, at, after),
    ensures
        after.last_error is None,
        interval_secs(false, after.consecutive_failures) == 30,
        interval_secs(true, after.consecutive_failures) == 5 * 60,
{
    law_base_intervals();
}

/// Without a token no request is ever sent: none falls due, and the user's
/// wish for a refresh leads to none.
pub proof fn law_no_token_no_request(
    state: AppState,
    since_input: u128,
    since_refresh: Option<u128>,
    due: Option<UsageRequest>,
    action: UserAction,
    input_at: Instant,
    refresh_at: Instant,
    after: AppState,
    reaction: Reaction,
)
    requires
        state.access_token is None,
        is_due_request(state, since_input, since_refresh, due),
        is_reaction(state, action, input_at, refresh_at, after, reaction),
    ensures
        due is None,
        reaction !is Fetch,
{
}

/// With a token, the user's wish for a refresh is granted at once, however
/// recent the last fetch and however many the failures.
pub proof fn law_asked_refresh_is_not_delayed(
    state: AppState,
    input_at: Instant,
    refresh_at: Instant,
    after: AppState,
    reaction: Reaction,
)
    requires
        state.access_token is Some,
        is_reaction(state, UserAction::Refresh, input_at, refresh_at, after, reaction),
    ensures
        reaction is Fetch,
        after == (AppState { last_input: input_at, ..state }),
{
}

/// The error for a missing token names the two places where a token is looked for.
#[verifier::spinoff_prover]
pub proof fn law_hint_names_where_tokens_are()
    ensures
        MISSING_TOKEN@ == "Set "@ + TOKEN_VARIABLE@ + " or sign in via OpenCode (~"@
            + below_home(auth_file_names()) + ")"@,
{
    lemma_auth_file_below_home();
    reveal_strlit(
        "Set OPENAI_ACCESS_TOKEN or sign in via OpenCode (~/.local/share/opencode/auth.json)",
    );
    reveal_strlit("Set ");
    reveal_strlit("OPENAI_ACCESS_TOKEN");
    reveal_strlit(" or sign in via OpenCode (~");
    reveal_strlit("/.local/share/opencode/auth.json");
    reveal_strlit(")");
    assert(MISSING_TOKEN@ =~= "Set "@ + TOKEN_VARIABLE@ + " or sign in via OpenCode (~"@
        + "/.local/share/opencode/auth.json"@ + ")"@);
}

#[verifier::spinoff_prover]
proof fn lemma_auth_file_below_home()
    ensures
        below_home(auth_file_names()) == "/.local/share/opencode/auth.json"@,
{
    reveal_with_fuel(below_home, 5);
    let names = auth_file_names();
    assert(names.drop_last() =~= seq![".local"@, "share"@, "opencode"@]);
    assert(names.drop_last().drop_last() =~= seq![".local"@, "share"@]);
    assert(names.drop_last().drop_last().drop_last() =~= seq![".local"@]);
    reveal_strlit("/");
    reveal_strlit(".local");
    reveal_strlit("share");
    reveal_strlit("opencode");
    reveal_strlit("auth.json");
    reveal_strlit("/.local/share/opencode/auth.json");
    assert(below_home(names) =~= "/.local/share/opencode/auth.json"@);
}

/// A path below the home directory, with a slash before each name.
pub open spec fn below_home(names: Seq<Seq<char>>) -> Seq<char>
    decreases names.len(),
{
    if names.len() == 0 {
        Seq::empty()
    } else {
        below_home(names.drop_last()) + "/"@ + names.last()
    }
}

/// A monitor starts with the token it is given, without a usage, a fetch or a
/// failure, and with an error just where there is no token.
pub proof fn law_monitor_starts_empty(access_token: Option<String>, now: Instant, state: AppState)
    requires
        call_ensures(AppState::new_at, (access_token, now), state),
    ensures
        state.access_token == access_token,
        state.usage is None,
        state.last_refresh is None,
        state.last_input == now,
        state.consecutive_failures == 0,
        state.last_error is None <==> access_token is Some,
        state.last_error matches Some(e) ==> e@
            == "Set OPENAI_ACCESS_TOKEN or sign in via OpenCode (~/.local/share/opencode/auth.json)"@,
{
}

/// A monitor that starts now does so likewise, and counts as used just now.
pub proof fn law_monitor_starts_now(access_token: Option<String>, state: AppState)
    requires
        call_ensures(AppState::new, (access_token,), state),
    ensures
        state.access_token == access_token,
        state.usage is None,
        state.last_refresh is None,
        is_clock_reading(state.last_input),
        state.consecutive_failures == 0,
        state.last_error is None <==> access_token is Some,
        state.last_error matches Some(e) ==> e@
            == "Set OPENAI_ACCESS_TOKEN or sign in via OpenCode (~/.local/share/opencode/auth.json)"@,
{
}

/// A refresh with a token asks for the usage with that token, and changes nothing
/// yet. Without one it asks for nothing, notes when it was, and says what is missing.
pub proof fn law_refresh_asks_or_notes(
    state: &mut AppState,
    at: Instant,
    request: Option<UsageRequest>,
)
    requires
        call_ensures(AppState::refresh_at, (state, at), request),
    ensures
        old(state).access_token is Some <==> request is Some,
        old(state).access_token matches Some(token) ==> {
            &&& *final(state) == *old(state)
            &&& request matches Some(r) && r.bearer_token@ == token@ && r.url@
                == "https://chatgpt.com/backend-api/wham/usage"@ && r.timeout_secs == 4
        },
        old(state).access_token is None ==> {
            &&& final(state).access_token is None
            &&& final(state).usage == old(state).usage
            &&& final(state).last_input == old(state).last_input
            &&& final(state).consecutive_failures == old(state).consecutive_failures
            &&& final(state).last_refresh == Some(at)
            &&& final(state).last_error matches Some(e) && e@
                == "Set OPENAI_ACCESS_TOKEN or sign in via OpenCode (~/.local/share/opencode/auth.json)"@
        },
{
}

/// A refresh now does so likewise, and notes the present instant.
pub proof fn law_refresh_now_asks_or_notes(state: &mut AppState, request: Option<UsageRequest>)
    requires
        call_ensures(AppState::refresh, (state,), request),
    ensures
        old(state).access_token is Some <==> request is Some,
        old(state).access_token matches Some(token) ==> {
            &&& *final(state) == *old(state)
            &&& request matches Some(r) && r.bearer_token@ == token@ && r.url@
                == "https://chatgpt.com/backend-api/wham/usage"@ && r.timeout_secs == 4
        },
        old(state).access_token is None ==> {
            &&& final(state).access_token is None
            &&& final(state).usage == old(state).usage
            &&& final(state).last_input == old(state).last_input
            &&& final(state).consecutive_failures == old(state).consecutive_failures
            &&& final(state).last_refresh matches Some(at) && is_clock_reading(at)
            &&& final(state).last_error matches Some(e) && e@
                == "Set OPENAI_ACCESS_TOKEN or sign in via OpenCode (~/.local/share/opencode/auth.json)"@
        },
{
}

/// A success puts the fetched usage in the place of the last one, with the instant
/// of the sync, ends the failures, and leaves the token and the last key press.
pub proof fn law_success_is_recorded(
    state: &mut AppState,
    data: ParsedUsage,
    secs: i64,
    nanos: u32,
    at: Instant,
)
    requires
        is_instant(secs, nanos),
        call_ensures(AppState::succeed_at, (state, data, secs, nanos, at), ()),
    ensures
        final(state).access_token == old(state).access_token,
        final(state).last_input == old(state).last_input,
        final(state).consecutive_failures == 0,
        final(state).last_error is None,
        final(state).last_refresh == Some(at),
        final(state).usage matches Some(u) && u.data == data && u.cache_age_seconds == 0
            && u.last_sync_unix == secs && u.last_sync_iso@ == rfc3339_utc(secs, nanos),
{
}

/// A failure is counted and shown, and leaves the usage, the token and the last key
/// press.
pub proof fn law_failure_is_recorded(state: &mut AppState, error: String, at: Instant)
    requires
        call_ensures(AppState::fail_at, (state, error, at), ()),
    ensures
        final(state).access_token == old(state).access_token,
        final(state).last_input == old(state).last_input,
        final(state).usage == old(state).usage,
        final(state).last_error == Some(error),
        final(state).last_refresh == Some(at),
        old(state).consecutive_failures < 0xffff_ffff ==> final(state).consecutive_failures == old(
            state,
        ).consecutive_failures + 1,
        old(state).consecutive_failures == 0xffff_ffff ==> final(state).consecutive_failures
            == 0xffff_ffff,
{
}

/// What comes of a fetch is recorded with instants that the clocks have shown: a
/// success with its usage and without an error, a failure as one more, with its
/// error and with the usage that was there.
pub proof fn law_outcome_is_recorded(state: &mut AppState, outcome: Result<ParsedUsage, String>)
    requires
        call_ensures(AppState::finish_refresh, (state, outcome), ()),
    ensures
        final(state).access_token == old(state).access_token,
        final(state).last_input == old(state).last_input,
        final(state).last_refresh matches Some(at) && is_clock_reading(at),
        outcome is Ok ==> final(state).consecutive_failures == 0 && final(state).last_error is None,
        outcome matches Ok(data) ==> (final(state).usage matches Some(u) && u.data == data
            && u.cache_age_seconds == 0 && exists|nanos: u32| #[trigger]
            is_utc_reading(u.last_sync_unix, nanos) && nanos < 1_000_000_000 && u.last_sync_iso@
                == rfc3339_utc(u.last_sync_unix, nanos)),
        outcome matches Err(error) ==> {
            &&& final(state).usage == old(state).usage
            &&& final(state).last_error == Some(error)
            &&& final(state).consecutive_failures == if old(state).consecutive_failures
                < 0xffff_ffff {
                old(state).consecutive_failures + 1
            } else {
                0xffff_ffff
            }
        },
{
}

/// With a token, a request for its usage is due where there was no fetch yet, and
/// else once the last one is 30 seconds ago, or 300 from 20 seconds after the last
/// key press on, doubled for each of the first four failures in a row.
pub proof fn law_request_falls_due(
    state: &AppState,
    since_input: u128,
    since_refresh: Option<u128>,
    request: Option<UsageRequest>,
)
    requires
        call_ensures(AppState::maybe_auto_refresh_at, (state, since_input, since_refresh), request),
    ensures
        state.access_token is None ==> request is None,
        state.access_token is Some && since_refresh is None ==> request is Some,
        state.access_token is Some ==> (since_refresh matches Some(passed) ==> (request is Some
            <==> passed >= 1_000_000_000 * (if since_input >= 20_000_000_000 {
            300int
        } else {
            30int
        }) * (if state.consecutive_failures == 0 {
            1int
        } else if state.consecutive_failures == 1 {
            2int
        } else if state.consecutive_failures == 2 {
            4int
        } else if state.consecutive_failures == 3 {
            8int
        } else {
            16int
        }))),
        request matches Some(r) ==> (state.access_token matches Some(token) && r.bearer_token@
            == token@ && r.url@ == "https://chatgpt.com/backend-api/wham/usage"@ && r.timeout_secs
            == 4),
{
    law_due_in_numbers(
        state.access_token is Some,
        since_input,
        since_refresh,
        state.consecutive_failures,
    );
}

/// What is due now goes by the times since the last key press and since the last
/// fetch, as they have been measured.
pub proof fn law_request_falls_due_now(state: &AppState, request: Option<UsageRequest>)
    requires
        call_ensures(AppState::maybe_auto_refresh, (state,), request),
    ensures
        state.access_token is None ==> request is None,
        state.access_token is Some && state.last_refresh is None ==> request is Some,
        state.access_token is Some ==> (state.last_refresh matches Some(at) ==> exists|
            since_input: u128,
            passed: u128,
        |
            #[trigger] is_elapsed(state.last_input, since_input) && #[trigger] is_elapsed(at, passed)
                && (request is Some <==> passed >= 1_000_000_000 * (if since_input >= 20_000_000_000 {
                    300int
                } else {
                    30int
                }) * (if state.consecutive_failures == 0 {
                    1int
                } else if state.consecutive_failures == 1 {
                    2int
                } else if state.consecutive_failures == 2 {
                    4int
                } else if state.consecutive_failures == 3 {
                    8int
                } else {
                    16int
                }))),
        request matches Some(r) ==> (state.access_token matches Some(token) && r.bearer_token@
            == token@ && r.url@ == "https://chatgpt.com/backend-api/wham/usage"@ && r.timeout_secs
            == 4),
{
    let (since_input, since_refresh) = choose|since_input: u128, since_refresh: Option<u128>|
        is_elapsed(state.last_input, since_input) && (match (state.last_refresh, since_refresh) {
            (Some(at), Some(passed)) => is_elapsed(at, passed),
            (None, None) => true,
            _ => false,
        }) && #[trigger] is_due_request(*state, since_input, since_refresh, request);
    law_due_in_numbers(
        state.access_token is Some,
        since_input,
        since_refresh,
        state.consecutive_failures,
    );
}

/// The program ends just where the user quits, whatever the state. A wish for a
/// refresh is granted just where there is a token, with a request for its usage. A
/// key press counts as activity, and what is no key press changes nothing.
pub proof fn law_reaction_is_to_the_action(
    state: &mut AppState,
    action: UserAction,
    input_at: Instant,
    refresh_at: Instant,
    reaction: Reaction,
)
    requires
        call_ensures(AppState::react_at, (state, action, input_at, refresh_at), reaction),
    ensures
        reaction is Quit <==> action is Quit,
        reaction is Fetch <==> action is Refresh && old(state).access_token is Some,
        reaction matches Reaction::Fetch(r) ==> (old(state).access_token matches Some(token)
            && r.bearer_token@ == token@ && r.url@ == "https://chatgpt.com/backend-api/wham/usage"@
            && r.timeout_secs == 4),
        action is Quit || action is Nothing ==> *final(state) == *old(state),
        action is Activity || action is Refresh ==> final(state).last_input == input_at,
        final(state).access_token == old(state).access_token,
        final(state).usage == old(state).usage,
        final(state).consecutive_failures == old(state).consecutive_failures,
        action is Activity || old(state).access_token is Some ==> final(state).last_refresh == old(
            state,
        ).last_refresh && final(state).last_error == old(state).last_error,
        action is Refresh && old(state).access_token is None ==> final(state).last_refresh == Some(
            refresh_at,
        ) && (final(state).last_error matches Some(e) && e@
            == "Set OPENAI_ACCESS_TOKEN or sign in via OpenCode (~/.local/share/opencode/auth.json)"@),
{
}

/// The reaction now is the same, at instants that the clock has shown.
pub proof fn law_reaction_now_is_to_the_action(
    state: &mut AppState,
    action: UserAction,
    reaction: Reaction,
)
    requires
        call_ensures(AppState::react, (state, action), reaction),
    ensures
        reaction is Quit <==> action is Quit,
        reaction is Fetch <==> action is Refresh && old(state).access_token is Some,
        reaction matches Reaction::Fetch(r) ==> (old(state).access_token matches Some(token)
            && r.bearer_token@ == token@ && r.url@ == "https://chatgpt.com/backend-api/wham/usage"@
            && r.timeout_secs == 4),
        action is Quit || action is Nothing ==> *final(state) == *old(state),
        action is Activity || action is Refresh ==> is_clock_reading(final(state).last_input),
        final(state).access_token == old(state).access_token,
        final(state).usage == old(state).usage,
        final(state).consecutive_failures == old(state).consecutive_failures,
        action is Activity || old(state).access_token is Some ==> final(state).last_refresh == old(
            state,
        ).last_refresh && final(state).last_error == old(state).last_error,
        action is Refresh && old(state).access_token is None ==> (
        final(state).last_refresh matches Some(at) && is_clock_reading(at)) && (
        final(state).last_error matches Some(e) && e@
            == "Set OPENAI_ACCESS_TOKEN or sign in via OpenCode (~/.local/share/opencode/auth.json)"@),
{
}

/// A monitor is consistent just where it has no usage, no failure and the error that
/// says so as long as it has no token; an error just after a failure, once it has
/// one; and neither a usage nor a failure before its first fetch.
pub proof fn law_consistency_in_words(state: AppState)
    ensures
        state.is_consistent() <==> {
            &&& state.access_token is None ==> state.usage is None
            &&& state.access_token is None ==> state.consecutive_failures == 0
            &&& state.access_token is None ==> (state.last_error matches Some(e) && e@
                == "Set OPENAI_ACCESS_TOKEN or sign in via OpenCode (~/.local/share/opencode/auth.json)"@)
            &&& state.access_token is Some && state.last_error is Some ==> state.consecutive_failures
                > 0
            &&& state.access_token is Some && state.last_error is None ==> state.consecutive_failures
                == 0
            &&& state.last_refresh is None ==> state.usage is None
            &&& state.last_refresh is None ==> state.consecutive_failures == 0
        },
{
}

/// A success in the relation that describes one, field by field.
pub proof fn law_success_field_by_field(
    before: AppState,
    data: ParsedUsage,
    secs: i64,
    nanos: u32,
    at: Instant,
    after: AppState,
)
    requires
        has_succeeded(before, data, secs, nanos, at, after),
    ensures
        after.access_token == before.access_token,
        after.last_input == before.last_input,
        after.consecutive_failures == 0,
        after.last_error is None,
        after.last_refresh == Some(at),
        after.usage matches Some(u) && u.data == data && u.cache_age_seconds == 0
            && u.last_sync_unix == secs && u.last_sync_iso@ == rfc3339_utc(secs, nanos),
{
}

/// A failure in the relation that describes one, field by field.
pub proof fn law_failure_field_by_field(
    before: AppState,
    error: String,
    at: Instant,
    after: AppState,
)
    requires
        has_failed(before, error, at, after),
    ensures
        after.access_token == before.access_token,
        after.last_input == before.last_input,
        after.usage == before.usage,
        after.last_error == Some(error),
        after.last_refresh == Some(at),
        before.consecutive_failures < 0xffff_ffff ==> after.consecutive_failures
            == before.consecutive_failures + 1,
        before.consecutive_failures == 0xffff_ffff ==> after.consecutive_failures == 0xffff_ffff,
{
}

} // verus!

//! What the screen shows.

use std::time::Instant;

use vstd::prelude::*;

use crate::clock::{
    format_last_sync, is_common_instant, is_local_offset, local_clock_text, shows_last_sync,
};
use crate::layout::{
    are_gauge_areas, are_sections, gauge_areas, gauge_is_filled, has_room_for_sections,
    is_full_column, law_gauge_parts_do_not_overlap, law_inside_border_lies_in,
    law_sections_do_not_overlap, screen_areas, sections_are_cut, sections_are_stacked,
    sections_fill, sections_lie_in, Area, GaugeAreas, ScreenAreas,
};
use crate::meter::{
    known_used, remaining_label, remaining_meter, remaining_percent, remaining_style,
    style_of_remaining, TextColor, TextStyle,
};
use crate::state::{
    has_failed, has_succeeded, law_outcome_is_recorded, AppState, MISSING_TOKEN,
};
use crate::text::{decimal, joined};
use crate::time_left::{format_time_left, format_time_left_at, tells_time_left, time_left};
use crate::types::{ParsedUsage, UsageResponse};
use crate::upstream::{
    asks_for_usage, is_usage_of, law_windows_become_session_and_week, parse_usage, reset_at,
    used_percent, UpstreamUsage, UsageRequest,
};

verus! {

/// A framed text.
#[derive(Debug)]
pub struct Panel {
    pub title: &'static str,
    pub text: String,
    pub color: Option<TextColor>,
    pub area: Area,
}

/// A framed gauge: a bar, a divider and a label.
#[derive(Debug)]
pub struct GaugePanel {
    pub title: &'static str,
    pub percent: u32,
    pub label: String,
    pub style: TextStyle,
    pub areas: GaugeAreas,
}

/// All that the screen shows, from top to bottom.
#[derive(Debug)]
pub struct Screen {
    pub header: Panel,
    pub profile: Panel,
    pub session: GaugePanel,
    pub weekly: GaugePanel,
    pub resets: Panel,
    pub message: Panel,
    pub footer: Panel,
}

/// The account of a usage.
pub open spec fn profile_text(usage: Option<&UsageResponse>) -> Seq<char> {
    match usage {
        Some(u) => "Email: "@ + u.data.email@ + "\nPlan: "@ + u.data.plan_type@,
        None => "Email: -\nPlan: -"@,
    }
}

/// The time left until the limits of a usage start anew, from how that of the
/// session and that of the week are told.
pub open spec fn resets_lines(session: Seq<char>, weekly: Seq<char>) -> Seq<char> {
    "Session reset: "@ + session + "\nWeekly reset: "@ + weekly
}

/// The time left until the limits of a usage start anew, as seen at a second for
/// the session and at one for the week.
pub open spec fn resets_text(
    usage: Option<&UsageResponse>,
    session_now: i64,
    weekly_now: i64,
) -> Seq<char> {
    match usage {
        Some(u) => resets_lines(
            time_left(u.data.session_reset_at, session_now),
            time_left(u.data.weekly_reset_at, weekly_now),
        ),
        None => resets_lines("-"@, "-"@),
    }
}

/// Whether a text tells the time left until the limits of a usage start anew, as
/// seen at seconds that the clock has shown.
pub open spec fn tells_resets(text: Seq<char>, usage: Option<&UsageResponse>) -> bool {
    match usage {
        Some(u) => are_resets_lines(text, u.data.session_reset_at, u.data.weekly_reset_at),
        None => text == resets_lines("-"@, "-"@),
    }
}

/// Whether a text tells the time left until two moments.
pub open spec fn are_resets_lines(
    text: Seq<char>,
    session_reset_at: Option<i64>,
    weekly_reset_at: Option<i64>,
) -> bool {
    exists|session: Seq<char>, weekly: Seq<char>|
        tells_time_left(session, session_reset_at) && tells_time_left(weekly, weekly_reset_at)
            && text == #[trigger] resets_lines(session, weekly)
}

/// Whether a text tells when the usage was last synced.
pub open spec fn tells_last_sync(text: Seq<char>, usage: Option<UsageResponse>) -> bool {
    match usage {
        Some(u) => exists|sync: Seq<char>| #[trigger]
            shows_last_sync(sync, u.last_sync_iso@) && text == "Last sync: "@ + sync,
        None => text == "Last sync: waiting for first successful refresh"@,
    }
}

/// The error that is shown, or that there is none.
pub open spec fn message_text(last_error: Option<String>) -> Seq<char> {
    match last_error {
        Some(e) => "Last error: "@ + e@,
        None => "No errors"@,
    }
}

/// The color of the error line.
pub open spec fn message_color(last_error: Option<String>) -> TextColor {
    if last_error is Some {
        TextColor::Red
    } else {
        TextColor::Green
    }
}

/// The header, above a line that tells of the last sync.
pub open spec fn header_text(status: Seq<char>) -> Seq<char> {
    "OpenCode Limits Monitor\nSource: chatgpt.com/backend-api/wham/usage    "@ + status
}

/// Whether a panel shows a text without a color of its own.
pub open spec fn is_plain_panel(panel: Panel, title: Seq<char>, area: Area) -> bool {
    panel.title@ == title && panel.color is None && panel.area == area
}

/// Whether a gauge shows what is left of a usage.
pub open spec fn is_gauge(
    gauge: GaugePanel,
    title: Seq<char>,
    percent: nat,
    label: Seq<char>,
    frame: Area,
) -> bool {
    &&& gauge.title@ == title
    &&& gauge.percent == percent
    &&& gauge.label@ == label
    &&& gauge.style == style_of_remaining(percent)
    &&& are_gauge_areas(gauge.areas, frame)
    &&& gauge.areas.frame == frame
    &&& is_full_column(gauge.areas.bar, frame.inside_border())
    &&& is_full_column(gauge.areas.divider, frame.inside_border())
    &&& is_full_column(gauge.areas.label, frame.inside_border())
    &&& gauge_is_filled(gauge.areas, frame.inside_border())
}

/// Whether a screen shows a state in these areas, with these texts for the last
/// sync and for the time left.
pub open spec fn is_screen(
    screen: Screen,
    state: AppState,
    areas: ScreenAreas,
    status: Seq<char>,
    resets: Seq<char>,
) -> bool {
    let usage = match state.usage {
        Some(u) => Some(&u),
        None => None,
    };
    let session = known_used(usage, true);
    let weekly = known_used(usage, false);
    &&& is_plain_panel(screen.header, "Header"@, areas.header)
    &&& screen.header.text@ == header_text(status)
    &&& is_plain_panel(screen.profile, "Profile"@, areas.profile)
    &&& screen.profile.text@ == profile_text(usage)
    &&& is_gauge(
        screen.session,
        "Session Left"@,
        remaining_percent(session),
        remaining_label(session),
        areas.session,
    )
    &&& is_gauge(
        screen.weekly,
        "Weekly Left"@,
        remaining_percent(weekly),
        remaining_label(weekly),
        areas.weekly,
    )
    &&& is_plain_panel(screen.resets, "Resets"@, areas.resets)
    &&& screen.resets.text@ == resets
    &&& screen.message.title@ == "Status"@
    &&& screen.message.area == areas.message
    &&& screen.message.text@ == message_text(state.last_error)
    &&& screen.message.color == Some(message_color(state.last_error))
    &&& is_plain_panel(screen.footer, "Keys"@, areas.footer)
    &&& screen.footer.text@ == "q quit | r refresh now | active poll 30s | idle heartbeat 5m"@
}

/// The account of a usage.
pub fn build_profile(usage: Option<&UsageResponse>) -> (text: String)
    ensures
        text@ == profile_text(usage),
{
    if let Some(usage) = usage {
        let mut text = joined("Email: ", usage.data.email.as_str());
        text.append("\nPlan: ");
        text.append(usage.data.plan_type.as_str());
        text
    } else {
        "Email: -\nPlan: -".to_string()
    }
}

fn join_resets(session: &str, weekly: &str) -> (text: String)
    ensures
        text@ == resets_lines(session@, weekly@),
{
    let mut text = joined("Session reset: ", session);
    text.append("\nWeekly reset: ");
    text.append(weekly);
    text
}

/// The time left until the limits of a usage start anew, as seen at a second for
/// the session and at one for the week.
pub fn build_resets_at(
    usage: Option<&UsageResponse>,
    session_now: i64,
    weekly_now: i64,
) -> (text: String)
    ensures
        text@ == resets_text(usage, session_now, weekly_now),
{
    if let Some(usage) = usage {
        join_resets(
            format_time_left_at(usage.data.session_reset_at, session_now).as_str(),
            format_time_left_at(usage.data.weekly_reset_at, weekly_now).as_str(),
        )
    } else {
        join_resets("-", "-")
    }
}

/// The time left until the limits of a usage start anew, as seen now.
pub fn build_resets(usage: Option<&UsageResponse>) -> (text: String)
    ensures
        tells_resets(text@, usage),
{
    if let Some(usage) = usage {
        let session = format_time_left(usage.data.session_reset_at);
        let weekly = format_time_left(usage.data.weekly_reset_at);
        let text = join_resets(session.as_str(), weekly.as_str());
        assert(text@ == resets_lines(session@, weekly@));
        text
    } else {
        join_resets("-", "-")
    }
}

/// When the usage was last synced.
pub fn build_status_line(state: &AppState) -> (text: String)
    ensures
        tells_last_sync(text@, state.usage),
{
    if let Some(usage) = &state.usage {
        let sync = format_last_sync(usage.last_sync_iso.as_str());
        joined("Last sync: ", sync.as_str())
    } else {
        "Last sync: waiting for first successful refresh".to_string()
    }
}

/// A gauge in a frame.
pub fn render_split_gauge(frame: Area, title: &'static str, percent: u32, label: String) -> (gauge:
    GaugePanel)
    requires
        percent <= 100,
    ensures
        is_gauge(gauge, title@, percent as nat, label@, frame),
{
    GaugePanel {
        title,
        percent,
        label,
        style: remaining_style(percent),
        areas: gauge_areas(frame),
    }
}

fn build_message(last_error: &Option<String>) -> (message: (String, TextColor))
    ensures
        message.0@ == message_text(*last_error),
        message.1 == message_color(*last_error),
{
    match last_error {
        Some(e) => (joined("Last error: ", e.as_str()), TextColor::Red),
        None => ("No errors".to_string(), TextColor::Green),
    }
}

/// The screen of a state in these areas, with these texts for the last sync and
/// for the time left.
pub fn render_parts(state: &AppState, areas: ScreenAreas, status: &str, resets: String) -> (screen:
    Screen)
    ensures
        is_screen(screen, *state, areas, status@, resets@),
{
    let usage = state.usage.as_ref();
    let header = Panel {
        title: "Header",
        text: joined(
            "OpenCode Limits Monitor\nSource: chatgpt.com/backend-api/wham/usage    ",
            status,
        ),
        color: None,
        area: areas.header,
    };
    let profile = Panel {
        title: "Profile",
        text: build_profile(usage),
        color: None,
        area: areas.profile,
    };
    let (percent, label) = remaining_meter(usage, true);
    let session = render_split_gauge(areas.session, "Session Left", percent, label);
    let (percent, label) = remaining_meter(usage, false);
    let weekly = render_split_gauge(areas.weekly, "Weekly Left", percent, label);
    let resets = Panel { title: "Resets", text: resets, color: None, area: areas.resets };
    let (text, color) = build_message(&state.last_error);
    let message = Panel { title: "Status", text, color: Some(color), area: areas.message };
    let footer = Panel {
        title: "Keys",
        text: "q quit | r refresh now | active poll 30s | idle heartbeat 5m".to_string(),
        color: None,
        area: areas.footer,
    };
    Screen { header, profile, session, weekly, resets, message, footer }
}

/// The screen of a state, as seen now in an area of the terminal.
pub fn render(state: &AppState, area: Area) -> (screen: Screen)
    ensures
        shows_state(screen, *state, area),
{
    let status = build_status_line(state);
    let resets = build_resets(state.usage.as_ref());
    let areas = screen_areas(area);
    let ghost told = resets@;
    let screen = render_parts(state, areas, status.as_str(), resets);
    assert(is_screen(screen, *state, areas, status@, told));
    screen
}

/// Whether a screen shows a state in an area of the terminal, as seen at seconds
/// that the clock has shown and in the machine's time zone.
pub open spec fn shows_state(screen: Screen, state: AppState, area: Area) -> bool {
    let usage = match state.usage {
        Some(u) => Some(&u),
        None => None,
    };
    exists|areas: ScreenAreas, status: Seq<char>, resets: Seq<char>|
        are_areas_of(areas, area) && tells_last_sync(status, state.usage) && tells_resets(
            resets,
            usage,
        ) && #[trigger] is_screen(screen, state, areas, status, resets)
}

/// Whether these are the areas of the sections in an area of the terminal: they
/// fill it, in their full heights where there is room for them.
pub open spec fn are_areas_of(areas: ScreenAreas, area: Area) -> bool {
    &&& are_sections(areas, area)
    &&& sections_lie_in(areas, area)
    &&& sections_fill(areas, area)
    &&& if has_room_for_sections(area) {
        sections_are_stacked(areas, area)
    } else {
        sections_are_cut(areas)
    }
}

/// All that a screen shows lies in its area of the terminal.
pub proof fn law_screen_lies_in_terminal(screen: Screen, state: AppState, area: Area)
    requires
        shows_state(screen, state, area),
    ensures
        screen.header.area.lies_in(area),
        screen.profile.area.lies_in(area),
        gauge_lies_in(screen.session, area),
        gauge_lies_in(screen.weekly, area),
        screen.resets.area.lies_in(area),
        screen.message.area.lies_in(area),
        screen.footer.area.lies_in(area),
{
    law_inside_border_lies_in(screen.session.areas.frame);
    law_inside_border_lies_in(screen.weekly.areas.frame);
}

/// Whether all parts of a gauge lie in an area.
pub open spec fn gauge_lies_in(gauge: GaugePanel, area: Area) -> bool {
    &&& gauge.areas.frame.lies_in(area)
    &&& gauge.areas.bar.lies_in(area)
    &&& gauge.areas.divider.lies_in(area)
    &&& gauge.areas.label.lies_in(area)
}

/// No two sections overlap, however low the screen is: each ends where the next
/// one begins, from the top to the bottom.
pub proof fn law_sections_fill_the_screen(screen: Screen, state: AppState, area: Area)
    requires
        shows_state(screen, state, area),
    ensures
        screen.header.area.y == area.y,
        screen.profile.area.y == screen.header.area.bottom(),
        screen.session.areas.frame.y == screen.profile.area.bottom(),
        screen.weekly.areas.frame.y == screen.session.areas.frame.bottom(),
        screen.resets.area.y == screen.weekly.areas.frame.bottom(),
        screen.message.area.y == screen.resets.area.bottom(),
        screen.footer.area.y == screen.message.area.bottom(),
        screen.footer.area.bottom() == area.bottom(),
{
    let (areas, status, resets) = choose|
        areas: ScreenAreas,
        status: Seq<char>,
        resets: Seq<char>,
    |
        sections_fill(areas, area) && #[trigger] is_screen(
            screen,
            state,
            areas,
            status,
            resets,
        );
    law_sections_do_not_overlap(areas, area);
}

/// Where the terminal is too low for all sections, the message gives way first: it
/// has no row, and no other section has more than its full height.
pub proof fn law_message_gives_way_first(screen: Screen, state: AppState, area: Area)
    requires
        !has_room_for_sections(area),
        shows_state(screen, state, area),
    ensures
        screen.message.area.height == 0,
        screen.header.area.height <= 4,
        screen.profile.area.height <= 4,
        screen.session.areas.frame.height <= 3,
        screen.weekly.areas.frame.height <= 3,
        screen.resets.area.height <= 4,
        screen.footer.area.height <= 3,
{
}

/// In each gauge the bar, the divider and the label stand side by side inside the
/// frame, and none covers another.
pub proof fn law_gauges_are_not_covered(screen: Screen, state: AppState, area: Area)
    requires
        shows_state(screen, state, area),
    ensures
        stands_side_by_side(screen.session.areas),
        stands_side_by_side(screen.weekly.areas),
{
    let session = screen.session.areas;
    let weekly = screen.weekly.areas;
    law_gauge_parts_do_not_overlap(session, session.frame.inside_border());
    law_gauge_parts_do_not_overlap(weekly, weekly.frame.inside_border());
}

/// Whether the parts of a gauge follow one another from the left of the inside of
/// the frame to its right.
pub open spec fn stands_side_by_side(areas: GaugeAreas) -> bool {
    &&& areas.bar.x == areas.frame.inside_border().x
    &&& areas.divider.x == areas.bar.right()
    &&& areas.label.x == areas.divider.right()
    &&& areas.label.right() == areas.frame.inside_border().right()
}

/// A gauge never shows more than the whole.
pub proof fn law_gauges_show_at_most_the_whole(screen: Screen, state: AppState, area: Area)
    requires
        shows_state(screen, state, area),
    ensures
        screen.session.percent <= 100,
        screen.weekly.percent <= 100,
{
}

/// Before anything was fetched the screen shows no account, empty gauges in the
/// style of an alarm, and that it waits.
pub proof fn law_screen_before_first_fetch(screen: Screen, state: AppState, area: Area)
    requires
        state.usage is None,
        shows_state(screen, state, area),
    ensures
        screen.header.text@ == header_text("Last sync: waiting for first successful refresh"@),
        screen.profile.text@ == "Email: -\nPlan: -"@,
        screen.session.percent == 0 && screen.session.label@ == "N/A"@,
        screen.weekly.percent == 0 && screen.weekly.label@ == "N/A"@,
        screen.session.style == (TextStyle { color: TextColor::Red, bold: true }),
        screen.weekly.style == (TextStyle { color: TextColor::Red, bold: true }),
        screen.resets.text@ == resets_lines("-"@, "-"@),
{
}

/// Without a token the screen says how to get one, in red.
pub proof fn law_screen_without_token(screen: Screen, state: AppState, area: Area)
    requires
        state.is_consistent(),
        state.access_token is None,
        shows_state(screen, state, area),
    ensures
        screen.message.text@ == "Last error: "@ + MISSING_TOKEN@,
        screen.message.color == Some(TextColor::Red),
{
}

/// A sync in the years 0 to 9999 is shown as the time of day at which it
/// happened, on the local clock, and never as a raw text.
pub proof fn law_sync_is_shown_as_time_of_day(
    before: AppState,
    data: ParsedUsage,
    secs: i64,
    nanos: u32,
    at: Instant,
    after: AppState,
    status: Seq<char>,
)
    requires
        has_succeeded(before, data, secs, nanos, at, after),
        is_common_instant(secs, nanos),
        tells_last_sync(status, after.usage),
    ensures
        exists|offset: int|
            -86_400 < offset < 86_400 && #[trigger] is_local_offset(secs, offset) && status
                == "Last sync: "@ + local_clock_text(secs, nanos, offset),
{
}

/// What the upstream service answered is what the screen shows once the fetch is
/// recorded: the account, what is left of both windows, when they end, and no error.
pub proof fn law_fetched_usage_is_shown(
    upstream: UpstreamUsage,
    before: AppState,
    data: ParsedUsage,
    secs: i64,
    nanos: u32,
    at: Instant,
    after: AppState,
    screen: Screen,
    area: Area,
)
    requires
        is_usage_of(data, upstream),
        has_succeeded(before, data, secs, nanos, at, after),
        shows_state(screen, after, area),
    ensures
        screen.profile.text@ == "Email: "@ + upstream.email@ + "\nPlan: "@ + upstream.plan_type@,
        screen.session.percent == remaining_percent(
            used_percent(upstream.rate_limit.primary_window),
        ),
        screen.session.label@ == remaining_label(used_percent(upstream.rate_limit.primary_window)),
        screen.weekly.percent == remaining_percent(
            used_percent(upstream.rate_limit.secondary_window),
        ),
        screen.weekly.label@ == remaining_label(used_percent(upstream.rate_limit.secondary_window)),
        are_resets_lines(
            screen.resets.text@,
            reset_at(upstream.rate_limit.primary_window),
            reset_at(upstream.rate_limit.secondary_window),
        ),
        screen.message.text@ == "No errors"@,
        screen.message.color == Some(TextColor::Green),
{
}

/// A fetch that failed is shown as an error, in red, and the usage that was last
/// fetched stays on the screen.
pub proof fn law_failed_fetch_is_shown(
    before: AppState,
    error: String,
    at: Instant,
    after: AppState,
    screen: Screen,
    area: Area,
)
    requires
        has_failed(before, error, at, after),
        shows_state(screen, after, area),
    ensures
        screen.message.text@ == "Last error: "@ + error@,
        screen.message.color == Some(TextColor::Red),
        before.usage matches Some(u) ==> screen.profile.text@ == profile_text(Some(&u))
            && screen.session.percent == remaining_percent(u.data.session_used_percent)
            && screen.weekly.percent == remaining_percent(u.data.weekly_used_percent),
{
}

/// The header names the source that requests go to.
pub proof fn law_header_names_the_source(
    request: UsageRequest,
    access_token: Seq<char>,
    status: Seq<char>,
)
    requires
        asks_for_usage(request, access_token),
    ensures
        request.url@ == "https://"@ + "chatgpt.com/backend-api/wham/usage"@,
        header_text(status) == "OpenCode Limits Monitor\nSource: "@
            + "chatgpt.com/backend-api/wham/usage"@ + "    "@ + status,
{
    reveal_strlit("https://chatgpt.com/backend-api/wham/usage");
    reveal_strlit("https://");
    reveal_strlit("chatgpt.com/backend-api/wham/usage");
    reveal_strlit("OpenCode Limits Monitor\nSource: ");
    reveal_strlit("    ");
    reveal_strlit("OpenCode Limits Monitor\nSource: chatgpt.com/backend-api/wham/usage    ");
    assert(request.url@ =~= "https://"@ + "chatgpt.com/backend-api/wham/usage"@);
    assert(header_text(status) =~= "OpenCode Limits Monitor\nSource: "@
        + "chatgpt.com/backend-api/wham/usage"@ + "    "@ + status);
}

/// The profile names the mail address and the plan of a known usage, each on its line.
pub proof fn law_profile_names_the_account(usage: Option<&UsageResponse>, text: String)
    requires
        call_ensures(build_profile, (usage,), text),
    ensures
        usage matches Some(u) ==> text@ == "Email: "@ + u.data.email@ + "\nPlan: "@
            + u.data.plan_type@,
        usage is None ==> text@ == "Email: -\nPlan: -"@,
{
}

/// The resets tell, first for the session and then for the week, the time left until
/// the reset of each, as far as it is known.
pub proof fn law_resets_tell_session_then_week(usage: Option<&UsageResponse>, text: String)
    requires
        call_ensures(build_resets, (usage,), text),
    ensures
        usage matches Some(u) ==> exists|
            session: Seq<char>,
            weekly: Seq<char>,
        |
            #[trigger] tells_time_left(session, u.data.session_reset_at) && #[trigger] tells_time_left(
                weekly,
                u.data.weekly_reset_at,
            ) && text@ == "Session reset: "@ + session + "\nWeekly reset: "@ + weekly,
        usage matches Some(u) ==> (u.data.session_reset_at matches Some(s) ==> (
        u.data.weekly_reset_at matches Some(w) ==> exists|
            session: Seq<char>,
            weekly: Seq<char>,
        |
            #[trigger] tells_time_left(session, Some(s)) && #[trigger] tells_time_left(
                weekly,
                Some(w),
            ) && text@ == "Session reset: "@ + session + "\nWeekly reset: "@ + weekly)),
        usage is None ==> text@ == "Session reset: "@ + "-"@ + "\nWeekly reset: "@ + "-"@,
{
    if let Some(u) = usage {
        law_reset_lines_are_session_then_week(
            text@,
            u.data.session_reset_at,
            u.data.weekly_reset_at,
        );
    }
}

/// The lines that tell of two resets begin with that of the session.
pub proof fn law_reset_lines_are_session_then_week(
    text: Seq<char>,
    session_reset_at: Option<i64>,
    weekly_reset_at: Option<i64>,
)
    requires
        are_resets_lines(text, session_reset_at, weekly_reset_at),
    ensures
        exists|
            session: Seq<char>,
            weekly: Seq<char>,
        |
            #[trigger] tells_time_left(session, session_reset_at) && #[trigger] tells_time_left(
                weekly,
                weekly_reset_at,
            ) && text == "Session reset: "@ + session + "\nWeekly reset: "@ + weekly,
{
    let (session, weekly) = choose|session: Seq<char>, weekly: Seq<char>|
        tells_time_left(session, session_reset_at) && tells_time_left(weekly, weekly_reset_at)
            && text == #[trigger] resets_lines(session, weekly);
    assert(tells_time_left(session, session_reset_at));
    assert(tells_time_left(weekly, weekly_reset_at));
}

/// At given seconds the resets tell what is left at the first of them for the
/// session, and at the second one for the week.
pub proof fn law_resets_at_given_seconds(
    usage: Option<&UsageResponse>,
    session_now: i64,
    weekly_now: i64,
    text: String,
)
    requires
        call_ensures(build_resets_at, (usage, session_now, weekly_now), text),
    ensures
        usage matches Some(u) ==> text@ == "Session reset: "@ + time_left(
            u.data.session_reset_at,
            session_now,
        ) + "\nWeekly reset: "@ + time_left(u.data.weekly_reset_at, weekly_now),
        usage is None ==> text@ == "Session reset: "@ + "-"@ + "\nWeekly reset: "@ + "-"@,
{
}

/// Without a usage the resets read as one text with a dash on each line.
pub proof fn law_unknown_resets_are_dashes(text: String)
    requires
        call_ensures(build_resets, (None::<&UsageResponse>,), text),
    ensures
        text@ == "Session reset: -\nWeekly reset: -"@,
{
    reveal_strlit("Session reset: -\nWeekly reset: -");
    reveal_strlit("Session reset: ");
    reveal_strlit("-");
    reveal_strlit("\nWeekly reset: ");
    assert(text@ =~= "Session reset: -\nWeekly reset: -"@);
}

/// The status line tells when the usage was synced, by its own text, or that there
/// was no sync yet.
pub proof fn law_status_line_tells_the_sync(state: &AppState, text: String)
    requires
        call_ensures(build_status_line, (state,), text),
    ensures
        state.usage matches Some(u) ==> exists|sync: Seq<char>| #[trigger]
            shows_last_sync(sync, u.last_sync_iso@) && text@ == "Last sync: "@ + sync,
        state.usage is None ==> text@ == "Last sync: waiting for first successful refresh"@,
{
}

/// A gauge shows the title, the percentage and the label that it is given, in the
/// style of the percentage and in its frame.
pub proof fn law_gauge_shows_what_it_is_given(
    frame: Area,
    title: &'static str,
    percent: u32,
    label: String,
    gauge: GaugePanel,
)
    requires
        percent <= 100,
        call_ensures(render_split_gauge, (frame, title, percent, label), gauge),
    ensures
        gauge.title@ == title@,
        gauge.percent == percent,
        gauge.label@ == label@,
        gauge.style.color == TextColor::Red <==> percent <= 10,
        gauge.style.color == TextColor::Yellow <==> 11 <= percent <= 25,
        gauge.style.color == TextColor::Green <==> percent >= 26,
        gauge.style.bold <==> percent <= 10,
        gauge.areas.frame == frame,
        gauge_is_filled(gauge.areas, frame.inside_border()),
        gauge.areas.bar.y == frame.inside_border().y && gauge.areas.bar.height
            == frame.inside_border().height,
        gauge.areas.divider.y == frame.inside_border().y && gauge.areas.divider.height
            == frame.inside_border().height,
        gauge.areas.label.y == frame.inside_border().y && gauge.areas.label.height
            == frame.inside_border().height,
{
}

/// A screen in given areas shows the state under fixed titles: the two texts that it
/// is given, the account, what is left of the session and of the week, the last error
/// or that there is none, and the keys. Each section is in its area.
pub proof fn law_screen_parts_show_the_state(
    state: &AppState,
    areas: ScreenAreas,
    status: &str,
    resets: String,
    screen: Screen,
)
    requires
        call_ensures(render_parts, (state, areas, status, resets), screen),
    ensures
        screen.header.title@ == "Header"@,
        screen.profile.title@ == "Profile"@,
        screen.session.title@ == "Session Left"@,
        screen.weekly.title@ == "Weekly Left"@,
        screen.resets.title@ == "Resets"@,
        screen.message.title@ == "Status"@,
        screen.footer.title@ == "Keys"@,
        screen.header.text@
            == "OpenCode Limits Monitor\nSource: chatgpt.com/backend-api/wham/usage    "@
            + status@,
        screen.resets.text@ == resets@,
        state.usage matches Some(u) ==> screen.profile.text@ == "Email: "@ + u.data.email@
            + "\nPlan: "@ + u.data.plan_type@,
        state.usage is None ==> screen.profile.text@ == "Email: -\nPlan: -"@,
        state.last_error matches Some(e) ==> screen.message.text@ == "Last error: "@ + e@
            && screen.message.color == Some(TextColor::Red),
        state.last_error is None ==> screen.message.text@ == "No errors"@ && screen.message.color
            == Some(TextColor::Green),
        screen.footer.text@ == "q quit | r refresh now | active poll 30s | idle heartbeat 5m"@,
        screen.header.color is None && screen.profile.color is None,
        screen.resets.color is None && screen.footer.color is None,
        state.usage matches Some(u) ==> (u.data.session_used_percent matches Some(used) ==> {
            &&& used <= 100 ==> screen.session.percent + used == 100
            &&& used > 100 ==> screen.session.percent == 0
            &&& screen.session.label@ == decimal(screen.session.percent as nat) + "% left"@
        }),
        state.usage matches Some(u) ==> u.data.session_used_percent is None ==> screen.session.percent
            == 0 && screen.session.label@ == "N/A"@,
        state.usage is None ==> screen.session.percent == 0 && screen.session.label@ == "N/A"@,
        state.usage matches Some(u) ==> (u.data.weekly_used_percent matches Some(used) ==> {
            &&& used <= 100 ==> screen.weekly.percent + used == 100
            &&& used > 100 ==> screen.weekly.percent == 0
            &&& screen.weekly.label@ == decimal(screen.weekly.percent as nat) + "% left"@
        }),
        state.usage matches Some(u) ==> u.data.weekly_used_percent is None ==> screen.weekly.percent
            == 0 && screen.weekly.label@ == "N/A"@,
        state.usage is None ==> screen.weekly.percent == 0 && screen.weekly.label@ == "N/A"@,
        screen.session.style.color == TextColor::Red <==> screen.session.percent <= 10,
        screen.session.style.color == TextColor::Yellow <==> 11 <= screen.session.percent <= 25,
        screen.session.style.color == TextColor::Green <==> screen.session.percent >= 26,
        screen.session.style.bold <==> screen.session.percent <= 10,
        screen.weekly.style.color == TextColor::Red <==> screen.weekly.percent <= 10,
        screen.weekly.style.color == TextColor::Yellow <==> 11 <= screen.weekly.percent <= 25,
        screen.weekly.style.color == TextColor::Green <==> screen.weekly.percent >= 26,
        screen.weekly.style.bold <==> screen.weekly.percent <= 10,
        screen.header.area == areas.header,
        screen.profile.area == areas.profile,
        screen.session.areas.frame == areas.session,
        screen.weekly.areas.frame == areas.weekly,
        screen.resets.area == areas.resets,
        screen.message.area == areas.message,
        screen.footer.area == areas.footer,
        gauge_is_filled(screen.session.areas, areas.session.inside_border()),
        gauge_is_filled(screen.weekly.areas, areas.weekly.inside_border()),
{
}

/// A screen of the terminal shows the state likewise, with when it was synced in the
/// header and the time left in the resets.
pub proof fn law_screen_shows_the_state(state: &AppState, area: Area, screen: Screen)
    requires
        call_ensures(render, (state, area), screen),
    ensures
        screen.header.title@ == "Header"@,
        screen.profile.title@ == "Profile"@,
        screen.session.title@ == "Session Left"@,
        screen.weekly.title@ == "Weekly Left"@,
        screen.resets.title@ == "Resets"@,
        screen.message.title@ == "Status"@,
        screen.footer.title@ == "Keys"@,
        state.usage is None ==> screen.header.text@
            == "OpenCode Limits Monitor\nSource: chatgpt.com/backend-api/wham/usage    "@
            + "Last sync: waiting for first successful refresh"@,
        state.usage matches Some(u) ==> exists|sync: Seq<char>| #[trigger]
            shows_last_sync(sync, u.last_sync_iso@) && screen.header.text@
                == "OpenCode Limits Monitor\nSource: chatgpt.com/backend-api/wham/usage    "@ + (
            "Last sync: "@ + sync),
        state.usage is None ==> screen.resets.text@ == "Session reset: "@ + "-"@
            + "\nWeekly reset: "@ + "-"@,
        state.usage matches Some(u) ==> exists|
            session: Seq<char>,
            weekly: Seq<char>,
        |
            #[trigger] tells_time_left(session, u.data.session_reset_at) && #[trigger] tells_time_left(
                weekly,
                u.data.weekly_reset_at,
            ) && screen.resets.text@ == "Session reset: "@ + session + "\nWeekly reset: "@ + weekly,
        state.usage matches Some(u) ==> screen.profile.text@ == "Email: "@ + u.data.email@
            + "\nPlan: "@ + u.data.plan_type@,
        state.usage is None ==> screen.profile.text@ == "Email: -\nPlan: -"@,
        state.last_error matches Some(e) ==> screen.message.text@ == "Last error: "@ + e@
            && screen.message.color == Some(TextColor::Red),
        state.last_error is None ==> screen.message.text@ == "No errors"@ && screen.message.color
            == Some(TextColor::Green),
        screen.footer.text@ == "q quit | r refresh now | active poll 30s | idle heartbeat 5m"@,
        screen.header.color is None && screen.profile.color is None,
        screen.resets.color is None && screen.footer.color is None,
        state.usage matches Some(u) ==> (u.data.session_used_percent matches Some(used) ==> {
            &&& used <= 100 ==> screen.session.percent + used == 100
            &&& used > 100 ==> screen.session.percent == 0
            &&& screen.session.label@ == decimal(screen.session.percent as nat) + "% left"@
        }),
        state.usage matches Some(u) ==> u.data.session_used_percent is None ==> screen.session.percent
            == 0 && screen.session.label@ == "N/A"@,
        state.usage is None ==> screen.session.percent == 0 && screen.session.label@ == "N/A"@,
        state.usage matches Some(u) ==> (u.data.weekly_used_percent matches Some(used) ==> {
            &&& used <= 100 ==> screen.weekly.percent + used == 100
            &&& used > 100 ==> screen.weekly.percent == 0
            &&& screen.weekly.label@ == decimal(screen.weekly.percent as nat) + "% left"@
        }),
        state.usage matches Some(u) ==> u.data.weekly_used_percent is None ==> screen.weekly.percent
            == 0 && screen.weekly.label@ == "N/A"@,
        state.usage is None ==> screen.weekly.percent == 0 && screen.weekly.label@ == "N/A"@,
        screen.session.style.color == TextColor::Red <==> screen.session.percent <= 10,
        screen.session.style.color == TextColor::Yellow <==> 11 <= screen.session.percent <= 25,
        screen.session.style.color == TextColor::Green <==> screen.session.percent >= 26,
        screen.session.style.bold <==> screen.session.percent <= 10,
        screen.weekly.style.color == TextColor::Red <==> screen.weekly.percent <= 10,
        screen.weekly.style.color == TextColor::Yellow <==> 11 <= screen.weekly.percent <= 25,
        screen.weekly.style.color == TextColor::Green <==> screen.weekly.percent >= 26,
        screen.weekly.style.bold <==> screen.weekly.percent <= 10,
{
    if let Some(u) = state.usage {
        law_reset_lines_are_session_then_week(
            screen.resets.text@,
            u.data.session_reset_at,
            u.data.weekly_reset_at,
        );
    }
}

/// A screen of the terminal has its sections one below the other and as wide as the
/// terminal, in their full heights from 21 rows on.
pub proof fn law_screen_is_laid_out(state: &AppState, area: Area, screen: Screen)
    requires
        call_ensures(render, (state, area), screen),
    ensures
        screen.header.area.x == area.x && screen.header.area.width == area.width,
        screen.profile.area.x == area.x && screen.profile.area.width == area.width,
        screen.session.areas.frame.x == area.x && screen.session.areas.frame.width == area.width,
        screen.weekly.areas.frame.x == area.x && screen.weekly.areas.frame.width == area.width,
        screen.resets.area.x == area.x && screen.resets.area.width == area.width,
        screen.message.area.x == area.x && screen.message.area.width == area.width,
        screen.footer.area.x == area.x && screen.footer.area.width == area.width,
        screen.header.area.y == area.y,
        screen.profile.area.y == screen.header.area.y + screen.header.area.height,
        screen.session.areas.frame.y == screen.profile.area.y + screen.profile.area.height,
        screen.weekly.areas.frame.y == screen.session.areas.frame.y
            + screen.session.areas.frame.height,
        screen.resets.area.y == screen.weekly.areas.frame.y + screen.weekly.areas.frame.height,
        screen.message.area.y == screen.resets.area.y + screen.resets.area.height,
        screen.footer.area.y == screen.message.area.y + screen.message.area.height,
        area.y + area.height <= 65_535 ==> screen.footer.area.y + screen.footer.area.height
            == area.y + area.height,
        area.height >= 21 && area.y <= 65_514 ==> {
            &&& screen.header.area.height == 4
            &&& screen.profile.area.height == 4
            &&& screen.session.areas.frame.height == 3
            &&& screen.weekly.areas.frame.height == 3
            &&& screen.resets.area.height == 4
            &&& screen.footer.area.height == 3
        },
        area.height < 21 || area.y > 65_514 ==> screen.message.area.height == 0,
        gauge_is_filled(screen.session.areas, screen.session.areas.frame.inside_border()),
        gauge_is_filled(screen.weekly.areas, screen.weekly.areas.frame.inside_border()),
{
}

/// What the upstream service answered reaches the screen field by field: the primary
/// window in the gauge and the reset of the session, the secondary one in those of
/// the week.
pub proof fn law_answer_reaches_the_screen(
    upstream: UpstreamUsage,
    data: ParsedUsage,
    state: &mut AppState,
    area: Area,
    screen: Screen,
)
    requires
        call_ensures(parse_usage, (upstream,), data),
        call_ensures(AppState::finish_refresh, (state, Ok::<ParsedUsage, String>(data)), ()),
        call_ensures(render, (&*final(state), area), screen),
    ensures
        screen.profile.text@ == "Email: "@ + upstream.email@ + "\nPlan: "@ + upstream.plan_type@,
        screen.message.text@ == "No errors"@,
        upstream.rate_limit.primary_window matches Some(w) ==> {
            &&& w.used_percent <= 100 ==> screen.session.percent + w.used_percent == 100
            &&& w.used_percent > 100 ==> screen.session.percent == 0
            &&& screen.session.label@ == decimal(screen.session.percent as nat) + "% left"@
        },
        upstream.rate_limit.secondary_window matches Some(w) ==> {
            &&& w.used_percent <= 100 ==> screen.weekly.percent + w.used_percent == 100
            &&& w.used_percent > 100 ==> screen.weekly.percent == 0
            &&& screen.weekly.label@ == decimal(screen.weekly.percent as nat) + "% left"@
        },
        upstream.rate_limit.primary_window is None ==> screen.session.label@ == "N/A"@,
        upstream.rate_limit.secondary_window is None ==> screen.weekly.label@ == "N/A"@,
        upstream.rate_limit.primary_window matches Some(p) ==> (
        upstream.rate_limit.secondary_window matches Some(q) ==> exists|
            session: Seq<char>,
            weekly: Seq<char>,
        |
            #[trigger] tells_time_left(session, Some(p.reset_at)) && #[trigger] tells_time_left(
                weekly,
                Some(q.reset_at),
            ) && screen.resets.text@ == "Session reset: "@ + session + "\nWeekly reset: "@ + weekly),
        upstream.rate_limit.primary_window matches Some(p) ==> (
        upstream.rate_limit.secondary_window is None ==> exists|
            session: Seq<char>,
            weekly: Seq<char>,
        |
            #[trigger] tells_time_left(session, Some(p.reset_at)) && #[trigger] tells_time_left(
                weekly,
                None,
            ) && screen.resets.text@ == "Session reset: "@ + session + "\nWeekly reset: "@ + weekly),
        upstream.rate_limit.primary_window is None ==> (
        upstream.rate_limit.secondary_window matches Some(q) ==> exists|
            session: Seq<char>,
            weekly: Seq<char>,
        |
            #[trigger] tells_time_left(session, None) && #[trigger] tells_time_left(
                weekly,
                Some(q.reset_at),
            ) && screen.resets.text@ == "Session reset: "@ + session + "\nWeekly reset: "@ + weekly),
        upstream.rate_limit.primary_window is None && upstream.rate_limit.secondary_window is None
            ==> screen.resets.text@ == "Session reset: "@ + "unknown"@ + "\nWeekly reset: "@
            + "unknown"@,
{
    law_outcome_is_recorded(state, Ok::<ParsedUsage, String>(data));
    let ghost after = *final(state);
    law_screen_shows_the_state(&after, area, screen);
    law_windows_become_session_and_week(upstream, data);
}

/// What is told of the last sync, and of two resets, where there is no usage.
pub proof fn law_nothing_is_told_before_the_first_fetch(text: Seq<char>)
    ensures
        tells_last_sync(text, None) <==> text == "Last sync: waiting for first successful refresh"@,
        tells_resets(text, None) <==> text == "Session reset: "@ + "-"@ + "\nWeekly reset: "@
            + "-"@,
{
}

/// What is told of the last sync of a usage is what its text shows.
pub proof fn law_sync_is_told_by_its_text(text: Seq<char>, usage: UsageResponse)
    requires
        tells_last_sync(text, Some(usage)),
    ensures
        exists|sync: Seq<char>| #[trigger]
            shows_last_sync(sync, usage.last_sync_iso@) && text == "Last sync: "@ + sync,
{
}

} // verus!

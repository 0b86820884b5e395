use std::time::{Duration, Instant};

use chrono::{DateTime, Local, Utc};

use opencode_limits::input::UserAction;
use opencode_limits::layout::{gauge_areas, screen_areas, sections, Area, GaugeAreas, ScreenAreas};
use opencode_limits::meter::{remaining_meter, remaining_style, TextColor, TextStyle};
use opencode_limits::screen::{
    build_profile, build_resets, build_resets_at, build_status_line, render, render_parts,
    render_split_gauge,
};
use opencode_limits::state::{AppState, Reaction, MISSING_TOKEN};
use opencode_limits::types::{ParsedUsage, UsageResponse};

fn parsed(session: Option<u32>, weekly: Option<u32>) -> ParsedUsage {
    ParsedUsage {
        email: "me@example.com".to_string(),
        plan_type: "plus".to_string(),
        session_used_percent: session,
        session_reset_at: Some(100_000),
        session_reset_at_iso: None,
        weekly_used_percent: weekly,
        weekly_reset_at: None,
        weekly_reset_at_iso: None,
    }
}

fn response(session: Option<u32>, weekly: Option<u32>) -> UsageResponse {
    UsageResponse {
        data: parsed(session, weekly),
        cache_age_seconds: 0,
        last_sync_unix: 0,
        last_sync_iso: "never".to_string(),
    }
}

fn terminal() -> Area {
    Area { x: 0, y: 0, width: 80, height: 30 }
}

fn lies_in(inner: Area, outer: Area) -> bool {
    outer.x <= inner.x
        && inner.x + inner.width <= outer.x + outer.width
        && outer.y <= inner.y
        && inner.y + inner.height <= outer.y + outer.height
}

fn rows(areas: ScreenAreas) -> [Area; 7] {
    [
        areas.header,
        areas.profile,
        areas.session,
        areas.weekly,
        areas.resets,
        areas.message,
        areas.footer,
    ]
}

#[test]
fn meter_shows_what_is_left() {
    let usage = response(Some(25), Some(0));
    assert_eq!(remaining_meter(Some(&usage), true), (75, "75% left".to_string()));
    assert_eq!(remaining_meter(Some(&usage), false), (100, "100% left".to_string()));
}

#[test]
fn meter_stops_at_nothing() {
    let usage = response(Some(100), Some(u32::MAX));
    assert_eq!(remaining_meter(Some(&usage), true), (0, "0% left".to_string()));
    assert_eq!(remaining_meter(Some(&usage), false), (0, "0% left".to_string()));
}

#[test]
fn unknown_meter_is_not_available() {
    let usage = response(None, Some(3));
    assert_eq!(remaining_meter(Some(&usage), true), (0, "N/A".to_string()));
    assert_eq!(remaining_meter(None, false), (0, "N/A".to_string()));
}

#[test]
fn style_warns_as_less_is_left() {
    let red = TextStyle { color: TextColor::Red, bold: true };
    let yellow = TextStyle { color: TextColor::Yellow, bold: false };
    let green = TextStyle { color: TextColor::Green, bold: false };
    assert_eq!(remaining_style(0), red);
    assert_eq!(remaining_style(10), red);
    assert_eq!(remaining_style(11), yellow);
    assert_eq!(remaining_style(25), yellow);
    assert_eq!(remaining_style(26), green);
    assert_eq!(remaining_style(100), green);
}

#[test]
fn style_agrees_with_the_ratio() {
    for percent in 0..=100u32 {
        let ratio = f64::from(percent) / 100.0;
        let color = if ratio <= 0.1 {
            TextColor::Red
        } else if ratio <= 0.25 {
            TextColor::Yellow
        } else {
            TextColor::Green
        };
        assert_eq!(remaining_style(percent).color, color);
    }
}

#[test]
fn profile_names_the_account() {
    let usage = response(None, None);
    assert_eq!(build_profile(Some(&usage)), "Email: me@example.com\nPlan: plus");
    assert_eq!(build_profile(None), "Email: -\nPlan: -");
}

#[test]
fn resets_tell_the_time_left() {
    let usage = response(None, None);
    assert_eq!(
        build_resets_at(Some(&usage), 10_000, 0),
        "Session reset: 1d 1h\nWeekly reset: unknown"
    );
    assert_eq!(build_resets_at(None, 0, 0), "Session reset: -\nWeekly reset: -");
    assert_eq!(build_resets(None), "Session reset: -\nWeekly reset: -");
    assert_eq!(build_resets(Some(&usage)), "Session reset: now\nWeekly reset: unknown");
}

#[test]
fn monitor_starts_with_a_token() {
    let now = Instant::now();
    let state = AppState::new_at(Some("t".to_string()), now);
    assert_eq!(state.access_token, Some("t".to_string()));
    assert!(state.usage.is_none());
    assert_eq!(state.last_refresh, None);
    assert_eq!(state.last_input, now);
    assert_eq!(state.consecutive_failures, 0);
    assert_eq!(state.last_error, None);
}

#[test]
fn monitor_starts_without_a_token() {
    let before = Instant::now();
    let state = AppState::new(None);
    assert!(state.last_input >= before);
    assert_eq!(state.last_error, Some(MISSING_TOKEN.to_string()));
    assert_eq!(
        MISSING_TOKEN,
        "Set OPENAI_ACCESS_TOKEN or sign in via OpenCode (~/.local/share/opencode/auth.json)"
    );
}

#[test]
fn refresh_without_a_token_only_notes_it() {
    let mut state = AppState::new(None);
    assert!(state.refresh().is_none());
    assert!(state.last_refresh.is_some());
    assert_eq!(state.last_error, Some(MISSING_TOKEN.to_string()));
    assert_eq!(state.consecutive_failures, 0);
}

#[test]
fn refresh_with_a_token_asks() {
    let mut state = AppState::new(Some("t".to_string()));
    let request = state.refresh().unwrap();
    assert_eq!(request.bearer_token, "t");
    assert_eq!(state.last_refresh, None);
    assert_eq!(state.last_error, None);
}

#[test]
fn success_is_recorded() {
    let mut state = AppState::new(Some("t".to_string()));
    state.finish_refresh(Err("first".to_string()));
    let at = Instant::now();
    state.succeed_at(parsed(Some(1), Some(2)), 1_700_000_000, 5_000_000, at);
    let usage = state.usage.as_ref().unwrap();
    assert_eq!(usage.data.session_used_percent, Some(1));
    assert_eq!(usage.cache_age_seconds, 0);
    assert_eq!(usage.last_sync_unix, 1_700_000_000);
    assert_eq!(usage.last_sync_iso, "2023-11-14T22:13:20.005+00:00");
    assert_eq!(state.consecutive_failures, 0);
    assert_eq!(state.last_error, None);
    assert_eq!(state.last_refresh, Some(at));
}

#[test]
fn success_is_recorded_by_the_clock() {
    let before = Utc::now();
    let mut state = AppState::new(Some("t".to_string()));
    state.finish_refresh(Ok(parsed(None, None)));
    let usage = state.usage.as_ref().unwrap();
    let synced = DateTime::parse_from_rfc3339(&usage.last_sync_iso).unwrap();
    assert_eq!(synced.timestamp(), usage.last_sync_unix);
    assert!(before <= synced && synced <= Utc::now());
}

#[test]
fn failures_are_counted_and_keep_the_usage() {
    let mut state = AppState::new(Some("t".to_string()));
    state.finish_refresh(Ok(parsed(Some(7), None)));
    for n in 1..=6u32 {
        state.finish_refresh(Err(format!("failure {n}")));
        assert_eq!(state.consecutive_failures, n);
        assert_eq!(state.last_error, Some(format!("failure {n}")));
    }
    assert_eq!(state.usage.as_ref().unwrap().data.session_used_percent, Some(7));
    state.consecutive_failures = u32::MAX;
    state.finish_refresh(Err("more".to_string()));
    assert_eq!(state.consecutive_failures, u32::MAX);
}

#[test]
fn failure_is_recorded() {
    let mut state = AppState::new(Some("t".to_string()));
    let input = state.last_input;
    let at = Instant::now() + Duration::from_secs(3);
    state.fail_at("down".to_string(), at);
    assert_eq!(state.last_refresh, Some(at));
    assert_eq!(state.last_input, input);
    assert_eq!(state.consecutive_failures, 1);
    assert_eq!(state.last_error, Some("down".to_string()));
    assert!(state.usage.is_none());
}

#[test]
fn request_falls_due() {
    let sec = 1_000_000_000u128;
    let mut state = AppState::new(Some("t".to_string()));
    assert_eq!(state.maybe_auto_refresh().unwrap().bearer_token, "t");
    state.finish_refresh(Err("down".to_string()));
    assert!(state.maybe_auto_refresh().is_none());
    assert!(state.maybe_auto_refresh_at(0, Some(59 * sec)).is_none());
    assert!(state.maybe_auto_refresh_at(0, Some(60 * sec)).is_some());
    assert!(AppState::new(None).maybe_auto_refresh().is_none());
}

#[test]
fn elapsed_time_makes_a_request_due() {
    let mut state = AppState::new(Some("t".to_string()));
    if let Some(earlier) = Instant::now().checked_sub(Duration::from_secs(31)) {
        state.last_refresh = Some(earlier);
        assert!(state.maybe_auto_refresh().is_some());
        state.last_input = earlier;
        assert!(state.maybe_auto_refresh().is_none());
    }
}

#[test]
fn quit_changes_nothing() {
    let start = Instant::now();
    let mut state = AppState::new_at(Some("t".to_string()), start);
    assert!(matches!(state.react(UserAction::Quit), Reaction::Quit));
    assert!(matches!(state.react(UserAction::Nothing), Reaction::Continue));
    assert_eq!(state.last_input, start);
}

#[test]
fn activity_is_noted() {
    let mut state = AppState::new(Some("t".to_string()));
    let later = Instant::now() + Duration::from_secs(5);
    let reaction = state.react_at(UserAction::Activity, later, Instant::now());
    assert!(matches!(reaction, Reaction::Continue));
    assert_eq!(state.last_input, later);
    assert_eq!(state.last_refresh, None);
}

#[test]
fn asked_refresh_is_granted() {
    let mut state = AppState::new(Some("t".to_string()));
    state.finish_refresh(Err("down".to_string()));
    let later = Instant::now() + Duration::from_secs(5);
    match state.react_at(UserAction::Refresh, later, Instant::now()) {
        Reaction::Fetch(request) => assert_eq!(request.bearer_token, "t"),
        reaction => panic!("{reaction:?}"),
    }
    assert_eq!(state.last_input, later);
    assert_eq!(state.last_error, Some("down".to_string()));
}

#[test]
fn asked_refresh_needs_a_token() {
    let mut state = AppState::new(None);
    let at = Instant::now() + Duration::from_secs(7);
    let reaction = state.react_at(UserAction::Refresh, Instant::now(), at);
    assert!(matches!(reaction, Reaction::Continue));
    assert_eq!(state.last_refresh, Some(at));
}

#[test]
fn status_line_waits_then_tells() {
    let mut state = AppState::new(Some("t".to_string()));
    assert_eq!(build_status_line(&state), "Last sync: waiting for first successful refresh");
    state.succeed_at(parsed(None, None), 1_700_000_000, 0, Instant::now());
    let local = DateTime::from_timestamp(1_700_000_000, 0).unwrap().with_timezone(&Local);
    let expected = local.format("Last sync: %-I:%M:%S %p").to_string();
    assert_eq!(build_status_line(&state), expected);
}

#[test]
fn first_screen_without_a_token() {
    let screen = render(&AppState::new(None), terminal());
    assert_eq!(screen.header.title, "Header");
    assert_eq!(
        screen.header.text,
        "OpenCode Limits Monitor\nSource: chatgpt.com/backend-api/wham/usage    \
         Last sync: waiting for first successful refresh"
    );
    assert_eq!(screen.profile.title, "Profile");
    assert_eq!(screen.profile.text, "Email: -\nPlan: -");
    assert_eq!(screen.session.title, "Session Left");
    assert_eq!(screen.session.percent, 0);
    assert_eq!(screen.session.label, "N/A");
    assert_eq!(screen.weekly.title, "Weekly Left");
    assert_eq!(screen.weekly.style, TextStyle { color: TextColor::Red, bold: true });
    assert_eq!(screen.resets.title, "Resets");
    assert_eq!(screen.resets.text, "Session reset: -\nWeekly reset: -");
    assert_eq!(screen.message.title, "Status");
    assert_eq!(screen.message.text, format!("Last error: {MISSING_TOKEN}"));
    assert_eq!(screen.message.color, Some(TextColor::Red));
    assert_eq!(screen.footer.title, "Keys");
    assert_eq!(
        screen.footer.text,
        "q quit | r refresh now | active poll 30s | idle heartbeat 5m"
    );
    assert_eq!(screen.footer.color, None);
}

#[test]
fn screen_shows_the_usage() {
    let mut state = AppState::new(Some("t".to_string()));
    state.finish_refresh(Ok(parsed(Some(80), Some(95))));
    let screen = render(&state, terminal());
    assert!(screen.header.text.contains("    Last sync: "));
    assert_eq!(screen.profile.text, "Email: me@example.com\nPlan: plus");
    assert_eq!(screen.session.percent, 20);
    assert_eq!(screen.session.label, "20% left");
    assert_eq!(screen.session.style, TextStyle { color: TextColor::Yellow, bold: false });
    assert_eq!(screen.weekly.percent, 5);
    assert_eq!(screen.resets.text, "Session reset: now\nWeekly reset: unknown");
    assert_eq!(screen.message.text, "No errors");
    assert_eq!(screen.message.color, Some(TextColor::Green));
}

#[test]
fn failed_fetch_is_shown_beside_the_usage() {
    let mut state = AppState::new(Some("t".to_string()));
    state.finish_refresh(Ok(parsed(Some(80), Some(95))));
    state.finish_refresh(Err("request failed: x".to_string()));
    let areas = screen_areas(terminal());
    let screen = render_parts(&state, areas, "status", "resets".to_string());
    assert_eq!(screen.message.text, "Last error: request failed: x");
    assert_eq!(screen.message.color, Some(TextColor::Red));
    assert_eq!(screen.session.percent, 20);
    assert!(screen.header.text.ends_with("/usage    status"));
    assert_eq!(screen.resets.text, "resets");
    assert_eq!(screen.resets.area, areas.resets);
}

#[test]
fn sections_are_taken_in_order() {
    let all: Vec<Area> = (0..7).map(|n| Area { x: n, y: n, width: n, height: n }).collect();
    assert_eq!(rows(sections(&all)).to_vec(), all);
}

#[test]
fn sections_fill_a_high_screen() {
    for y in [0u16, 3, 100] {
        for height in 21..300u16 {
            let screen = Area { x: 1, y, width: 40, height };
            let heights = [4, 4, 3, 3, 4, height - 21, 3];
            let mut next = y;
            for (row, height) in rows(screen_areas(screen)).iter().zip(heights) {
                assert_eq!(*row, Area { x: 1, y: next, width: 40, height });
                next += height;
            }
        }
    }
}

#[test]
fn sections_fill_the_highest_screens() {
    for (y, height) in [(0u16, 32_768u16), (0, 40_000), (0, u16::MAX), (1, u16::MAX), (65_500, 100)] {
        let screen = Area { x: 0, y, width: 1, height };
        let last = y.saturating_add(height);
        let areas = screen_areas(screen);
        assert_eq!((areas.header.y, areas.header.height), (y, 4));
        assert_eq!((areas.message.y, areas.message.height), (y + 18, last - y - 21));
        assert_eq!((areas.footer.y, areas.footer.height), (last - 3, 3));
    }
}

#[test]
fn gauge_fills_the_widest_frames() {
    for (x, width) in [(0u16, 32_770u16), (0, u16::MAX), (9, u16::MAX), (65_400, 200)] {
        let areas = gauge_areas(Area { x, y: 0, width, height: 3 });
        let right = (x + 1).saturating_add(width - 2);
        let columns = i64::from(right - (x + 1));
        assert_eq!(areas.bar.x, x + 1);
        assert!((4 * i64::from(areas.bar.width) - 3 * columns).abs() <= 4);
        assert_eq!((areas.divider.x, areas.divider.width), (x + 1 + areas.bar.width, 1));
        assert_eq!(areas.label.x, areas.divider.x + 1);
        assert_eq!(areas.label.x + areas.label.width, right);
    }
}

#[test]
fn sections_stay_in_a_low_screen() {
    for height in 0..21u16 {
        let screen = Area { x: 2, y: 5, width: 9, height };
        for row in rows(screen_areas(screen)) {
            assert!(lies_in(row, screen));
            assert_eq!((row.x, row.width), (2, 9));
        }
    }
}

#[test]
fn sections_fill_a_low_screen() {
    for y in [0u16, 5, 65_520] {
        for height in 0..21u16 {
            let screen = Area { x: 2, y, width: 9, height };
            let mut next = y;
            for (row, full) in rows(screen_areas(screen)).iter().zip([4u16, 4, 3, 3, 4, 0, 3]) {
                assert_eq!(row.y, next);
                assert!(row.height <= full);
                next += row.height;
            }
            assert_eq!(next, y.saturating_add(height));
        }
    }
}

#[test]
fn gauge_without_room_for_a_label() {
    for width in 0..4u16 {
        let areas = gauge_areas(Area { x: 6, y: 1, width, height: 3 });
        let end = areas.bar.x + areas.bar.width;
        assert_eq!(end, [6, 7, 7, 8][usize::from(width)]);
        assert_eq!(areas.divider, Area { x: end, y: 2, width: 0, height: 1 });
        assert_eq!(areas.label, Area { x: end, y: 2, width: 0, height: 1 });
    }
}

#[test]
fn gauge_fills_its_frame() {
    for x in [0u16, 7] {
        for width in 0..300u16 {
            let frame = Area { x, y: 4, width, height: 3 };
            let GaugeAreas { frame: kept, bar, divider, label } = gauge_areas(frame);
            assert_eq!(kept, frame);
            let inner = if width >= 2 { width - 2 } else { 0 };
            let share = 4 * i32::from(bar.width) - 3 * i32::from(inner);
            assert!((-4..=4).contains(&share));
            for part in [bar, divider, label] {
                assert!(lies_in(part, frame));
                assert_eq!((part.y, part.height), (5, 1));
            }
            assert_eq!(bar.x, if width == 0 { x } else { x + 1 });
            let column = if bar.width < inner { 1 } else { 0 };
            assert_eq!((divider.x, divider.width), (bar.x + bar.width, column));
            assert_eq!(label.x, divider.x + divider.width);
            assert_eq!(label.x + label.width, bar.x + inner);
        }
    }
}

#[test]
fn gauge_stays_in_a_low_frame() {
    for height in 0..3u16 {
        let frame = Area { x: 0, y: 9, width: 20, height };
        let areas = gauge_areas(frame);
        assert!(lies_in(areas.bar, frame));
        assert!(lies_in(areas.label, frame));
        assert_eq!(areas.bar.height, 0.max(i32::from(height) - 2) as u16);
    }
}

#[test]
fn gauge_at_the_edge_of_the_cells() {
    let frame = Area { x: u16::MAX, y: u16::MAX, width: 9, height: 9 };
    let areas = gauge_areas(frame);
    assert_eq!((areas.bar.x, areas.bar.y), (u16::MAX, u16::MAX));
}

#[test]
fn gauge_carries_its_label() {
    let frame = Area { x: 0, y: 0, width: 42, height: 3 };
    let gauge = render_split_gauge(frame, "Left", 10, "ten".to_string());
    assert_eq!(gauge.title, "Left");
    assert_eq!(gauge.percent, 10);
    assert_eq!(gauge.label, "ten");
    assert_eq!(gauge.style, TextStyle { color: TextColor::Red, bold: true });
    assert_eq!(gauge.areas.bar, Area { x: 1, y: 1, width: 30, height: 1 });
    assert_eq!(gauge.areas.divider, Area { x: 31, y: 1, width: 1, height: 1 });
    assert_eq!(gauge.areas.label, Area { x: 32, y: 1, width: 9, height: 1 });
}

use opencode_limits::auth::{
    auth_file_path, clean_token, load_access_token, load_access_token_from_opencode_auth,
    OpencodeAuthFile, OpencodeProvider,
};
use opencode_limits::input::{handle_input, Key, KeyChange, TerminalEvent, UserAction};
use opencode_limits::upstream::{
    after_head, after_refusal, after_usage, parse_usage, refusal_message, send_failure,
    usage_request, BodyStep, RateLimit, UpstreamUsage, UsageWindow,
};

fn signed_in(access: &str) -> Option<OpencodeAuthFile> {
    Some(OpencodeAuthFile {
        openai: Some(OpencodeProvider { access: Some(access.to_string()) }),
    })
}

fn upstream(primary: Option<UsageWindow>, secondary: Option<UsageWindow>) -> UpstreamUsage {
    UpstreamUsage {
        email: "me@example.com".to_string(),
        plan_type: "plus".to_string(),
        rate_limit: RateLimit { primary_window: primary, secondary_window: secondary },
    }
}

#[test]
fn token_is_trimmed() {
    assert_eq!(clean_token(" \t tok en\n"), Some("tok en".to_string()));
    assert_eq!(clean_token("token"), Some("token".to_string()));
    assert_eq!(clean_token("\u{3000}t\u{2009}"), Some("t".to_string()));
}

#[test]
fn blank_token_is_none() {
    assert_eq!(clean_token(""), None);
    assert_eq!(clean_token(" \r\n\u{85}\u{a0}"), None);
}

#[test]
fn white_space_is_that_of_unicode() {
    let listed = |c: u32| {
        matches!(c, 0x9..=0xd | 0x20 | 0x85 | 0xa0 | 0x1680 | 0x2000..=0x200a | 0x2028 | 0x2029
            | 0x202f | 0x205f | 0x3000)
    };
    for code in 0..=0x10ffffu32 {
        if let Some(c) = char::from_u32(code) {
            let token = clean_token(&format!("{c}x{c}"));
            let expected = if listed(code) { "x".to_string() } else { format!("{c}x{c}") };
            assert_eq!(token, Some(expected));
        }
    }
}

#[test]
fn trimming_is_idempotent() {
    let once = clean_token("  a b  ").unwrap();
    assert_eq!(clean_token(&once), Some(once));
}

#[test]
fn sign_in_file_comes_first() {
    let token = load_access_token(signed_in(" file "), Some("env".to_string()));
    assert_eq!(token, Some("file".to_string()));
}

#[test]
fn environment_comes_second() {
    let env = Some(" env\n".to_string());
    assert_eq!(load_access_token(None, env.clone()), Some("env".to_string()));
    assert_eq!(load_access_token(signed_in("  "), env.clone()), Some("env".to_string()));
    let no_provider = Some(OpencodeAuthFile { openai: None });
    assert_eq!(load_access_token(no_provider, env.clone()), Some("env".to_string()));
    let no_access = Some(OpencodeAuthFile { openai: Some(OpencodeProvider { access: None }) });
    assert_eq!(load_access_token(no_access, env), Some("env".to_string()));
}

#[test]
fn no_token_anywhere() {
    assert_eq!(load_access_token(None, None), None);
    assert_eq!(load_access_token(signed_in(""), Some(" ".to_string())), None);
    assert_eq!(load_access_token_from_opencode_auth(None), None);
}

#[test]
fn sign_in_file_lies_below_home() {
    assert_eq!(auth_file_path(), vec![".local", "share", "opencode", "auth.json"]);
}

#[test]
fn request_carries_the_token() {
    let request = usage_request("abc");
    assert_eq!(request.url, "https://chatgpt.com/backend-api/wham/usage");
    assert_eq!(request.bearer_token, "abc");
    assert_eq!(request.timeout_secs, 4);
}

#[test]
fn head_decides_what_is_read() {
    assert_eq!(after_head(200), BodyStep::ReadUsage);
    assert_eq!(after_head(299), BodyStep::ReadUsage);
    assert_eq!(after_head(199), BodyStep::ReadRefusal);
    assert_eq!(after_head(300), BodyStep::ReadRefusal);
    assert_eq!(after_head(401), BodyStep::ReadRefusal);
}

#[test]
fn failed_request_is_reported() {
    assert_eq!(send_failure("timed out"), "request failed: timed out");
}

#[test]
fn refusal_shows_status_and_body() {
    assert_eq!(
        after_refusal(404, Some("gone".to_string())),
        "upstream error 404 Not Found: gone"
    );
    assert_eq!(
        after_refusal(599, None),
        "upstream error 599 <unknown status code>: <no upstream body>"
    );
    assert_eq!(refusal_message("1 x", Some(String::new())), "upstream error 1 x: ");
}

#[test]
fn every_refusal_begins_with_its_code() {
    for code in 100..=999u16 {
        let message = after_refusal(code, None);
        assert!(message.starts_with(&format!("upstream error {code} ")));
    }
}

#[test]
fn invalid_json_is_reported() {
    let error = after_usage(Err("eof".to_string())).unwrap_err();
    assert_eq!(error, "invalid upstream json: eof");
}

#[test]
fn windows_become_session_and_week() {
    let primary = UsageWindow { used_percent: 12, reset_at: 1_700_000_000 };
    let secondary = UsageWindow { used_percent: 140, reset_at: 0 };
    let usage = after_usage(Ok(upstream(Some(primary), Some(secondary)))).unwrap();
    assert_eq!(usage.email, "me@example.com");
    assert_eq!(usage.plan_type, "plus");
    assert_eq!(usage.session_used_percent, Some(12));
    assert_eq!(usage.session_reset_at, Some(1_700_000_000));
    assert_eq!(usage.session_reset_at_iso, Some("2023-11-14T22:13:20+00:00".to_string()));
    assert_eq!(usage.weekly_used_percent, Some(140));
    assert_eq!(usage.weekly_reset_at, Some(0));
    assert_eq!(usage.weekly_reset_at_iso, Some("1970-01-01T00:00:00+00:00".to_string()));
}

#[test]
fn missing_windows_stay_unknown() {
    let usage = parse_usage(upstream(None, None));
    assert_eq!(usage.session_used_percent, None);
    assert_eq!(usage.session_reset_at, None);
    assert_eq!(usage.session_reset_at_iso, None);
    assert_eq!(usage.weekly_used_percent, None);
    assert_eq!(usage.weekly_reset_at, None);
    assert_eq!(usage.weekly_reset_at_iso, None);
}

#[test]
fn reset_beyond_the_calendar_has_no_text() {
    let window = UsageWindow { used_percent: 1, reset_at: i64::MAX };
    let usage = parse_usage(upstream(Some(window), None));
    assert_eq!(usage.session_reset_at, Some(i64::MAX));
    assert_eq!(usage.session_reset_at_iso, None);
}

#[test]
fn keys_mean_actions() {
    let press = |key| handle_input(Some(TerminalEvent::Keyboard(KeyChange::Press, key)));
    assert_eq!(press(Key::Char('q')), UserAction::Quit);
    assert_eq!(press(Key::Char('r')), UserAction::Refresh);
    assert_eq!(press(Key::Char('Q')), UserAction::Activity);
    assert_eq!(press(Key::Other), UserAction::Activity);
}

#[test]
fn other_events_mean_nothing() {
    let quit = Key::Char('q');
    assert_eq!(handle_input(None), UserAction::Nothing);
    assert_eq!(handle_input(Some(TerminalEvent::Other)), UserAction::Nothing);
    assert_eq!(
        handle_input(Some(TerminalEvent::Keyboard(KeyChange::Release, quit))),
        UserAction::Nothing
    );
    assert_eq!(
        handle_input(Some(TerminalEvent::Keyboard(KeyChange::Repeat, quit))),
        UserAction::Nothing
    );
}

use klafs_api::cli::{
    Config,
    apply_plan, check_credentials, config_change, configure_request, create_profile,
    delete_profile, find_profile, is_default_sauna, parse_i32, parse_mode_name,
    parse_schedule_time, profile_mode, resolve_sauna_id, schedule_request, status_report, Tone,
};
use klafs_api::client::{check_response_status, status_display, ApiRequest, Flow, HttpMethod, Outcome, Reply, RequestBody};
use klafs_api::config::{create_client_config, ClientConfig, DebugConfig, Timer, DEFAULT_BASE_URL};
use klafs_api::debug::{HttpDebugger, TrafficEntry};
use klafs_api::error::KlafsError;
use klafs_api::models::{SaunaMode, SaunaStatus, StatusCode};
use klafs_api::profiles::{Profile, Profiles};
use klafs_api::text::split_text;
use klafs_api::validate::validate_range;
use std::path::Path;

const SAUNA: &str = "364cc9db-86f1-49d1-86cd-f6ef9b20a490";

fn status_with(f: impl FnOnce(&mut SaunaStatus)) -> SaunaStatus {
    let mut s = SaunaStatus {
        sauna_id: SAUNA.to_string(),
        sauna_selected: false,
        sanarium_selected: false,
        ir_selected: false,
        selected_sauna_temperature: 80,
        selected_sanarium_temperature: 60,
        selected_ir_temperature: 40,
        selected_hum_level: 5,
        selected_ir_level: 0,
        selected_hour: 0,
        selected_minute: 0,
        is_connected: true,
        is_powered_on: false,
        is_ready_for_use: false,
        current_temperature: 18,
        current_humidity: 0,
        status_code: 3,
        status_message: None,
        show_bathing_hour: false,
        bathing_hours: 0,
        bathing_minutes: 0,
        current_humidity_status: 0,
        current_temperature_status: 0,
    };
    f(&mut s);
    s
}

fn reply(status: u16, body: &str, cookie: bool) -> Reply {
    Reply { status, body: body.to_string(), has_session_cookie: cookie, sauna_status: None }
}

// ----- numbers and times -----

#[test]
fn parse_i32_reads_signed_decimals() {
    assert_eq!(parse_i32("42"), Some(42));
    assert_eq!(parse_i32("-7"), Some(-7));
    assert_eq!(parse_i32("+5"), Some(5));
    assert_eq!(parse_i32("007"), Some(7));
    assert_eq!(parse_i32("2147483647"), Some(i32::MAX));
    assert_eq!(parse_i32("-2147483648"), Some(i32::MIN));
}

#[test]
fn parse_i32_refuses_what_str_parse_refuses() {
    for s in ["", "-", "+", "2147483648", "-2147483649", "99999999999999", "1a", " 1", "1 ", "--1", "+-1"] {
        assert_eq!(parse_i32(s), None, "{s}");
        assert_eq!(parse_i32(s), s.parse::<i32>().ok(), "{s}");
    }
    for s in ["0", "12", "-0", "+0", "23", "59", "-100"] {
        assert_eq!(parse_i32(s), s.parse::<i32>().ok(), "{s}");
    }
}

#[test]
fn split_text_cuts_like_str_split() {
    for (s, sep) in [("a:b", ':'), ("", ':'), (":", ':'), ("a::b:", ':'), ("x=1&y=2", '&'), ("none", '&')] {
        let expected: Vec<String> = s.split(sep).map(|p| p.to_string()).collect();
        assert_eq!(split_text(s, sep), expected, "{s}");
    }
}

#[test]
fn schedule_time_reads_hours_and_minutes() {
    assert_eq!(parse_schedule_time("18:30"), Ok((18, 30)));
    assert_eq!(parse_schedule_time("07:05"), Ok((7, 5)));
    assert_eq!(
        parse_schedule_time("1830"),
        Err("Invalid time format '1830'. Use HH:MM format (e.g., 18:30)".to_string())
    );
    assert_eq!(
        parse_schedule_time("1:2:3"),
        Err("Invalid time format '1:2:3'. Use HH:MM format (e.g., 18:30)".to_string())
    );
    assert_eq!(parse_schedule_time("aa:30"), Err("Invalid hour: aa".to_string()));
    assert_eq!(parse_schedule_time("18:xx"), Err("Invalid minute: xx".to_string()));
    assert_eq!(parse_schedule_time("25:99"), Ok((25, 99)));
}

#[test]
fn schedule_request_cases() {
    assert_eq!(schedule_request(Some("18:30"), false), Ok(Some((18, 30))));
    assert_eq!(schedule_request(None, false), Ok(None));
    assert_eq!(schedule_request(None, true), Ok(None));
    assert_eq!(
        schedule_request(Some("18:30"), true),
        Err("Cannot use --clear with a time argument".to_string())
    );
    assert_eq!(schedule_request(Some("x"), false), Err("Invalid time format 'x'. Use HH:MM format (e.g., 18:30)".to_string()));
}

#[test]
fn configure_request_describes_changes() {
    assert_eq!(
        configure_request(Some(85), Some(5), Some("18:30")),
        Ok((Some((18, 30)), "temperature 85°C, humidity level 5, start time 18:30".to_string()))
    );
    assert_eq!(configure_request(None, None, Some("7:5")), Ok((Some((7, 5)), "start time 07:05".to_string())));
    assert_eq!(configure_request(None, Some(3), None), Ok((None, "humidity level 3".to_string())));
    assert_eq!(
        configure_request(None, None, None),
        Err("No configuration options provided. Use --temp, --humidity, or --time.".to_string())
    );
    assert_eq!(configure_request(Some(85), None, Some("bad")), Err("Invalid time format 'bad'. Use HH:MM format (e.g., 18:30)".to_string()));
}

// ----- command-line decisions -----

#[test]
fn mode_names_in_any_case() {
    assert_eq!(parse_mode_name("Sauna"), Ok(SaunaMode::Sauna));
    assert_eq!(parse_mode_name("SANARIUM"), Ok(SaunaMode::Sanarium));
    assert_eq!(parse_mode_name("IR"), Ok(SaunaMode::Infrared));
    assert_eq!(parse_mode_name("infrared"), Ok(SaunaMode::Infrared));
    assert_eq!(
        parse_mode_name("steam"),
        Err("Invalid mode 'steam'. Use: sauna, sanarium, or infrared".to_string())
    );
}

#[test]
fn profile_modes_are_exact() {
    assert_eq!(profile_mode("sauna"), Ok(SaunaMode::Sauna));
    assert_eq!(profile_mode("infrared"), Ok(SaunaMode::Infrared));
    assert_eq!(profile_mode("Sauna"), Err("Invalid mode in profile: Sauna".to_string()));
    assert_eq!(profile_mode("ir"), Err("Invalid mode in profile: ir".to_string()));
}

#[test]
fn sauna_id_resolution() {
    assert_eq!(resolve_sauna_id(Some("a".into()), Some("b".into())), Ok("a".to_string()));
    assert_eq!(resolve_sauna_id(None, Some("b".into())), Ok("b".to_string()));
    assert_eq!(
        resolve_sauna_id(None, None),
        Err("No sauna ID provided. Use --sauna-id or set a default with 'klafs config --sauna-id <ID>'".to_string())
    );
}

#[test]
fn credentials_must_not_be_empty() {
    assert_eq!(check_credentials("", "x"), Err("Username cannot be empty".to_string()));
    assert_eq!(check_credentials("", ""), Err("Username cannot be empty".to_string()));
    assert_eq!(check_credentials("me@example.com", ""), Err("Password cannot be empty".to_string()));
    assert_eq!(check_credentials("me@example.com", "pw"), Ok(()));
}

#[test]
fn default_sauna_is_marked() {
    assert!(is_default_sauna(Some(SAUNA), SAUNA));
    assert!(!is_default_sauna(Some("other"), SAUNA));
    assert!(!is_default_sauna(None, SAUNA));
}

#[test]
fn config_changes() {
    let c = config_change(Some("old".into()), Some("new".into()), true).unwrap();
    assert_eq!(c.sauna_id.as_deref(), Some("new"));
    assert_eq!(c.pin_sauna_id.as_deref(), Some("new"));
    assert!(c.changed);
    let c = config_change(Some("old".into()), None, false).unwrap();
    assert_eq!(c.sauna_id.as_deref(), Some("old"));
    assert_eq!(c.pin_sauna_id, None);
    assert!(!c.changed);
    let c = config_change(Some("old".into()), None, true).unwrap();
    assert_eq!(c.pin_sauna_id.as_deref(), Some("old"));
    assert_eq!(
        config_change(None, None, true).unwrap_err(),
        "Set a sauna ID first with --sauna-id".to_string()
    );
}

fn report_text(s: &SaunaStatus) -> Vec<String> {
    status_report(s).into_iter().map(|l| format!("{}{}{}", l.label, l.value, l.suffix)).collect()
}

#[test]
fn status_report_as_in_the_readme() {
    let s = status_with(|s| {
        s.sanarium_selected = true;
        s.selected_sanarium_temperature = 70;
        s.selected_hum_level = 7;
    });
    let lines = report_text(&s);
    assert_eq!(
        lines,
        vec![
            "Sauna Status",
            "",
            "  Connection:     Connected",
            "  Power:          Off",
            "  Status:         Standby",
            "",
            "  Mode:           Sanarium",
            "  Current Temp:   18°C",
            "  Target Temp:    70°C",
            "  Current Humid:  0%",
            "  Target Humid:   Level 7",
            "",
        ]
    );
    let tones: Vec<Tone> = status_report(&s).into_iter().map(|l| l.tone).collect();
    assert_eq!(tones[2], Tone::Green);
    assert_eq!(tones[4], Tone::Blue);
    assert_eq!(tones[6], Tone::Magenta);
}

#[test]
fn status_report_when_heating_and_scheduled() {
    let s = status_with(|s| {
        s.sauna_selected = true;
        s.is_powered_on = true;
        s.is_ready_for_use = true;
        s.status_code = 9;
        s.bathing_hours = 1;
        s.bathing_minutes = 5;
        s.selected_hour = 18;
        s.selected_minute = 0;
    });
    let lines = report_text(&s);
    assert_eq!(
        lines,
        vec![
            "Sauna Status",
            "",
            "  Connection:     Connected",
            "  Power:          On",
            "  Status:         Unknown (9)",
            "                  Ready for use!",
            "",
            "  Mode:           Sauna",
            "  Current Temp:   18°C",
            "  Target Temp:    80°C",
            "",
            "  Remaining Time: 1h 05m",
            "  Scheduled:      18:00",
            "",
        ]
    );
}

// ----- profiles -----

#[test]
fn profile_commands() {
    let mut profiles = Profiles::new();
    let p = create_profile(&mut profiles, "relaxed", "Sanarium", 60, Some(7)).unwrap();
    assert_eq!(p.mode, "sanarium");
    assert_eq!(p.description(), "60°C, sanarium, humidity 7");
    assert_eq!(
        create_profile(&mut profiles, "relaxed", "sauna", 90, None).unwrap_err(),
        "Profile 'relaxed' already exists. Delete it first or use a different name."
    );
    assert_eq!(
        create_profile(&mut profiles, "hot", "sauna", 120, None).unwrap_err(),
        "Sauna temperature must be between 10 and 100°C, got 120"
    );
    assert!(!profiles.contains("hot"));
    create_profile(&mut profiles, "hot", "sauna", 90, None).unwrap();
    let names: Vec<String> = profiles.list().into_iter().cloned().collect();
    assert_eq!(names, vec!["hot".to_string(), "relaxed".to_string()]);

    let found = find_profile(&profiles, "relaxed").unwrap();
    assert_eq!(apply_plan(found), Ok((SaunaMode::Sanarium, 60, 7, 0)));
    let found = find_profile(&profiles, "hot").unwrap();
    assert_eq!(apply_plan(found), Ok((SaunaMode::Sauna, 90, 0, 0)));
    assert_eq!(find_profile(&profiles, "cold").unwrap_err(), "Profile 'cold' not found");

    assert!(delete_profile(&mut profiles, "hot").is_ok());
    assert_eq!(delete_profile(&mut profiles, "hot").unwrap_err(), "Profile 'hot' not found");
    assert!(!profiles.contains("hot"));
}

#[test]
fn profile_creation_errors() {
    assert_eq!(Profile::new("steam", 60, None).unwrap_err(), "Invalid mode 'steam'. Use: sauna or sanarium");
    assert_eq!(
        Profile::new("sanarium", 80, None).unwrap_err(),
        "Sanarium temperature must be between 40 and 75°C, got 80"
    );
    assert_eq!(Profile::new("sauna", 80, Some(3)).unwrap_err(), "Humidity can only be set for sanarium mode");
    assert_eq!(
        Profile::new("sanarium", 60, Some(11)).unwrap_err(),
        "Humidity level must be between 1 and 10, got 11"
    );
    let bad = Profile { mode: "steam".to_string(), temperature: 60, humidity: None };
    assert_eq!(apply_plan(&bad), Err("Invalid mode in profile: steam".to_string()));
}

#[test]
fn profiles_read_back_what_was_set() {
    let mut profiles = Profiles::new();
    profiles.set("b", Profile::new("sauna", 80, None).unwrap());
    profiles.set("a", Profile::new("sanarium", 50, Some(2)).unwrap());
    profiles.set("b", Profile::new("sauna", 85, None).unwrap());
    assert_eq!(profiles.get("b").unwrap().temperature, 85);
    assert_eq!(profiles.get("a").unwrap().humidity, Some(2));
    assert!(profiles.get("c").is_none());
    let removed = profiles.remove("a").unwrap();
    assert_eq!(removed.temperature, 50);
    assert!(profiles.remove("a").is_none());
    assert_eq!(profiles.list().len(), 1);
}

// ----- debug traffic -----

#[test]
fn entry_format_with_every_part() {
    let entry = TrafficEntry {
        request_id: "id-1".to_string(),
        timestamp: 947638923004,
        method: "POST".to_string(),
        url: "https://x/Account/Login".to_string(),
        request_headers: vec![("content-type".to_string(), "text/plain".to_string())],
        request_body: Some("a=1".to_string()),
        response_status: Some(200),
        response_headers: vec![("set-cookie".to_string(), "REDACTED".to_string())],
        response_body: Some("{\"ok\":true}".to_string()),
        duration_ms: Some(12),
        error: Some("boom".to_string()),
    };
    let rule = "=".repeat(60);
    let expected = format!(
        "\n{rule}\n[2000-01-12 01:02:03.004 UTC] POST https://x/Account/Login\nRequest ID: id-1\n\
         \n--- Request Headers ---\ncontent-type: text/plain\n\
         \n--- Request Body ---\na=1\n\
         \n--- Response Status: 200 ---\n\
         \n--- Response Headers ---\nset-cookie: REDACTED\n\
         \n--- Response Body ---\n{{\n  \"ok\": true\n}}\n\
         \nDuration: 12ms\n\
         \n!!! Error: boom !!!\n{rule}\n"
    );
    assert_eq!(entry.format(), expected);
    assert_eq!(entry.try_format(), Some(expected));
}

fn bare_entry(timestamp: i64, body: Option<String>) -> TrafficEntry {
    TrafficEntry {
        request_id: "r".to_string(),
        timestamp,
        method: "GET".to_string(),
        url: "u".to_string(),
        request_headers: vec![],
        request_body: None,
        response_status: None,
        response_headers: vec![],
        response_body: body,
        duration_ms: None,
        error: None,
    }
}

#[test]
fn entry_format_cuts_long_bodies() {
    let body = "a".repeat(2500);
    let text = bare_entry(0, Some(body)).format();
    assert!(text.contains(&format!("\n--- Response Body ---\n{}\n... [truncated, 2500 bytes total]\n", "a".repeat(2000))));
    assert!(text.starts_with(&format!("\n{}\n[1970-01-01 00:00:00.000 UTC] GET u\n", "=".repeat(60))));
    let short = bare_entry(0, Some("plain".to_string())).format();
    assert!(short.contains("\n--- Response Body ---\nplain\n"));
}

#[test]
fn entry_try_format_refuses_what_format_cannot_write() {
    let cut_in_char = format!("a{}", "é".repeat(1500));
    assert_eq!(bare_entry(0, Some(cut_in_char)).try_format(), None);
    let cut_between = "é".repeat(1500);
    assert!(bare_entry(0, Some(cut_between)).try_format().is_some());
    assert_eq!(bare_entry(i64::MAX, None).try_format(), None);
}

#[test]
fn new_entry_has_a_uuid() {
    let e = TrafficEntry::new("GET", "https://x");
    assert_eq!(e.request_id.len(), 36);
    assert!(klafs_api::validate::is_guid(&e.request_id));
    assert_eq!(e.method, "GET");
    assert!(e.response_status.is_none());
    let f = TrafficEntry::new("GET", "https://x");
    assert_ne!(e.request_id, f.request_id);
}

#[test]
fn header_redaction_keeps_five_bytes() {
    let d = HttpDebugger::new(DebugConfig::enabled());
    assert_eq!(d.redact_header("Cookie", ".ASPXAUTH=verylongtokenvalue"), ".ASPX...REDACTED");
    assert_eq!(d.redact_header("Authorization", "short"), "REDACTED");
    assert_eq!(d.redact_header("X-Auth-Token", "0123456789"), "REDACTED");
    assert_eq!(d.redact_header("Accept", "text/html,application/xhtml+xml"), "text/html,application/xhtml+xml");
}

#[test]
fn body_redaction_cases() {
    let d = HttpDebugger::new(DebugConfig::enabled());
    assert_eq!(
        d.redact_body("UserName=a&Password=b&password=c&Remember=true"),
        "UserName=a&Password=REDACTED&Password=REDACTED&Remember=true"
    );
    let form = d.redact_body("user=a&password=secret&__RequestVerificationToken=tok1");
    assert_eq!(form, "user=a&Password=REDACTED&__RequestVerificationToken=REDACTED");
    assert!(!form.contains("secret") && !form.contains("tok1"));
    assert_eq!(d.redact_body("pin=1234&mode=x=y&flag"), "pin=REDACTED&mode=x=y&flag");
    assert_eq!(d.redact_body(""), "");
    assert_eq!(
        d.redact_body(r#"{"a":{"Token":"x","keep":1},"list":[{"secret":"s"}],"pin":"1"}"#),
        r#"{"a":{"Token":"REDACTED","keep":1},"list":[{"secret":"REDACTED"}],"pin":"REDACTED"}"#
    );
    assert_eq!(d.redact_body("not json"), "not json");
}

#[test]
fn json_redaction_is_idempotent_on_an_example() {
    let d = HttpDebugger::new(DebugConfig::enabled());
    let once = d.redact_body(r#"{"password":"p","nested":{"apiToken":"t","n":[1,2]}}"#);
    assert_eq!(once, r#"{"nested":{"apiToken":"REDACTED","n":[1,2]},"password":"REDACTED"}"#);
    assert_eq!(d.redact_body(&once), once);
}

fn headers(pairs: &[(&str, &str)]) -> Vec<(String, String)> {
    pairs.iter().map(|(k, v)| (k.to_string(), v.to_string())).collect()
}

#[test]
fn debugger_keeps_requests_and_responses() {
    let mut d = HttpDebugger::new(DebugConfig::enabled());
    assert!(d.is_enabled());
    let id = d.log_request(
        "POST",
        "https://x/Account/Login",
        &headers(&[("cookie", ".ASPXAUTH=verylongtokenvalue")]),
        Some("UserName=a&Password=b"),
    );
    assert_eq!(id.len(), 36);
    let file_text = d.log_response(&id, 200, &headers(&[("content-type", "text/html")]), Some("ok"), 7);
    assert_eq!(file_text, None);
    assert_eq!(d.log_response("unknown", 500, &vec![], None, 1), None);
    d.log_error(&id, "late failure");
    d.log_error("unknown", "ignored");
    let traffic = d.get_traffic();
    assert_eq!(traffic.len(), 1);
    let e = &traffic[0];
    assert_eq!(e.request_headers, headers(&[("cookie", ".ASPX...REDACTED")]));
    assert_eq!(e.request_body.as_deref(), Some("UserName=a&Password=REDACTED"));
    assert_eq!(e.response_status, Some(200));
    assert_eq!(e.response_body.as_deref(), Some("ok"));
    assert_eq!(e.duration_ms, Some(7));
    assert_eq!(e.error.as_deref(), Some("late failure"));
    let exported = d.export();
    assert_eq!(exported, e.format());
    assert_eq!(d.try_export(), Some(exported));
    d.clear();
    assert!(d.get_traffic().is_empty());
    assert_eq!(d.export(), "");
    d.disable();
    assert!(!d.is_enabled());
    d.enable();
    assert!(d.is_enabled());
}

#[test]
fn debugger_settings_decide_what_is_kept() {
    let mut plain = HttpDebugger::new(DebugConfig::enabled().without_redaction());
    let id = plain.log_request("GET", "u", &headers(&[("cookie", "abcdefghijklmnop")]), Some("Password=x"));
    let t = plain.get_traffic();
    assert_eq!(t[0].request_headers, headers(&[("cookie", "abcdefghijklmnop")]));
    assert_eq!(t[0].request_body.as_deref(), Some("Password=x"));
    assert_eq!(t[0].request_id, id);

    let mut quiet = HttpDebugger::new(DebugConfig::enabled().without_bodies());
    let id = quiet.log_request("GET", "u", &vec![], Some("body"));
    quiet.log_response(&id, 200, &vec![], Some("answer"), 3);
    let t = quiet.get_traffic();
    assert_eq!(t[0].request_body, None);
    assert_eq!(t[0].response_body, None);
}

#[test]
fn debugger_with_a_file_returns_the_text_to_write() {
    let mut d = HttpDebugger::new(DebugConfig::enabled().with_log_file("debug.log".into()));
    let id = d.log_request("GET", "u", &vec![], None);
    let text = d.log_response(&id, 404, &vec![], Some("missing"), 5).unwrap();
    assert!(text.contains("\n--- Response Status: 404 ---\n"));
    assert!(text.contains("\nDuration: 5ms\n"));
    assert_eq!(text, d.get_traffic()[0].format());

    let id2 = d.log_request("GET", "u", &vec![], None);
    let bad_body = format!("a{}", "é".repeat(1500));
    assert_eq!(d.try_log_response(&id2, 200, &vec![], Some(&bad_body), 1), None);
    assert_eq!(d.get_traffic()[1].response_status, None);
    assert_eq!(d.try_log_response("nobody", 200, &vec![], None, 1), Some(None));
    let ok = d.try_log_response(&id2, 200, &vec![], Some("fine"), 1).unwrap().unwrap();
    assert!(ok.contains("fine"));
    assert!(d.try_export().is_some());
}

#[test]
fn default_debugger_is_off() {
    let d = HttpDebugger::default();
    assert!(!d.is_enabled());
    assert!(d.get_traffic().is_empty());
}

// ----- configuration -----

#[test]
fn client_configurations() {
    let c = ClientConfig::default();
    assert_eq!(c.base_url, DEFAULT_BASE_URL);
    assert_eq!(c.timeout_secs, 30);
    assert!(!c.debug.enabled);
    let t = ClientConfig::for_testing("http://localhost:8080");
    assert_eq!(t.base_url, "http://localhost:8080");
    assert!(t.debug.enabled);
    assert_eq!(t.timeout_secs, 5);
    let d = create_client_config(true, Path::new("klafs-debug.log"));
    assert!(d.debug.enabled);
    assert_eq!(d.debug.log_file.as_deref(), Some(Path::new("klafs-debug.log")));
    let n = create_client_config(false, Path::new("klafs-debug.log"));
    assert!(n.debug.log_file.is_none());
    let timer = Timer::start();
    assert!(timer.elapsed_ms() < 60_000);
}

// ----- models -----

#[test]
fn model_texts() {
    assert_eq!(SaunaMode::from_code(2), Ok(SaunaMode::Sanarium));
    assert_eq!(SaunaMode::from_code(4), Err("Invalid sauna mode: 4".to_string()));
    assert_eq!(SaunaMode::Infrared.code(), 3);
    assert_eq!(u8::from(SaunaMode::Sauna), 1);
    assert_eq!(SaunaMode::Sanarium.display(), "Sanarium");
    assert_eq!(StatusCode::from(1), StatusCode::HeatingUp);
    assert_eq!(StatusCode::from_code(7).display(), "Unknown (7)");
    assert_eq!(StatusCode::Ready.display(), "Ready");
    let s = status_with(|s| {
        s.ir_selected = true;
        s.bathing_hours = 2;
        s.bathing_minutes = 30;
    });
    assert_eq!(s.current_mode(), Some(SaunaMode::Infrared));
    assert_eq!(s.target_temperature(), 40);
    assert_eq!(s.remaining_time(), "2h 30m");
    assert_eq!(status_with(|_| {}).target_temperature(), 80);
}

#[test]
fn range_errors_name_the_bounds() {
    match validate_range(11, 1, 10, "Humidity level") {
        Err(KlafsError::InvalidParameter { message }) => {
            assert_eq!(message, "Humidity level must be between 1 and 10, got 11")
        }
        other => panic!("unexpected {:?}", other),
    }
}

#[test]
fn response_status_checks() {
    assert!(matches!(check_response_status(401, "x"), Err(KlafsError::SessionExpired)));
    assert!(matches!(check_response_status(403, "x"), Err(KlafsError::SessionExpired)));
    match check_response_status(500, "oops") {
        Err(KlafsError::ApiError { status_code, message }) => {
            assert_eq!(status_code, 500);
            assert_eq!(message, "oops");
        }
        other => panic!("unexpected {:?}", other),
    }
    assert!(check_response_status(204, "").is_ok());
    assert_eq!(status_display(404), "404 Not Found");
    assert_eq!(status_display(299), "299 <unknown status code>");
}

// ----- flows -----

fn form_text(req: &ApiRequest) -> String {
    match &req.body {
        RequestBody::Form { text, .. } => text.clone(),
        other => panic!("not a form: {:?}", other),
    }
}

#[test]
fn login_flow_submits_the_form_with_the_token() {
    let mut flow = Flow::login("http://localhost", "test@example.com", "pa ss&word");
    let first = flow.next_request().unwrap();
    assert_eq!(first.method, HttpMethod::Get);
    assert_eq!(first.url, "http://localhost/Account/Login");
    let page = r#"<form><input name="__RequestVerificationToken" value="tok/1+2" /></form>"#;
    assert!(flow.on_reply(reply(200, page, false)).is_none());
    let second = flow.next_request().unwrap();
    assert_eq!(second.method, HttpMethod::Post);
    assert_eq!(
        form_text(&second),
        "UserName=test%40example.com&Password=pa%20ss%26word&RememberMe=false&__RequestVerificationToken=tok%2F1%2B2"
    );
    match flow.on_reply(reply(200, "<html>welcome</html>", true)) {
        Some(Ok(Outcome::LoggedIn { verification_token })) => assert_eq!(verification_token, None),
        other => panic!("unexpected {:?}", other.map(|r| r.is_ok())),
    }
    assert!(flow.next_request().is_none());
}

#[test]
fn login_flow_errors() {
    let mut flow = Flow::login("http://localhost", "a", "b");
    match flow.on_reply(reply(500, "", false)) {
        Some(Err(KlafsError::ApiError { status_code: 500, message })) => assert_eq!(message, "Failed to load login page"),
        _ => panic!("expected an API error"),
    }
    for (body, cookie) in [("Invalid login attempt", true), ("no cookie here", false), ("security check", true)] {
        let mut flow = Flow::login("http://localhost", "a", "b");
        assert!(flow.on_reply(reply(200, "<html></html>", false)).is_none());
        let r = flow.on_reply(reply(200, body, cookie));
        match (body, r) {
            ("Invalid login attempt", Some(Err(KlafsError::AuthenticationFailed { message }))) => {
                assert_eq!(message, "Invalid username or password")
            }
            ("no cookie here", Some(Err(KlafsError::AuthenticationFailed { message }))) => {
                assert_eq!(message, "No session cookie received")
            }
            ("security check", Some(Err(KlafsError::AccountLocked))) => {}
            _ => panic!("unexpected result for {body}"),
        }
    }
}

#[test]
fn status_flow_reads_the_parsed_status() {
    assert!(matches!(Flow::get_status("http://h", "nope"), Err(KlafsError::InvalidParameter { .. })));
    let mut flow = Flow::get_status("http://h", SAUNA).unwrap();
    let req = flow.next_request().unwrap();
    assert_eq!(req.url, format!("http://h/SaunaApp/GetData?id={SAUNA}"));
    assert!(req.reads_status);
    let parsed = status_with(|s| s.current_temperature = 22);
    let r = flow.on_reply(Reply { status: 200, body: "{}".into(), has_session_cookie: true, sauna_status: Some(Ok(parsed)) });
    match r {
        Some(Ok(Outcome::Status(s))) => assert_eq!(s.current_temperature, 22),
        _ => panic!("expected a status"),
    }
    let mut flow = Flow::get_status("http://h", SAUNA).unwrap();
    assert!(matches!(flow.on_reply(reply(401, "", true)), Some(Err(KlafsError::SessionExpired))));
}

#[test]
fn parameter_errors_send_nothing() {
    match Flow::set_temperature("http://h", SAUNA, 150) {
        Err(KlafsError::InvalidParameter { message }) => {
            assert_eq!(message, "Temperature (°C) must be between 10 and 100, got 150")
        }
        _ => panic!("expected a parameter error"),
    }
    assert!(Flow::set_humidity("http://h", SAUNA, 11).is_err());
    assert!(Flow::set_start_time("http://h", SAUNA, 25, 30).is_err());
    assert!(Flow::set_start_time("http://h", SAUNA, 18, 60).is_err());
    assert!(Flow::power_on("http://h", SAUNA, "12a4", None).is_err());
    assert!(Flow::set_mode("http://h", "bad id", SaunaMode::Sauna).is_err());
}

#[test]
fn power_on_with_a_schedule_sets_the_time_first() {
    let mut flow = Flow::power_on("http://h", SAUNA, "1234", Some((18, 30))).unwrap();
    let first = flow.next_request().unwrap();
    assert_eq!(first.url, "http://h/SaunaApp/SetSelectedTime");
    assert!(flow.on_reply(reply(200, "{\"success\": true}", true)).is_none());
    let second = flow.next_request().unwrap();
    assert_eq!(second.url, "http://h/SaunaApp/StartCabin");
    match &second.body {
        RequestBody::PowerControl(p) => {
            assert_eq!(p.pin, "1234");
            assert!(p.time_selected);
            assert_eq!((p.sel_hour, p.sel_min), (Some(18), Some(30)));
        }
        _ => panic!("expected a power request"),
    }
    match flow.on_reply(reply(200, r#"{"Success": false, "ErrorMessage": "Wrong PIN"}"#, true)) {
        Some(Err(KlafsError::ApiError { status_code, message })) => {
            assert_eq!(status_code, 200);
            assert_eq!(message, "Wrong PIN");
        }
        _ => panic!("expected a refusal"),
    }
}

#[test]
fn default_config_is_empty() {
    let c = Config::default();
    assert!(c.username.is_none());
    assert!(c.sauna_id.is_none());
}

#[test]
fn error_messages() {
    let cases = vec![
        (KlafsError::AuthenticationFailed { message: "x".into() }, "Authentication failed: x"),
        (
            KlafsError::AccountLocked,
            "Account locked: Klafs locks accounts after 3 failed login attempts. Please wait or contact support.",
        ),
        (KlafsError::SessionExpired, "Session expired or invalid. Please login again."),
        (KlafsError::InvalidPin, "Invalid PIN provided"),
        (KlafsError::SaunaNotFound { sauna_id: "s".into() }, "Sauna with ID s not found"),
        (KlafsError::SaunaNotConnected, "Sauna is not connected. Check your sauna's network connection."),
        (KlafsError::InvalidParameter { message: "m".into() }, "Invalid parameter: m"),
        (KlafsError::ApiError { status_code: 502, message: "bad".into() }, "API error: 502 - bad"),
        (KlafsError::Network("down".into()), "Network error: down"),
        (KlafsError::Parse("eof".into()), "Failed to parse response: eof"),
        (KlafsError::VerificationTokenNotFound, "Failed to extract verification token from response"),
        (KlafsError::UnexpectedResponse { message: "?".into() }, "Unexpected response: ?"),
    ];
    for (e, text) in cases {
        assert_eq!(e.message(), text);
    }
}

#[test]
fn identifiers_are_trimmed_and_lowered() {
    assert!(klafs_api::validate::is_guid("  364cc9db-86f1-49d1-86cd-f6ef9b20a490\n"));
    assert!(klafs_api::validate::is_guid("{364cc9db-86f1-49d1-86cd-f6ef9b20a490}"));
    assert!(klafs_api::validate::is_guid("364cc9db86f149d186cdf6ef9b20a490"));
    assert_eq!(
        klafs_api::html::extract_guid("id=364CC9DB-86F1-49D1-86CD-F6EF9B20A490;"),
        Some("364cc9db-86f1-49d1-86cd-f6ef9b20a490".to_string())
    );
    match klafs_api::validate::validate_sauna_id("nope") {
        Err(KlafsError::InvalidParameter { message }) => assert_eq!(
            message,
            "Invalid sauna ID format 'nope'. Expected a UUID (e.g., 364cc9db-86f1-49d1-86cd-f6ef9b20a490)"
        ),
        _ => panic!("expected a parameter error"),
    }
    match klafs_api::validate::validate_pin("12") {
        Err(KlafsError::InvalidParameter { message }) => assert_eq!(message, "PIN must be exactly 4 digits"),
        _ => panic!("expected a parameter error"),
    }
}

#[test]
fn power_on_reply_errors() {
    let mut flow = Flow::power_on("http://h", SAUNA, "1234", None).unwrap();
    assert!(matches!(
        flow.on_reply(reply(200, "The PIN is invalid", true)),
        Some(Err(KlafsError::InvalidPin))
    ));
    let mut flow = Flow::power_on("http://h", SAUNA, "1234", None).unwrap();
    match flow.on_reply(reply(500, "down", true)) {
        Some(Err(KlafsError::ApiError { status_code: 500, message })) => assert_eq!(message, "down"),
        _ => panic!("expected an API error"),
    }
    let mut flow = Flow::power_on("http://h", SAUNA, "1234", None).unwrap();
    assert!(matches!(flow.on_reply(reply(200, "{\"Success\": true}", true)), Some(Ok(Outcome::Done))));
}

#[test]
fn status_parse_failure_is_a_parse_error() {
    let mut flow = Flow::get_status("http://h", SAUNA).unwrap();
    let r = flow.on_reply(Reply {
        status: 200,
        body: "not json".into(),
        has_session_cookie: true,
        sauna_status: Some(Err("expected value".into())),
    });
    match r {
        Some(Err(KlafsError::Parse(m))) => assert_eq!(m, "expected value"),
        _ => panic!("expected a parse error"),
    }
}

#[test]
fn saunas_flow_lists_the_page() {
    let mut flow = Flow::list_saunas("http://h");
    assert_eq!(flow.next_request().unwrap().url, "http://h/SaunaApp/ChangeSettings");
    let page = r#"<table><tr class="iw-sauna-webgrid-row-style" data-sauna-id="a1b2c3d4-e5f6-7890-abcd-ef1234567890"><td class="sauna-name">Guest House Sauna</td></tr></table>"#;
    match flow.on_reply(reply(200, page, true)) {
        Some(Ok(Outcome::Saunas(v))) => {
            assert_eq!(v.len(), 1);
            assert_eq!(v[0].id, "a1b2c3d4-e5f6-7890-abcd-ef1234567890");
            assert_eq!(v[0].name, "Guest House Sauna");
        }
        _ => panic!("expected the saunas"),
    }
}

#[test]
fn configure_flow_sends_one_change_with_every_given_setting() {
    match Flow::configure("http://h", SAUNA, Some(85), Some(85), None, None, None) {
        Err(KlafsError::InvalidParameter { message }) => {
            assert_eq!(message, "Sanarium temperature (°C) must be between 40 and 75, got 85")
        }
        _ => panic!("expected a parameter error"),
    }
    let mut flow = Flow::configure("http://h", SAUNA, None, Some(60), None, None, None).unwrap();
    let req = flow.next_request().unwrap();
    assert_eq!(req.method, HttpMethod::Post);
    assert_eq!(req.url, "http://h/SaunaApp/PostConfigChange");
    match &req.body {
        RequestBody::ConfigChange(c) => {
            assert_eq!(c.sauna_id, SAUNA);
            assert_eq!(c.selected_sanarium_temperature, Some(60));
            assert_eq!(c.selected_sauna_temperature, None);
            assert_eq!(c.selected_hum_level, None);
            assert_eq!(c.selected_hour, None);
            assert_eq!(c.selected_minute, None);
        }
        other => panic!("unexpected body {:?}", other),
    }
    assert!(matches!(flow.on_reply(reply(200, "{\"success\": true}", true)), Some(Ok(Outcome::Done))));
    assert!(flow.next_request().is_none());

    let flow = Flow::configure("http://h", SAUNA, Some(60), Some(60), Some(5), Some(18), None).unwrap();
    match &flow.next_request().unwrap().body {
        RequestBody::ConfigChange(c) => {
            assert_eq!(
                (c.selected_sauna_temperature, c.selected_sanarium_temperature, c.selected_hum_level, c.selected_hour, c.selected_minute),
                (Some(60), Some(60), Some(5), Some(18), None)
            );
        }
        other => panic!("unexpected body {:?}", other),
    }
    assert!(Flow::configure("http://h", SAUNA, None, None, None, None, None).is_err());
}

#[test]
fn a_failed_step_ends_the_flow() {
    let mut flow = Flow::set_humidity("http://h", SAUNA, 5).unwrap();
    let not_sanarium = status_with(|s| s.sauna_selected = true);
    let r = flow.on_reply(Reply { status: 200, body: "{}".into(), has_session_cookie: true, sauna_status: Some(Ok(not_sanarium)) });
    match r {
        Some(Err(KlafsError::InvalidParameter { message })) => assert_eq!(
            message,
            "Humidity can only be set in Sanarium mode. Use 'set-mode sanarium' first."
        ),
        _ => panic!("expected the sanarium error"),
    }
    assert!(flow.next_request().is_none());
    let mut flow = Flow::power_on("http://h", SAUNA, "1234", Some((18, 30))).unwrap();
    assert!(matches!(flow.on_reply(reply(403, "", true)), Some(Err(KlafsError::SessionExpired))));
    assert!(flow.next_request().is_none());
}

#[test]
fn written_times_read_back() {
    for (h, m) in [(0, 0), (7, 5), (18, 30), (23, 59), (-5, 7), (123, 4)] {
        let text = format!("{:02}:{:02}", h, m);
        assert_eq!(parse_schedule_time(&text), Ok((h, m)), "{text}");
    }
}

#[test]
fn mode_codes_read_back() {
    for m in [SaunaMode::Sauna, SaunaMode::Sanarium, SaunaMode::Infrared] {
        assert_eq!(SaunaMode::from_code(m.code()), Ok(m));
    }
    for c in [0u8, 4, 255] {
        assert!(SaunaMode::from_code(c).is_err());
    }
}

#[test]
fn malformed_pin_is_an_invalid_pin() {
    assert!(matches!(Flow::power_on("http://h", SAUNA, "wrong", None), Err(KlafsError::InvalidPin)));
    assert!(matches!(Flow::power_on("http://h", SAUNA, "12a4", Some((18, 30))), Err(KlafsError::InvalidPin)));
    assert!(matches!(Flow::power_on("http://h", "bad", "wrong", None), Err(KlafsError::InvalidParameter { .. })));
}

#[test]
fn humidity_goes_on_when_the_status_cannot_be_read() {
    let mut flow = Flow::set_humidity("http://h", SAUNA, 7).unwrap();
    assert!(flow.on_reply(reply(404, "", true)).is_none());
    let req = flow.next_request().unwrap();
    assert_eq!(req.url, "http://h/SaunaApp/ChangeHumLevel");
    assert!(matches!(flow.on_reply(reply(200, "{\"success\": true}", true)), Some(Ok(Outcome::Done))));

    let mut flow = Flow::set_humidity("http://h", SAUNA, 7).unwrap();
    let unread = Reply { status: 200, body: "x".into(), has_session_cookie: true, sauna_status: Some(Err("bad".into())) };
    assert!(flow.on_reply(unread).is_none());

    let mut flow = Flow::set_humidity("http://h", SAUNA, 7).unwrap();
    assert!(matches!(flow.on_reply(reply(401, "", true)), Some(Err(KlafsError::SessionExpired))));
}

#[test]
fn start_time_goes_out_as_a_configuration_change() {
    let mut flow = Flow::set_start_time("http://h", SAUNA, 18, 30).unwrap();
    let req = flow.next_request().unwrap();
    assert_eq!(req.url, "http://h/SaunaApp/PostConfigChange");
    match &req.body {
        RequestBody::ConfigChange(c) => {
            assert_eq!(c.sauna_id, SAUNA);
            assert_eq!((c.selected_hour, c.selected_minute), (Some(18), Some(30)));
            assert_eq!(
                (c.selected_sauna_temperature, c.selected_sanarium_temperature, c.selected_hum_level),
                (None, None, None)
            );
        }
        other => panic!("unexpected body {:?}", other),
    }
    assert!(matches!(flow.on_reply(reply(200, "{\"success\": true}", true)), Some(Ok(Outcome::Done))));
}

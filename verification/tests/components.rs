//! Unit tests for the engine commands and the supporting modules.

use resty::analytics::{get_analytics, save_or_update_session, AnalyticsQuery};
use resty::display::{display_state_from_bytes, resolve_floating_position, resolve_tray_theme};
use resty::engine::TimerService;
use resty::error::AppError;
use resty::models::{FloatingPosition, Session, SessionType, Theme, TimerPhase, TimerState, WorkSegment};
use resty::quotes::{extract_viewbits_quote, is_chinese_language, normalize_quote};
use resty::segments::sanitize_segments;
use resty::settings::{
    default_flow_mode, default_rest_music_directory, default_rest_music_enabled,
    default_work_segments, is_supported_audio_extension, normalize_settings_for_save,
    normalize_settings_on_load, rest_music_directory_default, validate_settings, Settings,
};
use resty::updater::{
    build_update_manifest, matches_arch, pick_asset, release_version_from_tag, ReleaseAsset,
};

fn flat_engine() -> TimerService {
    TimerService::new(25, 5, false, false, Vec::new())
}

#[test]
fn new_engine_is_idle_and_stopped() {
    let e = flat_engine();
    assert_eq!(e.phase, TimerPhase::Idle);
    assert_eq!(e.state, TimerState::Stopped);
    assert_eq!(e.remaining_seconds, 0);
    assert_eq!(e.total_seconds, 0);
    assert!(e.phase_end_time.is_none());
    assert!(e.suppress_breaks_until.is_none());
    assert!(e.auto_cycle);
}

#[test]
fn start_work_opens_a_fresh_session() {
    let mut e = flat_engine();
    e.start_work(1000);
    assert_eq!(e.phase, TimerPhase::Work);
    assert_eq!(e.state, TimerState::Running);
    assert_eq!(e.total_seconds, 1500);
    assert_eq!(e.remaining_seconds, 1500);
    assert_eq!(e.phase_end_time, Some(2500));
    assert_eq!(e.current_session_start, Some(1000));
    let id = e.current_session_id.clone().expect("a running phase carries a session id");
    assert_eq!(id.len(), 36, "session ids are hyphenated UUID strings");
}

#[test]
fn start_break_uses_the_break_length() {
    let mut e = flat_engine();
    e.start_break(0);
    assert_eq!(e.phase, TimerPhase::Break);
    assert_eq!(e.total_seconds, 300);
    assert_eq!(e.phase_end_time, Some(300));
}

#[test]
fn stop_clears_session_and_pause_causes() {
    let mut e = flat_engine();
    e.start_work(0);
    e.handle_system_suspend(10);
    e.stop();
    assert_eq!(e.phase, TimerPhase::Idle);
    assert_eq!(e.state, TimerState::Stopped);
    assert_eq!(e.remaining_seconds, 0);
    assert_eq!(e.total_seconds, 0);
    assert!(e.phase_end_time.is_none());
    assert!(e.current_session_id.is_none());
    assert!(e.current_session_start.is_none());
    assert!(!e.paused_due_to_display_off);
    assert!(!e.paused_due_to_system_suspend);
}

#[test]
fn pause_when_not_running_is_a_no_op() {
    let mut e = flat_engine();
    e.pause(100);
    assert_eq!(e.state, TimerState::Stopped);
    e.start_work(200);
    e.pause(300);
    let paused = e.remaining_seconds;
    e.pause(400);
    assert_eq!(e.remaining_seconds, paused, "a second pause changes nothing");
}

#[test]
fn extend_adds_at_least_one_minute() {
    let mut e = flat_engine();
    e.start_work(0);
    e.extend(5);
    assert_eq!(e.total_seconds, 1800);
    assert_eq!(e.remaining_seconds, 1800);
    assert_eq!(e.phase_end_time, Some(1800));
    e.extend(0);
    assert_eq!(e.total_seconds, 1860, "zero minutes still extend by one");
    e.pause(60);
    e.extend(1);
    assert!(e.phase_end_time.is_none(), "extending while paused keeps no deadline");
    assert_eq!(e.total_seconds, 1920);
}

#[test]
fn tick_when_not_running_does_nothing() {
    let mut e = flat_engine();
    let (session, reminder) = e.tick(500);
    assert!(session.is_none());
    assert!(!reminder);
    assert_eq!(e.state, TimerState::Stopped);
}

#[test]
fn skip_work_records_a_skipped_session() {
    let mut e = flat_engine();
    e.start_work(0);
    let (session, reminder) = e.skip(700).expect("skipping a running phase yields a record");
    assert!(reminder);
    assert!(session.is_skipped);
    assert_eq!(session.session_type, SessionType::Work);
    assert_eq!(session.duration, 700);
    assert_eq!(session.planned_duration, 1500);
    assert_eq!(e.phase, TimerPhase::Break);
}

#[test]
fn flow_mode_on_during_break_skips_to_work() {
    let mut e = flat_engine();
    e.start_break(0);
    let skipped = e.update_flow_mode(120, true).expect("a running break is cut short");
    assert!(skipped.is_skipped);
    assert_eq!(skipped.session_type, SessionType::Break);
    assert_eq!(skipped.duration, 120);
    assert!(e.flow_mode);
    assert_eq!(e.phase, TimerPhase::Work);
    // Turning it off only flips the flag.
    let r = e.update_flow_mode(200, false);
    assert!(r.is_none());
    assert!(!e.flow_mode);
    assert_eq!(e.phase, TimerPhase::Work);
}

#[test]
fn flow_mode_hides_the_break_prediction() {
    let mut e = TimerService::new(25, 5, true, false, Vec::new());
    e.start_work(0);
    let info = e.get_info(0);
    assert!(info.next_break_time.is_none(), "flow mode never reaches a break");
    assert_eq!(info.next_transition_time, Some(1500));
}

#[test]
fn suppress_until_tomorrow_morning_lies_ahead() {
    let mut e = flat_engine();
    let now = 1_700_000_000;
    e.suppress_breaks_until_tomorrow_morning(now);
    let until = e.suppress_breaks_until.expect("a suppression deadline is set");
    assert!(until > now, "tomorrow morning lies in the future");
    assert!(until < now + 3 * 86400, "and within a few days");
}

#[test]
fn suppression_resolution_keeps_instants_in_range() {
    let now = 1_000_000;
    assert_eq!(TimerService::resolve_suppress_until(Some(now + 100), now), now + 100);
    assert_eq!(
        TimerService::resolve_suppress_until(Some(now + 3 * 86400), now),
        now + 3 * 86400
    );
    // An instant in the past, or too far ahead, falls back to 24
    // hours from now — as does a failed resolution.
    assert_eq!(TimerService::resolve_suppress_until(Some(5), now), now + 86400);
    assert_eq!(
        TimerService::resolve_suppress_until(Some(now + 3 * 86400 + 1), now),
        now + 86400
    );
    assert_eq!(TimerService::resolve_suppress_until(None, now), now + 86400);
}

#[test]
fn quote_normalization_is_idempotent() {
    let once = normalize_quote(Some("  steady on  "));
    let twice = normalize_quote(once.as_deref());
    assert_eq!(once, twice);
    assert_eq!(once, Some("steady on".to_string()));
    assert_eq!(normalize_quote(normalize_quote(Some("   ")).as_deref()), None);
}

#[test]
fn segmented_prediction_walks_the_ring() {
    let plan = vec![
        WorkSegment { work_minutes: 50, break_minutes: 10, repeat: 1 },
        WorkSegment { work_minutes: 25, break_minutes: 5, repeat: 1 },
    ];
    let mut e = TimerService::new(25, 5, false, true, plan);
    e.suppress_breaks_for_hours(0, 2);
    e.start_work(0);
    // Work ends at 3000, still suppressed; the walk bypasses the
    // first break (600) and the second segment's work (1500) to
    // 5100, then its break (300) and the first segment's work
    // (3000) to 8400, which clears the 7200 deadline.
    let info = e.get_info(0);
    assert_eq!(info.next_break_time, Some(8400));
}

#[test]
fn sanitize_clamps_segments_into_range() {
    let raw = vec![
        WorkSegment { work_minutes: 0, break_minutes: 500, repeat: 0 },
        WorkSegment { work_minutes: 130, break_minutes: 0, repeat: 13 },
        WorkSegment { work_minutes: 40, break_minutes: 8, repeat: 3 },
    ];
    let clean = sanitize_segments(raw);
    assert_eq!(clean.len(), 3);
    assert_eq!(clean[0], WorkSegment { work_minutes: 1, break_minutes: 120, repeat: 1 });
    assert_eq!(clean[1], WorkSegment { work_minutes: 120, break_minutes: 1, repeat: 12 });
    assert_eq!(clean[2], WorkSegment { work_minutes: 40, break_minutes: 8, repeat: 3 });
}

#[test]
fn validate_settings_reports_the_first_violation() {
    let mut s = Settings::default();
    assert!(validate_settings(&s).is_ok());
    s.work_duration = 0;
    assert!(matches!(validate_settings(&s), Err(AppError::InvalidDuration)));
    s.work_duration = 25;
    s.break_duration = 121;
    assert!(matches!(validate_settings(&s), Err(AppError::InvalidDuration)));
    s.break_duration = 5;
    s.opacity = 101;
    assert!(matches!(validate_settings(&s), Err(AppError::InvalidOpacity)));
    s.opacity = 95;
    s.segmented_work_enabled = true;
    s.work_segments = Vec::new();
    assert!(matches!(validate_settings(&s), Err(AppError::InvalidWorkSegments)));
    s.work_segments = vec![WorkSegment { work_minutes: 30, break_minutes: 5, repeat: 13 }];
    assert!(matches!(validate_settings(&s), Err(AppError::InvalidWorkSegments)));
    s.work_segments = vec![WorkSegment { work_minutes: 30, break_minutes: 0, repeat: 2 }];
    assert!(matches!(validate_settings(&s), Err(AppError::InvalidDuration)));
    s.work_segments = vec![WorkSegment { work_minutes: 30, break_minutes: 5, repeat: 2 }];
    assert!(validate_settings(&s).is_ok());
}

#[test]
fn error_messages_read_as_documented() {
    assert_eq!(
        AppError::InvalidDuration.message(),
        "Invalid duration: must be between 1 and 120 minutes"
    );
    assert_eq!(
        AppError::DatabaseError("disk full".to_string()).message(),
        "Database error: disk full"
    );
    assert_eq!(AppError::Unknown("?".to_string()).message(), "Unknown error: ?");
}

#[test]
fn settings_defaults_match_the_documented_values() {
    let s = Settings::default();
    assert_eq!(s.work_duration, 25);
    assert_eq!(s.break_duration, 5);
    assert!(!s.flow_mode_enabled);
    assert_eq!(s.opacity, 95);
    assert!(s.play_sound);
    assert!(s.minimize_to_tray);
    assert!(s.close_to_tray);
    assert!(!s.segmented_work_enabled);
    assert_eq!(s.version, "1.0.0");
    assert!(!default_rest_music_enabled());
    assert!(!default_flow_mode());
    assert_eq!(default_work_segments().len(), 1);
}

#[test]
fn default_music_directory_points_at_rest_music() {
    let dir = rest_music_directory_default();
    assert!(!dir.is_empty());
    assert!(dir.ends_with("rest-music"));
    assert!(dir.contains("RESTY"));
    assert_eq!(default_rest_music_directory(), dir);
}

#[test]
fn save_normalization_forces_tray_behavior() {
    let mut s = Settings::default();
    s.minimize_to_tray = false;
    s.close_to_tray = false;
    s.silent_autostart = true;
    s.autostart = false;
    let n = normalize_settings_for_save(s);
    assert!(n.minimize_to_tray);
    assert!(n.close_to_tray);
    assert!(!n.silent_autostart, "silent autostart needs autostart");
}

#[test]
fn load_normalization_repairs_and_reports() {
    let mut s = Settings::default();
    s.rest_music_directory = "   ".to_string();
    s.work_segments = Vec::new();
    s.segmented_work_enabled = true;
    let (n, changed) = normalize_settings_on_load(
        s,
        "/music".to_string(),
        default_work_segments(),
    );
    assert!(changed);
    assert_eq!(n.rest_music_directory, "/music");
    assert_eq!(n.work_segments.len(), 1);
    assert!(!n.segmented_work_enabled);
    let (same, changed_again) = normalize_settings_on_load(
        n,
        "/other".to_string(),
        Vec::new(),
    );
    assert!(!changed_again, "an already clean value needs no repair");
    assert_eq!(same.rest_music_directory, "/music");
}

#[test]
fn quote_normalization_trims_and_drops_blanks() {
    assert_eq!(normalize_quote(Some("  keep going  ")), Some("keep going".to_string()));
    assert_eq!(normalize_quote(Some("   ")), None);
    assert_eq!(normalize_quote(None), None);
}

#[test]
fn quote_extraction_prefers_the_top_level_field() {
    assert_eq!(
        extract_viewbits_quote(Some(" a "), Some("b"), Some("c")),
        Some("a".to_string())
    );
    assert_eq!(extract_viewbits_quote(None, Some(" b "), Some("c")), Some("b".to_string()));
    assert_eq!(extract_viewbits_quote(None, None, Some("c ")), Some("c".to_string()));
    assert_eq!(extract_viewbits_quote(None, None, None), None);
    assert_eq!(
        extract_viewbits_quote(Some("   "), Some("b"), None),
        None,
        "a present but blank candidate is not replaced by the next one"
    );
}

#[test]
fn chinese_locales_are_detected_by_prefix() {
    assert!(is_chinese_language("zh-CN"));
    assert!(is_chinese_language("ZH-tw"));
    assert!(is_chinese_language("zh"));
    assert!(!is_chinese_language("en-US"));
    assert!(!is_chinese_language("z"));
    assert!(!is_chinese_language(""));
}

#[test]
fn audio_extension_check_is_case_insensitive() {
    assert!(is_supported_audio_extension("mp3"));
    assert!(is_supported_audio_extension("MP3"));
    assert!(is_supported_audio_extension("FlAc"));
    assert!(is_supported_audio_extension("ogg"));
    assert!(!is_supported_audio_extension("txt"));
    assert!(!is_supported_audio_extension("mp4"));
}

#[test]
fn arch_matching_folds_case() {
    assert!(matches_arch("Resty_X86_64.msi", "x86_64"));
    assert!(matches_arch("resty-x64-setup.exe", "amd64"));
    assert!(!matches_arch("resty-arm64.msi", "x86_64"));
    assert!(matches_arch("resty-ARM64.dmg", "aarch64"));
    assert!(!matches_arch("resty-x64.dmg", "aarch64"));
    assert!(matches_arch("anything.deb", "riscv64"), "unknown architectures accept all");
}

fn asset(name: &str) -> ReleaseAsset {
    ReleaseAsset {
        name: name.to_string(),
        browser_download_url: format!("https://example.invalid/{name}"),
        content_type: None,
    }
}

#[test]
fn asset_picking_honors_platform_priorities() {
    let assets = vec![
        asset("resty-x86_64.AppImage"),
        asset("resty-x64-setup.EXE"),
        asset("resty-x64.msi"),
        asset("resty-aarch64.dmg"),
    ];
    let win = pick_asset(&assets, "windows", "x86_64").expect("a windows asset exists");
    assert_eq!(win.name, "resty-x64.msi", "msi outranks exe");
    let mac = pick_asset(&assets, "macos", "aarch64").expect("a mac asset exists");
    assert_eq!(mac.name, "resty-aarch64.dmg");
    let linux = pick_asset(&assets, "linux", "x86_64").expect("a linux asset exists");
    assert_eq!(linux.name, "resty-x86_64.AppImage");
    let fallback = pick_asset(&assets, "windows", "aarch64").expect("fallback to the first asset");
    assert_eq!(fallback.name, "resty-x86_64.AppImage");
    assert!(pick_asset(&Vec::new(), "windows", "x86_64").is_none());
}

#[test]
fn release_tags_lose_their_version_marker() {
    assert_eq!(release_version_from_tag("v1.2.3"), "1.2.3");
    assert_eq!(release_version_from_tag("vv2"), "2");
    assert_eq!(release_version_from_tag("1.0"), "1.0");
    assert_eq!(release_version_from_tag(""), "");
}

#[test]
fn update_manifest_fills_in_defaults() {
    let assets = vec![asset("resty-x64.msi")];
    let m = build_update_manifest(
        "v2.1.0",
        None,
        Some("notes".to_string()),
        "https://example.invalid/release",
        Some("someone".to_string()),
        &assets,
        "windows",
        "x86_64",
    );
    assert_eq!(m.version, "2.1.0");
    assert_eq!(m.name.as_deref(), Some("Release 2.1.0"));
    assert_eq!(m.website.as_deref(), Some("https://example.invalid/release"));
    assert_eq!(m.notes.as_deref(), Some("notes"));
    assert_eq!(m.author.as_deref(), Some("someone"));
    assert_eq!(m.asset_name.as_deref(), Some("resty-x64.msi"));
    assert_eq!(
        m.download_url.as_deref(),
        Some("https://example.invalid/resty-x64.msi")
    );
    let named = build_update_manifest(
        "3.0",
        Some("Big release".to_string()),
        None,
        "https://example.invalid/r3",
        None,
        &Vec::new(),
        "linux",
        "x86_64",
    );
    assert_eq!(named.name.as_deref(), Some("Big release"));
    assert_eq!(named.version, "3.0");
    assert!(named.download_url.is_none());
    assert!(named.asset_name.is_none());
}

#[test]
fn floating_position_lands_in_the_requested_corner() {
    let top_right =
        resolve_floating_position(0, 0, 1920, 1080, 340, 300, FloatingPosition::TopRight);
    assert_eq!(top_right, (1560, 96));
    let bottom_left =
        resolve_floating_position(0, 0, 1920, 1080, 340, 300, FloatingPosition::BottomLeft);
    assert_eq!(bottom_left, (20, 684));
    let offset =
        resolve_floating_position(1920, 0, 1920, 1080, 340, 300, FloatingPosition::TopLeft);
    assert_eq!(offset, (1940, 96), "a second monitor shifts by its origin");
    let clamped =
        resolve_floating_position(0, 0, 300, 200, 340, 300, FloatingPosition::TopRight);
    assert_eq!(clamped, (0, 0), "an oversized window pins to the monitor origin");
}

#[test]
fn tray_theme_follows_the_preference() {
    assert!(resolve_tray_theme(&Theme::Dark));
    assert!(!resolve_tray_theme(&Theme::Light));
    // Auto consults the machine; any answer is acceptable.
    let _ = resolve_tray_theme(&Theme::Auto);
}

#[test]
fn display_power_payloads_decode_by_length() {
    assert_eq!(display_state_from_bytes(&[0, 0, 0, 0]), Some(false));
    assert_eq!(display_state_from_bytes(&[1, 0, 0, 0]), Some(true));
    assert_eq!(display_state_from_bytes(&[0, 0, 2, 0, 9]), Some(true));
    assert_eq!(display_state_from_bytes(&[1, 1]), None);
    assert_eq!(display_state_from_bytes(&[]), None);
}

fn session(id: &str, kind: SessionType, start: i64, end: i64, skipped: bool) -> Session {
    Session {
        id: id.to_string(),
        session_type: kind,
        start_time: start,
        end_time: end,
        duration: end - start,
        planned_duration: end - start,
        is_skipped: skipped,
        extended_seconds: 0,
        notes: None,
    }
}

#[test]
fn analytics_counts_overlapping_sessions() {
    let sessions = vec![
        session("a", SessionType::Work, 0, 1500, false),
        session("b", SessionType::Break, 1500, 1800, false),
        session("c", SessionType::Break, 1800, 2000, true),
        session("d", SessionType::Work, 5000, 6500, false),
    ];
    let data = get_analytics(&sessions, &AnalyticsQuery { start_date: 1000, end_date: 2500 });
    assert_eq!(data.total_work_seconds, 1500, "only the overlapping work session counts");
    assert_eq!(data.total_break_seconds, 500);
    assert_eq!(data.break_count, 2);
    assert_eq!(data.completed_breaks, 1);
    assert_eq!(data.skipped_breaks, 1);
    assert_eq!(data.sessions.len(), 3);
    assert_eq!(data.sessions[0].id, "a");
    assert_eq!(data.sessions[2].id, "c");
}

#[test]
fn session_upsert_replaces_by_id() {
    let mut store = vec![
        session("a", SessionType::Work, 0, 0, false),
        session("b", SessionType::Break, 10, 20, false),
    ];
    let finished = session("a", SessionType::Work, 0, 1500, false);
    save_or_update_session(&mut store, &finished);
    assert_eq!(store.len(), 2, "an existing id is updated in place");
    assert_eq!(store[0].duration, 1500);
    assert_eq!(store[1].id, "b");
    let fresh = session("c", SessionType::Break, 30, 40, true);
    save_or_update_session(&mut store, &fresh);
    assert_eq!(store.len(), 3, "a fresh id is appended");
    assert_eq!(store[2].id, "c");
}

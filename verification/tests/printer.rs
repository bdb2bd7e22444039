use pls::duration::{div_rem, pretty_duration};
use pls::model::{
    HistoryEntry, PlexSession, PlexpyActivityData, PlexpyData, PlexpyHistoryData, SessionType,
};
use pls::printer::{format_history, format_session, format_sessions, lenient_percent, print_data};
use pls::progress::progress_bar;

fn sample_session() -> PlexSession {
    PlexSession {
        container: String::from("mkv"),
        full_title: String::from("Test Movie"),
        ip_address_public: String::from("203.0.113.7"),
        media_type: String::from("Movie"),
        platform: String::from("Chrome"),
        player: String::from("Web Player"),
        quality_profile: String::from("1080p"),
        state: String::from("playing"),
        transcode_container: String::new(),
        user: String::from("alice"),
        session_type: Some(SessionType::Secure),
        progress_percent: String::from("50"),
    }
}

#[test]
fn test_progress_bar() {
    let none = "[◼──────────]";
    let half = "[─────◼─────]";
    let full = "[──────────◼]";

    assert_eq!(none, progress_bar(0), "progress 0%");
    assert_eq!(half, progress_bar(50), "progress 50%");
    assert_eq!(full, progress_bar(100), "progress 100%");
}

#[test]
fn progress_bar_marker_position() {
    for p in 0u8..=100u8 {
        let bar = progress_bar(p);
        let chars: Vec<char> = bar.chars().collect();
        assert_eq!(chars.len(), 13);
        assert_eq!(chars[0], '[');
        assert_eq!(chars[12], ']');
        let marker = 1 + (p as usize) / 10;
        for (i, c) in chars.iter().enumerate().take(12).skip(1) {
            if i == marker {
                assert_eq!(*c, '◼');
            } else {
                assert_eq!(*c, '─');
            }
        }
    }
}

#[test]
fn div_rem_nonzero() {
    assert_eq!(div_rem(5, 5), (1, 0));
    assert_eq!(div_rem(10, 5), (2, 0));
    assert_eq!(div_rem(3, 5), (0, 3));
}

#[test]
fn duration_formatting() {
    assert_eq!(pretty_duration(60), "1m0s");
    assert_eq!(pretty_duration(3600), "1h0m0s");
    assert_eq!(pretty_duration(86_400), "1d0h0m0s");
    assert_eq!(pretty_duration(1242), "20m42s");
    assert_eq!(pretty_duration(20231), "5h37m11s");
}

#[test]
fn duration_small_values() {
    assert_eq!(pretty_duration(0), "0s");
    assert_eq!(pretty_duration(59), "59s");
    assert_eq!(pretty_duration(61), "1m1s");
    assert_eq!(pretty_duration(90061), "1d1h1m1s");
}

#[test]
fn lenient_percent_readings() {
    assert_eq!(lenient_percent("0"), 0);
    assert_eq!(lenient_percent("42"), 42);
    assert_eq!(lenient_percent("100"), 100);
    assert_eq!(lenient_percent("007"), 7);
    assert_eq!(lenient_percent(""), 0);
    assert_eq!(lenient_percent("abc"), 0);
    assert_eq!(lenient_percent("4a"), 0);
    assert_eq!(lenient_percent("-3"), 0);
    assert_eq!(lenient_percent("101"), 0);
    assert_eq!(lenient_percent("999999999999999999"), 0);
}

#[test]
fn lenient_percent_accepts_a_leading_plus() {
    assert_eq!(lenient_percent("+50"), 50);
    assert_eq!(lenient_percent("+0"), 0);
    assert_eq!(lenient_percent("+100"), 100);
    assert_eq!(lenient_percent("+"), 0);
    assert_eq!(lenient_percent("++5"), 0);
    assert_eq!(lenient_percent("5+"), 0);
    assert_eq!(lenient_percent("+101"), 0);
}

#[test]
fn plus_signed_percent_renders_the_same_bar() {
    console::set_colors_enabled(false);
    let mut session = sample_session();
    session.progress_percent = String::from("+50");
    let out = format_session(&session);
    assert!(out.contains("    Progress: [─────◼─────]\n"));
}

#[test]
fn session_block_plain_content() {
    console::set_colors_enabled(false);
    let out = format_session(&sample_session());
    assert!(out.contains("Test Movie"));
    assert!(out.contains("🎞 "));
    assert!(out.contains("    State: playing\n"));
    assert!(out.contains("    User: alice\n"));
    assert!(out.contains("    Player: Web Player (Chrome)\n"));
    assert!(out.contains("    Quality: 1080p\n"));
    assert!(out.contains("    Container: mkv\n"));
    assert!(out.contains("    Progress: [─────◼─────]\n"));
    assert!(out.contains("    IP: 🔒203.0.113.7\n"));
    assert!(out.ends_with("\n\n"));
}

#[test]
fn session_block_transcode_and_insecure() {
    console::set_colors_enabled(false);
    let mut session = sample_session();
    session.transcode_container = String::from("mp4");
    session.session_type = Some(SessionType::Insecure);
    session.media_type = String::from("track");
    session.progress_percent = String::from("oops");
    let out = format_session(&session);
    assert!(out.contains("🎵"));
    assert!(out.contains("    Container: mkv -> mp4\n"));
    assert!(out.contains("    Progress: [◼──────────]\n"));
    assert!(out.contains("    IP: 🔓203.0.113.7\n"));
}

#[test]
fn session_block_unknown_type_has_no_lock() {
    console::set_colors_enabled(false);
    let mut session = sample_session();
    session.session_type = None;
    session.media_type = String::from("episode");
    let out = format_session(&session);
    assert!(out.contains("📺"));
    assert!(out.contains("    IP: 203.0.113.7\n"));
}

#[test]
fn history_table_rows_in_order() {
    console::set_colors_enabled(false);
    let data = PlexpyHistoryData {
        records_total: 2,
        history: vec![
            HistoryEntry {
                full_title: String::from("First Show"),
                player: String::from("Web"),
                user: String::from("alice"),
                duration: 1242,
            },
            HistoryEntry {
                full_title: String::from("Second Show"),
                player: String::from("TV"),
                user: String::from("bob"),
                duration: 60,
            },
        ],
    };
    let out = format_history(&data);
    let expected_header = format!("{:^60}{:>20}{:>20}\n", "Media", "User", "Duration");
    let expected_row_one = format!("{:<58} {:>20} {:>20}\n", "First Show", "alice", "20m42s");
    let expected_row_two = format!("{:<58} {:>20} {:>20}\n", "Second Show", "bob", "1m0s");
    let expected = format!("{}{}{}", expected_header, expected_row_one, expected_row_two);
    assert_eq!(out, expected);
    assert_eq!(out.lines().count(), 1 + data.history.len());
}

#[test]
fn history_table_empty_is_header_only() {
    console::set_colors_enabled(false);
    let data = PlexpyHistoryData { records_total: 0, history: vec![] };
    let out = format_history(&data);
    assert_eq!(out.lines().count(), 1);
    assert!(out.contains("Media"));
    assert!(out.contains("User"));
    assert!(out.contains("Duration"));
}

#[test]
fn print_data_selects_the_formatter() {
    console::set_colors_enabled(false);
    let history = PlexpyHistoryData { records_total: 0, history: vec![] };
    let rendered_history = format_history(&history);
    assert_eq!(print_data(&PlexpyData::History(history)), rendered_history);

    let activity = PlexpyActivityData {
        sessions: vec![sample_session()],
        stream_count: String::from("1"),
        total_bandwidth: 100,
        stream_count_transcode: 0,
        wan_bandwidth: 60,
        stream_count_direct_play: 1,
        lan_bandwidth: 40,
        stream_count_direct_stream: 0,
    };
    let rendered_sessions = format_sessions(&activity);
    assert!(rendered_sessions.contains("Test Movie"));
    assert_eq!(print_data(&PlexpyData::Activity(activity)), rendered_sessions);
}

#[test]
fn sessions_render_in_order() {
    console::set_colors_enabled(false);
    let mut second = sample_session();
    second.full_title = String::from("Zweiter Titel");
    let activity = PlexpyActivityData {
        sessions: vec![sample_session(), second],
        stream_count: String::from("2"),
        total_bandwidth: 0,
        stream_count_transcode: 0,
        wan_bandwidth: 0,
        stream_count_direct_play: 0,
        lan_bandwidth: 0,
        stream_count_direct_stream: 0,
    };
    let out = format_sessions(&activity);
    let first_at = out.find("Test Movie").unwrap();
    let second_at = out.find("Zweiter Titel").unwrap();
    assert!(first_at < second_at);
}

#[test]
fn session_box_width_matches_display_width() {
    console::set_colors_enabled(false);
    let mut session = sample_session();
    session.full_title = String::from("abc");
    session.media_type = String::from("book");
    let out = format_session(&session);
    assert!(out.starts_with("┌────────┐\n│ ?  abc │\n└────────┘\n"));
}

#[test]
fn duration_largest_value() {
    assert_eq!(pretty_duration(u64::MAX), "213503982334601d7h0m15s");
}

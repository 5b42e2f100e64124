use cathode::api::Video;
use cathode::app::{format_duration, ytdl_format, Action, App, AppState, FeedKind, Key, KeyPress};
use cathode::config::{channel, Config};
use cathode::feed::WorkerMsg;

fn video(id: &str, channel_id: &str, author: &str) -> Video {
    Video {
        title: format!("title {}", id),
        video_id: id.to_string(),
        author: author.to_string(),
        channel_id: channel_id.to_string(),
        duration_secs: 61,
        views: 10,
        published_text: String::new(),
        thumbnail_url: format!("https://thumb/{}", id),
    }
}

fn key(c: char) -> KeyPress {
    KeyPress { code: Key::Char(c), ctrl: false, press: true }
}

fn code(k: Key) -> KeyPress {
    KeyPress { code: k, ctrl: false, press: true }
}

fn feed_app() -> App<()> {
    let mut app: App<()> = App::new(true);
    app.set_videos(vec![video("a", "UC1", "One"), video("b", "", "Nobody"), video("c", "UC3", "Three")]);
    app
}

fn small_config() -> Config {
    let mut c = Config::default();
    c.channels = vec![channel("One", "UC1"), channel("Two", "UC2")];
    c
}

#[test]
fn format_duration_examples() {
    assert_eq!(format_duration(0), "0:00");
    assert_eq!(format_duration(59), "0:59");
    assert_eq!(format_duration(61), "1:01");
    assert_eq!(format_duration(3599), "59:59");
    assert_eq!(format_duration(3600), "1:00:00");
    assert_eq!(format_duration(3725), "1:02:05");
    assert_eq!(format_duration(90061), "25:01:01");
}

#[test]
fn new_app_is_loading() {
    let app: App<()> = App::new(false);
    assert_eq!(app.state, AppState::Loading);
    assert_eq!(app.status_msg, "loading...");
    assert!(app.videos.is_empty());
    assert!(!app.has_picker);
}

#[test]
fn selection_stays_in_list() {
    let mut app = feed_app();
    app.move_up();
    assert_eq!(app.selected, 0);
    app.move_down();
    app.move_down();
    app.move_down();
    assert_eq!(app.selected, 2);
    app.move_up();
    assert_eq!(app.selected, 1);
    assert_eq!(app.scroll_offset, 0);
}

#[test]
fn search_typing_and_erasing() {
    let mut app = feed_app();
    app.enter_search();
    for c in "né€😀".chars() {
        app.search_insert(c);
    }
    assert_eq!(app.search_input, "né€😀");
    assert_eq!(app.search_cursor, "né€😀".len());
    app.search_backspace();
    assert_eq!(app.search_input, "né€");
    assert_eq!(app.search_cursor, "né€".len());
    app.search_insert('x');
    app.search_backspace();
    assert_eq!(app.search_input, "né€");
    app.search_backspace();
    app.search_backspace();
    app.search_backspace();
    assert_eq!(app.search_input, "");
    assert_eq!(app.search_cursor, 0);
    app.search_backspace();
    assert_eq!(app.search_cursor, 0);
}

#[test]
fn insert_in_the_middle() {
    let mut app = feed_app();
    app.search_input = "ac".to_string();
    app.search_cursor = 1;
    app.search_insert('é');
    assert_eq!(app.search_input, "aéc");
    assert_eq!(app.search_cursor, 3);
    app.search_backspace();
    assert_eq!(app.search_input, "ac");
    assert_eq!(app.search_cursor, 1);
}

#[test]
fn quality_picker_preselects_preferred_resolution() {
    let mut app = feed_app();
    app.enter_quality(1080);
    assert_eq!(app.state, AppState::Quality);
    assert_eq!(app.quality_selected, 2);
    assert_eq!(app.quality_video_url, "https://www.youtube.com/watch?v=a");
    let info = app.quality_video_info.clone().unwrap();
    assert_eq!(info, ("a".to_string(), "UC1".to_string(), "One".to_string(), "title a".to_string()));
    app.enter_quality(1000);
    assert_eq!(app.quality_selected, 3);
    app.enter_quality(5000);
    assert_eq!(app.quality_selected, 0);
    app.enter_quality(100);
    assert_eq!(app.quality_selected, 2);
    app.quality_up();
    app.quality_up();
    app.quality_up();
    assert_eq!(app.quality_selected, 0);
    for _ in 0..10 {
        app.quality_down();
    }
    assert_eq!(app.quality_selected, 5);
    assert_eq!(app.selected_quality(), 360);
}

#[test]
fn quality_picker_needs_a_video() {
    let mut app: App<()> = App::new(true);
    app.state = AppState::Feed;
    app.enter_quality(1080);
    assert_eq!(app.state, AppState::Feed);
    assert!(app.quality_video_info.is_none());
}

#[test]
fn toggle_follow_follows_and_unfollows() {
    let mut app = feed_app();
    let mut cfg = small_config();
    // video "a" is from UC1, which is followed
    assert!(app.toggle_follow(&mut cfg));
    assert!(!cfg.has_channel("UC1"));
    assert_eq!(app.follow_flash.as_ref().unwrap().0, "unfollowed One");
    assert!(app.toggle_follow(&mut cfg));
    assert!(cfg.has_channel("UC1"));
    assert_eq!(app.follow_flash.as_ref().unwrap().0, "followed One");
    assert_eq!(cfg.channels.last().unwrap().name, "One");
    // video "b" has no channel id
    app.move_down();
    assert!(!app.toggle_follow(&mut cfg));
}

#[test]
fn tick_turns_spinner_and_requests_thumbnail() {
    let mut app = feed_app();
    let req = app.tick(None);
    assert_eq!(req, Some(("https://thumb/a".to_string(), "a".to_string())));
    assert_eq!(app.thumbnail_video_id, "a");
    assert_eq!(app.tick(None), None);
    app.tick(Some(("a".to_string(), ())));
    assert_eq!(app.thumbnail, Some(()));
    app.tick(None);
    assert_eq!(app.tick_count, 4);
    assert_eq!(app.spinner_frame, 1);
    app.tick_count = 7;
    app.spinner_frame = 3;
    app.tick(None);
    assert_eq!(app.spinner_frame, 0);
}

#[test]
fn tick_ignores_stale_thumbnail_and_expires_notice() {
    let mut app = feed_app();
    app.tick(None);
    app.tick(Some(("old".to_string(), ())));
    assert_eq!(app.thumbnail, None);
    app.follow_flash = Some(("followed X".to_string(), app.tick_count));
    for _ in 0..60 {
        app.tick(None);
    }
    assert!(app.follow_flash.is_some());
    app.tick(None);
    assert!(app.follow_flash.is_none());
}

#[test]
fn tick_without_image_support_requests_nothing() {
    let mut app: App<()> = App::new(false);
    app.set_videos(vec![video("a", "UC1", "One")]);
    assert_eq!(app.tick(None), None);
    assert_eq!(app.thumbnail_video_id, "");
}

#[test]
fn empty_thumbnail_url_is_not_fetched() {
    let mut app: App<()> = App::new(true);
    let mut v = video("a", "UC1", "One");
    v.thumbnail_url = String::new();
    app.set_videos(vec![v]);
    assert_eq!(app.tick(None), None);
    assert_eq!(app.thumbnail_video_id, "a");
}

#[test]
fn control_c_quits_everywhere() {
    let mut cfg = small_config();
    let mut app = feed_app();
    for state in [AppState::Loading, AppState::Feed, AppState::Search, AppState::Quality, AppState::Channels, AppState::Error] {
        app.state = state;
        let act = app.handle_key(&mut cfg, KeyPress { code: Key::Char('c'), ctrl: true, press: true });
        assert!(matches!(act, Action::Quit));
    }
}

#[test]
fn releases_are_ignored() {
    let mut cfg = small_config();
    let mut app = feed_app();
    let act = app.handle_key(&mut cfg, KeyPress { code: Key::Char('q'), ctrl: false, press: false });
    assert!(matches!(act, Action::Idle));
}

#[test]
fn feed_keys() {
    let mut cfg = small_config();
    let mut app = feed_app();
    assert!(matches!(app.handle_key(&mut cfg, key('j')), Action::Idle));
    assert_eq!(app.selected, 1);
    assert!(matches!(app.handle_key(&mut cfg, code(Key::Up)), Action::Idle));
    assert_eq!(app.selected, 0);
    assert!(matches!(app.handle_key(&mut cfg, key('f')), Action::SaveConfig));
    assert!(!cfg.has_channel("UC1"));
    assert!(matches!(app.handle_key(&mut cfg, key('r')), Action::FetchFeed));
    assert_eq!(app.state, AppState::Loading);
    assert_eq!(app.status_msg, "refreshing...");
    assert!(matches!(app.handle_key(&mut cfg, key('q')), Action::Quit));
}

#[test]
fn search_flow() {
    let mut cfg = small_config();
    let mut app = feed_app();
    app.handle_key(&mut cfg, key('/'));
    assert_eq!(app.state, AppState::Search);
    assert!(matches!(app.handle_key(&mut cfg, code(Key::Enter)), Action::Idle));
    for c in "rust q".chars() {
        app.handle_key(&mut cfg, key(c));
    }
    app.handle_key(&mut cfg, code(Key::Backspace));
    assert_eq!(app.search_input, "rust ");
    match app.handle_key(&mut cfg, code(Key::Enter)) {
        Action::Search(q) => assert_eq!(q, "rust "),
        _ => panic!("expected a search"),
    }
    assert_eq!(app.state, AppState::Loading);
    assert_eq!(app.status_msg, "searching 'rust '...");
}

#[test]
fn quality_enter_plays() {
    let mut cfg = small_config();
    let mut app = feed_app();
    app.handle_key(&mut cfg, code(Key::Enter));
    assert_eq!(app.state, AppState::Quality);
    app.handle_key(&mut cfg, key('j'));
    match app.handle_key(&mut cfg, code(Key::Enter)) {
        Action::Play(p) => {
            assert_eq!(p.url, "https://www.youtube.com/watch?v=a");
            assert_eq!(p.ytdl_format, "bv*[height<=720]+ba/b[height<=720]");
            assert_eq!(p.info.unwrap().0, "a");
        }
        _ => panic!("expected playback"),
    }
    assert_eq!(app.state, AppState::Feed);
}

#[test]
fn channel_list_delete() {
    let mut cfg = small_config();
    let mut app = feed_app();
    app.handle_key(&mut cfg, key('c'));
    assert_eq!(app.state, AppState::Channels);
    app.handle_key(&mut cfg, key('j'));
    app.handle_key(&mut cfg, key('j'));
    assert_eq!(app.channel_selected, 1);
    assert!(matches!(app.handle_key(&mut cfg, key('d')), Action::SaveConfig));
    assert_eq!(cfg.channels.len(), 1);
    assert_eq!(app.channel_selected, 0);
    assert!(matches!(app.handle_key(&mut cfg, code(Key::Delete)), Action::SaveConfig));
    assert!(cfg.channels.is_empty());
    assert!(matches!(app.handle_key(&mut cfg, key('d')), Action::Idle));
    app.handle_key(&mut cfg, code(Key::Esc));
    assert_eq!(app.state, AppState::Feed);
}

#[test]
fn error_screen_keys() {
    let mut cfg = small_config();
    let mut app = feed_app();
    app.set_error("boom".to_string());
    assert_eq!(app.state, AppState::Error);
    assert!(matches!(app.handle_key(&mut cfg, key('x')), Action::Idle));
    assert!(matches!(app.handle_key(&mut cfg, key('r')), Action::FetchFeed));
    assert_eq!(app.status_msg, "retrying...");
}

#[test]
fn loading_screen_only_quits() {
    let mut cfg = small_config();
    let mut app: App<()> = App::new(false);
    assert!(matches!(app.handle_key(&mut cfg, key('j')), Action::Idle));
    assert!(matches!(app.handle_key(&mut cfg, key('q')), Action::Quit));
}

#[test]
fn worker_reports() {
    let mut app: App<()> = App::new(false);
    app.receive(Some(WorkerMsg::Videos(vec![video("a", "UC1", "One")], FeedKind::Subscriptions)));
    assert_eq!(app.state, AppState::Feed);
    assert!(matches!(app.feed_kind, FeedKind::Subscriptions));
    assert_eq!(app.videos.len(), 1);
    app.receive(Some(WorkerMsg::Error("nope".to_string())));
    assert_eq!(app.state, AppState::Error);
    assert_eq!(app.error_msg, "nope");
    app.receive(None);
    assert_eq!(app.error_msg, "worker disconnected");
}

#[test]
fn ytdl_format_selector() {
    assert_eq!(ytdl_format(1080), "bv*[height<=1080]+ba/b[height<=1080]");
}

#[test]
fn channels_navigation() {
    let mut app = feed_app();
    app.enter_channels();
    app.channel_down(3);
    app.channel_down(3);
    app.channel_down(3);
    assert_eq!(app.channel_selected, 2);
    app.channel_up();
    assert_eq!(app.channel_selected, 1);
    app.channel_down(0);
    assert_eq!(app.channel_selected, 1);
    app.exit_channels();
    assert_eq!(app.state, AppState::Feed);
}

#[test]
fn picker_reinit_drops_thumbnail() {
    let mut app = feed_app();
    app.tick(None);
    app.reinit_picker(false);
    assert_eq!(app.thumbnail_video_id, "");
    assert!(!app.has_picker);
}

#[test]
fn tick_leaves_spinner_alone_between_turns() {
    let mut app = feed_app();
    app.spinner_frame = usize::MAX;
    app.tick(None);
    assert_eq!(app.tick_count, 1);
    assert_eq!(app.spinner_frame, usize::MAX);
    app.tick(None);
    app.tick(None);
    assert_eq!(app.spinner_frame, usize::MAX);
}

#[test]
fn notice_clears_sixty_one_ticks_after_it_appeared() {
    let mut app = feed_app();
    app.tick_count = 100;
    app.follow_flash = Some(("followed X".to_string(), 95));
    for _ in 0..55 {
        app.tick(None);
    }
    assert_eq!(app.tick_count, 155);
    assert!(app.follow_flash.is_some());
    app.tick(None);
    assert_eq!(app.tick_count, 156);
    assert!(app.follow_flash.is_none());
}

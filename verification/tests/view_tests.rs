use cathode::api::Video;
use cathode::app::{App, AppState, FeedKind};
use cathode::config::{channel, Config};
use cathode::view::{
    feed_label, followed_count_text, header_text, header_title, HeaderStyle, list_scroll, quality_popup, row_marker,
    shows_follow_mark, spinner_glyph, status_hints, thumb_width, video_count_text, video_meta,
    visible_rows,
};

fn video(published: &str) -> Video {
    Video {
        title: "t".to_string(),
        video_id: "v".to_string(),
        author: "Author".to_string(),
        channel_id: "UC1".to_string(),
        duration_secs: 3725,
        views: 5,
        published_text: published.to_string(),
        thumbnail_url: String::new(),
    }
}

#[test]
fn header_texts() {
    assert_eq!(header_title(AppState::Search), " search ");
    assert_eq!(header_title(AppState::Channels), " channels ");
    assert_eq!(header_title(AppState::Feed), " cathode");
    assert_eq!(feed_label(&FeedKind::Trending), "trending");
    assert_eq!(feed_label(&FeedKind::Subscriptions), "subscriptions");
    assert_eq!(feed_label(&FeedKind::Curated(vec![])), "");
    assert_eq!(
        feed_label(&FeedKind::Curated(vec!["A".to_string(), "B".to_string(), "C".to_string()])),
        "A · B · C"
    );
    assert_eq!(video_count_text(12), "  12 videos");
    assert_eq!(followed_count_text(3), "3 followed");
}

#[test]
fn video_meta_line() {
    assert_eq!(video_meta(&video(""), "5"), "Author · 1:02:05 · 5");
    assert_eq!(video_meta(&video("2 days ago"), "1.2K"), "Author · 1:02:05 · 1.2K · 2 days ago");
}

#[test]
fn follow_mark() {
    let mut cfg = Config::default();
    cfg.channels = vec![channel("A", "UC1")];
    assert!(shows_follow_mark(&video(""), &cfg));
    let mut v = video("");
    v.channel_id = String::new();
    assert!(!shows_follow_mark(&v, &cfg));
    assert_eq!(row_marker(true), "▸ ");
    assert_eq!(row_marker(false), "  ");
}

#[test]
fn scrolling_keeps_selection_visible() {
    assert_eq!(list_scroll(0, 0, 10), 0);
    assert_eq!(list_scroll(15, 0, 10), 6);
    assert_eq!(list_scroll(3, 5, 10), 3);
    assert_eq!(list_scroll(7, 5, 10), 5);
    assert_eq!(visible_rows(20, 6, 10), (6, 16));
    assert_eq!(visible_rows(12, 6, 10), (6, 12));
    assert_eq!(visible_rows(3, 6, 10), (3, 3));
}

#[test]
fn thumbnail_column_width() {
    assert_eq!(thumb_width(true, 60), 0);
    assert_eq!(thumb_width(true, 61), 20);
    assert_eq!(thumb_width(true, 100), 30);
    assert_eq!(thumb_width(true, 200), 40);
    assert_eq!(thumb_width(false, 200), 0);
    assert_eq!(thumb_width(false, 60000), 0);
}

#[test]
fn quality_popup_is_centered() {
    assert_eq!(quality_popup(80, 24), (29, 8, 22, 8));
    assert_eq!(quality_popup(10, 4), (0, 0, 22, 8));
}

#[test]
fn spinner_and_hints() {
    assert_eq!(spinner_glyph(0), "⠋");
    assert_eq!(spinner_glyph(3), "⠸");
    assert_eq!(status_hints(AppState::Loading), vec![("", "loading...")]);
    assert_eq!(status_hints(AppState::Feed).len(), 7);
    assert_eq!(status_hints(AppState::Error), vec![("r", "retry"), ("q", "quit")]);
    assert_eq!(status_hints(AppState::Channels)[1], ("d", "remove"));
}

fn pieces(app: &App<()>, config: &Config) -> Vec<(String, HeaderStyle)> {
    header_text(app, config)
}

#[test]
fn header_line_per_screen() {
    let mut config = Config::default();
    config.channels = vec![channel("One", "UC1"), channel("Two", "UC2")];
    let mut app: App<()> = App::new(false);
    app.set_videos(vec![video("1 day ago"), video("2 days ago")]);
    app.feed_kind = FeedKind::Trending;
    assert_eq!(
        pieces(&app, &config),
        vec![("trending".to_string(), HeaderStyle::Dim), ("  2 videos".to_string(), HeaderStyle::Dim)]
    );
    app.follow_flash = Some(("followed One".to_string(), 0));
    assert_eq!(
        pieces(&app, &config),
        vec![
            ("trending".to_string(), HeaderStyle::Dim),
            ("  2 videos".to_string(), HeaderStyle::Dim),
            ("  ".to_string(), HeaderStyle::Dim),
            ("followed One".to_string(), HeaderStyle::Notice),
        ]
    );
    app.state = AppState::Search;
    app.search_input = "rust".to_string();
    assert_eq!(
        pieces(&app, &config),
        vec![("rust".to_string(), HeaderStyle::Input), ("_".to_string(), HeaderStyle::Cursor)]
    );
    app.state = AppState::Channels;
    assert_eq!(pieces(&app, &config), vec![("2 followed".to_string(), HeaderStyle::Dim)]);
}

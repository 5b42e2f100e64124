use cathode::api::Video;
use cathode::app::{Action, App, AppState, Key, KeyPress};
use cathode::config::{channel, Config};
use cathode::feed::xorshift;

fn video(i: usize) -> Video {
    Video {
        title: format!("video {}", i),
        video_id: format!("v{}", i),
        author: format!("Author {}", i % 3),
        channel_id: if i % 4 == 0 { String::new() } else { format!("UC{}", i % 3) },
        duration_secs: i as u64 * 97,
        views: i as u64,
        published_text: String::new(),
        thumbnail_url: format!("https://t/{}", i),
    }
}

const KEYS: [Key; 14] = [
    Key::Char('j'),
    Key::Char('k'),
    Key::Char('/'),
    Key::Char('f'),
    Key::Char('c'),
    Key::Char('d'),
    Key::Char('é'),
    Key::Char('x'),
    Key::Enter,
    Key::Esc,
    Key::Backspace,
    Key::Delete,
    Key::Up,
    Key::Down,
];

#[test]
fn random_key_sequences_keep_the_app_consistent() {
    let mut rng = 2024u64;
    for round in 0..20 {
        let mut cfg = Config::default();
        cfg.channels = vec![channel("Zero", "UC0"), channel("One", "UC1"), channel("Two", "UC2")];
        let mut app: App<()> = App::new(true);
        app.set_videos((0..round % 7).map(video).collect());
        for _ in 0..400 {
            rng = xorshift(rng);
            let key = KEYS[(rng % KEYS.len() as u64) as usize];
            let act = app.handle_key(&mut cfg, KeyPress { code: key, ctrl: false, press: true });
            match act {
                Action::FetchFeed | Action::Search(_) => {
                    // the feed comes back
                    app.set_videos((0..(rng % 9) as usize).map(video).collect());
                }
                Action::Quit => {
                    app.state = AppState::Feed;
                }
                _ => {}
            }
            app.tick(None);
            if app.videos.is_empty() {
                assert_eq!(app.selected, 0);
            } else {
                assert!(app.selected < app.videos.len());
            }
            assert!(app.scroll_offset <= app.selected);
            assert!(app.quality_selected < 6);
            assert_eq!(app.search_cursor, app.search_input.len());
            assert!(app.spinner_frame < 4);
            if app.state == AppState::Channels && !cfg.channels.is_empty() {
                assert!(app.channel_selected < cfg.channels.len());
            }
            let mut ids: Vec<&str> = cfg.channels.iter().map(|c| c.id.as_str()).collect();
            ids.sort();
            ids.dedup();
            assert_eq!(ids.len(), cfg.channels.len());
        }
    }
}

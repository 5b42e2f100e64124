use cathode::history::{is_stopword, title_keywords, History, WatchEntry};
use std::path::PathBuf;

fn entry(channel_id: &str, title: &str, timestamp: u64, duration_secs: u64) -> WatchEntry {
    WatchEntry {
        video_id: "v".to_string(),
        channel_id: channel_id.to_string(),
        channel_name: "n".to_string(),
        title: title.to_string(),
        query: String::new(),
        timestamp,
        duration_secs,
    }
}

#[test]
fn stopwords() {
    for w in ["the", "and", "official", "music", "should", "video"] {
        assert!(is_stopword(w), "{}", w);
    }
    for w in ["rust", "Music", "linux", ""] {
        assert!(!is_stopword(w), "{}", w);
    }
}

#[test]
fn keywords_skip_stopwords_and_short_words() {
    assert_eq!(
        title_keywords("The Official Music Video: Rust and LINUX ricing, ok?"),
        vec!["rust", "linux", "ricing"]
    );
}

#[test]
fn log_watch_appends() {
    let mut h = History::new(vec![entry("UC1", "x", 5, 6)], PathBuf::from("/tmp/history.json"));
    let before = std::time::SystemTime::now().duration_since(std::time::UNIX_EPOCH).unwrap().as_secs();
    let e = h.log_watch("vid", "UC2", "Two", "Title", "q", 42);
    assert_eq!(h.entry_list().len(), 2);
    let last = &h.entry_list()[1];
    assert_eq!(last.video_id, "vid");
    assert_eq!(last.channel_id, "UC2");
    assert_eq!(last.channel_name, "Two");
    assert_eq!(last.title, "Title");
    assert_eq!(last.query, "q");
    assert_eq!(last.duration_secs, 42);
    assert!(last.timestamp >= before);
    assert_eq!(e.timestamp, last.timestamp);
    assert_eq!(h.path(), &PathBuf::from("/tmp/history.json"));
}

#[test]
fn channel_watch_ages_skip_unknown_channels() {
    let h = History::new(
        vec![entry("UC1", "a", 100, 10), entry("", "b", 50, 20), entry("UC2", "c", 300, 30)],
        PathBuf::from("x"),
    );
    let r = h.channel_watch_ages(200);
    assert_eq!(r, vec![("UC1".to_string(), 100, 10), ("UC2".to_string(), 0, 30)]);
}

#[test]
fn keyword_ages_list_every_topic_word() {
    let h = History::new(
        vec![entry("UC1", "Rust tips", 100, 10), entry("", "the linux way", 150, 20)],
        PathBuf::from("x"),
    );
    let r = h.keyword_ages(200);
    assert_eq!(
        r,
        vec![("rust".to_string(), 100), ("tips".to_string(), 100), ("linux".to_string(), 50)]
    );
}

#[test]
fn ages_as_of_now() {
    let h = History::new(vec![entry("UC1", "Rust tips", 0, 10)], PathBuf::from("x"));
    let (t, ages) = h.channel_watch_ages_now();
    assert_eq!(ages, vec![("UC1".to_string(), t, 10)]);
    let (t, words) = h.keyword_ages_now();
    assert_eq!(words, vec![("rust".to_string(), t), ("tips".to_string(), t)]);
}

#[test]
fn log_watch_at_stamps_the_given_time() {
    let mut h = History::new(vec![], PathBuf::from("x"));
    let e = h.log_watch_at("vid", "UC2", "Two", "Title", "q", 42, 1_700_000_000);
    assert_eq!(e.timestamp, 1_700_000_000);
    assert_eq!(h.entry_list().len(), 1);
    assert_eq!(h.entry_list()[0].timestamp, 1_700_000_000);
    assert_eq!(h.entry_list()[0].video_id, "vid");
    assert_eq!(h.entry_list()[0].duration_secs, 42);
}

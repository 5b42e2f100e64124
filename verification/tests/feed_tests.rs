use cathode::api::Video;
use cathode::app::FeedKind;
use cathode::config::{channel, Config};
use cathode::feed::{curated_jobs, job_batch, FetchJob};
use cathode::feed::{
    after_curated, after_subscriptions, channel_batch, first_feed_source, gather, light_shuffle,
    listing_message, novel_videos, parse_subscriptions, pick_search_query, search_batch,
    subscriptions_from_records, xorshift,
    CuratedFeed, FeedSource, FeedStep, WorkerMsg,
};

fn video(id: &str, channel_id: &str) -> Video {
    Video {
        title: id.to_string(),
        video_id: id.to_string(),
        author: String::new(),
        channel_id: channel_id.to_string(),
        duration_secs: 0,
        views: 0,
        published_text: String::new(),
        thumbnail_url: String::new(),
    }
}

fn ids(vs: &[Video]) -> Vec<String> {
    vs.iter().map(|v| v.video_id.clone()).collect()
}

fn reference_xorshift(mut x: u64) -> u64 {
    if x == 0 {
        x = 1;
    }
    x ^= x << 13;
    x ^= x >> 7;
    x ^= x << 17;
    x
}

#[test]
fn xorshift_known_values() {
    assert_eq!(xorshift(1), 1082269761);
    assert_eq!(xorshift(0), 1082269761);
    assert_eq!(xorshift(1082269761), 1152992998833853505);
    assert_eq!(xorshift(12345), 13289605635609);
    let mut x = 987654321u64;
    for _ in 0..1000 {
        assert_eq!(xorshift(x), reference_xorshift(x));
        x = xorshift(x);
        assert_ne!(x, 0);
    }
}

#[test]
fn light_shuffle_permutes_and_swaps_neighbours_only() {
    let items: Vec<u32> = (0..50).collect();
    let shuffled = light_shuffle(items.clone(), 42);
    let mut sorted = shuffled.clone();
    sorted.sort();
    assert_eq!(sorted, items);
    // replay the same walk by hand
    let mut expected = items.clone();
    let mut rng = 42u64;
    for i in 0..expected.len() - 1 {
        rng = reference_xorshift(rng);
        if rng % 4 == 0 {
            expected.swap(i, i + 1);
        }
    }
    assert_eq!(shuffled, expected);
    assert!(light_shuffle(Vec::<u32>::new(), 7).is_empty());
    assert_eq!(light_shuffle(vec![9u32], 7), vec![9]);
}

#[test]
fn subscriptions_from_csv() {
    let data = b"Channel Id,Channel Url,Channel Title\nUC1,http://a,First\nUC2,http://b,Second\n";
    let subs = parse_subscriptions(data);
    let ids: Vec<&str> = subs.iter().map(|s| s.channel_id.as_str()).collect();
    assert_eq!(ids, vec!["UC1", "UC2"]);
}

#[test]
fn malformed_csv_gives_no_subscriptions() {
    let data = b"a,b\nUC1,x\nUC2\n";
    assert!(parse_subscriptions(data).is_empty());
    assert!(parse_subscriptions(b"").is_empty());
}

#[test]
fn search_query_draw() {
    let searches = vec!["a".to_string(), "b".to_string(), "c".to_string()];
    let (q, rng) = pick_search_query(&searches, 1);
    assert_eq!(rng, 1082269761);
    assert_eq!(q.unwrap(), searches[(1082269761u64 as usize) % 3]);
    let (none, same) = pick_search_query(&Vec::new(), 5);
    assert!(none.is_none());
    assert_eq!(same, 5);
}

#[test]
fn batches_truncate() {
    let vs: Vec<Video> = (0..7).map(|i| video(&i.to_string(), "UC")).collect();
    let (b, name) = channel_batch(Some(vs.clone()), "Chan".to_string());
    assert_eq!(ids(&b), vec!["0", "1", "2"]);
    assert_eq!(name.unwrap(), "Chan");
    let (b, name) = channel_batch(None, "Chan".to_string());
    assert!(b.is_empty() && name.is_none());
    assert_eq!(ids(&search_batch(Some(vs.clone()))), vec!["0", "1", "2", "3", "4"]);
    assert_eq!(search_batch(Some(vs[..2].to_vec())).len(), 2);
    assert!(search_batch(None).is_empty());
}

#[test]
fn serendipity_keeps_two_unwatched() {
    let vs = vec![video("a", "UC1"), video("b", ""), video("c", "UC2"), video("d", "UC3"), video("e", "UC4")];
    let watched = vec!["UC1".to_string(), "UC3".to_string()];
    assert_eq!(ids(&novel_videos(vs.clone(), &watched)), vec!["c", "e"]);
    assert_eq!(ids(&novel_videos(vs, &Vec::new())), vec!["a", "c"]);
}

#[test]
fn gather_joins_in_order() {
    let batches = vec![
        (vec![video("a", "UC1")], Some("One".to_string())),
        (vec![video("b", ""), video("c", "")], None),
        (vec![], Some("Empty".to_string())),
    ];
    let (vs, names) = gather(&batches);
    assert_eq!(ids(&vs), vec!["a", "b", "c"]);
    assert_eq!(names, vec!["One", "Empty"]);
}

#[test]
fn feed_fallbacks() {
    assert_eq!(first_feed_source(true, true), FeedSource::Subscriptions);
    assert_eq!(first_feed_source(false, true), FeedSource::Curated);
    assert_eq!(first_feed_source(false, false), FeedSource::Trending);
    assert!(matches!(after_subscriptions(vec![], true), FeedStep::Next(FeedSource::Curated)));
    assert!(matches!(after_subscriptions(vec![], false), FeedStep::Next(FeedSource::Trending)));
    assert!(matches!(
        after_subscriptions(vec![video("a", "")], false),
        FeedStep::Send(WorkerMsg::Videos(_, FeedKind::Subscriptions))
    ));
    let empty = CuratedFeed { videos: vec![], sampled_channels: vec!["X".to_string()] };
    assert!(matches!(after_curated(empty), FeedStep::Next(FeedSource::Trending)));
    let full = CuratedFeed { videos: vec![video("a", "")], sampled_channels: vec!["X".to_string()] };
    match after_curated(full) {
        FeedStep::Send(WorkerMsg::Videos(vs, FeedKind::Curated(names))) => {
            assert_eq!(vs.len(), 1);
            assert_eq!(names, vec!["X"]);
        }
        _ => panic!("expected the curated feed"),
    }
    assert!(matches!(listing_message(Ok(vec![])), WorkerMsg::Videos(_, FeedKind::Trending)));
    match listing_message(Err("no yt-dlp".to_string())) {
        WorkerMsg::Error(e) => assert_eq!(e, "no yt-dlp"),
        _ => panic!("expected an error"),
    }
}

#[test]
fn curated_jobs_in_order() {
    let mut cfg = Config::default();
    cfg.channels = vec![channel("A", "UC1"), channel("B", "UC2"), channel("C", "UC3")];
    cfg.searches = vec!["s1".to_string(), "s2".to_string()];
    let (jobs, rng) = curated_jobs(&cfg, &vec![2, 0], 1, &Some("odd".to_string()));
    assert_eq!(rng, 1082269761);
    assert_eq!(jobs.len(), 4);
    assert!(matches!(&jobs[0], FetchJob::Channel { id, name } if id == "UC3" && name == "C"));
    assert!(matches!(&jobs[1], FetchJob::Channel { id, .. } if id == "UC1"));
    let expected = &cfg.searches[(1082269761u64 as usize) % 2];
    assert!(matches!(&jobs[2], FetchJob::Search(q) if q == expected));
    assert!(matches!(&jobs[3], FetchJob::Serendipity(q) if q == "odd"));
    cfg.searches.clear();
    let (jobs, rng) = curated_jobs(&cfg, &vec![], 9, &None);
    assert!(jobs.is_empty());
    assert_eq!(rng, 9);
}

#[test]
fn job_batches() {
    let vs: Vec<Video> = (0..7).map(|i| video(&i.to_string(), &format!("UC{}", i))).collect();
    let (b, n) = job_batch(FetchJob::Channel { id: "UC".to_string(), name: "N".to_string() }, Some(vs.clone()), &vec![]);
    assert_eq!(b.len(), 3);
    assert_eq!(n.unwrap(), "N");
    let (b, n) = job_batch(FetchJob::Search("q".to_string()), Some(vs.clone()), &vec![]);
    assert_eq!(b.len(), 5);
    assert!(n.is_none());
    let (b, _) = job_batch(FetchJob::Serendipity("q".to_string()), Some(vs), &vec!["UC0".to_string()]);
    assert_eq!(ids(&b), vec!["1", "2"]);
    let (b, n) = job_batch(FetchJob::Search("q".to_string()), None, &vec![]);
    assert!(b.is_empty() && n.is_none());
}

#[test]
fn subscriptions_take_first_fields() {
    let rec = |fs: &[&str]| fs.iter().map(|f| f.to_string()).collect::<Vec<String>>();
    let records = vec![rec(&["UC1", "http://a", "First"]), rec(&[]), rec(&["UC2"])];
    let subs = subscriptions_from_records(&records);
    let ids: Vec<&str> = subs.iter().map(|s| s.channel_id.as_str()).collect();
    assert_eq!(ids, vec!["UC1", "UC2"]);
    assert!(subscriptions_from_records(&Vec::new()).is_empty());
}

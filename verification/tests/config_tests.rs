use cathode::config::{
    channel, default_channels, default_max_resolution, default_searches, quality_height,
    quality_label, Config, QUALITY_COUNT,
};

fn ids(c: &Config) -> Vec<String> {
    c.channels.iter().map(|c| c.id.clone()).collect()
}

#[test]
fn default_config_values() {
    let c = Config::default();
    assert_eq!(c.region, "US");
    assert_eq!(c.feed_sample, 4);
    assert_eq!(c.max_resolution, 1080);
    assert_eq!(default_max_resolution(), 1080);
    assert_eq!(c.channels.len(), 28);
    assert_eq!(c.channels[0].name, "Vsauce");
    assert_eq!(c.channels[0].id, "UC6nSFpj9HTCZ5t-N3Rm3-HA");
    assert_eq!(c.channels[27].name, "MrSuicideSheep");
    assert_eq!(default_channels().len(), 28);
    assert_eq!(default_searches(), vec!["linux ricing", "rust programming", "music production tutorial", "math explained", "space documentary"]);
}

#[test]
fn follow_adds_once() {
    let mut c = Config::default();
    assert!(!c.has_channel("UCnew"));
    assert!(c.follow("New".to_string(), "UCnew".to_string()));
    assert!(c.has_channel("UCnew"));
    assert_eq!(c.channels.len(), 29);
    assert!(!c.follow("Other name".to_string(), "UCnew".to_string()));
    assert_eq!(c.channels.len(), 29);
    assert_eq!(c.channels[28].name, "New");
}

#[test]
fn unfollow_removes_all_with_id_and_keeps_order() {
    let mut c = Config::default();
    c.channels = vec![channel("A", "1"), channel("B", "2"), channel("C", "1"), channel("D", "3")];
    c.unfollow("1");
    assert_eq!(ids(&c), vec!["2", "3"]);
    assert!(!c.has_channel("1"));
    c.unfollow("missing");
    assert_eq!(ids(&c), vec!["2", "3"]);
}

#[test]
fn follow_then_unfollow_restores_list() {
    let mut c = Config::default();
    let before = ids(&c);
    c.follow("X".to_string(), "UCx".to_string());
    c.unfollow("UCx");
    assert_eq!(ids(&c), before);
}

#[test]
fn quality_options_table() {
    assert_eq!(QUALITY_COUNT, 6);
    let hs: Vec<u32> = (0..QUALITY_COUNT).map(quality_height).collect();
    assert_eq!(hs, vec![2160, 1440, 1080, 720, 480, 360]);
    assert_eq!(quality_label(0), "2160p (4K)");
    assert_eq!(quality_label(5), "360p");
}

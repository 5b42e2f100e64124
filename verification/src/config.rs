//! The followed channels, saved searches and playback preferences.

use vstd::prelude::*;
use crate::text::same_chars;

verus! {

/// A followed channel.
pub struct Channel {
    pub name: String,
    pub id: String,
}

/// A channel as text.
pub struct ChannelView {
    pub name: Seq<char>,
    pub id: Seq<char>,
}

impl View for Channel {
    type V = ChannelView;

    open spec fn view(&self) -> ChannelView {
        ChannelView { name: self.name@, id: self.id@ }
    }
}

impl Clone for Channel {
    fn clone(&self) -> (r: Self)
        ensures
            r == *self,
    {
        Channel { name: self.name.clone(), id: self.id.clone() }
    }
}

/// A channel with the given name and id.
pub fn channel(name: &str, id: &str) -> (c: Channel)
    ensures
        c@ == (ChannelView { name: name@, id: id@ }),
{
    Channel { name: name.to_owned(), id: id.to_owned() }
}


/// The configuration as text and numbers.
pub struct ConfigView {
    pub region: Seq<char>,
    pub feed_sample: usize,
    pub max_resolution: u32,
    pub channels: Seq<ChannelView>,
    pub searches: Seq<Seq<char>>,
}

/// User preferences: feed region, how many channels a feed samples, the highest resolution
/// offered by default, the followed channels and the saved searches.
pub struct Config {
    pub region: String,
    pub feed_sample: usize,
    pub max_resolution: u32,
    pub channels: Vec<Channel>,
    pub searches: Vec<String>,
}

/// The views of a list of channels.
pub open spec fn channels_view(cs: Seq<Channel>) -> Seq<ChannelView> {
    cs.map_values(|c: Channel| c@)
}

/// The views of a list of strings.
pub open spec fn strings_view(ss: Seq<String>) -> Seq<Seq<char>> {
    ss.map_values(|s: String| s@)
}

impl View for Config {
    type V = ConfigView;

    open spec fn view(&self) -> ConfigView {
        ConfigView {
            region: self.region@,
            feed_sample: self.feed_sample,
            max_resolution: self.max_resolution,
            channels: channels_view(self.channels@),
            searches: strings_view(self.searches@),
        }
    }
}

/// Whether some channel in the list has the given id.
pub open spec fn has_id(cs: Seq<ChannelView>, id: Seq<char>) -> bool {
    exists|i: int| 0 <= i < cs.len() && #[trigger] cs[i].id == id
}

/// The list after following a channel: unchanged when its id is present, else extended by it.
pub open spec fn followed(cs: Seq<ChannelView>, name: Seq<char>, id: Seq<char>) -> Seq<ChannelView> {
    if has_id(cs, id) {
        cs
    } else {
        cs.push(ChannelView { name, id })
    }
}

/// The list without the channels that have the given id, the others kept in order.
pub open spec fn unfollowed(cs: Seq<ChannelView>, id: Seq<char>) -> Seq<ChannelView>
    decreases cs.len(),
{
    if cs.len() == 0 {
        cs
    } else {
        let rest = unfollowed(cs.drop_last(), id);
        if cs.last().id == id {
            rest
        } else {
            rest.push(cs.last())
        }
    }
}

/// No two channels in the list share an id.
pub open spec fn distinct_ids(cs: Seq<ChannelView>) -> bool {
    forall|i: int, j: int| 0 <= i < j < cs.len() ==> #[trigger] cs[i].id != #[trigger] cs[j].id
}

/// The channels of the default configuration.
pub open spec fn default_channels_view() -> Seq<ChannelView> {
    seq![
        ChannelView { name: "Vsauce"@, id: "UC6nSFpj9HTCZ5t-N3Rm3-HA"@ },
        ChannelView { name: "Anton Petrov"@, id: "UCciQ8wFcVoIIMi-lfu8-cjQ"@ },
        ChannelView { name: "NileRed"@, id: "UCFhXFikryT4aFcLkLw2LBLA"@ },
        ChannelView { name: "Periodic Videos"@, id: "UCtESv1e7ntJaLJYKIO1FoYw"@ },
        ChannelView { name: "Computerphile"@, id: "UC9-y-6csu5WGm29I7JiwpnA"@ },
        ChannelView { name: "3Blue1Brown"@, id: "UCYO_jab_esuFRV4b17AJtAw"@ },
        ChannelView { name: "Sebastian Lague"@, id: "UCmtyQOKKmrMVaKuRXz02jbQ"@ },
        ChannelView { name: "Two Minute Papers"@, id: "UCbfYPyITQ-7l4upoX8nvctg"@ },
        ChannelView { name: "Adam Savage's Tested"@, id: "UCiDJtJKMICpb9B1qf7qjEOA"@ },
        ChannelView { name: "PBS Space Time"@, id: "UC7_gcs09iThXybpVgjHZ_7g"@ },
        ChannelView { name: "Diinki"@, id: "UCrk2bNxxxLP-Qd77KxBJ3Xg"@ },
        ChannelView { name: "WindowsG Electronics"@, id: "UC8EYr_ArKMKaxfgRq-iCKzA"@ },
        ChannelView { name: "Bread on Penguins"@, id: "UCwHwDuNd9lCdA7chyyquDXw"@ },
        ChannelView { name: "LaurieWired"@, id: "UCJXa3_WNNmIpewOtCHf3B0g"@ },
        ChannelView { name: "PewDiePie"@, id: "UC-lHJZR3Gqxm24_Vd_AJ5Yw"@ },
        ChannelView { name: "Markiplier"@, id: "UC7_YxT-KID8kRbqZo7MyscQ"@ },
        ChannelView { name: "Jacksepticeye"@, id: "UCYzPXprvl5Y-Sf0g4vX-m6g"@ },
        ChannelView { name: "Michael Reeves"@, id: "UCtHaxi4GTYDpJgMSGy7AeSw"@ },
        ChannelView { name: "Ice Cream Sandwich"@, id: "UCOsATJw-IZgqGT8MFrHjKGg"@ },
        ChannelView { name: "Noodle"@, id: "UCj74rJ9Lgl3WTngq675wxKg"@ },
        ChannelView { name: "Jaiden Animations"@, id: "UCGwu0nbY2wSkW8N-cghnLpA"@ },
        ChannelView { name: "Berd"@, id: "UCRei8TBpt4r0WPZ7MkiKmVg"@ },
        ChannelView { name: "Virtual Riot"@, id: "UCVtJOq_ziepf5MpjsTWxJeg"@ },
        ChannelView { name: "Eliminate"@, id: "UCI7kKmUuSQOHUvSWIYFDf1Q"@ },
        ChannelView { name: "Mr Bill"@, id: "UCJgBqh3tYway5A5VgV4dZRw"@ },
        ChannelView { name: "DubstepGutter"@, id: "UCG6QEHCBfWZOnv7UVxappyw"@ },
        ChannelView { name: "NIGHTMODE"@, id: "UCHEAsGPcCU9GKK2jEdhlpIQ"@ },
        ChannelView { name: "MrSuicideSheep"@, id: "UC5nc_ZtjKW1htCVZVRxlQAQ"@ }
    ]
}

/// The saved searches of the default configuration.
pub open spec fn default_searches_view() -> Seq<Seq<char>> {
    seq!["linux ricing"@, "rust programming"@, "music production tutorial"@, "math explained"@, "space documentary"@]
}

/// The highest resolution offered by default.
pub open spec fn spec_default_max_resolution() -> u32 {
    1080
}

/// The default configuration.
pub open spec fn default_config_view() -> ConfigView {
    ConfigView {
        region: "US"@,
        feed_sample: 4,
        max_resolution: spec_default_max_resolution(),
        channels: default_channels_view(),
        searches: default_searches_view(),
    }
}

/// The highest resolution offered by default.
pub fn default_max_resolution() -> (r: u32)
    ensures
        r == spec_default_max_resolution(),
{
    1080
}

/// The channels followed by default.
pub fn default_channels() -> (v: Vec<Channel>)
    ensures
        channels_view(v@) == default_channels_view(),
{
    let mut v: Vec<Channel> = Vec::new();
    // Science and education
    v.push(channel("Vsauce", "UC6nSFpj9HTCZ5t-N3Rm3-HA"));
    v.push(channel("Anton Petrov", "UCciQ8wFcVoIIMi-lfu8-cjQ"));
    v.push(channel("NileRed", "UCFhXFikryT4aFcLkLw2LBLA"));
    v.push(channel("Periodic Videos", "UCtESv1e7ntJaLJYKIO1FoYw"));
    v.push(channel("Computerphile", "UC9-y-6csu5WGm29I7JiwpnA"));
    v.push(channel("3Blue1Brown", "UCYO_jab_esuFRV4b17AJtAw"));
    v.push(channel("Sebastian Lague", "UCmtyQOKKmrMVaKuRXz02jbQ"));
    v.push(channel("Two Minute Papers", "UCbfYPyITQ-7l4upoX8nvctg"));
    v.push(channel("Adam Savage's Tested", "UCiDJtJKMICpb9B1qf7qjEOA"));
    v.push(channel("PBS Space Time", "UC7_gcs09iThXybpVgjHZ_7g"));
    // Technology and Linux
    v.push(channel("Diinki", "UCrk2bNxxxLP-Qd77KxBJ3Xg"));
    v.push(channel("WindowsG Electronics", "UC8EYr_ArKMKaxfgRq-iCKzA"));
    v.push(channel("Bread on Penguins", "UCwHwDuNd9lCdA7chyyquDXw"));
    v.push(channel("LaurieWired", "UCJXa3_WNNmIpewOtCHf3B0g"));
    // Entertainment
    v.push(channel("PewDiePie", "UC-lHJZR3Gqxm24_Vd_AJ5Yw"));
    v.push(channel("Markiplier", "UC7_YxT-KID8kRbqZo7MyscQ"));
    v.push(channel("Jacksepticeye", "UCYzPXprvl5Y-Sf0g4vX-m6g"));
    v.push(channel("Michael Reeves", "UCtHaxi4GTYDpJgMSGy7AeSw"));
    v.push(channel("Ice Cream Sandwich", "UCOsATJw-IZgqGT8MFrHjKGg"));
    v.push(channel("Noodle", "UCj74rJ9Lgl3WTngq675wxKg"));
    v.push(channel("Jaiden Animations", "UCGwu0nbY2wSkW8N-cghnLpA"));
    v.push(channel("Berd", "UCRei8TBpt4r0WPZ7MkiKmVg"));
    // Music
    v.push(channel("Virtual Riot", "UCVtJOq_ziepf5MpjsTWxJeg"));
    v.push(channel("Eliminate", "UCI7kKmUuSQOHUvSWIYFDf1Q"));
    v.push(channel("Mr Bill", "UCJgBqh3tYway5A5VgV4dZRw"));
    v.push(channel("DubstepGutter", "UCG6QEHCBfWZOnv7UVxappyw"));
    v.push(channel("NIGHTMODE", "UCHEAsGPcCU9GKK2jEdhlpIQ"));
    v.push(channel("MrSuicideSheep", "UC5nc_ZtjKW1htCVZVRxlQAQ"));
    assert(channels_view(v@) =~= default_channels_view());
    v
}

/// The searches saved by default.
pub fn default_searches() -> (v: Vec<String>)
    ensures
        strings_view(v@) == default_searches_view(),
{
    let mut v: Vec<String> = Vec::new();
    v.push("linux ricing".to_owned());
    v.push("rust programming".to_owned());
    v.push("music production tutorial".to_owned());
    v.push("math explained".to_owned());
    v.push("space documentary".to_owned());
    assert(strings_view(v@) =~= default_searches_view());
    v
}

impl Default for Config {
    fn default() -> (c: Self)
        ensures
            c@ == default_config_view(),
    {
        Config {
            region: "US".to_owned(),
            feed_sample: 4,
            max_resolution: default_max_resolution(),
            channels: default_channels(),
            searches: default_searches(),
        }
    }
}

impl Config {
    /// Whether a channel with this id is followed.
    pub fn has_channel(&self, channel_id: &str) -> (r: bool)
        ensures
            r == has_id(self@.channels, channel_id@),
    {
        let ghost cs = self@.channels;
        let mut i: usize = 0;
        while i < self.channels.len()
            invariant
                i <= self.channels.len(),
                cs == channels_view(self.channels@),
                forall|j: int| 0 <= j < i ==> #[trigger] cs[j].id != channel_id@,
            decreases self.channels.len() - i,
        {
            if same_chars(self.channels[i].id.as_str(), channel_id) {
                assert(cs[i as int].id == channel_id@);
                return true;
            }
            i = i + 1;
        }
        false
    }

    /// Follows a channel unless one with the same id is already followed; tells whether the
    /// list changed (and so must be saved).
    pub fn follow(&mut self, name: String, channel_id: String) -> (added: bool)
        ensures
            added == !has_id(old(self)@.channels, channel_id@),
            final(self)@ == (ConfigView {
                channels: followed(old(self)@.channels, name@, channel_id@),
                ..old(self)@
            }),
    {
        if !self.has_channel(channel_id.as_str()) {
            let ghost before = self.channels@;
            let c = Channel { name, id: channel_id };
            self.channels.push(c);
            assert(channels_view(self.channels@) =~= channels_view(before).push(c@));
            true
        } else {
            false
        }
    }

    /// Stops following every channel with this id, keeping the others in order.
    pub fn unfollow(&mut self, channel_id: &str)
        ensures
            final(self)@ == (ConfigView {
                channels: unfollowed(old(self)@.channels, channel_id@),
                ..old(self)@
            }),
    {
        let ghost cs = self@.channels;
        let mut kept: Vec<Channel> = Vec::new();
        let mut i: usize = 0;
        while i < self.channels.len()
            invariant
                i <= self.channels.len(),
                cs == channels_view(self.channels@),
                channels_view(kept@) == unfollowed(cs.subrange(0, i as int), channel_id@),
            decreases self.channels.len() - i,
        {
            let c = self.channels[i].clone();
            assert(cs.subrange(0, i + 1).drop_last() =~= cs.subrange(0, i as int));
            if !same_chars(c.id.as_str(), channel_id) {
                let ghost before = kept@;
                kept.push(c);
                assert(channels_view(kept@) =~= channels_view(before).push(c@));
            }
            i = i + 1;
        }
        assert(cs.subrange(0, cs.len() as int) =~= cs);
        self.channels = kept;
    }
}

/// Following a channel makes its id followed.
pub proof fn lemma_follow_then_followed(cs: Seq<ChannelView>, name: Seq<char>, id: Seq<char>)
    ensures
        has_id(followed(cs, name, id), id),
{
    if !has_id(cs, id) {
        let r = followed(cs, name, id);
        assert(r[cs.len() as int].id == id);
    }
}

/// Following an id that is already followed changes nothing.
pub proof fn lemma_follow_idempotent(cs: Seq<ChannelView>, name: Seq<char>, other: Seq<char>, id: Seq<char>)
    ensures
        followed(followed(cs, name, id), other, id) == followed(cs, name, id),
{
    lemma_follow_then_followed(cs, name, id);
}

/// After unfollowing an id no channel has it, and every channel with another id stays.
pub proof fn lemma_unfollow_removes(cs: Seq<ChannelView>, id: Seq<char>)
    ensures
        !has_id(unfollowed(cs, id), id),
        forall|c: ChannelView| c.id != id ==> (unfollowed(cs, id).contains(c) <==> cs.contains(c)),
        unfollowed(cs, id).len() <= cs.len(),
    decreases cs.len(),
{
    if cs.len() > 0 {
        let p = cs.drop_last();
        lemma_unfollow_removes(p, id);
        let rest = unfollowed(p, id);
        let r = unfollowed(cs, id);
        if cs.last().id != id {
            assert(r == rest.push(cs.last()));
            assert forall|i: int| 0 <= i < r.len() implies #[trigger] r[i].id != id by {
                if i < rest.len() {
                    assert(r[i] == rest[i]);
                    if rest[i].id == id {
                        assert(has_id(rest, id));
                    }
                }
            }
        }
        assert forall|c: ChannelView| c.id != id implies (r.contains(c) <==> cs.contains(c)) by {
            if cs.contains(c) {
                let k = choose|k: int| 0 <= k < cs.len() && cs[k] == c;
                if k < p.len() {
                    assert(p[k] == c);
                    assert(p.contains(c));
                    assert(rest.contains(c));
                    let m = choose|m: int| 0 <= m < rest.len() && rest[m] == c;
                    if cs.last().id != id {
                        assert(r[m] == c);
                    }
                } else {
                    assert(r[rest.len() as int] == c);
                }
            }
            if r.contains(c) {
                let k = choose|k: int| 0 <= k < r.len() && r[k] == c;
                if k < rest.len() {
                    assert(rest[k] == c);
                    assert(rest.contains(c));
                    assert(p.contains(c));
                    let m = choose|m: int| 0 <= m < p.len() && p[m] == c;
                    assert(cs[m] == p[m]);
                } else {
                    assert(cs[cs.len() - 1] == c);
                }
            }
        }
    }
}

/// Unfollowing an id that is not followed changes nothing.
pub proof fn lemma_unfollow_absent(cs: Seq<ChannelView>, id: Seq<char>)
    requires
        !has_id(cs, id),
    ensures
        unfollowed(cs, id) == cs,
    decreases cs.len(),
{
    if cs.len() > 0 {
        let p = cs.drop_last();
        assert(!has_id(p, id)) by {
            if has_id(p, id) {
                let k = choose|k: int| 0 <= k < p.len() && #[trigger] p[k].id == id;
                assert(cs[k].id == id);
            }
        }
        lemma_unfollow_absent(p, id);
        assert(cs[cs.len() - 1].id != id);
        assert(p.push(cs.last()) =~= cs);
    }
}

/// Following a channel that was not followed and then unfollowing it gives back the list.
pub proof fn lemma_follow_unfollow_roundtrip(cs: Seq<ChannelView>, name: Seq<char>, id: Seq<char>)
    requires
        !has_id(cs, id),
    ensures
        unfollowed(followed(cs, name, id), id) == cs,
{
    let f = cs.push(ChannelView { name, id });
    assert(f.drop_last() =~= cs);
    lemma_unfollow_absent(cs, id);
}

/// Following and unfollowing never make two channels share an id.
pub proof fn lemma_distinct_ids_preserved(cs: Seq<ChannelView>, name: Seq<char>, id: Seq<char>, other: Seq<char>)
    requires
        distinct_ids(cs),
    ensures
        distinct_ids(followed(cs, name, id)),
        distinct_ids(unfollowed(cs, other)),
{
    if !has_id(cs, id) {
        let f = followed(cs, name, id);
        assert forall|i: int, j: int| 0 <= i < j < f.len() implies #[trigger] f[i].id != #[trigger] f[j].id by {
            if j == cs.len() {
                if f[i].id == id {
                    assert(cs[i].id == id);
                }
            } else {
                assert(f[i] == cs[i] && f[j] == cs[j]);
            }
        }
    }
    lemma_unfollow_distinct(cs, other);
}

proof fn lemma_unfollow_distinct(cs: Seq<ChannelView>, id: Seq<char>)
    requires
        distinct_ids(cs),
    ensures
        distinct_ids(unfollowed(cs, id)),
    decreases cs.len(),
{
    if cs.len() > 0 {
        let p = cs.drop_last();
        assert(distinct_ids(p)) by {
            assert forall|i: int, j: int| 0 <= i < j < p.len() implies #[trigger] p[i].id != #[trigger] p[j].id by {
                assert(p[i] == cs[i] && p[j] == cs[j]);
            }
        }
        lemma_unfollow_distinct(p, id);
        lemma_unfollow_removes(p, id);
        let rest = unfollowed(p, id);
        if cs.last().id != id {
            let r = rest.push(cs.last());
            assert forall|i: int, j: int| 0 <= i < j < r.len() implies #[trigger] r[i].id != #[trigger] r[j].id by {
                if j == rest.len() {
                    let c = rest[i];
                    assert(rest.contains(c));
                    if c.id == cs.last().id {
                        assert(c.id != id);
                        assert(p.contains(c));
                        let k = choose|k: int| 0 <= k < p.len() && p[k] == c;
                        assert(cs[k].id == cs[cs.len() - 1].id);
                    }
                } else {
                    assert(r[i] == rest[i] && r[j] == rest[j]);
                }
            }
        }
    }
}

/// In a list without shared ids, unfollowing the id of one of its channels removes exactly that
/// one channel.
pub proof fn lemma_unfollow_one(cs: Seq<ChannelView>, i: int)
    requires
        distinct_ids(cs),
        0 <= i < cs.len(),
    ensures
        unfollowed(cs, cs[i].id) == cs.remove(i),
        unfollowed(cs, cs[i].id).len() == cs.len() - 1,
    decreases cs.len(),
{
    let id = cs[i].id;
    let p = cs.drop_last();
    if i == cs.len() - 1 {
        assert(!has_id(p, id)) by {
            if has_id(p, id) {
                let k = choose|k: int| 0 <= k < p.len() && #[trigger] p[k].id == id;
                assert(cs[k].id == cs[i].id);
            }
        }
        lemma_unfollow_absent(p, id);
        assert(p =~= cs.remove(i));
    } else {
        assert(distinct_ids(p)) by {
            assert forall|x: int, y: int| 0 <= x < y < p.len() implies #[trigger] p[x].id != #[trigger] p[y].id by {
                assert(p[x] == cs[x] && p[y] == cs[y]);
            }
        }
        assert(p[i] == cs[i]);
        lemma_unfollow_one(p, i);
        assert(cs[cs.len() - 1].id != cs[i].id);
        assert(p.remove(i).push(cs.last()) =~= cs.remove(i));
    }
}

/// Number of video resolutions offered.
pub const QUALITY_COUNT: usize = 6;

/// The video height of a quality option, highest first.
pub open spec fn spec_quality_height(i: int) -> u32 {
    if i == 0 { 2160 }
    else if i == 1 { 1440 }
    else if i == 2 { 1080 }
    else if i == 3 { 720 }
    else if i == 4 { 480 }
    else { 360 }
}

/// The label of a quality option.
pub open spec fn spec_quality_label(i: int) -> Seq<char> {
    if i == 0 { "2160p (4K)"@ }
    else if i == 1 { "1440p"@ }
    else if i == 2 { "1080p"@ }
    else if i == 3 { "720p"@ }
    else if i == 4 { "480p"@ }
    else { "360p"@ }
}

/// The video height of a quality option.
pub fn quality_height(i: usize) -> (h: u32)
    requires
        i < QUALITY_COUNT,
    ensures
        h == spec_quality_height(i as int),
{
    if i == 0 { 2160 }
    else if i == 1 { 1440 }
    else if i == 2 { 1080 }
    else if i == 3 { 720 }
    else if i == 4 { 480 }
    else { 360 }
}

/// The label of a quality option.
pub fn quality_label(i: usize) -> (l: &'static str)
    requires
        i < QUALITY_COUNT,
    ensures
        l@ == spec_quality_label(i as int),
{
    if i == 0 { "2160p (4K)" }
    else if i == 1 { "1440p" }
    else if i == 2 { "1080p" }
    else if i == 3 { "720p" }
    else if i == 4 { "480p" }
    else { "360p" }
}

} // verus!

//! Videos and the yt-dlp listing they are read from.

use vstd::prelude::*;
use crate::text::{lines, lossy_utf8, split_lines, utf8_lossy};

verus! {

/// A video in a feed.
pub struct Video {
    pub title: String,
    pub video_id: String,
    pub author: String,
    pub channel_id: String,
    pub duration_secs: u64,
    pub views: u64,
    pub published_text: String,
    pub thumbnail_url: String,
}

impl Clone for Video {
    fn clone(&self) -> (r: Self)
        ensures
            r == *self,
    {
        Video {
            title: self.title.clone(),
            video_id: self.video_id.clone(),
            author: self.author.clone(),
            channel_id: self.channel_id.clone(),
            duration_secs: self.duration_secs,
            views: self.views,
            published_text: self.published_text.clone(),
            thumbnail_url: self.thumbnail_url.clone(),
        }
    }
}

/// One line of yt-dlp's JSON listing, field by field; the duration already in whole seconds.
pub struct YtdlpEntry {
    pub title: Option<String>,
    pub id: Option<String>,
    pub uploader: Option<String>,
    pub channel: Option<String>,
    pub channel_id: Option<String>,
    pub playlist_channel: Option<String>,
    pub playlist_channel_id: Option<String>,
    pub duration: Option<u64>,
    pub view_count: Option<u64>,
}

/// The text of an optional string, empty when absent.
pub open spec fn opt_text(o: Option<String>) -> Seq<char> {
    match o {
        Some(s) => s@,
        None => seq![],
    }
}

/// The first present value among three, as text.
pub open spec fn first_text3(a: Option<String>, b: Option<String>, c: Option<String>) -> Seq<char> {
    if a is Some {
        opt_text(a)
    } else if b is Some {
        opt_text(b)
    } else {
        opt_text(c)
    }
}

/// The thumbnail address of a video id.
pub open spec fn thumbnail_for(id: Seq<char>) -> Seq<char> {
    "https://i.ytimg.com/vi/"@ + id + "/hqdefault.jpg"@
}

/// The video an entry describes, given that its id is not empty.
pub open spec fn entry_describes(e: YtdlpEntry, v: Video) -> bool {
    &&& v.title@ == opt_text(e.title)
    &&& v.video_id@ == opt_text(e.id)
    &&& v.author@ == first_text3(e.channel, e.uploader, e.playlist_channel)
    &&& v.channel_id@ == (if e.channel_id is Some { opt_text(e.channel_id) } else { opt_text(e.playlist_channel_id) })
    &&& v.duration_secs == (match e.duration { Some(d) => d, None => 0 })
    &&& v.views == (match e.view_count { Some(n) => n, None => 0 })
    &&& v.published_text@ == Seq::<char>::empty()
    &&& v.thumbnail_url@ == thumbnail_for(opt_text(e.id))
}

fn text_or_empty(o: &Option<String>) -> (s: String)
    ensures
        s@ == opt_text(*o),
{
    match o {
        Some(s) => s.clone(),
        None => String::new(),
    }
}

/// The video an entry describes; none when the entry has no id or an empty one.
pub fn video_from_entry(e: &YtdlpEntry) -> (r: Option<Video>)
    ensures
        r is Some <==> opt_text(e.id).len() > 0,
        r matches Some(v) ==> entry_describes(*e, v),
{
    let id = text_or_empty(&e.id);
    if id.as_str().is_empty() {
        return None;
    }
    let mut thumb = "https://i.ytimg.com/vi/".to_owned();
    thumb.append(id.as_str());
    thumb.append("/hqdefault.jpg");
    let author = if e.channel.is_some() {
        text_or_empty(&e.channel)
    } else if e.uploader.is_some() {
        text_or_empty(&e.uploader)
    } else {
        text_or_empty(&e.playlist_channel)
    };
    let channel_id = if e.channel_id.is_some() {
        text_or_empty(&e.channel_id)
    } else {
        text_or_empty(&e.playlist_channel_id)
    };
    let duration_secs = match e.duration {
        Some(d) => d,
        None => 0,
    };
    let views = match e.view_count {
        Some(n) => n,
        None => 0,
    };
    Some(Video {
        title: text_or_empty(&e.title),
        video_id: id,
        author,
        channel_id,
        duration_secs,
        views,
        published_text: String::new(),
        thumbnail_url: thumb,
    })
}

/// The videos described by a listing: one per entry with a non-empty id, in listing order.
pub open spec fn listed(es: Seq<YtdlpEntry>) -> Seq<YtdlpEntry>
    decreases es.len(),
{
    if es.len() == 0 {
        es
    } else if opt_text(es.last().id).len() > 0 {
        listed(es.drop_last()).push(es.last())
    } else {
        listed(es.drop_last())
    }
}

/// Turns a listing into videos, skipping entries without an id.
pub fn videos_from_entries(entries: &Vec<YtdlpEntry>) -> (vs: Vec<Video>)
    ensures
        vs@.len() == listed(entries@).len(),
        forall|i: int| 0 <= i < vs@.len() ==> entry_describes(#[trigger] listed(entries@)[i], vs@[i]),
{
    let mut vs: Vec<Video> = Vec::new();
    let mut i: usize = 0;
    while i < entries.len()
        invariant
            i <= entries.len(),
            vs@.len() == listed(entries@.subrange(0, i as int)).len(),
            forall|j: int| 0 <= j < vs@.len() ==> entry_describes(#[trigger] listed(entries@.subrange(0, i as int))[j], vs@[j]),
        decreases entries.len() - i,
    {
        assert(entries@.subrange(0, i + 1).drop_last() =~= entries@.subrange(0, i as int));
        match video_from_entry(&entries[i]) {
            Some(v) => {
                vs.push(v);
            },
            None => {},
        }
        i = i + 1;
    }
    assert(entries@.subrange(0, entries@.len() as int) =~= entries@);
    vs
}

/// The lines yt-dlp printed, one JSON object each: its output decoded as UTF-8 (invalid bytes
/// replaced) and split into lines.
pub fn output_lines(stdout: &[u8]) -> (r: Vec<String>)
    ensures
        r@.len() == lines(lossy_utf8(stdout@)).len(),
        forall|i: int| 0 <= i < r@.len() ==> #[trigger] r@[i]@ == lines(lossy_utf8(stdout@))[i],
        vstd::utf8::valid_utf8(stdout@) ==> lines(lossy_utf8(stdout@)) == lines(vstd::utf8::decode_utf8(stdout@)),
{
    let text = utf8_lossy(stdout);
    split_lines(text.as_str())
}

/// The yt-dlp command line source of videos.
pub struct YtdlpSource;

/// The options every listing request starts with.
pub open spec fn listing_flags() -> Seq<Seq<char>> {
    seq!["--flat-playlist"@, "--dump-json"@, "--no-warnings"@]
}

fn listing_args() -> (v: Vec<String>)
    ensures
        v@.len() == 3,
        forall|i: int| 0 <= i < 3 ==> #[trigger] v@[i]@ == listing_flags()[i],
{
    let mut v: Vec<String> = Vec::new();
    v.push("--flat-playlist".to_owned());
    v.push("--dump-json".to_owned());
    v.push("--no-warnings".to_owned());
    v
}

impl YtdlpSource {
    /// The yt-dlp arguments for the popular-videos listing (the region is not used).
    pub fn trending_args(&self, region: &str) -> (v: Vec<String>)
        ensures
            v@.len() == 4,
            forall|i: int| 0 <= i < 3 ==> #[trigger] v@[i]@ == listing_flags()[i],
            v@[3]@ == "ytsearch20:popular music videos 2026"@,
    {
        let mut v = listing_args();
        v.push("ytsearch20:popular music videos 2026".to_owned());
        v
    }

    /// The yt-dlp arguments for the first twenty results of a search.
    pub fn search_args(&self, query: &str) -> (v: Vec<String>)
        ensures
            v@.len() == 4,
            forall|i: int| 0 <= i < 3 ==> #[trigger] v@[i]@ == listing_flags()[i],
            v@[3]@ == "ytsearch20:"@ + query@,
    {
        let mut v = listing_args();
        let mut q = "ytsearch20:".to_owned();
        q.append(query);
        v.push(q);
        v
    }

    /// The yt-dlp arguments for the first twenty uploads of a channel.
    pub fn channel_args(&self, ucid: &str) -> (v: Vec<String>)
        ensures
            v@.len() == 6,
            forall|i: int| 0 <= i < 3 ==> #[trigger] v@[i]@ == listing_flags()[i],
            v@[3]@ == "--playlist-items"@,
            v@[4]@ == "1:20"@,
            v@[5]@ == "https://www.youtube.com/channel/"@ + ucid@ + "/videos"@,
    {
        let mut v = listing_args();
        v.push("--playlist-items".to_owned());
        v.push("1:20".to_owned());
        let mut u = "https://www.youtube.com/channel/".to_owned();
        u.append(ucid);
        u.append("/videos");
        v.push(u);
        v
    }
}

} // verus!

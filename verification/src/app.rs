//! The application state and how each key press changes it.

use vstd::prelude::*;
use crate::api::Video;
use crate::feed::WorkerMsg;
use crate::config::{Config, QUALITY_COUNT, quality_height, spec_quality_height};
use crate::config::{ChannelView, ConfigView, distinct_ids, has_id, followed, unfollowed, lemma_distinct_ids_preserved, lemma_unfollow_one, lemma_unfollow_removes, lemma_follow_then_followed, lemma_follow_unfollow_roundtrip};
use crate::text::{boundary_index, byte_len, char_byte_width, char_index_at, char_width, chars_of, is_boundary, lemma_boundary_unique, lemma_byte_len_prefix, lemma_byte_len_step, string_of, decimal, decimal_string, two_digits, two_digit_string};

verus! {

/// How a number of seconds is shown: `h:mm:ss` from one hour on, `m:ss` below.
pub open spec fn duration_text(secs: nat) -> Seq<char> {
    let h = secs / 3600;
    let m = (secs % 3600) / 60;
    let s = secs % 60;
    if h > 0 {
        decimal(h) + ":"@ + two_digits(m) + ":"@ + two_digits(s)
    } else {
        decimal(m) + ":"@ + two_digits(s)
    }
}

/// Formats a duration in seconds as `h:mm:ss`, or `m:ss` when under an hour.
pub fn format_duration(secs: u64) -> (r: String)
    ensures
        r@ == duration_text(secs as nat),
{
    let h = secs / 3600;
    let m = (secs % 3600) / 60;
    let s = secs % 60;
    if h > 0 {
        let mut out = decimal_string(h);
        out.append(":");
        out.append(two_digit_string(m).as_str());
        out.append(":");
        out.append(two_digit_string(s).as_str());
        out
    } else {
        let mut out = decimal_string(m);
        out.append(":");
        out.append(two_digit_string(s).as_str());
        out
    }
}


/// Which screen the application shows.
#[derive(PartialEq, Eq, Structural, Clone, Copy, Debug)]
pub enum AppState {
    Loading,
    Feed,
    Search,
    Quality,
    Channels,
    Error,
}

/// Where the videos on screen came from.
pub enum FeedKind {
    Trending,
    Subscriptions,
    Curated(Vec<String>),
}

/// The application state. `T` is the decoded thumbnail image, which the library only holds.
pub struct App<T> {
    pub state: AppState,
    pub videos: Vec<Video>,
    pub selected: usize,
    pub scroll_offset: usize,
    pub search_input: String,
    /// Byte offset of the cursor in `search_input`.
    pub search_cursor: usize,
    pub feed_kind: FeedKind,
    pub status_msg: String,
    pub error_msg: String,
    pub spinner_frame: usize,
    pub tick_count: u64,
    pub thumbnail: Option<T>,
    pub thumbnail_video_id: String,
    /// Whether the terminal can draw images.
    pub has_picker: bool,
    pub quality_selected: usize,
    pub quality_video_url: String,
    /// The video being played: id, channel id, channel name and title.
    pub quality_video_info: Option<(String, String, String, String)>,
    pub channel_selected: usize,
    pub channel_scroll: usize,
    /// A short notice and the tick at which it appeared.
    pub follow_flash: Option<(String, u64)>,
}

impl<T> App<T> {
    /// A fresh application, loading its first feed.
    pub fn new(has_picker: bool) -> (app: Self)
        ensures
            app.state == AppState::Loading,
            app.videos@.len() == 0,
            app.selected == 0,
            app.scroll_offset == 0,
            app.search_input@ == Seq::<char>::empty(),
            app.search_cursor == 0,
            app.feed_kind is Trending,
            app.status_msg@ == "loading..."@,
            app.error_msg@ == Seq::<char>::empty(),
            app.spinner_frame == 0,
            app.tick_count == 0,
            app.thumbnail is None,
            app.thumbnail_video_id@ == Seq::<char>::empty(),
            app.has_picker == has_picker,
            app.quality_selected == 0,
            app.quality_video_url@ == Seq::<char>::empty(),
            app.quality_video_info is None,
            app.channel_selected == 0,
            app.channel_scroll == 0,
            app.follow_flash is None,
            forall|cfg: ConfigView| distinct_ids(cfg.channels) ==> #[trigger] app.well_formed(cfg),
    {
        assert(Seq::<char>::empty().subrange(0, 0) =~= Seq::<char>::empty());
        App {
            state: AppState::Loading,
            videos: Vec::new(),
            selected: 0,
            scroll_offset: 0,
            search_input: String::new(),
            search_cursor: 0,
            feed_kind: FeedKind::Trending,
            status_msg: "loading...".to_owned(),
            error_msg: String::new(),
            spinner_frame: 0,
            tick_count: 0,
            thumbnail: None,
            thumbnail_video_id: String::new(),
            has_picker,
            quality_selected: 0,
            quality_video_url: String::new(),
            quality_video_info: None,
            channel_selected: 0,
            channel_scroll: 0,
            follow_flash: None,
        }
    }

    /// Moving the selection one video up, pulling the scroll position along.
    pub open spec fn moved_up(a: Self, b: Self) -> bool {
        if a.selected > 0 {
            b == App {
                selected: (a.selected - 1) as usize,
                scroll_offset: if a.selected - 1 < a.scroll_offset { (a.selected - 1) as usize } else { a.scroll_offset },
                ..a
            }
        } else {
            b == a
        }
    }

    /// Selects the previous video, if any.
    pub fn move_up(&mut self)
        ensures
            Self::moved_up(*old(self), *final(self)),
    {
        if self.selected > 0 {
            self.selected -= 1;
            if self.selected < self.scroll_offset {
                self.scroll_offset = self.selected;
            }
        }
    }

    /// Moving the selection one video down, stopping at the last.
    pub open spec fn moved_down(a: Self, b: Self) -> bool {
        if a.videos@.len() > 0 && a.selected < a.videos@.len() - 1 {
            b == App { selected: (a.selected + 1) as usize, ..a }
        } else {
            b == a
        }
    }

    /// Selects the next video, if any.
    pub fn move_down(&mut self)
        ensures
            Self::moved_down(*old(self), *final(self)),
    {
        if self.videos.len() > 0 && self.selected < self.videos.len() - 1 {
            self.selected += 1;
        }
    }

    /// Shows a new list of videos, selecting the first.
    pub fn set_videos(&mut self, videos: Vec<Video>)
        ensures
            final(self).thumbnail_video_id@ == Seq::<char>::empty(),
            *final(self) == (App {
                videos,
                selected: 0,
                scroll_offset: 0,
                thumbnail: None,
                thumbnail_video_id: final(self).thumbnail_video_id,
                state: AppState::Feed,
                ..*old(self)
            }),
            forall|cfg: ConfigView| #[trigger] old(self).well_formed(cfg) ==> final(self).well_formed(cfg),
    {
        self.videos = videos;
        self.selected = 0;
        self.scroll_offset = 0;
        self.thumbnail = None;
        self.thumbnail_video_id = String::new();
        self.state = AppState::Feed;
    }

    /// Shows an error message.
    pub fn set_error(&mut self, msg: String)
        ensures
            *final(self) == (App { error_msg: msg, state: AppState::Error, ..*old(self) }),
            forall|cfg: ConfigView| #[trigger] old(self).well_formed(cfg) ==> final(self).well_formed(cfg),
    {
        self.error_msg = msg;
        self.state = AppState::Error;
    }

    /// Opening the search prompt with an empty query.
    pub open spec fn entered_search(a: Self, b: Self) -> bool {
        &&& b.search_input@ == Seq::<char>::empty()
        &&& b == App { state: AppState::Search, search_input: b.search_input, search_cursor: 0, ..a }
    }

    /// Opens the search prompt with an empty query.
    pub fn enter_search(&mut self)
        ensures
            Self::entered_search(*old(self), *final(self)),
    {
        self.state = AppState::Search;
        self.search_input = String::new();
        self.search_cursor = 0;
    }

    /// Leaves the search prompt for the feed.
    pub fn exit_search(&mut self)
        ensures
            *final(self) == (App { state: AppState::Feed, ..*old(self) }),
    {
        self.state = AppState::Feed;
    }

    /// Moving the quality selection up one option.
    pub open spec fn quality_moved_up(a: Self, b: Self) -> bool {
        b == App { quality_selected: if a.quality_selected > 0 { (a.quality_selected - 1) as usize } else { a.quality_selected }, ..a }
    }

    /// Selects the next higher quality, if any.
    pub fn quality_up(&mut self)
        ensures
            Self::quality_moved_up(*old(self), *final(self)),
    {
        if self.quality_selected > 0 {
            self.quality_selected -= 1;
        }
    }

    /// Moving the quality selection down one option.
    pub open spec fn quality_moved_down(a: Self, b: Self) -> bool {
        b == App { quality_selected: if a.quality_selected < QUALITY_COUNT - 1 { (a.quality_selected + 1) as usize } else { a.quality_selected }, ..a }
    }

    /// Selects the next lower quality, if any.
    pub fn quality_down(&mut self)
        ensures
            Self::quality_moved_down(*old(self), *final(self)),
    {
        if self.quality_selected < QUALITY_COUNT - 1 {
            self.quality_selected += 1;
        }
    }

    /// Closes the quality picker.
    pub fn exit_quality(&mut self)
        ensures
            *final(self) == (App { state: AppState::Feed, ..*old(self) }),
    {
        self.state = AppState::Feed;
    }

    /// The height of the selected quality.
    pub fn selected_quality(&self) -> (h: u32)
        requires
            self.quality_selected < QUALITY_COUNT,
        ensures
            h == spec_quality_height(self.quality_selected as int),
    {
        quality_height(self.quality_selected)
    }

    /// Opening the channel list at its top.
    pub open spec fn entered_channels(a: Self, b: Self) -> bool {
        b == App { channel_selected: 0, channel_scroll: 0, state: AppState::Channels, ..a }
    }

    /// Opens the list of followed channels at its top.
    pub fn enter_channels(&mut self)
        ensures
            Self::entered_channels(*old(self), *final(self)),
    {
        self.channel_selected = 0;
        self.channel_scroll = 0;
        self.state = AppState::Channels;
    }

    /// Closes the channel list.
    pub fn exit_channels(&mut self)
        ensures
            *final(self) == (App { state: AppState::Feed, ..*old(self) }),
    {
        self.state = AppState::Feed;
    }

    /// Moving the channel selection up one row, pulling the scroll position along.
    pub open spec fn channel_moved_up(a: Self, b: Self) -> bool {
        if a.channel_selected > 0 {
            b == App {
                channel_selected: (a.channel_selected - 1) as usize,
                channel_scroll: if a.channel_selected - 1 < a.channel_scroll { (a.channel_selected - 1) as usize } else { a.channel_scroll },
                ..a
            }
        } else {
            b == a
        }
    }

    /// Selects the previous channel, if any.
    pub fn channel_up(&mut self)
        ensures
            Self::channel_moved_up(*old(self), *final(self)),
    {
        if self.channel_selected > 0 {
            self.channel_selected -= 1;
            if self.channel_selected < self.channel_scroll {
                self.channel_scroll = self.channel_selected;
            }
        }
    }

    /// Moving the channel selection down one row among `total`.
    pub open spec fn channel_moved_down(a: Self, total: usize, b: Self) -> bool {
        if total > 0 && a.channel_selected < total - 1 {
            b == App { channel_selected: (a.channel_selected + 1) as usize, ..a }
        } else {
            b == a
        }
    }

    /// Selects the next of `total` channels, if any.
    pub fn channel_down(&mut self, total: usize)
        ensures
            Self::channel_moved_down(*old(self), total, *final(self)),
    {
        if total > 0 && self.channel_selected < total - 1 {
            self.channel_selected += 1;
        }
    }

    /// Notes whether the terminal can draw images, dropping the current thumbnail.
    pub fn reinit_picker(&mut self, has_picker: bool)
        ensures
            final(self).thumbnail_video_id@ == Seq::<char>::empty(),
            *final(self) == (App {
                has_picker,
                thumbnail: None,
                thumbnail_video_id: final(self).thumbnail_video_id,
                ..*old(self)
            }),
    {
        self.has_picker = has_picker;
        self.thumbnail = None;
        self.thumbnail_video_id = String::new();
    }
}


/// The query after typing a character at a byte offset between characters.
pub open spec fn insert_text(s: Seq<char>, cursor: int, c: char) -> Seq<char> {
    let k = boundary_index(s, cursor);
    s.subrange(0, k).push(c) + s.subrange(k, s.len() as int)
}

/// The cursor after typing a character: just past it.
pub open spec fn insert_cursor(cursor: int, c: char) -> int {
    cursor + char_width(c)
}

/// The query after erasing the character before the cursor (none at the start).
pub open spec fn backspace_text(s: Seq<char>, cursor: int) -> Seq<char> {
    let k = boundary_index(s, cursor);
    if cursor > 0 {
        s.subrange(0, k - 1) + s.subrange(k, s.len() as int)
    } else {
        s
    }
}

/// The cursor after erasing: where the erased character began.
pub open spec fn backspace_cursor(s: Seq<char>, cursor: int) -> int {
    let k = boundary_index(s, cursor);
    if cursor > 0 {
        byte_len(s.subrange(0, k - 1)) as int
    } else {
        cursor
    }
}

/// Typing a character and then erasing it gives back the query and the cursor.
pub proof fn lemma_insert_then_backspace(s: Seq<char>, cursor: int, c: char)
    requires
        is_boundary(s, cursor),
    ensures
        is_boundary(insert_text(s, cursor, c), insert_cursor(cursor, c)),
        backspace_text(insert_text(s, cursor, c), insert_cursor(cursor, c)) == s,
        backspace_cursor(insert_text(s, cursor, c), insert_cursor(cursor, c)) == cursor,
{
    let k = boundary_index(s, cursor);
    let t = insert_text(s, cursor, c);
    assert(t.subrange(0, k) =~= s.subrange(0, k));
    assert(t[k] == c);
    lemma_byte_len_step(t, k);
    lemma_boundary_unique(t, k + 1);
    assert(t.subrange(0, k) + t.subrange(k + 1, t.len() as int) =~= s);
}

/// Erasing with the cursor at the start changes nothing.
pub proof fn lemma_backspace_at_start(s: Seq<char>)
    ensures
        backspace_text(s, 0) == s,
        backspace_cursor(s, 0) == 0,
{
}

/// The quality option offered first for a preferred resolution: the highest not above it,
/// or 1080p when every option is above it.
pub open spec fn quality_index_for(res: u32) -> usize {
    if 2160 <= res { 0 }
    else if 1440 <= res { 1 }
    else if 1080 <= res { 2 }
    else if 720 <= res { 3 }
    else if 480 <= res { 4 }
    else if 360 <= res { 5 }
    else { 2 }
}

/// The preselected quality is a valid option; it is the highest not above the preferred
/// resolution, when any is not above it.
pub proof fn lemma_quality_index_for(res: u32)
    ensures
        quality_index_for(res) < QUALITY_COUNT,
        res >= 360 ==> spec_quality_height(quality_index_for(res) as int) <= res,
        res >= 360 ==> forall|j: int| 0 <= j < quality_index_for(res) ==> spec_quality_height(j) > res,
{
}

/// The watch page of a video.
pub open spec fn watch_url(id: Seq<char>) -> Seq<char> {
    "https://www.youtube.com/watch?v="@ + id
}

impl<T> App<T> {
    /// Typing a character into the search query at the cursor.
    pub open spec fn inserted(a: Self, c: char, b: Self) -> bool {
        &&& b.search_input@ == insert_text(a.search_input@, a.search_cursor as int, c)
        &&& b.search_cursor == insert_cursor(a.search_cursor as int, c)
        &&& b == App { search_input: b.search_input, search_cursor: b.search_cursor, ..a }
    }

    /// Types a character into the search query at the cursor.
    pub fn search_insert(&mut self, c: char)
        requires
            is_boundary(old(self).search_input@, old(self).search_cursor as int),
            byte_len(old(self).search_input@) + 4 <= usize::MAX,
        ensures
            Self::inserted(*old(self), c, *final(self)),
    {
        let cs = chars_of(self.search_input.as_str());
        let k = char_index_at(&cs, self.search_cursor);
        proof {
            lemma_byte_len_prefix(cs@, k as int);
        }
        let mut out: Vec<char> = Vec::new();
        let mut i: usize = 0;
        while i < cs.len()
            invariant
                k <= cs@.len(),
                i <= cs@.len(),
                i <= k ==> out@ == cs@.subrange(0, i as int),
                i > k ==> out@ == cs@.subrange(0, k as int).push(c) + cs@.subrange(k as int, i as int),
            decreases cs.len() - i,
        {
            if i == k {
                out.push(c);
            }
            out.push(cs[i]);
            i = i + 1;
            proof {
                if i <= k {
                    assert(out@ =~= cs@.subrange(0, i as int));
                } else {
                    assert(out@ =~= cs@.subrange(0, k as int).push(c) + cs@.subrange(k as int, i as int));
                }
            }
        }
        if k == cs.len() {
            out.push(c);
        }
        assert(out@ =~= cs@.subrange(0, k as int).push(c) + cs@.subrange(k as int, cs@.len() as int));
        self.search_input = string_of(&out);
        self.search_cursor = self.search_cursor + char_byte_width(c);
    }

    /// Typing a character into the search query and then erasing it gives back the query and
    /// the cursor, whatever the character's width.
    pub proof fn lemma_search_insert_backspace(a: Self, c: char, b: Self, d: Self)
        requires
            is_boundary(a.search_input@, a.search_cursor as int),
            Self::inserted(a, c, b),
            Self::backspaced(b, d),
        ensures
            d.search_input@ == a.search_input@,
            d.search_cursor == a.search_cursor,
            d == (App { search_input: d.search_input, ..a }),
    {
        lemma_insert_then_backspace(a.search_input@, a.search_cursor as int, c);
    }

    /// Erasing the character before the search cursor.
    pub open spec fn backspaced(a: Self, b: Self) -> bool {
        &&& b.search_input@ == backspace_text(a.search_input@, a.search_cursor as int)
        &&& b.search_cursor == backspace_cursor(a.search_input@, a.search_cursor as int)
        &&& b == App { search_input: b.search_input, search_cursor: b.search_cursor, ..a }
    }

    /// Erases the character before the search cursor, if any.
    pub fn search_backspace(&mut self)
        requires
            is_boundary(old(self).search_input@, old(self).search_cursor as int),
        ensures
            Self::backspaced(*old(self), *final(self)),
    {
        if self.search_cursor > 0 {
            let cs = chars_of(self.search_input.as_str());
            let k = char_index_at(&cs, self.search_cursor);
            assert(cs@.subrange(0, 0) =~= Seq::<char>::empty());
            let mut out: Vec<char> = Vec::new();
            let mut prev: usize = 0;
            let mut i: usize = 0;
            while i < cs.len()
                invariant
                    0 < k <= cs@.len(),
                    i <= cs@.len(),
                    i < k ==> out@ == cs@.subrange(0, i as int) && prev == byte_len(cs@.subrange(0, i as int)),
                    i >= k ==> out@ == cs@.subrange(0, k - 1) + cs@.subrange(k as int, i as int),
                    i >= k ==> prev == byte_len(cs@.subrange(0, k - 1)),
                    prev <= self.search_cursor,
                    self.search_cursor == byte_len(cs@.subrange(0, k as int)),
                decreases cs.len() - i,
            {
                if i + 1 != k {
                    out.push(cs[i]);
                }
                if i + 1 < k {
                    proof {
                        lemma_byte_len_step(cs@, i as int);
                        lemma_byte_len_prefix(cs@.subrange(0, k as int), i + 1);
                        assert(cs@.subrange(0, k as int).subrange(0, i + 1) =~= cs@.subrange(0, i + 1));
                    }
                    prev = prev + char_byte_width(cs[i]);
                }
                i = i + 1;
                proof {
                    if i < k {
                        assert(out@ =~= cs@.subrange(0, i as int));
                    } else if i == k {
                        assert(out@ =~= cs@.subrange(0, k - 1) + cs@.subrange(k as int, i as int));
                    } else {
                        assert(out@ =~= cs@.subrange(0, k - 1) + cs@.subrange(k as int, i as int));
                    }
                }
            }
            self.search_input = string_of(&out);
            self.search_cursor = prev;
        }
    }

    /// Opening the quality picker for the selected video.
    pub open spec fn entered_quality(a: Self, default_res: u32, b: Self) -> bool {
        if a.selected < a.videos@.len() {
            let v = a.videos@[a.selected as int];
            &&& b.quality_video_url@ == watch_url(v.video_id@)
            &&& b.quality_video_info == Some((v.video_id, v.channel_id, v.author, v.title))
            &&& b == App {
                quality_video_url: b.quality_video_url,
                quality_video_info: b.quality_video_info,
                quality_selected: quality_index_for(default_res),
                state: AppState::Quality,
                ..a
            }
        } else {
            b == a
        }
    }

    /// Opens the quality picker for the selected video, preselecting the highest quality not
    /// above the preferred resolution.
    pub fn enter_quality(&mut self, default_res: u32)
        ensures
            Self::entered_quality(*old(self), default_res, *final(self)),
    {
        if self.selected < self.videos.len() {
            let video = self.videos[self.selected].clone();
            let mut url = "https://www.youtube.com/watch?v=".to_owned();
            url.append(video.video_id.as_str());
            self.quality_video_url = url;
            self.quality_video_info = Some((video.video_id, video.channel_id, video.author, video.title));
            let mut i: usize = 0;
            while i < QUALITY_COUNT && quality_height(i) > default_res
                invariant
                    i <= QUALITY_COUNT,
                    forall|j: int| 0 <= j < i ==> spec_quality_height(j) > default_res,
                decreases QUALITY_COUNT - i,
            {
                i = i + 1;
            }
            proof {
                if i > 0 { assert(spec_quality_height(0) > default_res); }
                if i > 1 { assert(spec_quality_height(1) > default_res); }
                if i > 2 { assert(spec_quality_height(2) > default_res); }
                if i > 3 { assert(spec_quality_height(3) > default_res); }
                if i > 4 { assert(spec_quality_height(4) > default_res); }
                if i > 5 { assert(spec_quality_height(5) > default_res); }
            }
            self.quality_selected = if i < QUALITY_COUNT { i } else { 2 };
            self.state = AppState::Quality;
        }
    }

    /// Following or unfollowing the channel of the selected video.
    pub open spec fn toggled(a: Self, cfg: ConfigView, b: Self, cfg2: ConfigView, changed: bool) -> bool {
        if a.selected < a.videos@.len() && a.videos@[a.selected as int].channel_id@.len() > 0 {
            let v = a.videos@[a.selected as int];
            &&& changed
            &&& b == App { follow_flash: b.follow_flash, ..a }
            &&& if has_id(cfg.channels, v.channel_id@) {
                &&& cfg2 == (ConfigView { channels: unfollowed(cfg.channels, v.channel_id@), ..cfg })
                &&& b.follow_flash matches Some((m, t)) && m@ == "unfollowed "@ + v.author@ && t == a.tick_count
            } else {
                &&& cfg2 == (ConfigView { channels: followed(cfg.channels, v.author@, v.channel_id@), ..cfg })
                &&& b.follow_flash matches Some((m, t)) && m@ == "followed "@ + v.author@ && t == a.tick_count
            }
        } else {
            &&& !changed
            &&& b == a
            &&& cfg2 == cfg
        }
    }

    /// Follows the channel of the selected video, or unfollows it when already followed, and
    /// shows a notice; tells whether the configuration changed (and so must be saved).
    pub fn toggle_follow(&mut self, config: &mut Config) -> (changed: bool)
        ensures
            Self::toggled(*old(self), old(config)@, *final(self), final(config)@, changed),
    {
        if self.selected < self.videos.len() {
            let video = &self.videos[self.selected];
            if video.channel_id.as_str().is_empty() {
                return false;
            }
            if config.has_channel(video.channel_id.as_str()) {
                config.unfollow(video.channel_id.as_str());
                let mut m = "unfollowed ".to_owned();
                m.append(video.author.as_str());
                self.follow_flash = Some((m, self.tick_count));
            } else {
                config.follow(video.author.clone(), video.channel_id.clone());
                let mut m = "followed ".to_owned();
                m.append(video.author.as_str());
                self.follow_flash = Some((m, self.tick_count));
            }
            true
        } else {
            false
        }
    }
}


impl<T> App<T> {
    /// What the application must have for a tick not to overflow its counters.
    pub open spec fn tick_ready(&self) -> bool {
        &&& self.tick_count < u64::MAX
        &&& (self.tick_count + 1) % 4 == 0 ==> self.spinner_frame < usize::MAX
        &&& self.follow_flash matches Some((_, t)) ==> t <= self.tick_count + 1
    }

    /// One frame: the counters advance, the spinner turns every fourth tick, a notice older than
    /// sixty ticks disappears, an arrived thumbnail is kept if it is the awaited one, and a
    /// thumbnail is requested when the selected video is not the one shown.
    pub open spec fn ticked(a: Self, arrived: Option<(String, T)>, b: Self, req: Option<(String, String)>) -> bool {
        let n = (a.tick_count + 1) as u64;
        let spinner = if n % 4 == 0 { ((a.spinner_frame + 1) % 4) as usize } else { a.spinner_frame };
        let flash = match a.follow_flash {
            Some((_, t)) => if n - t > 60 { None } else { a.follow_flash },
            None => None,
        };
        let thumb = match arrived {
            Some((vid, p)) => if vid@ == a.thumbnail_video_id@ { Some(p) } else { a.thumbnail },
            None => a.thumbnail,
        };
        let mid = App { tick_count: n, spinner_frame: spinner, follow_flash: flash, thumbnail: thumb, ..a };
        if a.selected < a.videos@.len() && a.videos@[a.selected as int].video_id@ != a.thumbnail_video_id@
            && a.has_picker {
            let v = a.videos@[a.selected as int];
            &&& b == App { thumbnail_video_id: v.video_id, thumbnail: None, ..mid }
            &&& req == (if v.thumbnail_url@.len() > 0 { Some((v.thumbnail_url, v.video_id)) } else { None })
        } else {
            &&& b == mid
            &&& req is None
        }
    }

    /// Advances one frame. `arrived` is the thumbnail that finished loading since the last frame,
    /// with its video id; the result is the thumbnail to fetch next, as its address and video id.
    pub fn tick(&mut self, arrived: Option<(String, T)>) -> (req: Option<(String, String)>)
        requires
            old(self).tick_ready(),
        ensures
            Self::ticked(*old(self), arrived, *final(self), req),
            forall|cfg: ConfigView| #[trigger] old(self).well_formed(cfg) ==> final(self).well_formed(cfg),
    {
        self.tick_count += 1;
        if self.tick_count % 4 == 0 {
            self.spinner_frame = (self.spinner_frame + 1) % 4;
        }
        let expired = match &self.follow_flash {
            Some((_, started)) => self.tick_count - *started > 60,
            None => false,
        };
        if expired {
            self.follow_flash = None;
        }
        match arrived {
            Some((vid, proto)) => {
                if vid == self.thumbnail_video_id {
                    self.thumbnail = Some(proto);
                }
            },
            None => {},
        }
        if self.selected < self.videos.len() {
            let video = &self.videos[self.selected];
            if video.video_id != self.thumbnail_video_id && self.has_picker {
                let url = video.thumbnail_url.clone();
                let vid = video.video_id.clone();
                self.thumbnail_video_id = vid.clone();
                self.thumbnail = None;
                if url.as_str().is_empty() {
                    return None;
                }
                return Some((url, vid));
            }
        }
        None
    }
}


/// A key as the application distinguishes it.
#[derive(PartialEq, Eq, Structural, Clone, Copy, Debug)]
pub enum Key {
    Char(char),
    Up,
    Down,
    Enter,
    Esc,
    Backspace,
    Delete,
    Other,
}

/// A keyboard event: the key, whether Control was held, and whether it is a press (rather than
/// a release or a repeat).
#[derive(PartialEq, Eq, Structural, Clone, Copy, Debug)]
pub struct KeyPress {
    pub code: Key,
    pub ctrl: bool,
    pub press: bool,
}

/// A video to hand to the player: its address, the yt-dlp format selector, and the details to
/// log once it has been watched.
pub struct PlayRequest {
    pub url: String,
    pub ytdl_format: String,
    pub info: Option<(String, String, String, String)>,
}

/// What the application asks of its surroundings after a key press.
pub enum Action {
    /// Nothing to do.
    Idle,
    /// Leave the application.
    Quit,
    /// Build the feed anew.
    FetchFeed,
    /// Search for this query.
    Search(String),
    /// Play a video.
    Play(PlayRequest),
    /// Save the configuration, which changed.
    SaveConfig,
}

/// The yt-dlp format selector for a maximum video height.
pub open spec fn ytdl_format_for(h: nat) -> Seq<char> {
    "bv*[height<="@ + decimal(h) + "]+ba/b[height<="@ + decimal(h) + "]"@
}

/// Builds the yt-dlp format selector for a maximum video height.
pub fn ytdl_format(height: u32) -> (r: String)
    ensures
        r@ == ytdl_format_for(height as nat),
{
    let h = decimal_string(height as u64);
    let mut r = "bv*[height<=".to_owned();
    r.append(h.as_str());
    r.append("]+ba/b[height<=");
    r.append(h.as_str());
    r.append("]");
    r
}

/// The message shown while a search runs.
pub open spec fn searching_text(q: Seq<char>) -> Seq<char> {
    "searching '"@ + q + "'..."@
}

impl<T> App<T> {
    /// Going back to the loading screen with a status message.
    pub open spec fn reloading(a: Self, msg: Seq<char>, b: Self) -> bool {
        &&& b.status_msg@ == msg
        &&& b == App { state: AppState::Loading, status_msg: b.status_msg, ..a }
    }

    /// What a key does on the feed.
    pub open spec fn feed_key(a: Self, cfg: ConfigView, code: Key, b: Self, cfg2: ConfigView, act: Action) -> bool {
        if code == Key::Char('q') {
            b == a && cfg2 == cfg && act is Quit
        } else if code == Key::Char('j') || code == Key::Down {
            Self::moved_down(a, b) && cfg2 == cfg && act is Idle
        } else if code == Key::Char('k') || code == Key::Up {
            Self::moved_up(a, b) && cfg2 == cfg && act is Idle
        } else if code == Key::Char('/') {
            Self::entered_search(a, b) && cfg2 == cfg && act is Idle
        } else if code == Key::Char('f') {
            Self::toggled(a, cfg, b, cfg2, act is SaveConfig) && (act is SaveConfig || act is Idle)
        } else if code == Key::Char('c') {
            Self::entered_channels(a, b) && cfg2 == cfg && act is Idle
        } else if code == Key::Char('r') {
            Self::reloading(a, "refreshing..."@, b) && cfg2 == cfg && act is FetchFeed
        } else if code == Key::Enter {
            Self::entered_quality(a, cfg.max_resolution, b) && cfg2 == cfg && act is Idle
        } else {
            b == a && cfg2 == cfg && act is Idle
        }
    }

    /// What a key does in the quality picker.
    pub open spec fn quality_key(a: Self, code: Key, b: Self, act: Action) -> bool {
        if code == Key::Esc {
            b == App { state: AppState::Feed, ..a } && act is Idle
        } else if code == Key::Char('j') || code == Key::Down {
            Self::quality_moved_down(a, b) && act is Idle
        } else if code == Key::Char('k') || code == Key::Up {
            Self::quality_moved_up(a, b) && act is Idle
        } else if code == Key::Enter {
            &&& b == App { state: AppState::Feed, ..a }
            &&& act matches Action::Play(p)
            &&& p.url == a.quality_video_url
            &&& p.info == a.quality_video_info
            &&& p.ytdl_format@ == ytdl_format_for(spec_quality_height(a.quality_selected as int) as nat)
        } else {
            b == a && act is Idle
        }
    }

    /// What a key does in the channel list.
    pub open spec fn channels_key(a: Self, cfg: ConfigView, code: Key, b: Self, cfg2: ConfigView, act: Action) -> bool {
        if code == Key::Esc || code == Key::Char('c') {
            b == App { state: AppState::Feed, ..a } && cfg2 == cfg && act is Idle
        } else if code == Key::Char('j') || code == Key::Down {
            Self::channel_moved_down(a, cfg.channels.len() as usize, b) && cfg2 == cfg && act is Idle
        } else if code == Key::Char('k') || code == Key::Up {
            Self::channel_moved_up(a, b) && cfg2 == cfg && act is Idle
        } else if code == Key::Char('d') || code == Key::Delete {
            if cfg.channels.len() > 0 {
                let id = cfg.channels[a.channel_selected as int].id;
                &&& cfg2 == (ConfigView { channels: unfollowed(cfg.channels, id), ..cfg })
                &&& b == App {
                    channel_selected: if a.channel_selected >= cfg2.channels.len() && a.channel_selected > 0 {
                        (a.channel_selected - 1) as usize
                    } else {
                        a.channel_selected
                    },
                    ..a
                }
                &&& act is SaveConfig
            } else {
                b == a && cfg2 == cfg && act is Idle
            }
        } else {
            b == a && cfg2 == cfg && act is Idle
        }
    }

    /// What a key does in the search prompt.
    pub open spec fn search_key(a: Self, code: Key, b: Self, act: Action) -> bool {
        match code {
            Key::Esc => b == App { state: AppState::Feed, ..a } && act is Idle,
            Key::Enter => if a.search_input@.len() > 0 {
                &&& Self::reloading(a, searching_text(a.search_input@), b)
                &&& act matches Action::Search(q) && q@ == a.search_input@
            } else {
                b == a && act is Idle
            },
            Key::Backspace => Self::backspaced(a, b) && act is Idle,
            Key::Char(c) => Self::inserted(a, c, b) && act is Idle,
            _ => b == a && act is Idle,
        }
    }

    /// What a key does on the error screen.
    pub open spec fn error_key(a: Self, code: Key, b: Self, act: Action) -> bool {
        if code == Key::Char('q') {
            b == a && act is Quit
        } else if code == Key::Char('r') {
            Self::reloading(a, "retrying..."@, b) && act is FetchFeed
        } else {
            b == a && act is Idle
        }
    }

    /// What a key event does: releases are ignored, Control-C quits anywhere, and otherwise the
    /// screen decides.
    pub open spec fn key_effect(a: Self, cfg: ConfigView, k: KeyPress, b: Self, cfg2: ConfigView, act: Action) -> bool {
        if !k.press {
            b == a && cfg2 == cfg && act is Idle
        } else if k.ctrl && k.code == Key::Char('c') {
            b == a && cfg2 == cfg && act is Quit
        } else {
            match a.state {
                AppState::Loading => b == a && cfg2 == cfg && (if k.code == Key::Char('q') { act is Quit } else { act is Idle }),
                AppState::Feed => Self::feed_key(a, cfg, k.code, b, cfg2, act),
                AppState::Quality => Self::quality_key(a, k.code, b, act) && cfg2 == cfg,
                AppState::Channels => Self::channels_key(a, cfg, k.code, b, cfg2, act),
                AppState::Search => Self::search_key(a, k.code, b, act) && cfg2 == cfg,
                AppState::Error => Self::error_key(a, k.code, b, act) && cfg2 == cfg,
            }
        }
    }

    /// What a key press needs in order not to fail: a valid quality in the picker, a cursor
    /// between characters with room to type in the search prompt, and a selected channel that
    /// exists in the channel list.
    pub open spec fn key_safe(&self, cfg: ConfigView) -> bool {
        &&& self.state == AppState::Quality ==> self.quality_selected < QUALITY_COUNT
        &&& self.state == AppState::Search ==> is_boundary(self.search_input@, self.search_cursor as int)
            && byte_len(self.search_input@) + 4 <= usize::MAX
        &&& self.state == AppState::Channels && cfg.channels.len() > 0 ==> self.channel_selected < cfg.channels.len()
    }

    /// The invariant the application keeps: a valid quality, the search cursor at the end of the
    /// query, a selected channel that exists while the channel list is open, no two followed
    /// channels with the same id, a selection inside the list of videos, a scroll position not
    /// past the selection, a spinner frame below four, and a notice no newer than the clock.
    pub open spec fn well_formed(&self, cfg: ConfigView) -> bool {
        &&& self.quality_selected < QUALITY_COUNT
        &&& self.search_cursor == byte_len(self.search_input@)
        &&& byte_len(self.search_input@) + 4 <= usize::MAX
        &&& self.state == AppState::Channels && cfg.channels.len() > 0 ==> self.channel_selected < cfg.channels.len()
        &&& distinct_ids(cfg.channels)
        &&& if self.videos@.len() == 0 { self.selected == 0 } else { self.selected < self.videos@.len() }
        &&& self.scroll_offset <= self.selected
        &&& self.spinner_frame < 4
        &&& self.follow_flash matches Some((_, t)) ==> t <= self.tick_count
    }

    /// A well-formed application can take any key.
    pub proof fn lemma_well_formed_key_safe(&self, cfg: ConfigView)
        requires
            self.well_formed(cfg),
        ensures
            self.key_safe(cfg),
    {
        lemma_boundary_unique(self.search_input@, self.search_input@.len() as int);
        assert(self.search_input@.subrange(0, self.search_input@.len() as int) =~= self.search_input@);
    }

    fn clone_info(&self) -> (r: Option<(String, String, String, String)>)
        ensures
            r == self.quality_video_info,
    {
        match &self.quality_video_info {
            Some((a, b, c, d)) => Some((a.clone(), b.clone(), c.clone(), d.clone())),
            None => None,
        }
    }

    /// Handles one keyboard event, changing the application and the configuration, and tells
    /// what must happen next.
    pub fn handle_key(&mut self, config: &mut Config, key: KeyPress) -> (act: Action)
        requires
            old(self).key_safe(old(config)@),
        ensures
            Self::key_effect(*old(self), old(config)@, key, *final(self), final(config)@, act),
            old(self).well_formed(old(config)@) && byte_len(old(self).search_input@) + 8 <= usize::MAX
                ==> final(self).well_formed(final(config)@),
    {
        let ghost a = *self;
        let ghost cfg = config@;
        proof {
            if a.well_formed(cfg) {
                lemma_boundary_unique(a.search_input@, a.search_input@.len() as int);
                assert(a.search_input@.subrange(0, a.search_input@.len() as int) =~= a.search_input@);
            }
        }
        if !key.press {
            return Action::Idle;
        }
        if key.ctrl && key.code == Key::Char('c') {
            return Action::Quit;
        }
        match self.state {
            AppState::Loading => {
                if key.code == Key::Char('q') {
                    Action::Quit
                } else {
                    Action::Idle
                }
            },
            AppState::Feed => {
                match key.code {
                    Key::Char('q') => Action::Quit,
                    Key::Char('j') | Key::Down => {
                        let n = self.videos.len();
                        self.move_down();
                        assert(a.well_formed(cfg) ==> self.scroll_offset <= self.selected);
                        Action::Idle
                    },
                    Key::Char('k') | Key::Up => {
                        self.move_up();
                        assert(a.well_formed(cfg) ==> self.scroll_offset <= self.selected);
                        Action::Idle
                    },
                    Key::Char('/') => {
                        self.enter_search();
                        proof {
                            assert(self.search_input@.subrange(0, 0) =~= Seq::<char>::empty());
                        }
                        Action::Idle
                    },
                    Key::Char('f') => {
                        let changed = self.toggle_follow(config);
                        proof {
                            if a.selected < a.videos@.len() && a.well_formed(cfg) {
                                let v = a.videos@[a.selected as int];
                                lemma_distinct_ids_preserved(cfg.channels, v.author@, v.channel_id@, v.channel_id@);
                            }
                        }
                        if changed {
                            Action::SaveConfig
                        } else {
                            Action::Idle
                        }
                    },
                    Key::Char('c') => {
                        self.enter_channels();
                        Action::Idle
                    },
                    Key::Char('r') => {
                        self.state = AppState::Loading;
                        self.status_msg = "refreshing...".to_owned();
                        Action::FetchFeed
                    },
                    Key::Enter => {
                        self.enter_quality(config.max_resolution);
                        Action::Idle
                    },
                    _ => Action::Idle,
                }
            },
            AppState::Quality => {
                match key.code {
                    Key::Esc => {
                        self.exit_quality();
                        Action::Idle
                    },
                    Key::Char('j') | Key::Down => {
                        self.quality_down();
                        Action::Idle
                    },
                    Key::Char('k') | Key::Up => {
                        self.quality_up();
                        Action::Idle
                    },
                    Key::Enter => {
                        let url = self.quality_video_url.clone();
                        let info = self.clone_info();
                        let height = self.selected_quality();
                        let ytdl_format = ytdl_format(height);
                        self.exit_quality();
                        Action::Play(PlayRequest { url, ytdl_format, info })
                    },
                    _ => Action::Idle,
                }
            },
            AppState::Channels => {
                match key.code {
                    Key::Esc | Key::Char('c') => {
                        self.exit_channels();
                        Action::Idle
                    },
                    Key::Char('j') | Key::Down => {
                        self.channel_down(config.channels.len());
                        Action::Idle
                    },
                    Key::Char('k') | Key::Up => {
                        self.channel_up();
                        Action::Idle
                    },
                    Key::Char('d') | Key::Delete => {
                        if config.channels.len() > 0 {
                            let id = config.channels[self.channel_selected].id.clone();
                            config.unfollow(id.as_str());
                            proof {
                                if a.well_formed(cfg) {
                                    lemma_distinct_ids_preserved(cfg.channels, id@, id@, id@);
                                    lemma_unfollow_one(cfg.channels, a.channel_selected as int);
                                }
                            }
                            if self.channel_selected >= config.channels.len() && self.channel_selected > 0 {
                                self.channel_selected -= 1;
                            }
                            Action::SaveConfig
                        } else {
                            Action::Idle
                        }
                    },
                    _ => Action::Idle,
                }
            },
            AppState::Search => {
                match key.code {
                    Key::Esc => {
                        self.exit_search();
                        Action::Idle
                    },
                    Key::Enter => {
                        if !self.search_input.as_str().is_empty() {
                            let query = self.search_input.clone();
                            self.state = AppState::Loading;
                            let mut msg = "searching '".to_owned();
                            msg.append(query.as_str());
                            msg.append("'...");
                            self.status_msg = msg;
                            Action::Search(query)
                        } else {
                            Action::Idle
                        }
                    },
                    Key::Backspace => {
                        self.search_backspace();
                        proof {
                            if a.well_formed(cfg) && a.search_input@.len() > 0 {
                                let s = a.search_input@;
                                lemma_byte_len_prefix(s, s.len() - 1);
                                assert(s.drop_last() =~= s.subrange(0, s.len() - 1));
                                assert(s.subrange(0, s.len() - 1) + s.subrange(s.len() as int, s.len() as int) =~= s.drop_last());
                            }
                        }
                        Action::Idle
                    },
                    Key::Char(c) => {
                        self.search_insert(c);
                        proof {
                            if a.well_formed(cfg) {
                                let s = a.search_input@;
                                let t = s.subrange(0, s.len() as int).push(c) + s.subrange(s.len() as int, s.len() as int);
                                assert(t =~= s.push(c));
                                assert(s.push(c).drop_last() =~= s);
                            }
                        }
                        Action::Idle
                    },
                    _ => Action::Idle,
                }
            },
            AppState::Error => {
                match key.code {
                    Key::Char('q') => Action::Quit,
                    Key::Char('r') => {
                        self.state = AppState::Loading;
                        self.status_msg = "retrying...".to_owned();
                        Action::FetchFeed
                    },
                    _ => Action::Idle,
                }
            },
        }
    }
}


impl<T> App<T> {
    /// Deleting in the channel list unfollows the selected channel and no other: every channel
    /// with another id stays, none keeps the selected id, and when no two channels share an id
    /// the new list is the old one without the selected entry. The change is saved.
    pub proof fn law_channel_delete_removes_selected(
        a: Self,
        cfg: ConfigView,
        k: KeyPress,
        b: Self,
        cfg2: ConfigView,
        act: Action,
    )
        requires
            Self::key_effect(a, cfg, k, b, cfg2, act),
            a.state == AppState::Channels,
            k.press,
            k.code == Key::Char('d') || k.code == Key::Delete,
            a.channel_selected < cfg.channels.len(),
        ensures
            !has_id(cfg2.channels, cfg.channels[a.channel_selected as int].id),
            forall|c: ChannelView| c.id != cfg.channels[a.channel_selected as int].id
                ==> (cfg2.channels.contains(c) <==> cfg.channels.contains(c)),
            distinct_ids(cfg.channels) ==> cfg2.channels == cfg.channels.remove(a.channel_selected as int),
            cfg2 == (ConfigView { channels: cfg2.channels, ..cfg }),
            act is SaveConfig,
    {
        let id = cfg.channels[a.channel_selected as int].id;
        lemma_unfollow_removes(cfg.channels, id);
        if distinct_ids(cfg.channels) {
            lemma_unfollow_one(cfg.channels, a.channel_selected as int);
        }
    }

    /// The follow key flips whether the selected video's channel is followed, and pressing it a
    /// second time on a channel that was not followed gives back the configuration as it was.
    pub proof fn law_follow_key_toggles(
        a: Self,
        cfg: ConfigView,
        b: Self,
        cfg2: ConfigView,
        changed1: bool,
        c: Self,
        cfg3: ConfigView,
        changed2: bool,
    )
        requires
            Self::toggled(a, cfg, b, cfg2, changed1),
            Self::toggled(b, cfg2, c, cfg3, changed2),
            a.selected < a.videos@.len(),
            a.videos@[a.selected as int].channel_id@.len() > 0,
        ensures
            changed1 && changed2,
            has_id(cfg2.channels, a.videos@[a.selected as int].channel_id@)
                == !has_id(cfg.channels, a.videos@[a.selected as int].channel_id@),
            has_id(cfg3.channels, a.videos@[a.selected as int].channel_id@)
                == has_id(cfg.channels, a.videos@[a.selected as int].channel_id@),
            !has_id(cfg.channels, a.videos@[a.selected as int].channel_id@) ==> cfg3 == cfg,
    {
        let v = a.videos@[a.selected as int];
        let id = v.channel_id@;
        if has_id(cfg.channels, id) {
            lemma_unfollow_removes(cfg.channels, id);
            lemma_follow_then_followed(cfg2.channels, v.author@, id);
        } else {
            lemma_follow_then_followed(cfg.channels, v.author@, id);
            lemma_unfollow_removes(cfg2.channels, id);
            lemma_follow_unfollow_roundtrip(cfg.channels, v.author@, id);
        }
    }

    /// Enter on the feed opens the quality picker for the selected video with the highest
    /// quality not above the configured maximum resolution preselected (1080p when every option
    /// is above it), and changes nothing else in the configuration.
    pub proof fn law_enter_preselects_configured_quality(
        a: Self,
        cfg: ConfigView,
        k: KeyPress,
        b: Self,
        cfg2: ConfigView,
        act: Action,
    )
        requires
            Self::key_effect(a, cfg, k, b, cfg2, act),
            a.state == AppState::Feed,
            k.press,
            k.code == Key::Enter,
            a.selected < a.videos@.len(),
        ensures
            b.state == AppState::Quality,
            b.quality_selected < QUALITY_COUNT,
            (exists|j: int| 0 <= j < QUALITY_COUNT && #[trigger] spec_quality_height(j) <= cfg.max_resolution) ==> {
                &&& spec_quality_height(b.quality_selected as int) <= cfg.max_resolution
                &&& forall|j: int| 0 <= j < b.quality_selected ==> #[trigger] spec_quality_height(j) > cfg.max_resolution
            },
            (forall|j: int| 0 <= j < QUALITY_COUNT ==> #[trigger] spec_quality_height(j) > cfg.max_resolution)
                ==> spec_quality_height(b.quality_selected as int) == 1080,
            b.quality_video_url@ == watch_url(a.videos@[a.selected as int].video_id@),
            cfg2 == cfg,
            act is Idle,
    {
        lemma_quality_index_for(cfg.max_resolution);
        if cfg.max_resolution < 360 {
            assert(spec_quality_height(5) > cfg.max_resolution);
        }
    }
}

impl<T> App<T> {
    /// Takes in the background worker's report: a feed is shown with its origin, an error is
    /// shown as such; `None` means the worker stopped without reporting.
    pub fn receive(&mut self, msg: Option<WorkerMsg>)
        ensures
            match msg {
                Some(WorkerMsg::Videos(vs, kind)) => {
                    &&& final(self).thumbnail_video_id@ == Seq::<char>::empty()
                    &&& *final(self) == (App {
                        videos: vs,
                        feed_kind: kind,
                        selected: 0,
                        scroll_offset: 0,
                        thumbnail: None,
                        thumbnail_video_id: final(self).thumbnail_video_id,
                        state: AppState::Feed,
                        ..*old(self)
                    })
                },
                Some(WorkerMsg::Error(e)) => *final(self) == (App { error_msg: e, state: AppState::Error, ..*old(self) }),
                None => {
                    &&& final(self).error_msg@ == "worker disconnected"@
                    &&& *final(self) == (App { error_msg: final(self).error_msg, state: AppState::Error, ..*old(self) })
                },
            },
            forall|cfg: ConfigView| #[trigger] old(self).well_formed(cfg) ==> final(self).well_formed(cfg),
    {
        match msg {
            Some(WorkerMsg::Videos(videos, kind)) => {
                self.feed_kind = kind;
                self.set_videos(videos);
            },
            Some(WorkerMsg::Error(e)) => {
                self.set_error(e);
            },
            None => {
                self.set_error("worker disconnected".to_owned());
            },
        }
    }
}

} // verus!

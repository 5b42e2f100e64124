//! What the screen shows, computed apart from the drawing itself.

use vstd::prelude::*;
use crate::api::Video;
use crate::app::{App, AppState, FeedKind, duration_text, format_duration};
use crate::config::{Config, has_id};
use crate::text::decimal;
use crate::text::decimal_string;

verus! {

/// The title in the header frame for a screen.
pub open spec fn spec_header_title(state: AppState) -> Seq<char> {
    match state {
        AppState::Search => " search "@,
        AppState::Channels => " channels "@,
        _ => " cathode"@,
    }
}

/// The title in the header frame for a screen.
pub fn header_title(state: AppState) -> (r: &'static str)
    ensures
        r@ == spec_header_title(state),
{
    match state {
        AppState::Search => " search ",
        AppState::Channels => " channels ",
        _ => " cathode",
    }
}

/// Texts joined with a separator between each two.
pub open spec fn joined(parts: Seq<Seq<char>>, sep: Seq<char>) -> Seq<char>
    decreases parts.len(),
{
    if parts.len() == 0 {
        seq![]
    } else if parts.len() == 1 {
        parts[0]
    } else {
        joined(parts.drop_last(), sep) + sep + parts.last()
    }
}

/// The header's description of a feed: its origin, or the channels a curated feed sampled.
pub open spec fn spec_feed_label(kind: FeedKind) -> Seq<char> {
    match kind {
        FeedKind::Trending => "trending"@,
        FeedKind::Subscriptions => "subscriptions"@,
        FeedKind::Curated(names) => joined(names@.map_values(|n: String| n@), " · "@),
    }
}

/// Describes where the feed came from.
pub fn feed_label(kind: &FeedKind) -> (r: String)
    ensures
        r@ == spec_feed_label(*kind),
{
    match kind {
        FeedKind::Trending => "trending".to_owned(),
        FeedKind::Subscriptions => "subscriptions".to_owned(),
        FeedKind::Curated(names) => {
            let ghost parts = names@.map_values(|n: String| n@);
            let mut out = String::new();
            let mut i: usize = 0;
            while i < names.len()
                invariant
                    i <= names@.len(),
                    parts == names@.map_values(|n: String| n@),
                    out@ == joined(parts.subrange(0, i as int), " · "@),
                decreases names.len() - i,
            {
                assert(parts.subrange(0, i + 1).drop_last() =~= parts.subrange(0, i as int));
                if i > 0 {
                    out.append(" · ");
                }
                out.append(names[i].as_str());
                proof {
                    if i == 0 {
                        assert(out@ =~= joined(parts.subrange(0, 1), " · "@));
                    }
                }
                i = i + 1;
            }
            assert(parts.subrange(0, parts.len() as int) =~= parts);
            out
        },
    }
}

/// The header's count of videos.
pub fn video_count_text(n: usize) -> (r: String)
    ensures
        r@ == "  "@ + decimal(n as nat) + " videos"@,
{
    let mut r = "  ".to_owned();
    r.append(decimal_string(n as u64).as_str());
    r.append(" videos");
    r
}

/// The header's count of followed channels.
pub fn followed_count_text(n: usize) -> (r: String)
    ensures
        r@ == decimal(n as nat) + " followed"@,
{
    let mut r = decimal_string(n as u64);
    r.append(" followed");
    r
}

/// How a piece of the header is drawn.
#[derive(PartialEq, Eq, Structural, Clone, Copy, Debug)]
pub enum HeaderStyle {
    /// Text being typed.
    Input,
    /// The blinking mark after the typed text.
    Cursor,
    /// Quiet information.
    Dim,
    /// A notice that something just changed.
    Notice,
}

/// The pieces of the header's line for a screen: the search text with its cursor mark while
/// searching, the count of followed channels on the channel list, else the feed's description
/// and video count, followed by the current notice if there is one.
pub open spec fn spec_header_text<T>(app: App<T>, followed: nat) -> Seq<(Seq<char>, HeaderStyle)> {
    match app.state {
        AppState::Search => seq![(app.search_input@, HeaderStyle::Input), ("_"@, HeaderStyle::Cursor)],
        AppState::Channels => seq![(decimal(followed) + " followed"@, HeaderStyle::Dim)],
        _ => {
            let base = seq![
                (spec_feed_label(app.feed_kind), HeaderStyle::Dim),
                ("  "@ + decimal(app.videos@.len()) + " videos"@, HeaderStyle::Dim),
            ];
            match app.follow_flash {
                Some((msg, _)) => base + seq![("  "@, HeaderStyle::Dim), (msg@, HeaderStyle::Notice)],
                None => base,
            }
        },
    }
}

/// On the feed screens the header shows the feed's description and the number of videos in
/// the feed, whatever the configuration holds; only the channel list shows the followed count,
/// and only the search prompt shows the typed text.
pub proof fn law_header_counts_feed_videos<T>(app: App<T>, followed: nat, other: nat)
    ensures
        app.state != AppState::Channels ==> spec_header_text(app, followed) == spec_header_text(app, other),
        app.state != AppState::Search && app.state != AppState::Channels ==> {
            &&& spec_header_text(app, followed).len() >= 2
            &&& spec_header_text(app, followed)[0] == (spec_feed_label(app.feed_kind), HeaderStyle::Dim)
            &&& spec_header_text(app, followed)[1] == ("  "@ + decimal(app.videos@.len()) + " videos"@, HeaderStyle::Dim)
        },
        app.state == AppState::Channels ==> spec_header_text(app, followed)[0].0 == decimal(followed) + " followed"@,
        app.state == AppState::Search ==> spec_header_text(app, followed)[0] == (app.search_input@, HeaderStyle::Input),
{
}

/// The views of the header's pieces.
pub open spec fn pieces_view(ps: Seq<(String, HeaderStyle)>) -> Seq<(Seq<char>, HeaderStyle)> {
    ps.map_values(|p: (String, HeaderStyle)| (p.0@, p.1))
}

/// The pieces of the header's line, each with how it is drawn.
pub fn header_text<T>(app: &App<T>, config: &Config) -> (r: Vec<(String, HeaderStyle)>)
    ensures
        pieces_view(r@) == spec_header_text(*app, config.channels@.len()),
{
    let mut v: Vec<(String, HeaderStyle)> = Vec::new();
    match app.state {
        AppState::Search => {
            v.push((app.search_input.clone(), HeaderStyle::Input));
            v.push(("_".to_owned(), HeaderStyle::Cursor));
        },
        AppState::Channels => {
            v.push((followed_count_text(config.channels.len()), HeaderStyle::Dim));
        },
        _ => {
            v.push((feed_label(&app.feed_kind), HeaderStyle::Dim));
            v.push((video_count_text(app.videos.len()), HeaderStyle::Dim));
            match &app.follow_flash {
                Some((msg, _)) => {
                    v.push(("  ".to_owned(), HeaderStyle::Dim));
                    v.push((msg.clone(), HeaderStyle::Notice));
                },
                None => {},
            }
        },
    }
    proof {
        reveal_strlit("_");
        reveal_strlit("  ");
    }
    assert(pieces_view(v@) =~= spec_header_text(*app, config.channels@.len()));
    v
}

/// The second line of a video row: channel, duration and view count, then the publication
/// note when there is one, separated by middle dots.
pub open spec fn spec_video_meta(v: Video, views: Seq<char>) -> Seq<char> {
    let meta = v.author@ + " · "@ + duration_text(v.duration_secs as nat) + " · "@ + views;
    if v.published_text@.len() == 0 {
        meta
    } else {
        meta + " · "@ + v.published_text@
    }
}

/// Builds the second line of a video row, given the view count as shown.
pub fn video_meta(v: &Video, views: &str) -> (r: String)
    ensures
        r@ == spec_video_meta(*v, views@),
{
    let mut r = v.author.clone();
    r.append(" · ");
    r.append(format_duration(v.duration_secs).as_str());
    r.append(" · ");
    r.append(views);
    if !v.published_text.as_str().is_empty() {
        r.append(" · ");
        r.append(v.published_text.as_str());
    }
    r
}

/// Whether a row shows the follow mark: the video's channel is known and followed.
pub fn shows_follow_mark(v: &Video, config: &Config) -> (r: bool)
    ensures
        r == (v.channel_id@.len() > 0 && has_id(config@.channels, v.channel_id@)),
{
    !v.channel_id.as_str().is_empty() && config.has_channel(v.channel_id.as_str())
}

/// The marker in front of a row.
pub fn row_marker(selected: bool) -> (r: &'static str)
    ensures
        r@ == (if selected { "▸ "@ } else { "  "@ }),
{
    if selected { "▸ " } else { "  " }
}

/// The first row shown in a list of `height` rows: the stored position, moved just enough to
/// keep the selection on screen.
pub open spec fn spec_list_scroll(selected: int, scroll: int, height: int) -> int {
    if selected >= scroll + height {
        selected - height + 1
    } else if selected < scroll {
        selected
    } else {
        scroll
    }
}

/// The first row to show in a list of `height` rows.
pub fn list_scroll(selected: usize, scroll: usize, height: usize) -> (r: usize)
    requires
        scroll + height <= usize::MAX,
        height > 0 || selected < usize::MAX,
    ensures
        r == spec_list_scroll(selected as int, scroll as int, height as int),
{
    if selected >= scroll + height {
        selected - height + 1
    } else if selected < scroll {
        selected
    } else {
        scroll
    }
}

/// The selected row is always among the rows shown (when any row is shown).
pub proof fn lemma_list_scroll_shows_selection(selected: int, scroll: int, height: int)
    requires
        height > 0,
        0 <= selected,
        0 <= scroll,
    ensures
        spec_list_scroll(selected, scroll, height) <= selected < spec_list_scroll(selected, scroll, height) + height,
        spec_list_scroll(selected, scroll, height) >= 0,
{
}

/// The rows a list of `len` entries shows from row `start` in `height` rows: from `start` up to
/// the end of the list or of the screen, whichever comes first.
pub fn visible_rows(len: usize, start: usize, height: usize) -> (r: (usize, usize))
    ensures
        r.0 == (if start < len { start } else { len }),
        r.1 == (if r.0 + height < len { r.0 + height } else { len as int }),
        r.0 <= r.1 <= len,
{
    let first = if start < len { start } else { len };
    let last = if height < len - first { first + height } else { len };
    (first, last)
}

/// The width of the thumbnail column: 30% of the area between 20 and 40 columns when there is a
/// thumbnail to show and the area is wider than 60 columns, else none.
pub open spec fn spec_thumb_width(has_thumbnail: bool, width: u16) -> u16 {
    if has_thumbnail && width > 60 {
        let w = (width * 30 / 100) as u16;
        if w < 20 { 20 } else if w > 40 { 40 } else { w }
    } else {
        0
    }
}

/// Computes the width of the thumbnail column.
pub fn thumb_width(has_thumbnail: bool, width: u16) -> (r: u16)
    requires
        has_thumbnail && width > 60 ==> width * 30 <= u16::MAX,
    ensures
        r == spec_thumb_width(has_thumbnail, width),
{
    if has_thumbnail && width > 60 {
        let w = width * 30 / 100;
        if w < 20 { 20 } else if w > 40 { 40 } else { w }
    } else {
        0
    }
}

/// The placement of the quality picker: 22 columns by 8 rows, centered (as far as the area allows).
pub fn quality_popup(width: u16, height: u16) -> (r: (u16, u16, u16, u16))
    ensures
        r.2 == 22,
        r.3 == 8,
        r.0 == (if width >= 22 { (width - 22) / 2 } else { 0 }),
        r.1 == (if height >= 8 { (height - 8) / 2 } else { 0 }),
{
    let h: u16 = 8;
    let w: u16 = 22;
    let x = width.saturating_sub(w) / 2;
    let y = height.saturating_sub(h) / 2;
    (x, y, w, h)
}

/// The glyph of a spinner frame.
pub open spec fn spec_spinner(frame: int) -> Seq<char> {
    if frame == 0 { "⠋"@ } else if frame == 1 { "⠙"@ } else if frame == 2 { "⠹"@ } else { "⠸"@ }
}

/// The glyph of a spinner frame.
pub fn spinner_glyph(frame: usize) -> (r: &'static str)
    requires
        frame < 4,
    ensures
        r@ == spec_spinner(frame as int),
{
    if frame == 0 { "⠋" } else if frame == 1 { "⠙" } else if frame == 2 { "⠹" } else { "⠸" }
}

/// The key hints in the status bar for a screen, as key and description.
pub open spec fn spec_status_hints(state: AppState) -> Seq<(Seq<char>, Seq<char>)> {
    match state {
        AppState::Loading => seq![(""@, "loading..."@)],
        AppState::Feed => seq![
            ("j/k"@, "navigate"@),
            ("Enter"@, "play"@),
            ("f"@, "follow"@),
            ("c"@, "channels"@),
            ("/"@, "search"@),
            ("r"@, "refresh"@),
            ("q"@, "quit"@),
        ],
        AppState::Search => seq![("Enter"@, "search"@), ("Esc"@, "back"@)],
        AppState::Quality => seq![("j/k"@, "select"@), ("Enter"@, "play"@), ("Esc"@, "back"@)],
        AppState::Channels => seq![("j/k"@, "navigate"@), ("d"@, "remove"@), ("Esc"@, "back"@)],
        AppState::Error => seq![("r"@, "retry"@), ("q"@, "quit"@)],
    }
}

/// The views of a list of key hints.
pub open spec fn hints_view(hs: Seq<(&'static str, &'static str)>) -> Seq<(Seq<char>, Seq<char>)> {
    hs.map_values(|h: (&'static str, &'static str)| (h.0@, h.1@))
}

/// The key hints in the status bar for a screen.
pub fn status_hints(state: AppState) -> (r: Vec<(&'static str, &'static str)>)
    ensures
        hints_view(r@) == spec_status_hints(state),
{
    let mut v: Vec<(&'static str, &'static str)> = Vec::new();
    match state {
        AppState::Loading => {
            v.push(("", "loading..."));
        },
        AppState::Feed => {
            v.push(("j/k", "navigate"));
            v.push(("Enter", "play"));
            v.push(("f", "follow"));
            v.push(("c", "channels"));
            v.push(("/", "search"));
            v.push(("r", "refresh"));
            v.push(("q", "quit"));
        },
        AppState::Search => {
            v.push(("Enter", "search"));
            v.push(("Esc", "back"));
        },
        AppState::Quality => {
            v.push(("j/k", "select"));
            v.push(("Enter", "play"));
            v.push(("Esc", "back"));
        },
        AppState::Channels => {
            v.push(("j/k", "navigate"));
            v.push(("d", "remove"));
            v.push(("Esc", "back"));
        },
        AppState::Error => {
            v.push(("r", "retry"));
            v.push(("q", "quit"));
        },
    }
    assert(hints_view(v@) =~= spec_status_hints(state));
    v
}

} // verus!

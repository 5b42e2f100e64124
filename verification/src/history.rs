//! The watch history and what it says about the viewer's interests.

use vstd::prelude::*;
use std::path::PathBuf;
use crate::text::{same_chars, tokenize, tokens};

verus! {

/// A file system path of `std`, carried but not looked into.
#[verifier::external_type_specification]
#[verifier::external_body]
pub struct ExPathBuf(PathBuf);

/// One watched video.
pub struct WatchEntry {
    pub video_id: String,
    pub channel_id: String,
    pub channel_name: String,
    pub title: String,
    pub query: String,
    /// Seconds since the Unix epoch when it was logged.
    pub timestamp: u64,
    /// How long the player ran, in seconds.
    pub duration_secs: u64,
}

impl Clone for WatchEntry {
    fn clone(&self) -> (r: Self)
        ensures
            r == *self,
    {
        WatchEntry {
            video_id: self.video_id.clone(),
            channel_id: self.channel_id.clone(),
            channel_name: self.channel_name.clone(),
            title: self.title.clone(),
            query: self.query.clone(),
            timestamp: self.timestamp,
            duration_secs: self.duration_secs,
        }
    }
}

/// The watch history, oldest first, and the file it is kept in.
pub struct History {
    entries: Vec<WatchEntry>,
    path: PathBuf,
}

/// Seconds since the Unix epoch by the system clock (zero for a clock set before it), through
/// `SystemTime::now` and `SystemTime::duration_since`; nothing is stated of the value.
#[verifier::external_body]
fn now() -> u64 {
    std::time::SystemTime::now().duration_since(std::time::UNIX_EPOCH).unwrap_or_default().as_secs()
}

/// Words too common to say anything about a viewer's interests.
pub open spec fn is_stop(w: Seq<char>) -> bool {
    ||| w == "the"@
    ||| w == "and"@
    ||| w == "for"@
    ||| w == "are"@
    ||| w == "but"@
    ||| w == "not"@
    ||| w == "you"@
    ||| w == "all"@
    ||| w == "can"@
    ||| w == "had"@
    ||| w == "her"@
    ||| w == "was"@
    ||| w == "one"@
    ||| w == "our"@
    ||| w == "out"@
    ||| w == "has"@
    ||| w == "his"@
    ||| w == "how"@
    ||| w == "its"@
    ||| w == "may"@
    ||| w == "new"@
    ||| w == "now"@
    ||| w == "old"@
    ||| w == "see"@
    ||| w == "way"@
    ||| w == "who"@
    ||| w == "did"@
    ||| w == "get"@
    ||| w == "got"@
    ||| w == "let"@
    ||| w == "say"@
    ||| w == "she"@
    ||| w == "too"@
    ||| w == "use"@
    ||| w == "with"@
    ||| w == "this"@
    ||| w == "that"@
    ||| w == "from"@
    ||| w == "they"@
    ||| w == "been"@
    ||| w == "have"@
    ||| w == "many"@
    ||| w == "some"@
    ||| w == "them"@
    ||| w == "than"@
    ||| w == "what"@
    ||| w == "when"@
    ||| w == "will"@
    ||| w == "more"@
    ||| w == "make"@
    ||| w == "like"@
    ||| w == "just"@
    ||| w == "over"@
    ||| w == "such"@
    ||| w == "take"@
    ||| w == "into"@
    ||| w == "most"@
    ||| w == "very"@
    ||| w == "your"@
    ||| w == "also"@
    ||| w == "about"@
    ||| w == "would"@
    ||| w == "there"@
    ||| w == "their"@
    ||| w == "which"@
    ||| w == "could"@
    ||| w == "other"@
    ||| w == "were"@
    ||| w == "then"@
    ||| w == "after"@
    ||| w == "should"@
    ||| w == "video"@
    ||| w == "official"@
    ||| w == "music"@
}

/// Whether a word is too common to count as a topic.
pub fn is_stopword(w: &str) -> (r: bool)
    ensures
        r == is_stop(w@),
{
    same_chars(w, "the") ||
        same_chars(w, "and") ||
        same_chars(w, "for") ||
        same_chars(w, "are") ||
        same_chars(w, "but") ||
        same_chars(w, "not") ||
        same_chars(w, "you") ||
        same_chars(w, "all") ||
        same_chars(w, "can") ||
        same_chars(w, "had") ||
        same_chars(w, "her") ||
        same_chars(w, "was") ||
        same_chars(w, "one") ||
        same_chars(w, "our") ||
        same_chars(w, "out") ||
        same_chars(w, "has") ||
        same_chars(w, "his") ||
        same_chars(w, "how") ||
        same_chars(w, "its") ||
        same_chars(w, "may") ||
        same_chars(w, "new") ||
        same_chars(w, "now") ||
        same_chars(w, "old") ||
        same_chars(w, "see") ||
        same_chars(w, "way") ||
        same_chars(w, "who") ||
        same_chars(w, "did") ||
        same_chars(w, "get") ||
        same_chars(w, "got") ||
        same_chars(w, "let") ||
        same_chars(w, "say") ||
        same_chars(w, "she") ||
        same_chars(w, "too") ||
        same_chars(w, "use") ||
        same_chars(w, "with") ||
        same_chars(w, "this") ||
        same_chars(w, "that") ||
        same_chars(w, "from") ||
        same_chars(w, "they") ||
        same_chars(w, "been") ||
        same_chars(w, "have") ||
        same_chars(w, "many") ||
        same_chars(w, "some") ||
        same_chars(w, "them") ||
        same_chars(w, "than") ||
        same_chars(w, "what") ||
        same_chars(w, "when") ||
        same_chars(w, "will") ||
        same_chars(w, "more") ||
        same_chars(w, "make") ||
        same_chars(w, "like") ||
        same_chars(w, "just") ||
        same_chars(w, "over") ||
        same_chars(w, "such") ||
        same_chars(w, "take") ||
        same_chars(w, "into") ||
        same_chars(w, "most") ||
        same_chars(w, "very") ||
        same_chars(w, "your") ||
        same_chars(w, "also") ||
        same_chars(w, "about") ||
        same_chars(w, "would") ||
        same_chars(w, "there") ||
        same_chars(w, "their") ||
        same_chars(w, "which") ||
        same_chars(w, "could") ||
        same_chars(w, "other") ||
        same_chars(w, "were") ||
        same_chars(w, "then") ||
        same_chars(w, "after") ||
        same_chars(w, "should") ||
        same_chars(w, "video") ||
        same_chars(w, "official") ||
        same_chars(w, "music")
}

/// The topic words of a title: its tokens that are not stop words, in order.
pub open spec fn keywords_of(ts: Seq<Seq<char>>) -> Seq<Seq<char>>
    decreases ts.len(),
{
    if ts.len() == 0 {
        seq![]
    } else if is_stop(ts.last()) {
        keywords_of(ts.drop_last())
    } else {
        keywords_of(ts.drop_last()).push(ts.last())
    }
}

/// The topic words of a title (its tokens that are not stop words).
pub fn title_keywords(title: &str) -> (r: Vec<String>)
    ensures
        r@.len() == keywords_of(tokens(title@)).len(),
        forall|i: int| 0 <= i < r@.len() ==> #[trigger] r@[i]@ == keywords_of(tokens(title@))[i],
{
    let ts = tokenize(title);
    let ghost tv = tokens(title@);
    let mut r: Vec<String> = Vec::new();
    let mut i: usize = 0;
    while i < ts.len()
        invariant
            i <= ts@.len(),
            ts@.len() == tv.len(),
            forall|j: int| 0 <= j < ts@.len() ==> #[trigger] ts@[j]@ == tv[j],
            r@.len() == keywords_of(tv.subrange(0, i as int)).len(),
            forall|j: int| 0 <= j < r@.len() ==> #[trigger] r@[j]@ == keywords_of(tv.subrange(0, i as int))[j],
        decreases ts.len() - i,
    {
        assert(tv.subrange(0, i + 1).drop_last() =~= tv.subrange(0, i as int));
        assert(tv.subrange(0, i + 1).last() == tv[i as int]);
        if !is_stopword(ts[i].as_str()) {
            r.push(ts[i].clone());
        }
        i = i + 1;
    }
    assert(tv.subrange(0, tv.len() as int) =~= tv);
    r
}

/// Every topic word is a token of the title and not a stop word.
pub proof fn lemma_keywords_are_tokens(ts: Seq<Seq<char>>)
    ensures
        keywords_of(ts).len() <= ts.len(),
        forall|i: int| 0 <= i < keywords_of(ts).len() ==> !is_stop(#[trigger] keywords_of(ts)[i]) && ts.contains(keywords_of(ts)[i]),
    decreases ts.len(),
{
    if ts.len() > 0 {
        let p = ts.drop_last();
        lemma_keywords_are_tokens(p);
        let k = keywords_of(ts);
        let kp = keywords_of(p);
        assert forall|i: int| 0 <= i < k.len() implies !is_stop(#[trigger] k[i]) && ts.contains(k[i]) by {
            if i < kp.len() {
                assert(k[i] == kp[i]);
                assert(p.contains(kp[i]));
                let m = choose|m: int| 0 <= m < p.len() && p[m] == kp[i];
                assert(ts[m] == p[m]);
            } else {
                assert(ts[ts.len() - 1] == k[i]);
            }
        }
    }
}

/// How long ago, in seconds, a moment was; zero for a moment not before `current`.
pub open spec fn age(current: u64, t: u64) -> u64 {
    if current >= t { (current - t) as u64 } else { 0 }
}

/// For each watch of a known channel, oldest first: the channel id, the watch's age and how
/// long it ran.
pub open spec fn channel_signals(es: Seq<WatchEntry>, current: u64) -> Seq<(Seq<char>, u64, u64)>
    decreases es.len(),
{
    if es.len() == 0 {
        seq![]
    } else {
        let e = es.last();
        let rest = channel_signals(es.drop_last(), current);
        if e.channel_id@.len() > 0 {
            rest.push((e.channel_id@, age(current, e.timestamp), e.duration_secs))
        } else {
            rest
        }
    }
}

/// For each topic word of each watched title, oldest watch first: the word and the watch's age.
pub open spec fn keyword_signals(es: Seq<WatchEntry>, current: u64) -> Seq<(Seq<char>, u64)>
    decreases es.len(),
{
    if es.len() == 0 {
        seq![]
    } else {
        let e = es.last();
        keyword_signals(es.drop_last(), current)
            + keywords_of(tokens(e.title@)).map_values(|w: Seq<char>| (w, age(current, e.timestamp)))
    }
}

impl History {
    /// A history holding these entries, kept in the file at `path`.
    pub fn new(entries: Vec<WatchEntry>, path: PathBuf) -> (h: History)
        ensures
            h.entries() == entries@,
            h.file() == path,
    {
        History { entries, path }
    }

    /// The entries, oldest first.
    pub closed spec fn entries(&self) -> Seq<WatchEntry> {
        self.entries@
    }

    /// The entries, oldest first.
    pub fn entry_list(&self) -> (r: &Vec<WatchEntry>)
        ensures
            r@ == self.entries(),
    {
        &self.entries
    }

    /// The file the history is kept in.
    pub closed spec fn file(&self) -> PathBuf {
        self.path
    }

    /// The file the history is kept in.
    pub fn path(&self) -> (p: &PathBuf)
        ensures
            *p == self.file(),
    {
        &self.path
    }

    /// The data channel affinity is computed from: for each watch of a known channel, its
    /// channel id, how many seconds before `current` it was logged, and how long it ran.
    pub fn channel_watch_ages(&self, current: u64) -> (r: Vec<(String, u64, u64)>)
        ensures
            r@.len() == channel_signals(self.entries(), current).len(),
            forall|i: int| 0 <= i < r@.len() ==> {
                let (c, a, d) = #[trigger] channel_signals(self.entries(), current)[i];
                r@[i].0@ == c && r@[i].1 == a && r@[i].2 == d
            },
    {
        let ghost es = self.entries@;
        let mut r: Vec<(String, u64, u64)> = Vec::new();
        let mut i: usize = 0;
        while i < self.entries.len()
            invariant
                i <= es.len(),
                es == self.entries@,
                r@.len() == channel_signals(es.subrange(0, i as int), current).len(),
                forall|j: int| 0 <= j < r@.len() ==> {
                    let (c, a, d) = #[trigger] channel_signals(es.subrange(0, i as int), current)[j];
                    r@[j].0@ == c && r@[j].1 == a && r@[j].2 == d
                },
            decreases es.len() - i,
        {
            assert(es.subrange(0, i + 1).drop_last() =~= es.subrange(0, i as int));
            let e = &self.entries[i];
            if !e.channel_id.as_str().is_empty() {
                let a = current.saturating_sub(e.timestamp);
                r.push((e.channel_id.clone(), a, e.duration_secs));
            }
            i = i + 1;
        }
        assert(es.subrange(0, es.len() as int) =~= es);
        r
    }

    /// The data channel affinity is computed from, as of the system clock: the moment used, in
    /// seconds since the Unix epoch, and `channel_watch_ages` at that moment.
    pub fn channel_watch_ages_now(&self) -> (r: (u64, Vec<(String, u64, u64)>))
        ensures
            r.1@.len() == channel_signals(self.entries(), r.0).len(),
            forall|i: int| 0 <= i < r.1@.len() ==> {
                let (c, a, d) = #[trigger] channel_signals(self.entries(), r.0)[i];
                r.1@[i].0@ == c && r.1@[i].1 == a && r.1@[i].2 == d
            },
    {
        let t = now();
        (t, self.channel_watch_ages(t))
    }

    /// The data topic keywords are ranked from, as of the system clock: the moment used and
    /// `keyword_ages` at that moment.
    pub fn keyword_ages_now(&self) -> (r: (u64, Vec<(String, u64)>))
        ensures
            r.1@.len() == keyword_signals(self.entries(), r.0).len(),
            forall|i: int| 0 <= i < r.1@.len() ==> {
                let (w, a) = #[trigger] keyword_signals(self.entries(), r.0)[i];
                r.1@[i].0@ == w && r.1@[i].1 == a
            },
    {
        let t = now();
        (t, self.keyword_ages(t))
    }

    /// The data topic keywords are ranked from: every topic word of every watched title, with
    /// how many seconds before `current` the watch was logged.
    pub fn keyword_ages(&self, current: u64) -> (r: Vec<(String, u64)>)
        ensures
            r@.len() == keyword_signals(self.entries(), current).len(),
            forall|i: int| 0 <= i < r@.len() ==> {
                let (w, a) = #[trigger] keyword_signals(self.entries(), current)[i];
                r@[i].0@ == w && r@[i].1 == a
            },
    {
        let ghost es = self.entries@;
        let mut r: Vec<(String, u64)> = Vec::new();
        let mut i: usize = 0;
        while i < self.entries.len()
            invariant
                i <= es.len(),
                es == self.entries@,
                r@.len() == keyword_signals(es.subrange(0, i as int), current).len(),
                forall|j: int| 0 <= j < r@.len() ==> {
                    let (w, a) = #[trigger] keyword_signals(es.subrange(0, i as int), current)[j];
                    r@[j].0@ == w && r@[j].1 == a
                },
            decreases es.len() - i,
        {
            assert(es.subrange(0, i + 1).drop_last() =~= es.subrange(0, i as int));
            let e = &self.entries[i];
            let a = current.saturating_sub(e.timestamp);
            let ws = title_keywords(e.title.as_str());
            let ghost kw = keywords_of(tokens(e.title@));
            let ghost prev = keyword_signals(es.subrange(0, i as int), current);
            let ghost start_len = r@.len();
            let ghost target = prev + kw.map_values(|x: Seq<char>| (x, a));
            let mut j: usize = 0;
            while j < ws.len()
                invariant
                    j <= ws@.len(),
                    ws@.len() == kw.len(),
                    forall|m: int| 0 <= m < ws@.len() ==> #[trigger] ws@[m]@ == kw[m],
                    start_len == prev.len(),
                    target == prev + kw.map_values(|x: Seq<char>| (x, a)),
                    forall|m: int| 0 <= m < start_len ==> {
                        let (w, b) = #[trigger] prev[m];
                        r@[m].0@ == w && r@[m].1 == b
                    },
                    r@.len() == start_len + j,
                    forall|m: int| 0 <= m < r@.len() ==> {
                        let (w, b) = #[trigger] target[m];
                        r@[m].0@ == w && r@[m].1 == b
                    },
                decreases ws.len() - j,
            {
                r.push((ws[j].clone(), a));
                j = j + 1;
            }
            assert(keyword_signals(es.subrange(0, i + 1), current) == target);
            i = i + 1;
        }
        assert(es.subrange(0, es.len() as int) =~= es);
        r
    }

    /// Appends a watch, logged at `timestamp` (seconds since the Unix epoch), to the history,
    /// and gives the entry back so that it can be written to the history file.
    pub fn log_watch_at(
        &mut self,
        video_id: &str,
        channel_id: &str,
        channel_name: &str,
        title: &str,
        query: &str,
        duration_secs: u64,
        timestamp: u64,
    ) -> (entry: WatchEntry)
        ensures
            final(self).entries() == old(self).entries().push(entry),
            final(self).file() == old(self).file(),
            entry.video_id@ == video_id@,
            entry.channel_id@ == channel_id@,
            entry.channel_name@ == channel_name@,
            entry.title@ == title@,
            entry.query@ == query@,
            entry.timestamp == timestamp,
            entry.duration_secs == duration_secs,
    {
        let entry = WatchEntry {
            video_id: video_id.to_owned(),
            channel_id: channel_id.to_owned(),
            channel_name: channel_name.to_owned(),
            title: title.to_owned(),
            query: query.to_owned(),
            timestamp,
            duration_secs,
        };
        self.entries.push(entry.clone());
        entry
    }

    /// Appends a watch to the history, stamped with the system clock (see `log_watch_at`), and
    /// gives the entry back so that it can be written to the history file.
    pub fn log_watch(
        &mut self,
        video_id: &str,
        channel_id: &str,
        channel_name: &str,
        title: &str,
        query: &str,
        duration_secs: u64,
    ) -> (entry: WatchEntry)
        ensures
            final(self).entries() == old(self).entries().push(entry),
            final(self).file() == old(self).file(),
            entry.video_id@ == video_id@,
            entry.channel_id@ == channel_id@,
            entry.channel_name@ == channel_name@,
            entry.title@ == title@,
            entry.query@ == query@,
            entry.duration_secs == duration_secs,
    {
        let t = now();
        self.log_watch_at(video_id, channel_id, channel_name, title, query, duration_secs, t)
    }
}

} // verus!

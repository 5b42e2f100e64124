use vstd::prelude::*;
use crate::api::Video;
use crate::app::FeedKind;
use crate::config::{Config, ChannelView, channels_view};
use crate::text::same_chars;

verus! {

/// One step of the xorshift generator on a state that is never zero.
pub open spec fn xorshift_step(x: u64) -> u64 {
    let a = x ^ (x << 13u64);
    let b = a ^ (a >> 7u64);
    b ^ (b << 17u64)
}

/// The generator's transition: a zero state is first replaced by one.
pub open spec fn spec_xorshift(x: u64) -> u64 {
    xorshift_step(if x == 0 { 1u64 } else { x })
}

/// Advances the xorshift pseudo-random state.
pub fn xorshift(x: u64) -> (r: u64)
    ensures
        r == spec_xorshift(x),
{
    let mut x = x;
    if x == 0 {
        x = 1;
    }
    x ^= x << 13;
    x ^= x >> 7;
    x ^= x << 17;
    x
}

/// The generator never yields zero, so the state stream never collapses.
pub proof fn lemma_xorshift_nonzero(x: u64)
    ensures
        spec_xorshift(x) != 0,
{
    let y: u64 = if x == 0 { 1u64 } else { x };
    assert(y != 0 ==> xorshift_step(y) != 0) by (bit_vector);
}


/// Swaps each element with the next when the generator's next value is a multiple of four,
/// walking from the front; gives the reordered list and the generator state.
pub open spec fn shuffle_from<T>(s: Seq<T>, rng: u64, i: nat) -> (Seq<T>, u64)
    decreases s.len() - i,
{
    if i + 1 >= s.len() {
        (s, rng)
    } else {
        let r = spec_xorshift(rng);
        let s2 = if r % 4 == 0 { s.update(i as int, s[i + 1 as int]).update(i + 1 as int, s[i as int]) } else { s };
        shuffle_from(s2, r, i + 1)
    }
}

/// The light shuffle of a ranked list: neighbours swap places with probability one in four.
pub open spec fn light_shuffled<T>(s: Seq<T>, rng: u64) -> Seq<T> {
    shuffle_from(s, rng, 0).0
}

/// Loosens a ranked list by swapping neighbours, each pair with probability one in four,
/// drawing from the xorshift generator seeded with `rng`.
pub fn light_shuffle<T>(items: Vec<T>, rng: u64) -> (r: Vec<T>)
    ensures
        r@ == light_shuffled(items@, rng),
{
    let mut v = items;
    let ghost seed = rng;
    let ghost orig = v@;
    let mut rng = rng;
    let n = v.len();
    if n == 0 {
        return v;
    }
    let mut i: usize = 0;
    while i < n - 1
        invariant
            n == v@.len(),
            n > 0,
            i <= n - 1,
            shuffle_from(v@, rng, i as nat) == shuffle_from(orig, seed, 0),
        decreases n - 1 - i,
    {
        let ghost before = v@;
        rng = xorshift(rng);
        if rng % 4 == 0 {
            let x = v.remove(i);
            v.insert(i + 1, x);
            assert(v@ =~= before.update(i as int, before[i + 1]).update(i + 1, before[i as int]));
        }
        i = i + 1;
    }
    v
}


proof fn lemma_swap_next_multiset<T>(s: Seq<T>, i: int)
    requires
        0 <= i,
        i + 1 < s.len(),
    ensures
        s.update(i, s[i + 1]).update(i + 1, s[i]).to_multiset() == s.to_multiset(),
        s.update(i, s[i + 1]).update(i + 1, s[i]).len() == s.len(),
{
    broadcast use vstd::seq_lib::to_multiset_update, vstd::multiset::group_multiset_axioms, vstd::seq_lib::to_multiset_contains;
    let a = s[i];
    let b = s[i + 1];
    let s1 = s.update(i, b);
    assert(s1[i + 1] == b);
    let m = s.to_multiset();
    assert(s.contains(a));
    assert(s1.to_multiset() == m.insert(b).remove(a));
    assert(s1.update(i + 1, a).to_multiset() == s1.to_multiset().insert(a).remove(b));
    assert(m.insert(b).remove(a).insert(a).remove(b) =~= m);
}

proof fn lemma_shuffle_from_permutes<T>(s: Seq<T>, rng: u64, i: nat)
    ensures
        shuffle_from(s, rng, i).0.len() == s.len(),
        shuffle_from(s, rng, i).0.to_multiset() == s.to_multiset(),
    decreases s.len() - i,
{
    if i + 1 < s.len() {
        let r = spec_xorshift(rng);
        if r % 4 == 0 {
            lemma_swap_next_multiset(s, i as int);
            lemma_shuffle_from_permutes(s.update(i as int, s[i + 1 as int]).update(i + 1 as int, s[i as int]), r, i + 1);
        } else {
            lemma_shuffle_from_permutes(s, r, i + 1);
        }
    }
}

/// The light shuffle only reorders: every item keeps its number of occurrences.
pub proof fn lemma_light_shuffle_permutes<T>(s: Seq<T>, rng: u64)
    ensures
        light_shuffled(s, rng).len() == s.len(),
        light_shuffled(s, rng).to_multiset() == s.to_multiset(),
{
    lemma_shuffle_from_permutes(s, rng, 0);
}


/// A subscribed channel, as listed in a subscriptions export.
pub struct Subscription {
    pub channel_id: String,
}

/// The error type of the `csv` crate, carried but not looked into.
#[verifier::external_type_specification]
#[verifier::external_body]
pub struct ExCsvError(csv::Error);

/// The records that the `csv` crate reads from a text with its default settings (a header
/// row, comma separators, double-quote quoting, records of equal length), each as its fields;
/// none when the reader reports an error.
pub uninterp spec fn csv_records(data: Seq<u8>) -> Option<Seq<Seq<Seq<char>>>>;

/// The fields of parsed records, as text.
pub open spec fn records_view(rs: Seq<Vec<String>>) -> Seq<Seq<Seq<char>>> {
    rs.map_values(|r: Vec<String>| r@.map_values(|f: String| f@))
}

/// Reads every record after the header row with `csv::Reader::from_reader` and
/// `Reader::records`, stopping at the first error; the records' contents are the named result
/// `csv_records`, not stated here.
#[verifier::external_body]
fn read_csv_records(data: &[u8]) -> (r: Result<Vec<Vec<String>>, csv::Error>)
    ensures
        r is Ok <==> csv_records(data@) is Some,
        r matches Ok(rs) ==> records_view(rs@) == csv_records(data@)->0,
{
    csv::Reader::from_reader(data)
        .records()
        .map(|rec| rec.map(|rec| rec.iter().map(String::from).collect()))
        .collect()
}

/// The channel ids of a subscriptions export: the first field of every record that has one.
pub open spec fn first_fields(rs: Seq<Seq<Seq<char>>>) -> Seq<Seq<char>>
    decreases rs.len(),
{
    if rs.len() == 0 {
        seq![]
    } else if rs.last().len() > 0 {
        first_fields(rs.drop_last()).push(rs.last()[0])
    } else {
        first_fields(rs.drop_last())
    }
}

/// The channel ids a subscriptions export lists; none when it cannot be read.
pub open spec fn subscription_ids(data: Seq<u8>) -> Seq<Seq<char>> {
    match csv_records(data) {
        Some(rs) => first_fields(rs),
        None => seq![],
    }
}

/// The subscriptions that parsed records list: one for the first field of every record that
/// has a field, in order.
pub fn subscriptions_from_records(rs: &Vec<Vec<String>>) -> (subs: Vec<Subscription>)
    ensures
        subs@.len() == first_fields(records_view(rs@)).len(),
        forall|i: int| 0 <= i < subs@.len() ==> #[trigger] subs@[i].channel_id@ == first_fields(records_view(rs@))[i],
{
    let mut subs: Vec<Subscription> = Vec::new();
    let ghost rv = records_view(rs@);
    let mut i: usize = 0;
    while i < rs.len()
        invariant
            i <= rs@.len(),
            rv == records_view(rs@),
            subs@.len() == first_fields(rv.subrange(0, i as int)).len(),
            forall|j: int| 0 <= j < subs@.len() ==> #[trigger] subs@[j].channel_id@ == first_fields(rv.subrange(0, i as int))[j],
        decreases rs.len() - i,
    {
        assert(rv.subrange(0, i + 1).drop_last() =~= rv.subrange(0, i as int));
        assert(rv[i as int] == rs@[i as int]@.map_values(|f: String| f@));
        if rs[i].len() > 0 {
            let id = rs[i][0].clone();
            subs.push(Subscription { channel_id: id });
        }
        i = i + 1;
    }
    assert(rv.subrange(0, rv.len() as int) =~= rv);
    subs
}

/// Reads the subscriptions in a CSV export (the channel id in the first column after a header
/// row); a file that cannot be read as CSV gives no subscriptions.
pub fn parse_subscriptions(data: &[u8]) -> (subs: Vec<Subscription>)
    ensures
        subs@.len() == subscription_ids(data@).len(),
        forall|i: int| 0 <= i < subs@.len() ==> #[trigger] subs@[i].channel_id@ == subscription_ids(data@)[i],
{
    match read_csv_records(data) {
        Err(_) => Vec::new(),
        Ok(rs) => subscriptions_from_records(&rs),
    }
}

/// A feed assembled from sampled channels and searches, with the names of the channels that
/// answered.
pub struct CuratedFeed {
    pub videos: Vec<Video>,
    pub sampled_channels: Vec<String>,
}

/// The saved search a curated feed uses: drawn with the next generator value, none when there
/// are no saved searches; with the generator state after the draw.
pub fn pick_search_query(searches: &Vec<String>, rng: u64) -> (r: (Option<String>, u64))
    ensures
        searches@.len() == 0 ==> r.0 is None && r.1 == rng,
        searches@.len() > 0 ==> {
            let next = spec_xorshift(rng);
            &&& r.1 == next
            &&& r.0 == Some(searches@[((next as usize) as int) % (searches@.len() as int)])
        },
{
    if searches.len() == 0 {
        (None, rng)
    } else {
        let next = xorshift(rng);
        let idx = (next as usize) % searches.len();
        (Some(searches[idx].clone()), next)
    }
}

/// The contribution of one sampled channel: its first three videos and its name when the
/// listing succeeded, nothing otherwise.
pub fn channel_batch(listing: Option<Vec<Video>>, name: String) -> (r: (Vec<Video>, Option<String>))
    ensures
        listing matches Some(vs) ==> r.0@ == vs@.subrange(0, if vs@.len() < 3 { vs@.len() as int } else { 3 }) && r.1 == Some(name),
        listing is None ==> r.0@.len() == 0 && r.1 is None,
{
    match listing {
        Some(vs) => {
            let mut vs = vs;
            vs.truncate(3);
            (vs, Some(name))
        },
        None => (Vec::new(), None),
    }
}

/// The contribution of the saved search: its first five results, nothing when it failed.
pub fn search_batch(listing: Option<Vec<Video>>) -> (r: Vec<Video>)
    ensures
        listing matches Some(vs) ==> r@ == vs@.subrange(0, if vs@.len() < 5 { vs@.len() as int } else { 5 }),
        listing is None ==> r@.len() == 0,
{
    match listing {
        Some(vs) => {
            let mut vs = vs;
            vs.truncate(5);
            vs
        },
        None => Vec::new(),
    }
}

/// Whether a video comes from a known channel that was never watched.
pub open spec fn is_novel(v: Video, watched: Seq<Seq<char>>) -> bool {
    v.channel_id@.len() > 0 && !watched.contains(v.channel_id@)
}

/// The first videos (at most `limit`) from channels never watched, in order.
pub open spec fn novel_prefix(vs: Seq<Video>, watched: Seq<Seq<char>>, limit: nat) -> Seq<Video>
    decreases vs.len(),
{
    if vs.len() == 0 || limit == 0 {
        seq![]
    } else if is_novel(vs[0], watched) {
        seq![vs[0]] + novel_prefix(vs.drop_first(), watched, (limit - 1) as nat)
    } else {
        novel_prefix(vs.drop_first(), watched, limit)
    }
}

fn contains_text(list: &Vec<String>, x: &str) -> (r: bool)
    ensures
        r == list@.map_values(|s: String| s@).contains(x@),
{
    let ghost lv = list@.map_values(|s: String| s@);
    let mut i: usize = 0;
    while i < list.len()
        invariant
            i <= list@.len(),
            lv == list@.map_values(|s: String| s@),
            forall|j: int| 0 <= j < i ==> lv[j] != x@,
        decreases list.len() - i,
    {
        if same_chars(list[i].as_str(), x) {
            assert(lv[i as int] == x@);
            return true;
        }
        i = i + 1;
    }
    false
}

/// The serendipity pick: the first two results from channels never watched.
pub fn novel_videos(videos: Vec<Video>, watched: &Vec<String>) -> (r: Vec<Video>)
    ensures
        r@ == novel_prefix(videos@, watched@.map_values(|s: String| s@), 2),
{
    let ghost w = watched@.map_values(|s: String| s@);
    let mut r: Vec<Video> = Vec::new();
    let mut i: usize = 0;
    let mut left: usize = 2;
    assert(videos@.subrange(0, videos@.len() as int) =~= videos@);
    assert(r@ + novel_prefix(videos@, w, 2) =~= novel_prefix(videos@, w, 2));
    while i < videos.len() && left > 0
        invariant
            i <= videos@.len(),
            left <= 2,
            w == watched@.map_values(|s: String| s@),
            r@ + novel_prefix(videos@.subrange(i as int, videos@.len() as int), w, left as nat)
                == novel_prefix(videos@, w, 2),
        decreases videos.len() - i,
    {
        let ghost rest = videos@.subrange(i as int, videos@.len() as int);
        assert(rest.drop_first() =~= videos@.subrange(i + 1, videos@.len() as int));
        let v = &videos[i];
        if !v.channel_id.as_str().is_empty() && !contains_text(watched, v.channel_id.as_str()) {
            r.push(v.clone());
            left = left - 1;
            assert(r@ + novel_prefix(videos@.subrange(i + 1, videos@.len() as int), w, left as nat)
                =~= novel_prefix(videos@, w, 2));
        } else {
            assert(!is_novel(rest[0], w));
        }
        i = i + 1;
    }
    proof {
        let rest = videos@.subrange(i as int, videos@.len() as int);
        assert(novel_prefix(rest, w, left as nat) =~= Seq::<Video>::empty());
        assert(r@ + Seq::<Video>::empty() =~= r@);
    }
    r
}

/// A listing a curated feed fetches.
pub enum FetchJob {
    /// The uploads of a sampled channel.
    Channel { id: String, name: String },
    /// A saved search.
    Search(String),
    /// A search for channels never watched.
    Serendipity(String),
}

/// The listings a curated feed fetches, in order: the sampled channels, then the saved search
/// drawn with the generator (when there are saved searches), then the serendipity search (when
/// there is one).
pub open spec fn jobs_describe(
    jobs: Seq<FetchJob>,
    channels: Seq<ChannelView>,
    selected: Seq<usize>,
    searches: Seq<String>,
    rng: u64,
    serendipity: Option<String>,
) -> bool {
    let n = selected.len();
    let search_count: int = if searches.len() > 0 { 1 } else { 0 };
    &&& jobs.len() == n + search_count + (if serendipity is Some { 1int } else { 0int })
    &&& forall|i: int| 0 <= i < n ==> (#[trigger] jobs[i] matches FetchJob::Channel { id, name }
        && id@ == channels[selected[i] as int].id && name@ == channels[selected[i] as int].name)
    &&& searches.len() > 0 ==> (jobs[n as int] matches FetchJob::Search(q)
        && q == searches[((spec_xorshift(rng) as usize) as int) % (searches.len() as int)])
    &&& serendipity matches Some(q) ==> (jobs[n + search_count] matches FetchJob::Serendipity(r) && r == q)
}

/// Lays out the listings a curated feed fetches; also gives the generator state after the draw
/// of the saved search.
pub fn curated_jobs(config: &Config, selected: &Vec<usize>, rng: u64, serendipity: &Option<String>) -> (r: (Vec<FetchJob>, u64))
    requires
        forall|i: int| 0 <= i < selected@.len() ==> #[trigger] selected@[i] < config.channels@.len(),
    ensures
        jobs_describe(r.0@, config@.channels, selected@, config.searches@, rng, *serendipity),
        r.1 == (if config.searches@.len() > 0 { spec_xorshift(rng) } else { rng }),
{
    let ghost cs = config@.channels;
    let mut jobs: Vec<FetchJob> = Vec::new();
    let mut i: usize = 0;
    while i < selected.len()
        invariant
            i <= selected@.len(),
            cs == channels_view(config.channels@),
            forall|k: int| 0 <= k < selected@.len() ==> #[trigger] selected@[k] < config.channels@.len(),
            jobs@.len() == i,
            forall|k: int| 0 <= k < i ==> (#[trigger] jobs@[k] matches FetchJob::Channel { id, name }
                && id@ == cs[selected@[k] as int].id && name@ == cs[selected@[k] as int].name),
        decreases selected.len() - i,
    {
        let c = &config.channels[selected[i]];
        jobs.push(FetchJob::Channel { id: c.id.clone(), name: c.name.clone() });
        i = i + 1;
    }
    let (query, next) = pick_search_query(&config.searches, rng);
    match query {
        Some(q) => jobs.push(FetchJob::Search(q)),
        None => {},
    }
    match serendipity {
        Some(q) => jobs.push(FetchJob::Serendipity(q.clone())),
        None => {},
    }
    (jobs, next)
}

/// What a fetched listing contributes to a curated feed: a channel's first three videos and its
/// name, the saved search's first five results, or the serendipity search's first two results
/// from channels never watched; `None` when the fetch failed.
pub fn job_batch(job: FetchJob, listing: Option<Vec<Video>>, watched: &Vec<String>) -> (r: (Vec<Video>, Option<String>))
    ensures
        job matches FetchJob::Channel { name, .. } ==> {
            &&& listing matches Some(vs) ==> r.0@ == vs@.subrange(0, if vs@.len() < 3 { vs@.len() as int } else { 3 }) && r.1 == Some(name)
            &&& listing is None ==> r.0@.len() == 0 && r.1 is None
        },
        job is Search ==> {
            &&& r.1 is None
            &&& listing matches Some(vs) ==> r.0@ == vs@.subrange(0, if vs@.len() < 5 { vs@.len() as int } else { 5 })
            &&& listing is None ==> r.0@.len() == 0
        },
        job is Serendipity ==> {
            &&& r.1 is None
            &&& listing matches Some(vs) ==> r.0@ == novel_prefix(vs@, watched@.map_values(|s: String| s@), 2)
            &&& listing is None ==> r.0@.len() == 0
        },
{
    match job {
        FetchJob::Channel { name, .. } => channel_batch(listing, name),
        FetchJob::Search(_) => (search_batch(listing), None),
        FetchJob::Serendipity(_) => match listing {
            Some(vs) => (novel_videos(vs, watched), None),
            None => (Vec::new(), None),
        },
    }
}

/// All the videos of the batches, in batch order, and the names that came with them.
pub open spec fn gathered_videos(bs: Seq<(Vec<Video>, Option<String>)>) -> Seq<Video>
    decreases bs.len(),
{
    if bs.len() == 0 { seq![] } else { gathered_videos(bs.drop_last()) + bs.last().0@ }
}

/// The names that came with the batches, in batch order.
pub open spec fn gathered_names(bs: Seq<(Vec<Video>, Option<String>)>) -> Seq<String>
    decreases bs.len(),
{
    if bs.len() == 0 {
        seq![]
    } else {
        match bs.last().1 {
            Some(n) => gathered_names(bs.drop_last()).push(n),
            None => gathered_names(bs.drop_last()),
        }
    }
}

/// Joins the batches of fetched videos in order, collecting the channel names that came with them.
pub fn gather(batches: &Vec<(Vec<Video>, Option<String>)>) -> (r: (Vec<Video>, Vec<String>))
    ensures
        r.0@ == gathered_videos(batches@),
        r.1@ == gathered_names(batches@),
{
    let ghost bs = batches@;
    let mut videos: Vec<Video> = Vec::new();
    let mut names: Vec<String> = Vec::new();
    let mut i: usize = 0;
    while i < batches.len()
        invariant
            i <= bs.len(),
            bs == batches@,
            videos@ == gathered_videos(bs.subrange(0, i as int)),
            names@ == gathered_names(bs.subrange(0, i as int)),
        decreases batches.len() - i,
    {
        assert(bs.subrange(0, i + 1).drop_last() =~= bs.subrange(0, i as int));
        let vs = &batches[i].0;
        let ghost start = videos@;
        let mut j: usize = 0;
        while j < vs.len()
            invariant
                j <= vs@.len(),
                videos@ == start + vs@.subrange(0, j as int),
            decreases vs.len() - j,
        {
            videos.push(vs[j].clone());
            j = j + 1;
            assert(videos@ =~= start + vs@.subrange(0, j as int));
        }
        assert(vs@.subrange(0, vs@.len() as int) =~= vs@);
        match &batches[i].1 {
            Some(nm) => names.push(nm.clone()),
            None => {},
        }
        i = i + 1;
    }
    assert(bs.subrange(0, bs.len() as int) =~= bs);
    (videos, names)
}


/// Every video the serendipity pick keeps is from a channel never watched, and it keeps at
/// most `limit` of them.
pub proof fn lemma_novel_prefix(vs: Seq<Video>, watched: Seq<Seq<char>>, limit: nat)
    ensures
        novel_prefix(vs, watched, limit).len() <= limit,
        forall|i: int| 0 <= i < novel_prefix(vs, watched, limit).len()
            ==> is_novel(#[trigger] novel_prefix(vs, watched, limit)[i], watched),
    decreases vs.len(),
{
    if vs.len() > 0 && limit > 0 {
        if is_novel(vs[0], watched) {
            lemma_novel_prefix(vs.drop_first(), watched, (limit - 1) as nat);
            let r = novel_prefix(vs, watched, limit);
            let t = novel_prefix(vs.drop_first(), watched, (limit - 1) as nat);
            assert forall|i: int| 0 <= i < r.len() implies is_novel(#[trigger] r[i], watched) by {
                if i > 0 {
                    assert(r[i] == t[i - 1]);
                }
            }
        } else {
            lemma_novel_prefix(vs.drop_first(), watched, limit);
        }
    }
}

/// What the background worker reports: a feed and where it came from, or an error message.
pub enum WorkerMsg {
    Videos(Vec<Video>, FeedKind),
    Error(String),
}

/// A place a feed can be built from, in the order they are tried.
#[derive(PartialEq, Eq, Structural, Clone, Copy, Debug)]
pub enum FeedSource {
    Subscriptions,
    Curated,
    Trending,
}

/// After trying a source: the report to send, or the next source to try.
pub enum FeedStep {
    Send(WorkerMsg),
    Next(FeedSource),
}

/// The first source to try: the subscriptions export when it lists channels, else the followed
/// channels when there are any, else the popular listing.
pub open spec fn spec_first_source(has_subscriptions: bool, has_channels: bool) -> FeedSource {
    if has_subscriptions {
        FeedSource::Subscriptions
    } else if has_channels {
        FeedSource::Curated
    } else {
        FeedSource::Trending
    }
}

/// Chooses the first source to build a feed from.
pub fn first_feed_source(has_subscriptions: bool, has_channels: bool) -> (s: FeedSource)
    ensures
        s == spec_first_source(has_subscriptions, has_channels),
{
    if has_subscriptions {
        FeedSource::Subscriptions
    } else if has_channels {
        FeedSource::Curated
    } else {
        FeedSource::Trending
    }
}

/// The subscriptions export is always tried first when it lists channels, whatever the
/// followed channels are; the followed channels are tried first only without subscriptions,
/// and the popular listing only when there is neither.
pub proof fn law_subscriptions_tried_first(has_subscriptions: bool, has_channels: bool)
    ensures
        has_subscriptions ==> spec_first_source(has_subscriptions, has_channels) == FeedSource::Subscriptions,
        spec_first_source(has_subscriptions, has_channels) == FeedSource::Curated <==> !has_subscriptions && has_channels,
        spec_first_source(has_subscriptions, has_channels) == FeedSource::Trending <==> !has_subscriptions && !has_channels,
{
}

/// After the subscriptions: their videos when there are any, else the next source.
pub fn after_subscriptions(videos: Vec<Video>, has_channels: bool) -> (step: FeedStep)
    ensures
        videos@.len() > 0 ==> (step matches FeedStep::Send(WorkerMsg::Videos(vs, FeedKind::Subscriptions)) && vs == videos),
        videos@.len() == 0 ==> (step matches FeedStep::Next(s) && s == (if has_channels { FeedSource::Curated } else { FeedSource::Trending })),
{
    if videos.len() > 0 {
        FeedStep::Send(WorkerMsg::Videos(videos, FeedKind::Subscriptions))
    } else if has_channels {
        FeedStep::Next(FeedSource::Curated)
    } else {
        FeedStep::Next(FeedSource::Trending)
    }
}

/// After the curated feed: it when it has videos, with the channels that answered, else the
/// popular listing.
pub fn after_curated(feed: CuratedFeed) -> (step: FeedStep)
    ensures
        feed.videos@.len() > 0 ==> (step matches FeedStep::Send(WorkerMsg::Videos(vs, FeedKind::Curated(names)))
            && vs == feed.videos && names == feed.sampled_channels),
        feed.videos@.len() == 0 ==> step matches FeedStep::Next(FeedSource::Trending),
{
    if feed.videos.len() > 0 {
        FeedStep::Send(WorkerMsg::Videos(feed.videos, FeedKind::Curated(feed.sampled_channels)))
    } else {
        FeedStep::Next(FeedSource::Trending)
    }
}

/// The report for a plain listing (the popular videos or a search): its videos, shown as the
/// popular feed, or the error message.
pub fn listing_message(listing: Result<Vec<Video>, String>) -> (m: WorkerMsg)
    ensures
        listing matches Ok(vs) ==> (m matches WorkerMsg::Videos(ws, FeedKind::Trending) && ws == vs),
        listing matches Err(e) ==> (m matches WorkerMsg::Error(f) && f == e),
{
    match listing {
        Ok(vs) => WorkerMsg::Videos(vs, FeedKind::Trending),
        Err(e) => WorkerMsg::Error(e),
    }
}

} // verus!

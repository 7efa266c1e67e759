//! YouTube Data and Analytics API: channels as reported, analytics queries
//! and the summary read from a report row.
use vstd::prelude::*;
use crate::text::{append_str, chars_of, join_with, opt_str, parse_u64, parse_u64_spec, string_of};

verus! {

/// A YouTube channel.
pub struct YouTubeChannel {
    pub id: String,
    pub title: String,
    pub description: String,
    pub custom_url: Option<String>,
    pub thumbnail_url: Option<String>,
    pub subscriber_count: Option<u64>,
    pub video_count: Option<u64>,
    pub view_count: Option<u64>,
}

/// A channel's statistics.
pub struct ChannelStatistics {
    pub view_count: Option<u64>,
    pub subscriber_count: Option<u64>,
    pub video_count: Option<u64>,
    pub hidden_subscriber_count: Option<bool>,
}

/// An Analytics report request.
pub struct AnalyticsQuery {
    pub start_date: String,
    pub end_date: String,
    pub metrics: Vec<String>,
    pub dimensions: Option<Vec<String>>,
}

/// The fields of a channel item that are text (absent or not text: `None`).
pub struct ChannelItem {
    pub id: Option<String>,
    pub title: Option<String>,
    pub description: Option<String>,
    pub custom_url: Option<String>,
    pub thumbnail_url: Option<String>,
    pub subscriber_count: Option<String>,
    pub video_count: Option<String>,
    pub view_count: Option<String>,
}

/// The text, or empty.
pub open spec fn or_empty(o: Option<String>) -> Seq<char> {
    match o {
        Some(s) => s@,
        None => Seq::empty(),
    }
}

/// A count as the API reports it: a decimal text read as a `u64`.
pub open spec fn count_of(o: Option<String>) -> Option<u64> {
    match o {
        Some(s) => parse_u64_spec(s@),
        None => None,
    }
}

fn text_or_empty(o: Option<String>) -> (r: String)
    ensures
        r@ == or_empty(o),
{
    match o {
        Some(s) => s,
        None => String::new(),
    }
}

fn count(o: &Option<String>) -> (r: Option<u64>)
    ensures
        r == count_of(*o),
{
    match o {
        Some(s) => {
            let c = chars_of(s.as_str());
            parse_u64(&c)
        },
        None => None,
    }
}

/// A channel from an API item: missing texts are empty, counts are read
/// from their decimal texts (`None` when missing or unreadable).
pub fn channel_from_item(item: ChannelItem) -> (r: YouTubeChannel)
    ensures
        r.id@ == or_empty(item.id),
        r.title@ == or_empty(item.title),
        r.description@ == or_empty(item.description),
        opt_str(r.custom_url) == opt_str(item.custom_url),
        opt_str(r.thumbnail_url) == opt_str(item.thumbnail_url),
        r.subscriber_count == count_of(item.subscriber_count),
        r.video_count == count_of(item.video_count),
        r.view_count == count_of(item.view_count),
{
    let subscriber_count = count(&item.subscriber_count);
    let video_count = count(&item.video_count);
    let view_count = count(&item.view_count);
    YouTubeChannel {
        id: text_or_empty(item.id),
        title: text_or_empty(item.title),
        description: text_or_empty(item.description),
        custom_url: item.custom_url,
        thumbnail_url: item.thumbnail_url,
        subscriber_count,
        video_count,
        view_count,
    }
}

/// The texts of `v`.
pub open spec fn texts(v: Seq<String>) -> Seq<Seq<char>> {
    v.map_values(|s: String| s@)
}

fn join_comma(v: &Vec<String>) -> (r: String)
    ensures
        r@ == join_with(texts(v@), ","@),
{
    let ghost all = texts(v@);
    let mut out: Vec<char> = Vec::new();
    let mut i: usize = 0;
    assert(all.take(0) =~= Seq::<Seq<char>>::empty());
    while i < v.len()
        invariant
            i <= v@.len(),
            all == texts(v@),
            out@ == join_with(all.take(i as int), ","@),
        decreases v.len() - i,
    {
        assert(all.take(i + 1).drop_last() =~= all.take(i as int));
        assert(all[i as int] == v@[i as int]@);
        if i > 0 {
            append_str(&mut out, ",");
        } else {
            assert(out@ =~= Seq::<char>::empty());
        }
        append_str(&mut out, v[i].as_str());
        i = i + 1;
        proof {
            if i == 1 {
                assert(out@ =~= all.take(1)[0]);
            }
        }
    }
    assert(all.take(i as int) =~= all);
    string_of(&out)
}

/// The parameters of an Analytics report request: the channel as
/// `channel==<id>`, the dates, the metrics joined with `,`, and the
/// dimensions joined with `,` when there are any.
pub fn analytics_params(channel_id: &str, q: &AnalyticsQuery) -> (r: Vec<(String, String)>)
    ensures
        r@.len() == (if q.dimensions is Some { 5int } else { 4int }),
        r@[0].0@ == "ids"@ && r@[0].1@ == "channel=="@ + channel_id@,
        r@[1].0@ == "startDate"@ && r@[1].1@ == q.start_date@,
        r@[2].0@ == "endDate"@ && r@[2].1@ == q.end_date@,
        r@[3].0@ == "metrics"@ && r@[3].1@ == join_with(texts(q.metrics@), ","@),
        q.dimensions matches Some(d) ==> r@[4].0@ == "dimensions"@ && r@[4].1@ == join_with(texts(d@), ","@),
{
    let mut ids = chars_of("channel==");
    append_str(&mut ids, channel_id);
    let mut v: Vec<(String, String)> = Vec::new();
    v.push(("ids".to_owned(), string_of(&ids)));
    v.push(("startDate".to_owned(), q.start_date.clone()));
    v.push(("endDate".to_owned(), q.end_date.clone()));
    v.push(("metrics".to_owned(), join_comma(&q.metrics)));
    match &q.dimensions {
        Some(d) => v.push(("dimensions".to_owned(), join_comma(d))),
        None => {},
    }
    v
}

/// The metrics of the channel summary, in report order.
pub open spec fn summary_metrics() -> Seq<Seq<char>> {
    seq![
        "views"@,
        "estimatedMinutesWatched"@,
        "subscribersGained"@,
        "subscribersLost"@,
        "averageViewDuration"@,
        "likes"@,
        "comments"@,
        "shares"@,
    ]
}

/// The summary query for a date range, without dimensions.
pub fn summary_query(start_date: &str, end_date: &str) -> (r: AnalyticsQuery)
    ensures
        r.start_date@ == start_date@,
        r.end_date@ == end_date@,
        texts(r.metrics@) == summary_metrics(),
        r.dimensions is None,
{
    let mut metrics: Vec<String> = Vec::new();
    metrics.push("views".to_owned());
    metrics.push("estimatedMinutesWatched".to_owned());
    metrics.push("subscribersGained".to_owned());
    metrics.push("subscribersLost".to_owned());
    metrics.push("averageViewDuration".to_owned());
    metrics.push("likes".to_owned());
    metrics.push("comments".to_owned());
    metrics.push("shares".to_owned());
    assert(texts(metrics@) =~= summary_metrics());
    AnalyticsQuery { start_date: start_date.to_owned(), end_date: end_date.to_owned(), metrics, dimensions: None }
}

/// A report cell read as an unsigned and as a signed integer (`None` where
/// it is not one).
pub struct Cell {
    pub as_u64: Option<u64>,
    pub as_i64: Option<i64>,
}

/// The integer figures of a channel summary (the revenue estimate is a
/// float and stays with the caller).
pub struct SummaryCounts {
    pub views: Option<u64>,
    pub watch_time: Option<u64>,
    pub subscriber_change: Option<i64>,
    pub average_view_duration: Option<u64>,
    pub likes: Option<u64>,
    pub comments: Option<u64>,
    pub shares: Option<u64>,
}

/// A cell's signed value, or 0.
pub open spec fn signed_or_zero(c: Cell) -> i64 {
    match c.as_i64 {
        Some(x) => x,
        None => 0,
    }
}

/// Reads the first row of a summary report: with at least eight cells, the
/// figures in metric order and the subscriber change as gained minus lost
/// (a missing count as 0); everything unknown otherwise.
pub fn summary_counts(row: Option<Vec<Cell>>) -> (r: SummaryCounts)
    requires
        match row {
            Some(v) => v@.len() >= 8 ==> i64::MIN <= signed_or_zero(v@[2]) - signed_or_zero(v@[3]) <= i64::MAX,
            None => true,
        },
    ensures
        match row {
            Some(v) => if v@.len() >= 8 {
                &&& r.views == v@[0].as_u64
                &&& r.watch_time == v@[1].as_u64
                &&& r.subscriber_change == Some((signed_or_zero(v@[2]) - signed_or_zero(v@[3])) as i64)
                &&& r.average_view_duration == v@[4].as_u64
                &&& r.likes == v@[5].as_u64
                &&& r.comments == v@[6].as_u64
                &&& r.shares == v@[7].as_u64
            } else {
                r == SummaryCounts { views: None, watch_time: None, subscriber_change: None, average_view_duration: None, likes: None, comments: None, shares: None }
            },
            None => r == SummaryCounts { views: None, watch_time: None, subscriber_change: None, average_view_duration: None, likes: None, comments: None, shares: None },
        },
{
    let none = SummaryCounts {
        views: None,
        watch_time: None,
        subscriber_change: None,
        average_view_duration: None,
        likes: None,
        comments: None,
        shares: None,
    };
    match row {
        Some(v) => {
            if v.len() < 8 {
                return none;
            }
            let gained = match v[2].as_i64 {
                Some(x) => x,
                None => 0,
            };
            let lost = match v[3].as_i64 {
                Some(x) => x,
                None => 0,
            };
            SummaryCounts {
                views: v[0].as_u64,
                watch_time: v[1].as_u64,
                subscriber_change: Some(gained - lost),
                average_view_duration: v[4].as_u64,
                likes: v[5].as_u64,
                comments: v[6].as_u64,
                shares: v[7].as_u64,
            }
        },
        None => none,
    }
}

} // verus!

//! Reading a zone's traffic figures out of an analytics query's response.
use vstd::prelude::*;
use crate::dispatch::opt_text;
use crate::json::{as_elements, as_text, as_unsigned, get_member, json_contents, member, JsonModel};
use crate::models::{
    AnalyticsBandwidth, AnalyticsRequests, AnalyticsSslBandwidth, AnalyticsSslRequests,
    AnalyticsThreats, AnalyticsPageviews, AnalyticsTimeseries, AnalyticsTotals, AnalyticsUniques,
};

verus! {

/// A count member: an integer that fits in 64 bits.
pub open spec fn count(sum: Option<JsonModel>, key: Seq<char>) -> Option<u64> {
    match sum {
        Some(m) => match member(m, key) {
            Some(JsonModel::Int(n)) => if 0 <= n <= u64::MAX {
                Some(n as u64)
            } else {
                None
            },
            _ => None,
        },
        None => None,
    }
}

/// The first count less the second, both taken as zero where missing, and no less than zero.
pub open spec fn remainder(sum: JsonModel, total: Seq<char>, part: Seq<char>) -> u64 {
    let t = match count(Some(sum), total) {
        Some(n) => n,
        None => 0,
    };
    let p = match count(Some(sum), part) {
        Some(n) => n,
        None => 0,
    };
    if t >= p {
        (t - p) as u64
    } else {
        0
    }
}

/// The request figures read from a `sum`, with the encryption split where `ssl` holds.
pub open spec fn requests_read(q: AnalyticsRequests, sum: JsonModel, ssl: bool) -> bool {
    &&& q.all == count(Some(sum), "requests"@)
    &&& q.cached == count(Some(sum), "cachedRequests"@)
    &&& q.uncached == Some(remainder(sum, "requests"@, "cachedRequests"@))
    &&& if ssl {
        q.ssl == Some(
            AnalyticsSslRequests {
                encrypted: count(Some(sum), "encryptedRequests"@),
                unencrypted: Some(remainder(sum, "requests"@, "encryptedRequests"@)),
            },
        )
    } else {
        q.ssl is None
    }
    &&& q.http_status is None && q.content_type is None && q.country is None
}

/// The byte figures read from a `sum`, with the encryption split where `ssl` holds.
pub open spec fn bandwidth_read(b: AnalyticsBandwidth, sum: JsonModel, ssl: bool) -> bool {
    &&& b.all == count(Some(sum), "bytes"@)
    &&& b.cached == count(Some(sum), "cachedBytes"@)
    &&& b.uncached == Some(remainder(sum, "bytes"@, "cachedBytes"@))
    &&& if ssl {
        b.ssl == Some(
            AnalyticsSslBandwidth {
                encrypted: count(Some(sum), "encryptedBytes"@),
                unencrypted: Some(remainder(sum, "bytes"@, "encryptedBytes"@)),
            },
        )
    } else {
        b.ssl is None
    }
    &&& b.content_type is None && b.country is None
}

/// The threat figures read from a `sum`.
pub open spec fn threats_read(t: AnalyticsThreats, sum: JsonModel) -> bool {
    t.all == count(Some(sum), "threats"@) && t.country is None && t.threat_type is None
}

/// The first daily group of a zone and its `sum`, where there is one.
pub open spec fn daily_group(zone: JsonModel) -> Option<(JsonModel, JsonModel)> {
    match member(zone, "httpRequests1dGroups"@) {
        Some(JsonModel::Array(gs)) => if gs.len() > 0 {
            match member(gs[0], "sum"@) {
                Some(sum) => Some((gs[0], sum)),
                None => None,
            }
        } else {
            None
        },
        _ => None,
    }
}

/// The totals read from a zone's first daily group.
pub open spec fn totals_read(t: AnalyticsTotals, group: JsonModel, sum: JsonModel) -> bool {
    &&& t.requests matches Some(q) && requests_read(q, sum, true)
    &&& t.bandwidth matches Some(b) && bandwidth_read(b, sum, true)
    &&& t.threats matches Some(th) && threats_read(th, sum)
    &&& t.pageviews matches Some(p) && p.all == count(Some(sum), "pageViews"@) && p.search_engines is None
    &&& t.uniques == match member(group, "uniq"@) {
        Some(u) => Some(AnalyticsUniques { all: count(Some(u), "uniques"@) }),
        None => None,
    }
}

/// A count member of `v`.
fn count_of(v: Option<&serde_json::Value>, key: &str) -> (r: Option<u64>)
    ensures
        r == count(
            match v {
                Some(x) => Some(json_contents(*x)),
                None => None,
            },
            key@,
        ),
{
    match v {
        Some(x) => match get_member(x, key) {
            Some(n) => as_unsigned(n),
            None => None,
        },
        None => None,
    }
}

/// The first count less the second, both taken as zero where missing, and no less than zero.
fn remainder_of(sum: &serde_json::Value, total: &str, part: &str) -> (r: u64)
    ensures
        r == remainder(json_contents(*sum), total@, part@),
{
    let t = match count_of(Some(sum), total) {
        Some(n) => n,
        None => 0,
    };
    let p = match count_of(Some(sum), part) {
        Some(n) => n,
        None => 0,
    };
    t.saturating_sub(p)
}

fn requests_of(sum: &serde_json::Value, ssl: bool) -> (r: AnalyticsRequests)
    ensures
        requests_read(r, json_contents(*sum), ssl),
{
    AnalyticsRequests {
        all: count_of(Some(sum), "requests"),
        cached: count_of(Some(sum), "cachedRequests"),
        uncached: Some(remainder_of(sum, "requests", "cachedRequests")),
        ssl: if ssl {
            Some(
                AnalyticsSslRequests {
                    encrypted: count_of(Some(sum), "encryptedRequests"),
                    unencrypted: Some(remainder_of(sum, "requests", "encryptedRequests")),
                },
            )
        } else {
            None
        },
        http_status: None,
        content_type: None,
        country: None,
    }
}

fn bandwidth_of(sum: &serde_json::Value, ssl: bool) -> (r: AnalyticsBandwidth)
    ensures
        bandwidth_read(r, json_contents(*sum), ssl),
{
    AnalyticsBandwidth {
        all: count_of(Some(sum), "bytes"),
        cached: count_of(Some(sum), "cachedBytes"),
        uncached: Some(remainder_of(sum, "bytes", "cachedBytes")),
        ssl: if ssl {
            Some(
                AnalyticsSslBandwidth {
                    encrypted: count_of(Some(sum), "encryptedBytes"),
                    unencrypted: Some(remainder_of(sum, "bytes", "encryptedBytes")),
                },
            )
        } else {
            None
        },
        content_type: None,
        country: None,
    }
}

fn threats_of(sum: &serde_json::Value) -> (r: AnalyticsThreats)
    ensures
        threats_read(r, json_contents(*sum)),
{
    AnalyticsThreats { all: count_of(Some(sum), "threats"), country: None, threat_type: None }
}

/// The totals of a zone's first daily group; `None` where the zone has no daily group with a
/// `sum`. Uncached and unencrypted figures are what the totals leave once the cached or
/// encrypted part is taken away.
pub fn parse_totals(zone: &serde_json::Value) -> (r: Option<AnalyticsTotals>)
    ensures
        r is None <==> daily_group(json_contents(*zone)) is None,
        r matches Some(t) ==> totals_read(
            t,
            daily_group(json_contents(*zone))->Some_0.0,
            daily_group(json_contents(*zone))->Some_0.1,
        ),
{
    let groups = match get_member(zone, "httpRequests1dGroups") {
        Some(g) => match as_elements(g) {
            Some(gs) => gs,
            None => return None,
        },
        None => return None,
    };
    if groups.len() == 0 {
        return None;
    }
    let group = &groups[0];
    let sum = match get_member(group, "sum") {
        Some(s) => s,
        None => return None,
    };
    let uniques = match get_member(group, "uniq") {
        Some(u) => Some(AnalyticsUniques { all: count_of(Some(u), "uniques") }),
        None => None,
    };
    Some(
        AnalyticsTotals {
            requests: Some(requests_of(sum, true)),
            bandwidth: Some(bandwidth_of(sum, true)),
            threats: Some(threats_of(sum)),
            pageviews: Some(AnalyticsPageviews { all: count_of(Some(sum), "pageViews"), search_engines: None }),
            uniques,
        },
    )
}

/// The hourly groups that have both `dimensions` and `sum`, in order: the `datetime` text of
/// each, where it is a string, and its `sum`.
pub open spec fn hourly(gs: Seq<JsonModel>) -> Seq<(Option<Seq<char>>, JsonModel)>
    decreases gs.len(),
{
    if gs.len() == 0 {
        Seq::empty()
    } else {
        let g = gs.last();
        match (member(g, "dimensions"@), member(g, "sum"@)) {
            (Some(d), Some(sum)) => hourly(gs.drop_last()).push(
                (
                    match member(d, "datetime"@) {
                        Some(JsonModel::Str(t)) => Some(t),
                        _ => None,
                    },
                    sum,
                ),
            ),
            _ => hourly(gs.drop_last()),
        }
    }
}

/// The entry of a time series read from an hourly group.
pub open spec fn point_read(p: AnalyticsTimeseries, source: (Option<Seq<char>>, JsonModel)) -> bool {
    &&& opt_text(p.since) == source.0
    &&& opt_text(p.until) == source.0
    &&& p.requests matches Some(q) && requests_read(q, source.1, false)
    &&& p.bandwidth matches Some(b) && bandwidth_read(b, source.1, false)
    &&& p.threats matches Some(t) && threats_read(t, source.1)
    &&& p.pageviews is None && p.uniques is None
}

/// The hourly groups of a zone, or `None` where it has no array of them.
pub open spec fn hourly_groups(zone: JsonModel) -> Option<Seq<(Option<Seq<char>>, JsonModel)>> {
    match member(zone, "httpRequests1hGroups"@) {
        Some(JsonModel::Array(gs)) => Some(hourly(gs)),
        _ => None,
    }
}

/// The hourly time series of a zone: one entry for each group that has both `dimensions` and
/// `sum`, in order; `None` where there is no such group.
pub fn parse_timeseries(zone: &serde_json::Value) -> (r: Option<Vec<AnalyticsTimeseries>>)
    ensures
        r is None <==> (hourly_groups(json_contents(*zone)) matches Some(h) ==> h.len() == 0),
        r matches Some(v) ==> v@.len() == hourly_groups(json_contents(*zone))->Some_0.len()
            && forall|i: int| 0 <= i < v@.len() ==> point_read(#[trigger] v@[i], hourly_groups(json_contents(*zone))->Some_0[i]),
{
    let groups = match get_member(zone, "httpRequests1hGroups") {
        Some(g) => match as_elements(g) {
            Some(gs) => gs,
            None => return None,
        },
        None => return None,
    };
    let ghost ms = groups@.map_values(|x: serde_json::Value| json_contents(x));
    let mut out: Vec<AnalyticsTimeseries> = Vec::new();
    let mut i: usize = 0;
    while i < groups.len()
        invariant
            i <= groups.len(),
            ms == groups@.map_values(|x: serde_json::Value| json_contents(x)),
            out@.len() == hourly(ms.subrange(0, i as int)).len(),
            forall|j: int| 0 <= j < out@.len() ==> point_read(#[trigger] out@[j], hourly(ms.subrange(0, i as int))[j]),
        decreases groups.len() - i,
    {
        let g = &groups[i];
        let ghost prefix = ms.subrange(0, i as int);
        assert(ms.subrange(0, i + 1).drop_last() =~= prefix);
        assert(ms.subrange(0, i + 1).last() == json_contents(*g));
        match (get_member(g, "dimensions"), get_member(g, "sum")) {
            (Some(dims), Some(sum)) => {
                let since = match get_member(dims, "datetime") {
                    Some(t) => match as_text(t) {
                        Some(s) => Some(s.to_owned()),
                        None => None,
                    },
                    None => None,
                };
                let until = match &since {
                    Some(s) => Some(s.clone()),
                    None => None,
                };
                out.push(
                    AnalyticsTimeseries {
                        since,
                        until,
                        requests: Some(requests_of(sum, false)),
                        bandwidth: Some(bandwidth_of(sum, false)),
                        threats: Some(threats_of(sum)),
                        pageviews: None,
                        uniques: None,
                    },
                );
            },
            _ => {},
        }
        i += 1;
    }
    assert(ms.subrange(0, i as int) =~= ms);
    if out.len() == 0 {
        None
    } else {
        Some(out)
    }
}

} // verus!

use vstd::prelude::*;

use crate::gateway::ShopInfo;
use crate::models::PriceHistoryPoint;

verus! {

/// One row of the price-history response.
pub struct PriceHistoryItem {
    /// An RFC 3339 date-and-time text.
    pub timestamp: String,
    pub shop: ShopInfo,
    pub deal: Option<HistoryDeal>,
}

/// The deal attached to a history row, when the row has one.
pub struct HistoryDeal {
    pub price: crate::gateway::PriceInfo,
}

/// The unix epoch second that an RFC 3339 text denotes, or nothing for a
/// text that is not a valid RFC 3339 date-and-time. The value depends on
/// the text alone.
pub uninterp spec fn rfc3339_epoch(s: Seq<char>) -> Option<int>;

/// Relies on chrono's `DateTime::parse_from_rfc3339` and
/// `DateTime::timestamp`: parsing is a pure function of the text, and the
/// epoch second is a pure function of the parsed instant, so the composite
/// depends on the text alone.
#[verifier::external_body]
fn parse_rfc3339_epoch(s: &str) -> (r: Option<i64>)
    ensures
        r matches Some(t) ==> rfc3339_epoch(s@) == Some(t as int),
        r is None <==> rfc3339_epoch(s@) is None,
{
    match chrono::DateTime::parse_from_rfc3339(s) {
        Ok(dt) => Some(dt.timestamp()),
        Err(_) => None,
    }
}

impl PriceHistoryItem {
    /// The chart point a history row denotes, when the row carries a deal:
    /// the timestamp as an epoch second (zero when unparseable), the price
    /// in minor units, and the shop name.
    pub open spec fn spec_point(&self) -> Option<PriceHistoryPoint> {
        match self.deal {
            None => None,
            Some(hd) => Some(
                PriceHistoryPoint {
                    timestamp: match rfc3339_epoch(self.timestamp@) {
                        Some(v) => v as i64,
                        None => 0,
                    },
                    price: hd.price.amount,
                    shop_name: self.shop.name,
                },
            ),
        }
    }

    /// Converts a history row to a chart point; rows without a deal are
    /// dropped, an unparseable timestamp becomes epoch zero.
    pub fn to_price_history_point(&self) -> (r: Option<PriceHistoryPoint>)
        ensures
            r == self.spec_point(),
    {
        match &self.deal {
            None => None,
            Some(hd) => {
                let timestamp = match parse_rfc3339_epoch(self.timestamp.as_str()) {
                    Some(t) => t,
                    None => 0,
                };
                Some(
                    PriceHistoryPoint {
                        timestamp,
                        price: hd.price.amount,
                        shop_name: self.shop.name.clone(),
                    },
                )
            },
        }
    }
}

/// The chart point a consumed history row yields, keeping only rows with a
/// deal and a parseable timestamp, as the fetch path does.
pub open spec fn spec_strict_point(item: PriceHistoryItem) -> Option<PriceHistoryPoint> {
    match item.deal {
        None => None,
        Some(hd) => match rfc3339_epoch(item.timestamp@) {
            None => None,
            Some(v) => Some(
                PriceHistoryPoint { timestamp: v as i64, price: hd.price.amount, shop_name: item.shop.name },
            ),
        },
    }
}

/// The chart points of the first `n` rows, kept rows only, in row order.
pub open spec fn spec_points_prefix(items: Seq<PriceHistoryItem>, n: int) -> Seq<
    PriceHistoryPoint,
>
    decreases n,
{
    if n <= 0 {
        Seq::empty()
    } else {
        let p = spec_points_prefix(items, n - 1);
        match spec_strict_point(items[n - 1]) {
            Some(pt) => p.push(pt),
            None => p,
        }
    }
}

/// Whether one chart point strictly precedes another in time.
pub open spec fn spec_point_lt(a: PriceHistoryPoint, b: PriceHistoryPoint) -> bool {
    a.timestamp < b.timestamp
}

/// Inserts a point into a time-ordered run, behind every point of the same
/// instant, as a stable sort does.
pub open spec fn spec_insert_point(s: Seq<PriceHistoryPoint>, x: PriceHistoryPoint) -> Seq<
    PriceHistoryPoint,
>
    decreases s.len(),
{
    if s.len() > 0 && spec_point_lt(x, s.last()) {
        spec_insert_point(s.drop_last(), x).push(s.last())
    } else {
        s.push(x)
    }
}

/// Orders a run of points by time, stably.
pub open spec fn spec_sort_points(s: Seq<PriceHistoryPoint>) -> Seq<PriceHistoryPoint>
    decreases s.len(),
{
    if s.len() == 0 {
        s
    } else {
        spec_insert_point(spec_sort_points(s.drop_last()), s.last())
    }
}

/// A run is ordered oldest first.
pub open spec fn spec_points_sorted(s: Seq<PriceHistoryPoint>) -> bool {
    forall|i: int, j: int| 0 <= i < j < s.len() ==> s[i].timestamp <= s[j].timestamp
}

proof fn lemma_insert_point_at(s: Seq<PriceHistoryPoint>, x: PriceHistoryPoint, j: int)
    requires
        0 <= j <= s.len(),
        forall|k: int| j <= k < s.len() ==> spec_point_lt(x, #[trigger] s[k]),
        j > 0 ==> !spec_point_lt(x, s[j - 1]),
    ensures
        spec_insert_point(s, x) == s.insert(j, x),
    decreases s.len(),
{
    if s.len() == 0 {
        assert(spec_insert_point(s, x) =~= s.insert(0, x));
    } else if spec_point_lt(x, s.last()) {
        assert(j < s.len());
        lemma_insert_point_at(s.drop_last(), x, j);
        assert(spec_insert_point(s, x) =~= s.insert(j, x));
    } else {
        assert(j == s.len());
        assert(spec_insert_point(s, x) =~= s.insert(j, x));
    }
}

proof fn lemma_insert_point_sorted(s: Seq<PriceHistoryPoint>, x: PriceHistoryPoint)
    requires
        spec_points_sorted(s),
    ensures
        spec_points_sorted(spec_insert_point(s, x)),
    decreases s.len(),
{
    let r = spec_insert_point(s, x);
    if s.len() > 0 && spec_point_lt(x, s.last()) {
        lemma_insert_point_sorted(s.drop_last(), x);
        let inner = spec_insert_point(s.drop_last(), x);
        assert(r == inner.push(s.last()));
        lemma_insert_point_members(s.drop_last(), x);
        assert forall|i: int, j: int| 0 <= i < j < r.len() implies r[i].timestamp
            <= r[j].timestamp by {
            if j < inner.len() {
                assert(inner[i].timestamp <= inner[j].timestamp);
            } else {
                // The last element bounds everything inserted before it.
                assert(r[j] == s.last());
                if r[i] == x {
                } else {
                    let w = choose|w: int|
                        0 <= w < s.drop_last().len() && s.drop_last()[w] == r[i];
                    assert(s[w].timestamp <= s.last().timestamp);
                }
            }
        }
    } else {
        assert(r == s.push(x));
        assert forall|i: int, j: int| 0 <= i < j < r.len() implies r[i].timestamp
            <= r[j].timestamp by {
            if j == s.len() as int {
                if s.len() > 0 {
                    assert(!spec_point_lt(x, s.last()));
                    assert(s[i].timestamp <= s.last().timestamp);
                }
            }
        }
    }
}

/// Every element of an insertion result is the inserted point or one of
/// the run's points.
proof fn lemma_insert_point_members(s: Seq<PriceHistoryPoint>, x: PriceHistoryPoint)
    ensures
        forall|i: int|
            0 <= i < spec_insert_point(s, x).len() ==> #[trigger] spec_insert_point(s, x)[i] == x
                || s.contains(spec_insert_point(s, x)[i]),
        spec_insert_point(s, x).len() == s.len() + 1,
    decreases s.len(),
{
    let r = spec_insert_point(s, x);
    if s.len() > 0 && spec_point_lt(x, s.last()) {
        lemma_insert_point_members(s.drop_last(), x);
        let inner = spec_insert_point(s.drop_last(), x);
        assert(r == inner.push(s.last()));
        assert forall|i: int| 0 <= i < r.len() implies #[trigger] r[i] == x || s.contains(
            r[i],
        ) by {
            if i < inner.len() {
                assert(inner[i] == x || s.drop_last().contains(inner[i]));
                if inner[i] != x {
                    let w = choose|w: int|
                        0 <= w < s.drop_last().len() && s.drop_last()[w] == inner[i];
                    assert(s[w] == inner[i]);
                }
            } else {
                assert(r[i] == s.last());
                assert(s[s.len() - 1] == r[i]);
            }
        }
    } else {
        assert(r == s.push(x));
        assert forall|i: int| 0 <= i < r.len() implies #[trigger] r[i] == x || s.contains(
            r[i],
        ) by {
            if i < s.len() {
                assert(s[i] == r[i]);
            }
        }
    }
}

/// A stably time-ordered run comes out of the sort.
proof fn lemma_sort_points_sorted(s: Seq<PriceHistoryPoint>)
    ensures
        spec_points_sorted(spec_sort_points(s)),
    decreases s.len(),
{
    if s.len() > 0 {
        lemma_sort_points_sorted(s.drop_last());
        lemma_insert_point_sorted(spec_sort_points(s.drop_last()), s.last());
    }
}

fn point_lt(a: &PriceHistoryPoint, b: &PriceHistoryPoint) -> (r: bool)
    ensures
        r == spec_point_lt(*a, *b),
{
    a.timestamp < b.timestamp
}

/// Converts the history rows into chart points, oldest first: rows without
/// a deal or with an unparseable timestamp are dropped, and the rest are
/// sorted by time, stably.
pub fn history_points(items: Vec<PriceHistoryItem>) -> (r: Vec<PriceHistoryPoint>)
    ensures
        r@ == spec_sort_points(spec_points_prefix(items@, items@.len() as int)),
        spec_points_sorted(r@),
{
    let ghost orig = items@;
    let mut rest = items;
    let mut pts: Vec<PriceHistoryPoint> = Vec::new();
    let mut k: usize = 0;
    let total = rest.len();
    proof {
        assert(orig.len() == total as int);
    }
    while rest.len() > 0
        invariant
            orig.len() <= usize::MAX,
            k as int + rest@.len() == orig.len(),
            rest@ == orig.subrange(k as int, orig.len() as int),
            pts@ == spec_points_prefix(orig, k as int),
        decreases rest@.len(),
    {
        let item = rest.remove(0);
        proof {
            assert(item == orig[k as int]);
        }
        match item.deal {
            Some(hd) => {
                match parse_rfc3339_epoch(item.timestamp.as_str()) {
                    Some(t) => {
                        pts.push(
                            PriceHistoryPoint {
                                timestamp: t,
                                price: hd.price.amount,
                                shop_name: item.shop.name,
                            },
                        );
                    },
                    None => {},
                }
            },
            None => {},
        }
        k = k + 1;
        proof {
            assert(rest@ =~= orig.subrange(k as int, orig.len() as int));
        }
    }
    proof {
        assert(pts@ == spec_points_prefix(orig, orig.len() as int));
    }
    let ghost conv = pts@;
    let mut out: Vec<PriceHistoryPoint> = Vec::new();
    let mut t: usize = 0;
    let clen = pts.len();
    proof {
        assert(conv.len() == clen as int);
    }
    let mut rest2 = pts;
    while rest2.len() > 0
        invariant
            conv.len() <= usize::MAX,
            t as int + rest2@.len() == conv.len(),
            rest2@ == conv.subrange(t as int, conv.len() as int),
            out@ == spec_sort_points(conv.subrange(0, t as int)),
        decreases rest2@.len(),
    {
        let x = rest2.remove(0);
        proof {
            assert(x == conv[t as int]);
        }
        let mut j = out.len();
        while j > 0 && point_lt(&x, &out[j - 1])
            invariant
                0 <= j <= out@.len(),
                forall|m: int| j <= m < out@.len() ==> spec_point_lt(x, #[trigger] out@[m]),
            decreases j,
        {
            j = j - 1;
        }
        proof {
            lemma_insert_point_at(out@, x, j as int);
            assert(conv.subrange(0, t + 1).drop_last() =~= conv.subrange(0, t as int));
            assert(conv.subrange(0, t + 1).last() == conv[t as int]);
        }
        out.insert(j, x);
        t = t + 1;
        proof {
            assert(rest2@ =~= conv.subrange(t as int, conv.len() as int));
        }
    }
    proof {
        assert(conv.subrange(0, conv.len() as int) =~= conv);
        lemma_sort_points_sorted(conv);
    }
    out
}

} // verus!

use vstd::prelude::*;

use crate::cache::Cache;
use crate::error::DealveError;
use crate::models::{Deal, GameInfo, Price, Shop};
use crate::text::{spec_dec, str_eq, u64_to_string};

verus! {

// ── Typed shapes of the remote API's responses ─────────────────────────
// Monetary amounts are minor currency units (cents) throughout, as in the
// rest of the library; decoding the wire format into these records is the
// caller's business.

/// One row of the paginated deals listing.
pub struct DealsResponse {
    pub list: Vec<DealItem>,
}

/// One hit of the title search.
pub struct GameSearchItem {
    pub id: String,
    pub title: String,
}

/// A listed game with its current best deal attached.
pub struct DealItem {
    pub id: String,
    pub title: String,
    pub deal: DealInfo,
}

/// One concrete offer for a game in one shop.
pub struct DealInfo {
    pub shop: ShopInfo,
    pub price: PriceInfo,
    pub regular: PriceInfo,
    pub cut: u8,
    pub url: String,
    /// Lowest recorded price, in minor units, when the row carries one.
    pub history_low: Option<u64>,
}

/// Shop identity as the API reports it.
pub struct ShopInfo {
    pub id: u32,
    pub name: String,
}

/// An amount of money with its currency, the amount in minor units.
pub struct PriceInfo {
    pub amount: u64,
    pub currency: String,
}

/// The recorded all-time low attached to a price row, in minor units.
pub struct GamePriceHistory {
    pub all: Option<PriceInfo>,
}

/// The offers resolved for one searched game.
pub struct GamePriceItem {
    pub id: String,
    pub history_low: Option<GamePriceHistory>,
    pub deals: Vec<DealInfo>,
}

/// The per-game metadata response.
pub struct GameInfoResponse {
    pub id: String,
    pub title: String,
    pub release_date: Option<String>,
    pub developers: Option<Vec<CompanyInfo>>,
    pub publishers: Option<Vec<CompanyInfo>>,
    pub tags: Option<Vec<String>>,
}

/// A developer or publisher entry of the metadata response.
pub struct CompanyInfo {
    pub name: String,
}

// ── Conversions into the library's model ───────────────────────────────

/// The deal a listing row denotes.
pub open spec fn spec_deal_of_item(item: DealItem) -> Deal {
    Deal {
        id: item.id,
        title: item.title,
        shop: Shop { id: item.deal.shop.id, name: item.deal.shop.name },
        price: Price {
            amount: item.deal.price.amount,
            currency: item.deal.price.currency,
            discount: item.deal.cut,
        },
        regular_price: item.deal.regular.amount,
        url: item.deal.url,
        history_low: item.deal.history_low,
    }
}

/// Converts a listing row into a deal of the model.
pub fn deal_from_item(item: DealItem) -> (r: Deal)
    ensures
        r == spec_deal_of_item(item),
{
    Deal {
        id: item.id,
        title: item.title,
        shop: Shop { id: item.deal.shop.id, name: item.deal.shop.name },
        price: Price {
            amount: item.deal.price.amount,
            currency: item.deal.price.currency,
            discount: item.deal.cut,
        },
        regular_price: item.deal.regular.amount,
        url: item.deal.url,
        history_low: item.deal.history_low,
    }
}

/// Converts a metadata response into the cached game info: absent company
/// and tag lists become empty, companies are reduced to their names.
pub fn game_info_from_response(resp: GameInfoResponse) -> (r: GameInfo)
    ensures
        r.id == resp.id,
        r.title == resp.title,
        r.release_date == resp.release_date,
        r.developers@.len() == (match resp.developers {
            Some(v) => v@.len(),
            None => 0,
        }),
        resp.developers matches Some(v) ==> (forall|i: int|
            0 <= i < v@.len() ==> #[trigger] r.developers@[i]@ == v@[i].name@),
        r.publishers@.len() == (match resp.publishers {
            Some(v) => v@.len(),
            None => 0,
        }),
        resp.publishers matches Some(v) ==> (forall|i: int|
            0 <= i < v@.len() ==> #[trigger] r.publishers@[i]@ == v@[i].name@),
        resp.tags matches Some(v) ==> r.tags == v,
        resp.tags is None ==> r.tags@ == Seq::<String>::empty(),
{
    let developers = company_names(resp.developers);
    let publishers = company_names(resp.publishers);
    let tags = match resp.tags {
        Some(v) => v,
        None => Vec::new(),
    };
    proof {
        assert(resp.tags is None ==> tags@ =~= Seq::<String>::empty());
    }
    GameInfo { id: resp.id, title: resp.title, release_date: resp.release_date, developers, publishers, tags }
}

fn company_names(companies: Option<Vec<CompanyInfo>>) -> (r: Vec<String>)
    ensures
        r@.len() == (match companies {
            Some(v) => v@.len(),
            None => 0,
        }),
        companies matches Some(v) ==> (forall|i: int|
            0 <= i < v@.len() ==> #[trigger] r@[i]@ == v@[i].name@),
{
    match companies {
        Some(v) => {
            let ghost orig = v@;
            let mut rest = v;
            let mut r: Vec<String> = Vec::new();
            let total = rest.len();
    proof {
        assert(orig.len() == total as int);
    }
            proof {
                assert(orig.len() == total as int);
            }
            while rest.len() > 0
                invariant
                    orig.len() <= usize::MAX,
                    r@.len() + rest@.len() == orig.len(),
                    rest@ == orig.subrange(r@.len() as int, orig.len() as int),
                    forall|i: int| 0 <= i < r@.len() ==> #[trigger] r@[i]@ == orig[i].name@,
                decreases rest@.len(),
            {
                let ghost k = r@.len() as int;
                let c = rest.remove(0);
                proof {
                    assert(c == orig[k]);
                }
                r.push(c.name);
                proof {
                    assert(rest@ =~= orig.subrange(k + 1, orig.len() as int));
                }
            }
            r
        },
        None => Vec::new(),
    }
}

// ── Best-offer selection ────────────────────────────────────────────────

/// Whether offer `a` beats offer `b`: strictly cheaper, or equally priced
/// with a strictly larger discount.
pub open spec fn spec_offer_lt(a: DealInfo, b: DealInfo) -> bool {
    a.price.amount < b.price.amount || (a.price.amount == b.price.amount && a.cut > b.cut)
}

/// The best offer among the first `n`: lowest price, ties broken by larger
/// discount, remaining ties by earliest position.
pub open spec fn spec_best_prefix(s: Seq<DealInfo>, n: int) -> DealInfo
    decreases n,
{
    if n <= 1 {
        s[0]
    } else {
        let b = spec_best_prefix(s, n - 1);
        if spec_offer_lt(s[n - 1], b) {
            s[n - 1]
        } else {
            b
        }
    }
}

/// The best offer of a non-empty run.
pub open spec fn spec_best(s: Seq<DealInfo>) -> DealInfo {
    spec_best_prefix(s, s.len() as int)
}

/// Law (best-offer tie-break): the selected offer is one of the offers,
/// no offer is cheaper, and among equally-priced offers none has a larger
/// discount — so of two offers at the same price, the one with the higher
/// discount represents the title.
pub proof fn lemma_best_offer_minimal(s: Seq<DealInfo>)
    requires
        s.len() > 0,
    ensures
        exists|i: int| 0 <= i < s.len() && s[i] == spec_best(s),
        forall|i: int|
            0 <= i < s.len() ==> spec_best(s).price.amount <= #[trigger] s[i].price.amount,
        forall|i: int|
            0 <= i < s.len() && spec_best(s).price.amount == #[trigger] s[i].price.amount
                ==> spec_best(s).cut >= s[i].cut,
{
    lemma_best_prefix_minimal(s, s.len() as int);
}

proof fn lemma_best_prefix_minimal(s: Seq<DealInfo>, n: int)
    requires
        1 <= n <= s.len(),
    ensures
        exists|i: int| 0 <= i < n && s[i] == spec_best_prefix(s, n),
        forall|i: int|
            0 <= i < n ==> spec_best_prefix(s, n).price.amount <= #[trigger] s[i].price.amount,
        forall|i: int|
            0 <= i < n && spec_best_prefix(s, n).price.amount == #[trigger] s[i].price.amount
                ==> spec_best_prefix(s, n).cut >= s[i].cut,
    decreases n,
{
    if n == 1 {
        assert(s[0] == spec_best_prefix(s, 1));
    } else {
        lemma_best_prefix_minimal(s, n - 1);
    }
}

fn offer_lt(a: &DealInfo, b: &DealInfo) -> (r: bool)
    ensures
        r == spec_offer_lt(*a, *b),
{
    a.price.amount < b.price.amount || (a.price.amount == b.price.amount && a.cut > b.cut)
}

/// Picks the single best offer for a title: the lowest price, ties broken
/// by the larger discount percentage, the earliest such offer winning any
/// remaining tie. Returns nothing for a title with no offers.
pub fn select_best_deal(deals: Vec<DealInfo>) -> (r: Option<DealInfo>)
    ensures
        r == (if deals@.len() == 0 {
            None
        } else {
            Some(spec_best(deals@))
        }),
{
    let n = deals.len();
    if n == 0 {
        return None;
    }
    let mut bi: usize = 0;
    let mut i: usize = 1;
    while i < n
        invariant
            1 <= i <= n,
            bi < i,
            n == deals@.len(),
            deals@[bi as int] == spec_best_prefix(deals@, i as int),
        decreases n - i,
    {
        if offer_lt(&deals[i], &deals[bi]) {
            bi = i;
        }
        i = i + 1;
    }
    let mut v = deals;
    let best = v.remove(bi);
    Some(best)
}

// ── The search pipeline's pure core ─────────────────────────────────────

/// Whether one of the first `n` search hits already carries the id.
pub open spec fn spec_has_id(s: Seq<GameSearchItem>, n: int, id: Seq<char>) -> bool {
    exists|j: int| 0 <= j < n && #[trigger] s[j].id@ == id
}

/// The first `n` search hits with duplicate ids dropped: each id keeps its
/// first hit, in order.
pub open spec fn spec_unique_prefix(s: Seq<GameSearchItem>, n: int) -> Seq<GameSearchItem>
    decreases n,
{
    if n <= 0 {
        Seq::empty()
    } else {
        let p = spec_unique_prefix(s, n - 1);
        if spec_has_id(s, n - 1, s[n - 1].id@) {
            p
        } else {
            p.push(s[n - 1])
        }
    }
}

/// The search hits with duplicate ids dropped.
pub open spec fn spec_unique(s: Seq<GameSearchItem>) -> Seq<GameSearchItem> {
    spec_unique_prefix(s, s.len() as int)
}

/// The deduplicated prefix lists exactly the ids of the scanned prefix,
/// each exactly once.
proof fn lemma_unique_prefix_ids(s: Seq<GameSearchItem>, n: int)
    requires
        n <= s.len(),
    ensures
        forall|id: Seq<char>|
            #[trigger] spec_has_id(spec_unique_prefix(s, n), spec_unique_prefix(s, n).len() as int, id)
                <==> spec_has_id(s, n, id),
        forall|i: int, j: int|
            0 <= i < j < spec_unique_prefix(s, n).len() ==> spec_unique_prefix(s, n)[i].id@
                != spec_unique_prefix(s, n)[j].id@,
    decreases n,
{
    if n > 0 {
        lemma_unique_prefix_ids(s, n - 1);
        let p = spec_unique_prefix(s, n - 1);
        let q = spec_unique_prefix(s, n);
        if spec_has_id(s, n - 1, s[n - 1].id@) {
            assert forall|id: Seq<char>|
                #[trigger] spec_has_id(q, q.len() as int, id) <==> spec_has_id(s, n, id) by {
                if spec_has_id(s, n, id) {
                    let j = choose|j: int| 0 <= j < n && s[j].id@ == id;
                    if j == n - 1 {
                        assert(spec_has_id(s, n - 1, id));
                    } else {
                        assert(spec_has_id(s, n - 1, id));
                    }
                }
            }
        } else {
            assert(q == p.push(s[n - 1]));
            assert(forall|k: int| 0 <= k < p.len() ==> q[k] == #[trigger] p[k]);
            assert(q[p.len() as int] == s[n - 1]);
            assert forall|id: Seq<char>|
                #[trigger] spec_has_id(q, q.len() as int, id) <==> spec_has_id(s, n, id) by {
                if spec_has_id(q, q.len() as int, id) {
                    let j = choose|j: int| 0 <= j < q.len() && q[j].id@ == id;
                    if j < p.len() {
                        assert(spec_has_id(p, p.len() as int, id));
                        assert(spec_has_id(s, n - 1, id));
                        let w = choose|w: int| 0 <= w < n - 1 && s[w].id@ == id;
                        assert(0 <= w < n && s[w].id@ == id);
                    } else {
                        assert(s[n - 1].id@ == id);
                    }
                }
                if spec_has_id(s, n, id) {
                    let j = choose|j: int| 0 <= j < n && s[j].id@ == id;
                    if j == n - 1 {
                        assert(q[p.len() as int].id@ == id);
                    } else {
                        assert(spec_has_id(s, n - 1, id));
                        assert(spec_has_id(p, p.len() as int, id));
                        let w = choose|w: int| 0 <= w < p.len() && p[w].id@ == id;
                        assert(q[w].id@ == id);
                    }
                }
            }
            assert forall|i: int, j: int| 0 <= i < j < q.len() implies q[i].id@ != q[j].id@ by {
                if j == p.len() as int {
                    assert(q[i] == p[i]);
                    if q[i].id@ == s[n - 1].id@ {
                        assert(spec_has_id(p, p.len() as int, q[i].id@));
                        assert(spec_has_id(s, n - 1, s[n - 1].id@));
                    }
                } else {
                    assert(q[i] == p[i] && q[j] == p[j]);
                }
            }
        }
    }
}

fn contains_id(v: &Vec<GameSearchItem>, id: &String) -> (r: bool)
    ensures
        r == spec_has_id(v@, v@.len() as int, id@),
{
    let n = v.len();
    let mut i: usize = 0;
    while i < n
        invariant
            0 <= i <= n,
            n == v@.len(),
            forall|j: int| 0 <= j < i ==> v@[j].id@ != id@,
        decreases n - i,
    {
        if str_eq(v[i].id.as_str(), id.as_str()) {
            return true;
        }
        i = i + 1;
    }
    false
}

/// Drops duplicate search hits: each title id keeps its first hit, and the
/// first-occurrence order is preserved.
pub fn dedup_search_items(items: Vec<GameSearchItem>) -> (r: Vec<GameSearchItem>)
    ensures
        r@ == spec_unique(items@),
{
    let ghost orig = items@;
    let mut rest = items;
    let mut out: Vec<GameSearchItem> = Vec::new();
    let mut k: usize = 0;
    let total = rest.len();
    proof {
        assert(orig.len() == total as int);
    }
    while rest.len() > 0
        invariant
            orig.len() <= usize::MAX,
            k as int + rest@.len() == orig.len(),
            rest@ == orig.subrange(k as int, orig.len() as int),
            out@ == spec_unique_prefix(orig, k as int),
        decreases rest@.len(),
    {
        let item = rest.remove(0);
        proof {
            assert(item == orig[k as int]);
            lemma_unique_prefix_ids(orig, k as int);
        }
        let dup = contains_id(&out, &item.id);
        if !dup {
            out.push(item);
        }
        k = k + 1;
        proof {
            assert(rest@ =~= orig.subrange(k as int, orig.len() as int));
        }
    }
    proof {
        assert(orig.subrange(0, orig.len() as int) =~= orig);
    }
    out
}

/// The all-time low an offer row carries, in minor units.
pub open spec fn spec_hl_of(item: GamePriceItem) -> Option<u64> {
    match item.history_low {
        Some(h) => match h.all {
            Some(p) => Some(p.amount),
            None => None,
        },
        None => None,
    }
}

/// The representative offer and all-time low that the price rows give a
/// title: of the rows with that id and at least one offer, the last wins,
/// and its best offer represents the title.
pub open spec fn spec_price_lookup(prices: Seq<GamePriceItem>, id: Seq<char>) -> Option<
    (DealInfo, Option<u64>),
>
    decreases prices.len(),
{
    if prices.len() == 0 {
        None
    } else {
        let last = prices.last();
        if last.id@ == id && last.deals@.len() > 0 {
            Some((spec_best(last.deals@), spec_hl_of(last)))
        } else {
            spec_price_lookup(prices.drop_last(), id)
        }
    }
}

fn build_price_cache(prices: Vec<GamePriceItem>) -> (c: Cache<(DealInfo, Option<u64>)>)
    ensures
        c.wf(),
        forall|id: Seq<char>| #[trigger] c.spec_get(id) == spec_price_lookup(prices@, id),
{
    let ghost orig = prices@;
    let mut rest = prices;
    let mut c: Cache<(DealInfo, Option<u64>)> = Cache::new();
    let mut k: usize = 0;
    let total = rest.len();
    proof {
        assert(orig.len() == total as int);
    }
    proof {
        assert forall|id: Seq<char>| #[trigger] c.spec_get(id) == spec_price_lookup(
            orig.subrange(0, 0),
            id,
        ) by {
            assert(orig.subrange(0, 0) =~= Seq::<GamePriceItem>::empty());
        }
    }
    while rest.len() > 0
        invariant
            orig.len() <= usize::MAX,
            c.wf(),
            k as int + rest@.len() == orig.len(),
            rest@ == orig.subrange(k as int, orig.len() as int),
            forall|id: Seq<char>| #[trigger] c.spec_get(id) == spec_price_lookup(
                orig.subrange(0, k as int),
                id,
            ),
        decreases rest@.len(),
    {
        let item = rest.remove(0);
        proof {
            assert(item == orig[k as int]);
        }
        let hl = match &item.history_low {
            Some(h) => match &h.all {
                Some(p) => Some(p.amount),
                None => None,
            },
            None => None,
        };
        let item_id = item.id;
        let has_deals = item.deals.len() > 0;
        let best = select_best_deal(item.deals);
        if has_deals {
            match best {
                Some(b) => {
                    c.insert(item_id, (b, hl));
                },
                None => {},
            }
        }
        k = k + 1;
        proof {
            assert(rest@ =~= orig.subrange(k as int, orig.len() as int));
            let pfx = orig.subrange(0, k as int);
            assert(pfx.last() == orig[k - 1]);
            assert(pfx.drop_last() =~= orig.subrange(0, k - 1));
            assert forall|id: Seq<char>| #[trigger] c.spec_get(id) == spec_price_lookup(pfx, id)
            by {}
        }
    }
    proof {
        assert(orig.subrange(0, orig.len() as int) =~= orig);
    }
    c
}

/// The deal assembled for a search hit from its representative offer.
pub open spec fn spec_deal_for(entry: GameSearchItem, info: DealInfo, hl: Option<u64>) -> Deal {
    Deal {
        id: entry.id,
        title: entry.title,
        shop: Shop { id: info.shop.id, name: info.shop.name },
        price: Price { amount: info.price.amount, currency: info.price.currency, discount: info.cut },
        regular_price: info.regular.amount,
        url: info.url,
        history_low: match hl {
            Some(v) => Some(v),
            None => info.history_low,
        },
    }
}

/// The deals the deduplicated hits yield, in search-relevance order; hits
/// whose title resolved no offer are dropped.
pub open spec fn spec_assemble(u: Seq<GameSearchItem>, prices: Seq<GamePriceItem>) -> Seq<Deal>
    decreases u.len(),
{
    if u.len() == 0 {
        Seq::empty()
    } else {
        spec_assemble(u.drop_last(), prices) + (match spec_price_lookup(prices, u.last().id@) {
            Some(pair) => seq![spec_deal_for(u.last(), pair.0, pair.1)],
            None => Seq::empty(),
        })
    }
}

/// What the search path returns for given search hits and price rows: one
/// deal per distinct title that resolved a price, in relevance order, each
/// represented by its best offer.
pub open spec fn spec_search_deals(
    search: Seq<GameSearchItem>,
    prices: Seq<GamePriceItem>,
) -> Seq<Deal> {
    spec_assemble(spec_unique(search), prices)
}

/// Builds the deal list of the search path from the title-search hits and
/// the per-title price rows: duplicates drop out, titles keep their search
/// order, each title is represented by its single best offer, and titles
/// with no resolvable price are dropped.
pub fn assemble_search_deals(
    search_results: Vec<GameSearchItem>,
    prices: Vec<GamePriceItem>,
) -> (r: Vec<Deal>)
    ensures
        r@ == spec_search_deals(search_results@, prices@),
{
    let ghost sorig = search_results@;
    let ghost porig = prices@;
    let unique = dedup_search_items(search_results);
    let ghost u = unique@;
    proof {
        lemma_unique_prefix_ids(sorig, sorig.len() as int);
    }
    let mut c = build_price_cache(prices);
    let mut rest = unique;
    let mut out: Vec<Deal> = Vec::new();
    let mut k: usize = 0;
    let total = rest.len();
    proof {
        assert(u.len() == total as int);
    }
    while rest.len() > 0
        invariant
            u.len() <= usize::MAX,
            c.wf(),
            k as int + rest@.len() == u.len(),
            rest@ == u.subrange(k as int, u.len() as int),
            out@ == spec_assemble(u.subrange(0, k as int), porig),
            forall|i: int, j: int| 0 <= i < j < u.len() ==> u[i].id@ != u[j].id@,
            forall|j: int|
                k <= j < u.len() ==> #[trigger] c.spec_get(u[j].id@) == spec_price_lookup(
                    porig,
                    u[j].id@,
                ),
        decreases rest@.len(),
    {
        let entry = rest.remove(0);
        proof {
            assert(entry == u[k as int]);
        }
        match c.remove(&entry.id) {
            Some(pair) => {
                let (info, hl) = pair;
                let deal = Deal {
                    id: entry.id,
                    title: entry.title,
                    shop: Shop { id: info.shop.id, name: info.shop.name },
                    price: Price {
                        amount: info.price.amount,
                        currency: info.price.currency,
                        discount: info.cut,
                    },
                    regular_price: info.regular.amount,
                    url: info.url,
                    history_low: match hl {
                        Some(v) => Some(v),
                        None => info.history_low,
                    },
                };
                out.push(deal);
            },
            None => {},
        }
        k = k + 1;
        proof {
            assert(rest@ =~= u.subrange(k as int, u.len() as int));
            let pfx = u.subrange(0, k as int);
            assert(pfx.last() == u[k - 1]);
            assert(pfx.drop_last() =~= u.subrange(0, k - 1));
            assert(out@ =~= spec_assemble(pfx, porig));
            assert forall|j: int| k <= j < u.len() implies #[trigger] c.spec_get(u[j].id@)
                == spec_price_lookup(porig, u[j].id@) by {
                assert(u[j].id@ != u[k - 1].id@);
            }
        }
    }
    proof {
        assert(u.subrange(0, u.len() as int) =~= u);
    }
    out
}

// ── Status classification ───────────────────────────────────────────────

/// The error text for a non-success response of the deals endpoints.
pub open spec fn spec_api_status_message(status: u16, body: Seq<char>) -> Seq<char> {
    "API returned status "@ + spec_dec(status as int) + ": "@ + body
}

/// Classifies an HTTP response status: 2xx succeeds, anything else becomes
/// an API error carrying the status and the response body.
pub fn check_status(status: u16, body: String) -> (r: Result<(), DealveError>)
    ensures
        200 <= status <= 299 ==> r is Ok,
        !(200 <= status <= 299) ==> (r matches Err(e) && (e matches DealveError::Api(m) && m@
            == spec_api_status_message(status, body@))),
{
    if 200 <= status && status <= 299 {
        Ok(())
    } else {
        let mut m = String::from_str("API returned status ");
        let num = u64_to_string(status as u64);
        m.append(num.as_str());
        m.append(": ");
        m.append(body.as_str());
        Err(DealveError::Api(m))
    }
}

/// Classifies the response to a credential probe: 2xx means the key is
/// valid, 401 and 403 mean it is not, 429 means rate limiting, and any
/// other status surfaces the response body.
pub fn validate_key_outcome(status: u16, body: String) -> (r: Result<(), DealveError>)
    ensures
        200 <= status <= 299 ==> r is Ok,
        status == 401 || status == 403 ==> (r matches Err(e) && (e matches DealveError::Api(m)
            && m@ == "Invalid API key"@)),
        status == 429 ==> (r matches Err(e) && (e matches DealveError::Api(m) && m@
            == "Rate limited - please wait and try again"@)),
        !(200 <= status <= 299) && status != 401 && status != 403 && status != 429 ==> (r matches
            Err(e) && (e matches DealveError::Api(m) && m@ == "API error: "@ + body@)),
{
    if 200 <= status && status <= 299 {
        Ok(())
    } else if status == 401 || status == 403 {
        Err(DealveError::Api(String::from_str("Invalid API key")))
    } else if status == 429 {
        Err(DealveError::Api(String::from_str("Rate limited - please wait and try again")))
    } else {
        let mut m = String::from_str("API error: ");
        m.append(body.as_str());
        Err(DealveError::Api(m))
    }
}

} // verus!

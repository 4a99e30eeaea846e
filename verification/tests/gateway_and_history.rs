use dealve::error::DealveError;
use dealve::gateway::{
    assemble_search_deals, check_status, deal_from_item, dedup_search_items,
    game_info_from_response, select_best_deal, validate_key_outcome, CompanyInfo, DealInfo,
    DealItem, GameInfoResponse, GamePriceHistory, GamePriceItem, GameSearchItem, PriceInfo,
    ShopInfo,
};
use dealve::history::{history_points, HistoryDeal, PriceHistoryItem};

fn offer(shop_id: u32, amount: u64, cut: u8) -> DealInfo {
    DealInfo {
        shop: ShopInfo {
            id: shop_id,
            name: format!("shop{}", shop_id),
        },
        price: PriceInfo {
            amount,
            currency: "USD".to_string(),
        },
        regular: PriceInfo {
            amount: amount * 2,
            currency: "USD".to_string(),
        },
        cut,
        url: format!("https://example.com/{}", shop_id),
        history_low: None,
    }
}

fn hit(id: &str, title: &str) -> GameSearchItem {
    GameSearchItem {
        id: id.to_string(),
        title: title.to_string(),
    }
}

#[test]
fn best_offer_prefers_lowest_price() {
    let r = select_best_deal(vec![offer(1, 500, 10), offer(2, 300, 0), offer(3, 400, 90)]);
    let best = r.unwrap();
    assert_eq!(best.shop.id, 2);
    assert_eq!(best.price.amount, 300);
}

#[test]
fn best_offer_breaks_price_ties_by_discount() {
    let r = select_best_deal(vec![offer(1, 999, 10), offer(2, 999, 50)]);
    let best = r.unwrap();
    assert_eq!(best.shop.id, 2);
    assert_eq!(best.cut, 50);
}

#[test]
fn best_offer_of_nothing_is_nothing() {
    assert!(select_best_deal(vec![]).is_none());
}

#[test]
fn dedup_keeps_first_hit_per_id() {
    let r = dedup_search_items(vec![hit("a", "First"), hit("b", "Second"), hit("a", "Again")]);
    assert_eq!(r.len(), 2);
    assert_eq!(r[0].id, "a");
    assert_eq!(r[0].title, "First");
    assert_eq!(r[1].id, "b");
}

#[test]
fn search_assembly_keeps_relevance_order_and_drops_unpriced() {
    let search = vec![hit("g1", "Alpha"), hit("g2", "Beta"), hit("g3", "Gamma")];
    let prices = vec![
        GamePriceItem {
            id: "g3".to_string(),
            history_low: Some(GamePriceHistory {
                all: Some(PriceInfo {
                    amount: 250,
                    currency: "USD".to_string(),
                }),
            }),
            deals: vec![offer(1, 400, 20)],
        },
        GamePriceItem {
            id: "g1".to_string(),
            history_low: None,
            deals: vec![offer(4, 700, 35), offer(5, 700, 60)],
        },
        // g2 resolves no offers and is dropped.
        GamePriceItem {
            id: "g2".to_string(),
            history_low: None,
            deals: vec![],
        },
    ];
    let deals = assemble_search_deals(search, prices);
    assert_eq!(deals.len(), 2);
    // Relevance order, not price order.
    assert_eq!(deals[0].id, "g1");
    assert_eq!(deals[0].title, "Alpha");
    // Equal prices: the larger discount represents the title.
    assert_eq!(deals[0].shop.id, 5);
    assert_eq!(deals[0].price.discount, 60);
    assert_eq!(deals[1].id, "g3");
    // The recorded all-time low rides along.
    assert_eq!(deals[1].history_low, Some(250));
}

#[test]
fn listing_row_converts_to_deal() {
    let item = DealItem {
        id: "id1".to_string(),
        title: "Title".to_string(),
        deal: DealInfo {
            history_low: Some(123),
            ..offer(61, 1999, 75)
        },
    };
    let d = deal_from_item(item);
    assert_eq!(d.id, "id1");
    assert_eq!(d.shop.id, 61);
    assert_eq!(d.price.amount, 1999);
    assert_eq!(d.price.discount, 75);
    assert_eq!(d.regular_price, 3998);
    assert_eq!(d.history_low, Some(123));
}

#[test]
fn metadata_response_converts_with_defaults() {
    let resp = GameInfoResponse {
        id: "id1".to_string(),
        title: "Title".to_string(),
        release_date: Some("2020-01-01".to_string()),
        developers: Some(vec![
            CompanyInfo {
                name: "DevA".to_string(),
            },
            CompanyInfo {
                name: "DevB".to_string(),
            },
        ]),
        publishers: None,
        tags: None,
    };
    let info = game_info_from_response(resp);
    assert_eq!(info.developers, vec!["DevA".to_string(), "DevB".to_string()]);
    assert!(info.publishers.is_empty());
    assert!(info.tags.is_empty());
    assert_eq!(info.release_date.as_deref(), Some("2020-01-01"));
}

#[test]
fn status_classification() {
    assert!(check_status(200, String::new()).is_ok());
    assert!(check_status(299, String::new()).is_ok());
    match check_status(404, "not found".to_string()) {
        Err(DealveError::Api(m)) => assert_eq!(m, "API returned status 404: not found"),
        _ => panic!("expected an API error"),
    }
}

#[test]
fn key_validation_outcomes() {
    assert!(validate_key_outcome(204, String::new()).is_ok());
    match validate_key_outcome(401, String::new()) {
        Err(DealveError::Api(m)) => assert_eq!(m, "Invalid API key"),
        _ => panic!("expected an API error"),
    }
    match validate_key_outcome(429, String::new()) {
        Err(DealveError::Api(m)) => assert_eq!(m, "Rate limited - please wait and try again"),
        _ => panic!("expected an API error"),
    }
    match validate_key_outcome(500, "boom".to_string()) {
        Err(DealveError::Api(m)) => assert_eq!(m, "API error: boom"),
        _ => panic!("expected an API error"),
    }
}

#[test]
fn error_messages_carry_their_class() {
    assert_eq!(
        DealveError::Network("timed out".to_string()).message(),
        "Network error: timed out"
    );
    assert_eq!(
        DealveError::Parse("bad shape".to_string()).message(),
        "Parse error: bad shape"
    );
    assert_eq!(
        DealveError::Config("API key is required".to_string()).message(),
        "Configuration error: API key is required"
    );
    assert_eq!(DealveError::Api("oops".to_string()).message(), "API error: oops");
}

fn history_row(ts: &str, cents: Option<u64>) -> PriceHistoryItem {
    PriceHistoryItem {
        timestamp: ts.to_string(),
        shop: ShopInfo {
            id: 61,
            name: "Steam".to_string(),
        },
        deal: cents.map(|amount| HistoryDeal {
            price: PriceInfo {
                amount,
                currency: "USD".to_string(),
            },
        }),
    }
}

#[test]
fn timestamps_parse_through_the_calendar() {
    // This exercises the real date parser: an offset-carrying RFC 3339 text
    // must land on the exact epoch second, not on anything derived from the
    // input text itself.
    let row = history_row("2021-12-17T00:20:46+01:00", Some(500));
    let point = row.to_price_history_point().unwrap();
    assert_eq!(point.timestamp, 1639696846);
    assert_eq!(point.price, 500);
    assert_eq!(point.shop_name, "Steam");
}

#[test]
fn unparseable_timestamp_becomes_epoch_zero_in_row_conversion() {
    let row = history_row("yesterday-ish", Some(500));
    let point = row.to_price_history_point().unwrap();
    assert_eq!(point.timestamp, 0);
}

#[test]
fn rows_without_deals_convert_to_nothing() {
    let row = history_row("2021-12-17T00:20:46+01:00", None);
    assert!(row.to_price_history_point().is_none());
}

#[test]
fn history_points_drop_bad_rows_and_sort_ascending() {
    let rows = vec![
        history_row("2021-06-01T12:00:00+00:00", Some(300)),
        history_row("not a date", Some(999)),
        history_row("2020-01-01T00:00:00+00:00", Some(100)),
        history_row("2021-12-17T00:20:46+01:00", None),
        history_row("2021-12-17T00:20:46+01:00", Some(200)),
    ];
    let points = history_points(rows);
    assert_eq!(points.len(), 3);
    assert_eq!(points[0].timestamp, 1577836800);
    assert_eq!(points[0].price, 100);
    assert_eq!(points[1].timestamp, 1622548800);
    assert_eq!(points[1].price, 300);
    assert_eq!(points[2].timestamp, 1639696846);
    assert_eq!(points[2].price, 200);
}

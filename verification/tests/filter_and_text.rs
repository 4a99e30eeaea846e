use dealve::filter::{parse_money, PriceFilterState};
use dealve::message::Message;
use dealve::model::Model;
use dealve::models::{Deal, Price, Shop};
use dealve::text::{str_eq, trim, truncate, u64_to_string, vertical_padding};
use dealve::update::update;
use dealve::config::Config;

fn deal_priced(id: &str, cents: u64) -> Deal {
    Deal {
        id: id.to_string(),
        title: id.to_string(),
        shop: Shop {
            id: 61,
            name: "Steam".to_string(),
        },
        price: Price {
            amount: cents,
            currency: "USD".to_string(),
            discount: 0,
        },
        regular_price: cents,
        url: "https://example.com".to_string(),
        history_low: None,
    }
}

#[test]
fn price_filter_boundaries_are_inclusive() {
    let mut f = PriceFilterState::default();
    f.active_min = Some(1000);
    f.active_max = Some(2000);
    assert!(f.matches(1000));
    assert!(f.matches(2000));
    assert!(f.matches(1500));
    assert!(!f.matches(999));
    assert!(!f.matches(2001));
}

#[test]
fn price_filter_boundary_through_update() {
    let mut config = Config::default();
    config.region = "US".to_string();
    let mut model = Model::new(None, &config);
    let deals = vec![
        deal_priced("low", 999),
        deal_priced("min", 1000),
        deal_priced("mid", 1500),
        deal_priced("max", 2000),
        deal_priced("high", 2001),
    ];
    update(
        &mut model,
        Message::DealsLoaded {
            deals,
            is_more: false,
            page_size: 50,
        },
    );
    update(&mut model, Message::OpenPriceFilter);
    for c in "10".chars() {
        update(&mut model, Message::PriceFilterPush(c));
    }
    update(&mut model, Message::PriceFilterSwitchField);
    for c in "20".chars() {
        update(&mut model, Message::PriceFilterPush(c));
    }
    update(&mut model, Message::PriceFilterApply);
    assert_eq!(model.price_filter.active_min, Some(1000));
    assert_eq!(model.price_filter.active_max, Some(2000));
    // Exactly 10.00 and 20.00 pass; 9.99 and 20.01 do not.
    assert_eq!(model.filtered_deals(), vec![1, 2, 3]);
}

#[test]
fn parse_money_accepts_digit_and_dot_forms() {
    assert_eq!(parse_money("10"), Some(1000));
    assert_eq!(parse_money("10.5"), Some(1050));
    assert_eq!(parse_money("10.55"), Some(1055));
    // Fraction digits beyond the second are ignored.
    assert_eq!(parse_money("10.559"), Some(1055));
    assert_eq!(parse_money(".5"), Some(50));
    assert_eq!(parse_money("10."), Some(1000));
    assert_eq!(parse_money("0"), Some(0));
}

#[test]
fn parse_money_rejects_malformed_text() {
    assert_eq!(parse_money(""), None);
    assert_eq!(parse_money("."), None);
    assert_eq!(parse_money("1.2.3"), None);
    assert_eq!(parse_money("12a"), None);
    assert_eq!(parse_money("-5"), None);
}

#[test]
fn price_filter_label_shows_active_bounds() {
    let mut f = PriceFilterState::default();
    assert_eq!(f.label(), "—");
    f.active_min = Some(1000);
    assert_eq!(f.label(), ">10");
    f.active_max = Some(2050);
    assert_eq!(f.label(), "10-20");
    f.active_min = None;
    assert_eq!(f.label(), "<20");
    f.clear();
    assert_eq!(f.label(), "—");
}

#[test]
fn decimal_rendering_matches() {
    assert_eq!(u64_to_string(0), "0");
    assert_eq!(u64_to_string(7), "7");
    assert_eq!(u64_to_string(1234), "1234");
    assert_eq!(u64_to_string(1000000), "1000000");
}

#[test]
fn trim_removes_surrounding_whitespace() {
    assert_eq!(trim("  hello  "), "hello");
    assert_eq!(trim("\t a b \n"), "a b");
    assert_eq!(trim("none"), "none");
    assert_eq!(trim("   "), "");
    assert_eq!(trim(""), "");
}

#[test]
fn truncate_cuts_with_ellipsis() {
    assert_eq!(truncate("hello world", 8), "hello...");
    assert_eq!(truncate("hi", 8), "hi");
    assert_eq!(truncate("exactly8", 8), "exactly8");
    assert_eq!(truncate("abcdef", 3), "...");
}

#[test]
fn vertical_padding_centers() {
    assert_eq!(vertical_padding(10, 2), "\n\n\n");
    assert_eq!(vertical_padding(2, 1), "");
    assert_eq!(vertical_padding(0, 5), "");
}

#[test]
fn str_eq_compares_contents() {
    assert!(str_eq("abc", "abc"));
    assert!(!str_eq("abc", "abd"));
    assert!(!str_eq("abc", "ab"));
}

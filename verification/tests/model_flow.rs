use dealve::config::Config;
use dealve::message::Message;
use dealve::model::Model;
use dealve::models::{Deal, Price, Shop};
use dealve::sort::{SortCriteria, SortDirection};
use dealve::tasks::{start_load, LoadRequest, LoadTaskKind};
use dealve::update::update;

fn deal(id: &str, title: &str, shop_id: u32, amount: u64, discount: u8) -> Deal {
    Deal {
        id: id.to_string(),
        title: title.to_string(),
        shop: Shop {
            id: shop_id,
            name: format!("shop{}", shop_id),
        },
        price: Price {
            amount,
            currency: "USD".to_string(),
            discount,
        },
        regular_price: amount * 2,
        url: format!("https://example.com/{}", id),
        history_low: None,
    }
}

fn batch(prefix: &str, n: usize) -> Vec<Deal> {
    (0..n)
        .map(|i| deal(&format!("{}{}", prefix, i), &format!("Game {}{}", prefix, i), 61, 100 + i as u64, 10))
        .collect()
}

fn us_model(page_size: usize) -> Model {
    let mut config = Config::default();
    config.region = "US".to_string();
    config.deals_page_size = page_size;
    Model::new(None, &config)
}

#[test]
fn end_to_end_paging_scenario() {
    let mut model = us_model(50);
    assert_eq!(model.deals_page_size, 50);
    assert_eq!(model.region.code(), "US");
    assert_eq!(model.sort_state.criteria, SortCriteria::Price);
    assert_eq!(model.sort_state.direction, SortDirection::Ascending);

    // A full first page arrives.
    let first = batch("a", 50);
    let r = update(
        &mut model,
        Message::DealsLoaded {
            deals: first,
            is_more: true,
            page_size: 50,
        },
    );
    assert!(r.selection_changed);
    assert_eq!(model.deals.len(), 50);
    assert_eq!(model.pagination.offset, 50);
    assert!(model.pagination.has_more);
    assert_eq!(model.ui.selected, Some(0));

    // A short second page arrives: the listing is exhausted.
    let second = batch("b", 30);
    let r = update(
        &mut model,
        Message::MoreDealsLoaded {
            deals: second,
            is_more: false,
            page_size: 30,
        },
    );
    assert!(!r.needs_reload);
    assert_eq!(model.deals.len(), 80);
    assert_eq!(model.pagination.offset, 80);
    assert!(!model.pagination.has_more);

    // Once off, the flag never turns back on without a reload.
    let third = batch("c", 30);
    update(
        &mut model,
        Message::MoreDealsLoaded {
            deals: third,
            is_more: true,
            page_size: 30,
        },
    );
    assert!(!model.pagination.has_more);
    assert_eq!(model.pagination.offset, 110);

    // An explicit refresh asks for a reload, and starting it resets
    // everything.
    let r = update(&mut model, Message::RequestRefresh);
    assert!(r.needs_reload);
    let (kind, request) = start_load(&mut model);
    assert_eq!(model.deals.len(), 0);
    assert_eq!(model.pagination.offset, 0);
    assert!(model.pagination.has_more);
    assert!(model.loading.deals);
    assert_eq!(kind, LoadTaskKind::StandardDeals);
    match request {
        LoadRequest::Standard {
            region_code,
            offset,
            page_size,
            shop_id,
            sort,
        } => {
            assert_eq!(region_code, "US");
            assert_eq!(offset, 0);
            assert_eq!(page_size, 50);
            assert_eq!(shop_id, None);
            assert_eq!(sort, "price");
        }
        _ => panic!("expected a standard load"),
    }
}

#[test]
fn selection_wraps_and_inverts() {
    let mut model = us_model(50);
    update(
        &mut model,
        Message::DealsLoaded {
            deals: batch("a", 3),
            is_more: false,
            page_size: 50,
        },
    );
    assert_eq!(model.ui.selected, Some(0));
    for _ in 0..3 {
        update(&mut model, Message::SelectNext);
    }
    assert_eq!(model.ui.selected, Some(0));
    update(&mut model, Message::SelectNext);
    assert_eq!(model.ui.selected, Some(1));
    update(&mut model, Message::SelectPrevious);
    assert_eq!(model.ui.selected, Some(0));
    update(&mut model, Message::SelectPrevious);
    assert_eq!(model.ui.selected, Some(2));
}

#[test]
fn confirm_filter_is_idempotent() {
    let mut model = us_model(50);
    update(&mut model, Message::StartFilter);
    for c in "  zelda ".chars() {
        update(&mut model, Message::FilterPush(c));
    }
    let r1 = update(&mut model, Message::ConfirmFilter);
    assert!(r1.needs_reload);
    assert_eq!(model.active_search_query.as_deref(), Some("zelda"));
    assert_eq!(model.filter.text, "zelda");

    let r2 = update(&mut model, Message::ConfirmFilter);
    assert!(!r2.needs_reload);
    assert!(r2.selection_changed);
}

#[test]
fn search_mode_coerces_sort_criteria() {
    let mut model = us_model(50);
    model.sort_state.criteria = SortCriteria::Hottest;
    update(&mut model, Message::StartFilter);
    for c in "mario".chars() {
        update(&mut model, Message::FilterPush(c));
    }
    update(&mut model, Message::ConfirmFilter);
    assert!(model.active_search_query.is_some());
    // Entering search mode coerces the unsupported criteria to price.
    assert_eq!(model.sort_state.criteria, SortCriteria::Price);
    // Cycling in search mode stays within the supported pair.
    let r = update(&mut model, Message::NextSortCriteria);
    assert!(!r.needs_reload);
    assert_eq!(model.sort_state.criteria, SortCriteria::Cut);
    update(&mut model, Message::NextSortCriteria);
    assert_eq!(model.sort_state.criteria, SortCriteria::Price);
    update(&mut model, Message::PrevSortCriteria);
    assert_eq!(model.sort_state.criteria, SortCriteria::Cut);
}

#[test]
fn search_mode_sorts_locally() {
    let mut model = us_model(50);
    update(&mut model, Message::StartFilter);
    update(&mut model, Message::FilterPush('x'));
    update(&mut model, Message::ConfirmFilter);
    let deals = vec![
        deal("a", "A", 61, 300, 10),
        deal("b", "B", 61, 100, 30),
        deal("c", "C", 61, 200, 20),
    ];
    let n = deals.len();
    update(
        &mut model,
        Message::DealsLoaded {
            deals,
            is_more: false,
            page_size: n,
        },
    );
    // Ascending by price: b, c, a.
    let order = model.filtered_deals();
    assert_eq!(order, vec![1, 2, 0]);
    // Descending reverses, ties included.
    update(&mut model, Message::ToggleSortDirection);
    let order = model.filtered_deals();
    assert_eq!(order, vec![0, 2, 1]);
}

#[test]
fn platform_filter_restricts_visible_deals() {
    let mut model = us_model(50);
    let deals = vec![
        deal("a", "A", 61, 300, 10),
        deal("b", "B", 16, 100, 30),
        deal("c", "C", 61, 200, 20),
    ];
    update(
        &mut model,
        Message::DealsLoaded {
            deals,
            is_more: false,
            page_size: 50,
        },
    );
    assert_eq!(model.filtered_deals().len(), 3);
    model.platform_filter = dealve::models::Platform::Steam;
    assert_eq!(model.filtered_deals(), vec![0, 2]);
    model.platform_filter = dealve::models::Platform::EpicGames;
    assert_eq!(model.filtered_deals(), vec![1]);
}

#[test]
fn deals_load_failure_shows_error_and_keeps_pages() {
    let mut model = us_model(50);
    update(
        &mut model,
        Message::DealsLoaded {
            deals: batch("a", 50),
            is_more: true,
            page_size: 50,
        },
    );
    let r = update(
        &mut model,
        Message::DealsLoadFailed("Network error: timed out".to_string()),
    );
    assert!(!r.needs_reload);
    assert_eq!(model.error.as_deref(), Some("Network error: timed out"));
    assert_eq!(model.deals.len(), 50);
    assert!(!model.loading.deals);
    assert!(!model.pagination.loading_more);
}

#[test]
fn quit_flows_through_menu_chain() {
    let mut model = us_model(50);
    update(&mut model, Message::ToggleMenu);
    assert!(model.ui.show_menu);
    // Move to the QUIT entry (position 3) and select it.
    update(&mut model, Message::MenuNext);
    update(&mut model, Message::MenuNext);
    update(&mut model, Message::MenuNext);
    let r = update(&mut model, Message::MenuSelect);
    let chained = r.msg.expect("menu select must chain a message");
    assert!(matches!(chained, Message::Quit));
    update(&mut model, chained);
    assert!(model.should_quit);
}

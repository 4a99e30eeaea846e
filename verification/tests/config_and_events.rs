use dealve::config::Config;
use dealve::events::{handle_key, Key};
use dealve::message::Message;
use dealve::model::{Model, Popup};
use dealve::models::{CurrencySymbol, DealFilter, Platform, Price, Region, Shop};
use dealve::onboarding::{OnboardingState, OnboardingStep};
use dealve::options::OptionsState;
use dealve::sort::{SortCriteria, SortDirection, SortState};

#[test]
fn region_codes_round_trip_with_legacy_aliases() {
    assert_eq!(Region::from_code("US"), Some(Region::US));
    assert_eq!(Region::from_code("DE"), Some(Region::DE));
    // Legacy saved values map onto current regions.
    assert_eq!(Region::from_code("UK"), Some(Region::GB));
    assert_eq!(Region::from_code("EU1"), Some(Region::FR));
    assert_eq!(Region::from_code("EU2"), Some(Region::PL));
    assert_eq!(Region::from_code("XX"), None);
    assert_eq!(Region::US.name(), "United States");
    assert_eq!(Region::US.continent(), "Americas");
    assert_eq!(Region::JP.continent(), "Asia-Pacific");
    assert_eq!(Region::ZA.continent(), "Middle East & Africa");
    assert_eq!(Region::all().len(), 50);
}

#[test]
fn platform_identifiers() {
    assert_eq!(Platform::All.shop_id(), None);
    assert_eq!(Platform::Steam.shop_id(), Some(61));
    assert_eq!(Platform::Gog.shop_id(), Some(35));
    assert_eq!(Platform::EpicGames.name(), "Epic Game Store");
    assert_eq!(Platform::all().len(), 32);
    assert_eq!(Model::platforms_without_all().len(), 31);
}

#[test]
fn sort_tokens_and_labels() {
    assert_eq!(SortCriteria::Price.api_param(true), "price");
    assert_eq!(SortCriteria::Price.api_param(false), "-price");
    assert_eq!(SortCriteria::ReleaseDate.api_param(true), "release-date");
    assert_eq!(SortCriteria::Popular.api_param(false), "-rank");
    let s = SortState {
        criteria: SortCriteria::Cut,
        direction: SortDirection::Descending,
    };
    assert_eq!(s.api_param(), "-cut");
    assert_eq!(s.label(), "Cut ↓");
    assert_eq!(SortCriteria::Price.next(), SortCriteria::Cut);
    assert_eq!(SortCriteria::Price.prev(), SortCriteria::Popular);
    assert_eq!(SortCriteria::Hottest.toggle_search(), SortCriteria::Price);
    assert_eq!(SortCriteria::Price.toggle_search(), SortCriteria::Cut);
}

#[test]
fn invalid_default_platform_falls_back_to_all() {
    let mut config = Config::default();
    config.default_platform = "Steam".to_string();
    config.enabled_platforms = vec!["GOG".to_string(), "Fanatical".to_string()];
    let options = OptionsState::from_config(&config);
    assert_eq!(options.default_platform, Platform::All);
}

#[test]
fn enabled_default_platform_is_kept() {
    let mut config = Config::default();
    config.default_platform = "Steam".to_string();
    config.enabled_platforms = vec!["Steam".to_string(), "GOG".to_string()];
    let options = OptionsState::from_config(&config);
    assert_eq!(options.default_platform, Platform::Steam);
    assert!(options.enabled_platforms.contains(Platform::Steam));
    assert!(options.enabled_platforms.contains(Platform::Gog));
    assert!(!options.enabled_platforms.contains(Platform::Fanatical));
}

#[test]
fn options_write_back_into_the_record() {
    let mut config = Config::default();
    config.api_key = Some("SECRET-REDACTED".to_string());
    config.default_platform = "GOG".to_string();
    config.enabled_platforms = vec!["GOG".to_string()];
    config.region = "JP".to_string();
    config.default_sort_criteria = "Release".to_string();
    config.default_sort_direction = "Descending".to_string();
    let options = OptionsState::from_config(&config);
    assert_eq!(options.default_sort.criteria, SortCriteria::ReleaseDate);
    assert_eq!(options.default_sort.direction, SortDirection::Descending);
    assert_eq!(options.region, Region::JP);

    let mut saved = Config::default();
    saved.api_key = Some("SECRET-REDACTED".to_string());
    options.save_to_config(&mut saved);
    assert_eq!(saved.default_platform, "GOG");
    assert_eq!(saved.enabled_platforms, vec!["GOG".to_string()]);
    assert_eq!(saved.region, "JP");
    assert_eq!(saved.default_sort_criteria, "Release");
    assert_eq!(saved.default_sort_direction, "Descending");
    // The credential survives a preferences write.
    assert_eq!(saved.api_key.as_deref(), Some("SECRET-REDACTED"));
}

#[test]
fn unknown_saved_names_fall_back() {
    let mut config = Config::default();
    config.region = "ATLANTIS".to_string();
    config.default_sort_criteria = "Cheapest".to_string();
    config.default_sort_direction = "Sideways".to_string();
    assert_eq!(config.get_region(), Region::FR);
    let sort = config.get_default_sort();
    assert_eq!(sort.criteria, SortCriteria::Price);
    assert_eq!(sort.direction, SortDirection::Ascending);
}

#[test]
fn keys_dispatch_by_mode_priority() {
    let config = Config::default();
    let mut model = Model::new(None, &config);

    // Normal browsing.
    assert!(matches!(handle_key(&model, Key::Char('r')), Some(Message::RequestRefresh)));
    assert!(matches!(handle_key(&model, Key::Down), Some(Message::SelectNext)));
    assert!(matches!(handle_key(&model, Key::Char('$')), Some(Message::OpenPriceFilter)));
    assert!(handle_key(&model, Key::Char('z')).is_none());

    // Filter typing takes the same keys first.
    model.filter.active = true;
    assert!(matches!(handle_key(&model, Key::Char('r')), Some(Message::FilterPush('r'))));
    assert!(matches!(handle_key(&model, Key::Enter), Some(Message::ConfirmFilter)));
    model.filter.active = false;

    // The menu intercepts before browsing.
    model.ui.show_menu = true;
    assert!(matches!(handle_key(&model, Key::Enter), Some(Message::MenuSelect)));
    assert!(matches!(handle_key(&model, Key::Char('q')), Some(Message::Quit)));

    // An open popup intercepts before everything, menu included.
    model.ui.popup = Popup::Platform;
    assert!(matches!(handle_key(&model, Key::Char('j')), Some(Message::PlatformPopupNext)));
    model.ui.popup = Popup::PriceFilter;
    assert!(matches!(handle_key(&model, Key::Char('c')), Some(Message::PriceFilterClear)));
    assert!(matches!(handle_key(&model, Key::Char('7')), Some(Message::PriceFilterPush('7'))));
    model.ui.popup = Popup::Keybinds;
    assert!(matches!(handle_key(&model, Key::Esc), Some(Message::ClosePopup)));
    assert!(handle_key(&model, Key::Enter).is_none());
}

#[test]
fn onboarding_state_progress_and_masking() {
    let mut state = OnboardingState::new();
    assert!(matches!(state.step, OnboardingStep::Welcome));
    assert_eq!(state.progress_dots(), [true, false, false, false]);
    state.step = OnboardingStep::ApiKeyEntry;
    assert_eq!(state.progress_dots(), [true, true, true, false]);
    state.step = OnboardingStep::Validating;
    assert_eq!(state.progress_dots(), [true, true, true, true]);

    assert_eq!(state.displayed_key(), "");
    state.api_key_input = "abcd".to_string();
    assert_eq!(state.displayed_key(), "****");
    state.key_hidden = false;
    assert_eq!(state.displayed_key(), "abcd");

    assert_eq!(state.spinner_frame, 0);
    for _ in 0..10 {
        state.tick_spinner();
    }
    assert_eq!(state.spinner_frame, 0);
    let _ = state.spinner_char();
}

#[test]
fn currency_symbols() {
    let mut p = Price {
        amount: 999,
        currency: "USD".to_string(),
        discount: 0,
    };
    assert_eq!(p.currency_symbol(), "$");
    p.currency = "EUR".to_string();
    assert_eq!(p.currency_symbol(), "€");
    p.currency = "GBP".to_string();
    assert_eq!(p.currency_symbol(), "£");
    p.currency = "CHF".to_string();
    assert_eq!(p.currency_symbol(), "CHF");
}

#[test]
fn plain_defaults() {
    let f = DealFilter::default();
    assert!(f.shop_ids.is_none());
    assert_eq!(f.country, "");
    assert_eq!(f.limit, 0);
    let s = Shop::default();
    assert_eq!(s.id, 0);
    assert_eq!(s.name, "");
    let p = Price::default();
    assert_eq!(p.amount, 0);
    assert_eq!(p.currency, "USD");
    assert_eq!(p.discount, 0);
}

#[test]
fn model_spinner_cycles_while_loading() {
    let config = Config::default();
    let mut model = Model::new(None, &config);
    // Ticks do nothing while idle.
    dealve::update::update(&mut model, Message::Tick);
    assert_eq!(model.ui.spinner_frame, 0);
    model.loading.deals = true;
    for _ in 0..3 {
        dealve::update::update(&mut model, Message::Tick);
    }
    assert_eq!(model.ui.spinner_frame, 3);
    assert_eq!(model.spinner_char(), '⠸');
}

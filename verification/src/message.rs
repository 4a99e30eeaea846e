use vstd::prelude::*;

use crate::models::{Deal, PriceHistoryPoint};

verus! {

/// The closed set of intents that can change the model: user navigation and
/// edits, and the delivery of asynchronous results. These messages are the
/// only way state changes and the only way fetched data enters the model.
pub enum Message {
    // Navigation
    SelectNext,
    SelectPrevious,
    OpenSelectedDeal,
    // Menu
    ToggleMenu,
    MenuNext,
    MenuPrevious,
    MenuSelect,
    // Filtering
    StartFilter,
    CancelFilter,
    ConfirmFilter,
    FilterPush(char),
    FilterPop,
    ClearFilters,
    // Price filter
    OpenPriceFilter,
    PriceFilterSwitchField,
    PriceFilterPush(char),
    PriceFilterPop,
    PriceFilterApply,
    PriceFilterClear,
    // Platform popup
    OpenPlatformPopup,
    PlatformPopupNext,
    PlatformPopupPrev,
    PlatformPopupSelect,
    // Sort
    ToggleSortDirection,
    NextSortCriteria,
    PrevSortCriteria,
    // Popups
    ClosePopup,
    // Options
    OptionsNextTab,
    OptionsPrevTab,
    OptionsNextItem,
    OptionsPrevItem,
    OptionsToggleItem,
    OptionsToggleSortDirection,
    // Data loading results
    RequestRefresh,
    DealsLoaded { deals: Vec<Deal>, is_more: bool, page_size: usize },
    MoreDealsLoaded { deals: Vec<Deal>, is_more: bool, page_size: usize },
    DealsLoadFailed(String),
    PriceHistoryLoaded { game_id: String, history: Vec<PriceHistoryPoint> },
    // System
    Tick,
    Quit,
}

} // verus!

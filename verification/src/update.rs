use vstd::prelude::*;

use crate::filter::PriceFilterState;
use crate::message::Message;
use crate::model::{
    lemma_enabled_prefix_len, position_of, spec_position_from, LoadingState, MenuItem, Model,
    PaginationState, Popup, UiState,
};
use crate::models::{Deal, Platform, PriceHistoryPoint, Region};
use crate::options::{OptionsState, OptionsTab};
use crate::sort::{SortCriteria, SortDirection, SortState};
use crate::text::{spec_trim, str_eq, trim};

verus! {

/// Flags returned by the update function to signal the side effects the
/// driving loop must perform: a chained message to process next, a reload of
/// the deal list, a restart of the selection debounce timer, a URL to open
/// in the browser, and a write-through of the options to the settings store.
pub struct UpdateResult {
    pub msg: Option<Message>,
    pub needs_reload: bool,
    pub selection_changed: bool,
    /// Set when the user asked to open the selected deal in the browser.
    pub open_url: Option<String>,
    /// Set when the options must be persisted.
    pub save_settings: bool,
}

impl UpdateResult {
    /// A result carrying only flags: no chained message and no URL.
    pub open spec fn spec_plain(
        needs_reload: bool,
        selection_changed: bool,
        save_settings: bool,
    ) -> UpdateResult {
        UpdateResult {
            msg: None,
            needs_reload,
            selection_changed,
            open_url: None,
            save_settings,
        }
    }

    fn none() -> (r: Self)
        ensures
            r == UpdateResult::spec_plain(false, false, false),
    {
        UpdateResult {
            msg: None,
            needs_reload: false,
            selection_changed: false,
            open_url: None,
            save_settings: false,
        }
    }

    fn with_selection_changed() -> (r: Self)
        ensures
            r == UpdateResult::spec_plain(false, true, false),
    {
        UpdateResult {
            msg: None,
            needs_reload: false,
            selection_changed: true,
            open_url: None,
            save_settings: false,
        }
    }

    fn with_reload() -> (r: Self)
        ensures
            r == UpdateResult::spec_plain(true, true, false),
    {
        UpdateResult {
            msg: None,
            needs_reload: true,
            selection_changed: true,
            open_url: None,
            save_settings: false,
        }
    }

    fn with_msg(msg: Message) -> (r: Self)
        ensures
            r == (UpdateResult {
                msg: Some(msg),
                needs_reload: false,
                selection_changed: false,
                open_url: None,
                save_settings: false,
            }),
    {
        UpdateResult {
            msg: Some(msg),
            needs_reload: false,
            selection_changed: false,
            open_url: None,
            save_settings: false,
        }
    }

    fn plain(needs_reload: bool, selection_changed: bool, save_settings: bool) -> (r: Self)
        ensures
            r == UpdateResult::spec_plain(needs_reload, selection_changed, save_settings),
    {
        UpdateResult {
            msg: None,
            needs_reload,
            selection_changed,
            open_url: None,
            save_settings,
        }
    }
}

/// The text a saved query holds, if one is saved.
pub open spec fn spec_opt_text(o: Option<String>) -> Option<Seq<char>> {
    match o {
        Some(s) => Some(s@),
        None => None,
    }
}

fn opt_string_eq(a: &Option<String>, b: &Option<String>) -> (r: bool)
    ensures
        r == (spec_opt_text(*a) == spec_opt_text(*b)),
{
    match (a, b) {
        (None, None) => true,
        (Some(x), Some(y)) => str_eq(x.as_str(), y.as_str()),
        _ => false,
    }
}

/// The next cursor position in a list of length `n`, wrapping to the top.
pub open spec fn spec_wrap_next(i: int, n: int) -> int {
    if i >= n - 1 {
        0
    } else {
        i + 1
    }
}

/// The previous cursor position in a list of length `n`, wrapping to the
/// bottom.
pub open spec fn spec_wrap_prev(i: int, n: int) -> int {
    if i == 0 {
        n - 1
    } else {
        i - 1
    }
}

/// Where the selection moves on a step down: forward with wrap-around over
/// the filtered list; unchanged when the list is empty.
pub open spec fn spec_next_selection(m: Model) -> Option<usize> {
    let n = m.spec_filtered().len() as int;
    if n > 0 {
        match m.ui.selected {
            Some(i) => Some(spec_wrap_next(i as int, n) as usize),
            None => Some(0usize),
        }
    } else {
        m.ui.selected
    }
}

/// Where the selection moves on a step up: backward with wrap-around over
/// the filtered list; unchanged when the list is empty.
pub open spec fn spec_prev_selection(m: Model) -> Option<usize> {
    let n = m.spec_filtered().len() as int;
    if n > 0 {
        match m.ui.selected {
            Some(i) => Some(spec_wrap_prev(i as int, n) as usize),
            None => Some(0usize),
        }
    } else {
        m.ui.selected
    }
}

/// The page-size presets the advanced options cycle through.
pub open spec fn spec_cycle_page_size(n: usize) -> usize {
    if n == 25 {
        50
    } else if n == 50 {
        100
    } else if n == 100 {
        200
    } else {
        25
    }
}

/// The debounce-delay presets the advanced options cycle through.
pub open spec fn spec_cycle_delay(n: u64) -> u64 {
    if n == 100 {
        200
    } else if n == 200 {
        300
    } else if n == 300 {
        500
    } else {
        100
    }
}

/// What a step of the selection does: moves the cursor and reports a
/// selection change, touching nothing else.
pub open spec fn spec_selection_step(
    pre: Model,
    post: Model,
    r: UpdateResult,
    target: Option<usize>,
) -> bool {
    &&& post == (Model { ui: (UiState { selected: target, ..pre.ui }), ..pre })
    &&& r == UpdateResult::spec_plain(false, true, false)
}

/// What confirming the text filter does: leaves edit mode, normalizes the
/// buffer into the confirmed query (trimmed; empty becomes no query),
/// coerces an unsupported sort criteria to price when entering search mode,
/// reseeds the buffer from the confirmed query, resets the selection, and
/// asks for a reload exactly when the confirmed query changed.
pub open spec fn spec_confirm_filter(pre: Model, post: Model, r: UpdateResult) -> bool {
    let trimmed = spec_trim(pre.filter.text@);
    let nq: Option<Seq<char>> = if trimmed.len() == 0 {
        None
    } else {
        Some(trimmed)
    };
    let changed = spec_opt_text(pre.active_search_query) != nq;
    &&& post == (Model {
        filter: post.filter,
        active_search_query: post.active_search_query,
        sort_state: (SortState {
            criteria: if nq is Some && !pre.sort_state.criteria.spec_search_supported() {
    SortCriteria::Price
            } else {
    pre.sort_state.criteria
            },
            direction: pre.sort_state.direction,
        }),
        ui: (UiState { selected: Some(0usize), ..pre.ui }),
        ..pre
    })
    &&& !post.filter.active
    &&& post.filter.text@ == (match nq {
        Some(t) => t,
        None => Seq::<char>::empty(),
    })
    &&& spec_opt_text(post.active_search_query) == nq
    &&& r == UpdateResult::spec_plain(changed, true, false)
}

/// What a fresh page of deals does: replaces the list, moves the offset to
/// the requested page size, notes the end of the listing on a short page,
/// resets the selection, clears the loading flag and any error.
pub open spec fn spec_deals_loaded(
    pre: Model,
    post: Model,
    r: UpdateResult,
    deals: Vec<Deal>,
    is_more: bool,
    page_size: usize,
) -> bool {
    &&& post == (Model {
        deals: deals,
        pagination: (PaginationState {
            offset: page_size,
            has_more: pre.pagination.has_more && is_more,
            loading_more: pre.pagination.loading_more,
        }),
        ui: (UiState { selected: Some(0usize), ..pre.ui }),
        loading: (LoadingState { deals: false, ..pre.loading }),
        error: None,
        ..pre
    })
    &&& r == UpdateResult::spec_plain(false, true, false)
}

/// What an appended page of deals does: extends the list, advances the
/// offset by the page size, notes the end of the listing on a short page,
/// clears the paginating flag and any error — and never touches the
/// selection.
pub open spec fn spec_more_deals_loaded(
    pre: Model,
    post: Model,
    r: UpdateResult,
    deals: Vec<Deal>,
    is_more: bool,
    page_size: usize,
) -> bool {
    &&& post == (Model {
        deals: post.deals,
        pagination: (PaginationState {
            offset: (pre.pagination.offset + page_size) as usize,
            has_more: pre.pagination.has_more && is_more,
            loading_more: false,
        }),
        error: None,
        ..pre
    })
    &&& post.deals@ == pre.deals@ + deals@
    &&& r == UpdateResult::spec_plain(false, false, false)
}

/// What a sort change does: installs the new sort, resets the selection,
/// and asks for a reload exactly when sorting is server-side (that is,
/// outside search mode).
pub open spec fn spec_sort_changed(
    pre: Model,
    post: Model,
    r: UpdateResult,
    criteria: SortCriteria,
    direction: SortDirection,
) -> bool {
    &&& post == (Model {
        sort_state: (SortState { criteria, direction }),
        ui: (UiState { selected: Some(0usize), ..pre.ui }),
        ..pre
    })
    &&& r == UpdateResult::spec_plain(
        !pre.spec_is_search_mode(),
        true,
        false,
    )
}

/// What the `OpenSelectedDeal` message does.
pub open spec fn spec_open_selected_deal_applied(pre: Model, post: Model, r: UpdateResult) -> bool {
    &&& post == pre
    &&& r.msg is None
    &&& !r.needs_reload
    &&& !r.selection_changed
    &&& !r.save_settings
    &&& (r.open_url is Some <==> pre.spec_selected_deal() is Some)
    &&& (r.open_url matches Some(u) ==> pre.spec_selected_deal() matches Some(d)
        && u@ == d.url@)
}

/// What the `ToggleMenu` message does.
pub open spec fn spec_toggle_menu_applied(pre: Model, post: Model, r: UpdateResult) -> bool {
    &&& post == (Model {
        ui: (UiState {
            show_menu: !pre.ui.show_menu,
            menu_selected: if !pre.ui.show_menu {
                0
            } else {
                pre.ui.menu_selected
            },
            ..pre.ui
        }),
        ..pre
    })
    &&& r == UpdateResult::spec_plain(false, false, false)
}

/// What the `MenuNext` message does.
pub open spec fn spec_menu_next_applied(pre: Model, post: Model, r: UpdateResult) -> bool {
    &&& post == (Model {
        ui: (UiState {
            menu_selected: ((pre.ui.menu_selected + 1) % 4) as usize,
            ..pre.ui
        }),
        ..pre
    })
    &&& r == UpdateResult::spec_plain(false, false, false)
}

/// What the `MenuPrevious` message does.
pub open spec fn spec_menu_previous_applied(pre: Model, post: Model, r: UpdateResult) -> bool {
    &&& post == (Model {
        ui: (UiState {
            menu_selected: spec_wrap_prev(pre.ui.menu_selected as int, 4) as usize,
            ..pre.ui
        }),
        ..pre
    })
    &&& r == UpdateResult::spec_plain(false, false, false)
}

/// What the `MenuSelect` message does.
pub open spec fn spec_menu_select_applied(pre: Model, post: Model, r: UpdateResult) -> bool {
    match MenuItem::spec_at(pre.ui.menu_selected as int) {
        MenuItem::Browse => {
            &&& post == (Model {
                ui: (UiState { show_menu: false, ..pre.ui }),
                ..pre
            })
            &&& r == UpdateResult::spec_plain(false, false, false)
        },
        MenuItem::Options => {
            &&& post == (Model {
                ui: (UiState { popup: Popup::Options, ..pre.ui }),
                ..pre
            })
            &&& r == UpdateResult::spec_plain(false, false, false)
        },
        MenuItem::Keybinds => {
            &&& post == (Model {
                ui: (UiState { popup: Popup::Keybinds, ..pre.ui }),
                ..pre
            })
            &&& r == UpdateResult::spec_plain(false, false, false)
        },
        MenuItem::Quit => {
            &&& post == pre
            &&& r == (UpdateResult {
                msg: Some(Message::Quit),
                needs_reload: false,
                selection_changed: false,
                open_url: None,
                save_settings: false,
            })
        },
    }
}

/// What the `StartFilter` message does.
pub open spec fn spec_start_filter_applied(pre: Model, post: Model, r: UpdateResult) -> bool {
    &&& post == (Model { filter: post.filter, ..pre })
    &&& post.filter.active
    &&& post.filter.text@ == (match pre.active_search_query {
        Some(q) => q@,
        None => Seq::<char>::empty(),
    })
    &&& r == UpdateResult::spec_plain(false, false, false)
}

/// What the `CancelFilter` message does.
pub open spec fn spec_cancel_filter_applied(pre: Model, post: Model, r: UpdateResult) -> bool {
    &&& post == (Model {
        filter: post.filter,
        ui: (UiState { selected: Some(0usize), ..pre.ui }),
        ..pre
    })
    &&& !post.filter.active
    &&& post.filter.text@ == (match pre.active_search_query {
        Some(q) => q@,
        None => Seq::<char>::empty(),
    })
    &&& r == UpdateResult::spec_plain(false, true, false)
}

/// What the `FilterPush` message does.
pub open spec fn spec_filter_push_applied(pre: Model, post: Model, r: UpdateResult, c: char) -> bool {
    &&& post == (Model {
        filter: post.filter,
        ui: (UiState { selected: Some(0usize), ..pre.ui }),
        ..pre
    })
    &&& post.filter.active == pre.filter.active
    &&& post.filter.text@ == pre.filter.text@.push(c)
    &&& r == UpdateResult::spec_plain(false, true, false)
}

/// What the `FilterPop` message does.
pub open spec fn spec_filter_pop_applied(pre: Model, post: Model, r: UpdateResult) -> bool {
    &&& post == (Model {
        filter: post.filter,
        ui: (UiState { selected: Some(0usize), ..pre.ui }),
        ..pre
    })
    &&& post.filter.active == pre.filter.active
    &&& post.filter.text@ == (if pre.filter.text@.len() > 0 {
        pre.filter.text@.drop_last()
    } else {
        pre.filter.text@
    })
    &&& r == UpdateResult::spec_plain(false, true, false)
}

/// What the `ClearFilters` message does.
pub open spec fn spec_clear_filters_applied(pre: Model, post: Model, r: UpdateResult) -> bool {
    let any = pre.filter.text@.len() > 0 || pre.price_filter.spec_is_active()
        || pre.active_search_query is Some;
    let had = pre.active_search_query is Some;
    if any {
        &&& post == (Model {
            filter: post.filter,
            active_search_query: None,
            price_filter: (PriceFilterState {
                min_input: post.price_filter.min_input,
                max_input: post.price_filter.max_input,
                active_min: None,
                active_max: None,
                ..pre.price_filter
            }),
            ui: (UiState { selected: Some(0usize), ..pre.ui }),
            ..pre
        })
        &&& !post.filter.active
        &&& post.filter.text@ == Seq::<char>::empty()
        &&& post.price_filter.min_input@ == Seq::<char>::empty()
        &&& post.price_filter.max_input@ == Seq::<char>::empty()
        &&& r == UpdateResult::spec_plain(had, true, false)
    } else {
        &&& post == pre
        &&& r == UpdateResult::spec_plain(false, false, false)
    }
}

/// What the `OpenPriceFilter` message does.
pub open spec fn spec_open_price_filter_applied(pre: Model, post: Model, r: UpdateResult) -> bool {
    &&& post == (Model {
        price_filter: post.price_filter,
        ui: (UiState { popup: Popup::PriceFilter, ..pre.ui }),
        ..pre
    })
    &&& post.price_filter == (PriceFilterState {
        min_input: post.price_filter.min_input,
        max_input: post.price_filter.max_input,
        selected_field: 0,
        ..pre.price_filter
    })
    &&& post.price_filter.min_input@ == (match pre.price_filter.active_min {
        Some(v) => PriceFilterState::spec_bound_label(v),
        None => Seq::<char>::empty(),
    })
    &&& post.price_filter.max_input@ == (match pre.price_filter.active_max {
        Some(v) => PriceFilterState::spec_bound_label(v),
        None => Seq::<char>::empty(),
    })
    &&& r == UpdateResult::spec_plain(false, false, false)
}

/// What the `PriceFilterSwitchField` message does.
pub open spec fn spec_price_filter_switch_field_applied(pre: Model, post: Model, r: UpdateResult) -> bool {
    &&& post == (Model {
        price_filter: (PriceFilterState {
            selected_field: (1 - pre.price_filter.selected_field) as usize,
            ..pre.price_filter
        }),
        ..pre
    })
    &&& r == UpdateResult::spec_plain(false, false, false)
}

/// What the `PriceFilterPush` message does.
pub open spec fn spec_price_filter_push_applied(pre: Model, post: Model, r: UpdateResult, c: char) -> bool {
    let u = c as u32;
    let ok = (48 <= u && u <= 57) || c == '.';
    &&& post == (Model {
        price_filter: (PriceFilterState {
            min_input: post.price_filter.min_input,
            max_input: post.price_filter.max_input,
            ..pre.price_filter
        }),
        ..pre
    })
    &&& post.price_filter.min_input@ == (if ok && pre.price_filter.selected_field
        == 0 && pre.price_filter.min_input@.len() < 8 {
        pre.price_filter.min_input@.push(c)
    } else {
        pre.price_filter.min_input@
    })
    &&& post.price_filter.max_input@ == (if ok && pre.price_filter.selected_field
        != 0 && pre.price_filter.max_input@.len() < 8 {
        pre.price_filter.max_input@.push(c)
    } else {
        pre.price_filter.max_input@
    })
    &&& r == UpdateResult::spec_plain(false, false, false)
}

/// What the `PriceFilterPop` message does.
pub open spec fn spec_price_filter_pop_applied(pre: Model, post: Model, r: UpdateResult) -> bool {
    &&& post == (Model {
        price_filter: (PriceFilterState {
            min_input: post.price_filter.min_input,
            max_input: post.price_filter.max_input,
            ..pre.price_filter
        }),
        ..pre
    })
    &&& post.price_filter.min_input@ == (if pre.price_filter.selected_field == 0
        && pre.price_filter.min_input@.len() > 0 {
        pre.price_filter.min_input@.drop_last()
    } else {
        pre.price_filter.min_input@
    })
    &&& post.price_filter.max_input@ == (if pre.price_filter.selected_field != 0
        && pre.price_filter.max_input@.len() > 0 {
        pre.price_filter.max_input@.drop_last()
    } else {
        pre.price_filter.max_input@
    })
    &&& r == UpdateResult::spec_plain(false, false, false)
}

/// What the `PriceFilterApply` message does.
pub open spec fn spec_price_filter_apply_applied(pre: Model, post: Model, r: UpdateResult) -> bool {
    &&& post == (Model {
        price_filter: (PriceFilterState {
            active_min: crate::filter::spec_money(pre.price_filter.min_input@),
            active_max: crate::filter::spec_money(pre.price_filter.max_input@),
            ..pre.price_filter
        }),
        ui: (UiState {
            popup: Popup::Closed,
            selected: Some(0usize),
            ..pre.ui
        }),
        ..pre
    })
    &&& r == UpdateResult::spec_plain(false, true, false)
}

/// What the `PriceFilterClear` message does.
pub open spec fn spec_price_filter_clear_applied(pre: Model, post: Model, r: UpdateResult) -> bool {
    &&& post == (Model {
        price_filter: (PriceFilterState {
            min_input: post.price_filter.min_input,
            max_input: post.price_filter.max_input,
            active_min: None,
            active_max: None,
            ..pre.price_filter
        }),
        ui: (UiState {
            popup: Popup::Closed,
            selected: Some(0usize),
            ..pre.ui
        }),
        ..pre
    })
    &&& post.price_filter.min_input@ == Seq::<char>::empty()
    &&& post.price_filter.max_input@ == Seq::<char>::empty()
    &&& r == UpdateResult::spec_plain(false, true, false)
}

/// What the `OpenPlatformPopup` message does.
pub open spec fn spec_open_platform_popup_applied(pre: Model, post: Model, r: UpdateResult) -> bool {
    &&& post == (Model {
        ui: (UiState {
            platform_popup_index: (match spec_position_from(
                pre.spec_enabled_prefix(32),
                pre.platform_filter,
                0,
            ) {
                Some(k) => k as usize,
                None => 0,
            }),
            popup: Popup::Platform,
            ..pre.ui
        }),
        ..pre
    })
    &&& r == UpdateResult::spec_plain(false, false, false)
}

/// What the `PlatformPopupNext` message does.
pub open spec fn spec_platform_popup_next_applied(pre: Model, post: Model, r: UpdateResult) -> bool {
    let n = pre.spec_enabled_prefix(32).len() as int;
    &&& post == (Model {
        ui: (UiState {
            platform_popup_index: if n > 0 {
                (((pre.ui.platform_popup_index + 1) as int % n) as usize)
            } else {
                pre.ui.platform_popup_index
            },
            ..pre.ui
        }),
        ..pre
    })
    &&& r == UpdateResult::spec_plain(false, false, false)
}

/// What the `PlatformPopupPrev` message does.
pub open spec fn spec_platform_popup_prev_applied(pre: Model, post: Model, r: UpdateResult) -> bool {
    let n = pre.spec_enabled_prefix(32).len() as int;
    &&& post == (Model {
        ui: (UiState {
            platform_popup_index: if n > 0 {
                spec_wrap_prev(pre.ui.platform_popup_index as int, n) as usize
            } else {
                pre.ui.platform_popup_index
            },
            ..pre.ui
        }),
        ..pre
    })
    &&& r == UpdateResult::spec_plain(false, false, false)
}

/// What the `PlatformPopupSelect` message does.
pub open spec fn spec_platform_popup_select_applied(pre: Model, post: Model, r: UpdateResult) -> bool {
    let en = pre.spec_enabled_prefix(32);
    if pre.ui.platform_popup_index < en.len() {
        let p = en[pre.ui.platform_popup_index as int];
        let changed = pre.platform_filter != p;
        &&& post == (Model {
            platform_filter: p,
            ui: (UiState {
                popup: Popup::Closed,
                selected: if changed {
                    Some(0usize)
                } else {
                    pre.ui.selected
                },
                ..pre.ui
            }),
            ..pre
        })
        &&& r == UpdateResult::spec_plain(changed, changed, false)
    } else {
        &&& post == (Model {
            ui: (UiState { popup: Popup::Closed, ..pre.ui }),
            ..pre
        })
        &&& r == UpdateResult::spec_plain(false, false, false)
    }
}

/// What the `ClosePopup` message does.
pub open spec fn spec_close_popup_applied(pre: Model, post: Model, r: UpdateResult) -> bool {
    &&& post == (Model {
        ui: (UiState { popup: Popup::Closed, ..pre.ui }),
        options: (OptionsState {
            platform_list_index: 0,
            region_list_index: 0,
            advanced_list_index: 0,
            ..pre.options
        }),
        ..pre
    })
    &&& r == UpdateResult::spec_plain(false, false, false)
}

/// What the `OptionsNextTab` message does.
pub open spec fn spec_options_next_tab_applied(pre: Model, post: Model, r: UpdateResult) -> bool {
    &&& post == (Model {
        options: (OptionsState {
            current_tab: ((pre.options.current_tab + 1) % 3) as usize,
            platform_list_index: 0,
            region_list_index: 0,
            advanced_list_index: 0,
            ..pre.options
        }),
        ..pre
    })
    &&& r == UpdateResult::spec_plain(false, false, false)
}

/// What the `OptionsPrevTab` message does.
pub open spec fn spec_options_prev_tab_applied(pre: Model, post: Model, r: UpdateResult) -> bool {
    &&& post == (Model {
        options: (OptionsState {
            current_tab: spec_wrap_prev(pre.options.current_tab as int, 3) as usize,
            platform_list_index: 0,
            region_list_index: 0,
            advanced_list_index: 0,
            ..pre.options
        }),
        ..pre
    })
    &&& r == UpdateResult::spec_plain(false, false, false)
}

/// What the `OptionsNextItem` message does.
pub open spec fn spec_options_next_item_applied(pre: Model, post: Model, r: UpdateResult) -> bool {
    &&& post == (Model {
        options: (match OptionsTab::spec_at(pre.options.current_tab as int) {
            OptionsTab::Region => (OptionsState {
                region_list_index: ((pre.options.region_list_index + 1)
                    % 50) as usize,
                ..pre.options
            }),
            OptionsTab::Platforms => (OptionsState {
                platform_list_index: ((pre.options.platform_list_index + 1)
                    % 32) as usize,
                ..pre.options
            }),
            OptionsTab::Advanced => (OptionsState {
                advanced_list_index: ((pre.options.advanced_list_index + 1)
                    % 3) as usize,
                ..pre.options
            }),
        }),
        ..pre
    })
    &&& r == UpdateResult::spec_plain(false, false, false)
}

/// What the `OptionsPrevItem` message does.
pub open spec fn spec_options_prev_item_applied(pre: Model, post: Model, r: UpdateResult) -> bool {
    &&& post == (Model {
        options: (match OptionsTab::spec_at(pre.options.current_tab as int) {
            OptionsTab::Region => (OptionsState {
                region_list_index: spec_wrap_prev(
                    pre.options.region_list_index as int,
                    50,
                ) as usize,
                ..pre.options
            }),
            OptionsTab::Platforms => (OptionsState {
                platform_list_index: spec_wrap_prev(
                    pre.options.platform_list_index as int,
                    32,
                ) as usize,
                ..pre.options
            }),
            OptionsTab::Advanced => (OptionsState {
                advanced_list_index: spec_wrap_prev(
                    pre.options.advanced_list_index as int,
                    3,
                ) as usize,
                ..pre.options
            }),
        }),
        ..pre
    })
    &&& r == UpdateResult::spec_plain(false, false, false)
}

/// What the `OptionsToggleItem` message does.
pub open spec fn spec_options_toggle_item_applied(pre: Model, post: Model, r: UpdateResult) -> bool {
    match OptionsTab::spec_at(pre.options.current_tab as int) {
        OptionsTab::Region => {
            let reg = Region::spec_all()[pre.options.region_list_index as int];
            let changed = pre.options.region != reg;
            &&& post == (Model {
                region: if changed {
                    reg
                } else {
                    pre.region
                },
                options: (OptionsState { region: reg, ..pre.options }),
                ui: (UiState {
                    popup: if changed {
                        Popup::Closed
                    } else {
                        pre.ui.popup
                    },
                    ..pre.ui
                }),
                ..pre
            })
            &&& r == UpdateResult::spec_plain(changed, changed, true)
        },
        OptionsTab::Platforms => {
            if pre.options.platform_list_index == 0 {
                &&& (match pre.spec_next_enabled(
                    pre.spec_default_platform_pos(),
                    1,
                ) {
                    Some(p) => post == (Model {
                        options: (OptionsState {
                            default_platform: p,
                            ..pre.options
                        }),
                        platform_filter: p,
                        ..pre
                    }),
                    None => post == pre,
                })
                &&& r == UpdateResult::spec_plain(false, false, true)
            } else {
                let p = Platform::spec_all()[pre.options.platform_list_index as int];
                &&& post == (Model {
                    options: (OptionsState {
                        enabled_platforms: post.options.enabled_platforms,
                        ..pre.options
                    }),
                    ..pre
                })
                &&& post.options.enabled_platforms.spec_contains(p)
                    == !pre.options.enabled_platforms.spec_contains(p)
                &&& (forall|q: Platform|
                    q != p ==> post.options.enabled_platforms.spec_contains(q)
                        == pre.options.enabled_platforms.spec_contains(q))
                &&& r == UpdateResult::spec_plain(false, false, true)
            }
        },
        OptionsTab::Advanced => {
            if pre.options.advanced_list_index == 0 {
                &&& post == (Model {
                    options: (OptionsState {
                        default_sort: (SortState {
                            criteria:
                                pre.options.default_sort.criteria.spec_next(),
                            direction: pre.options.default_sort.direction,
                        }),
                        ..pre.options
                    }),
                    ..pre
                })
                &&& r == UpdateResult::spec_plain(false, false, true)
            } else if pre.options.advanced_list_index == 1 {
                let ps = spec_cycle_page_size(pre.options.deals_page_size);
                &&& post == (Model {
                    options: (OptionsState {
                        deals_page_size: ps,
                        ..pre.options
                    }),
                    deals_page_size: ps,
                    ..pre
                })
                &&& r == UpdateResult::spec_plain(false, false, true)
            } else {
                let d = spec_cycle_delay(pre.options.game_info_delay_ms);
                &&& post == (Model {
                    options: (OptionsState {
                        game_info_delay_ms: d,
                        ..pre.options
                    }),
                    game_info_delay_ms: d,
                    ..pre
                })
                &&& r == UpdateResult::spec_plain(false, false, true)
            }
        },
    }
}

/// What the `OptionsToggleSortDirection` message does.
pub open spec fn spec_options_toggle_sort_direction_applied(pre: Model, post: Model, r: UpdateResult) -> bool {
    let active = OptionsTab::spec_at(pre.options.current_tab as int) is Advanced
        && pre.options.advanced_list_index == 0;
    &&& post == (if active {
        (Model {
            options: (OptionsState {
                default_sort: (SortState {
                    criteria: pre.options.default_sort.criteria,
                    direction: pre.options.default_sort.direction.spec_toggle(),
                }),
                ..pre.options
            }),
            ..pre
        })
    } else {
        pre
    })
    &&& r == UpdateResult::spec_plain(false, false, active)
}

/// What the `RequestRefresh` message does.
pub open spec fn spec_request_refresh_applied(pre: Model, post: Model, r: UpdateResult) -> bool {
    &&& post == pre
    &&& r == UpdateResult::spec_plain(true, true, false)
}

/// What the `DealsLoadFailed` message does.
pub open spec fn spec_deals_load_failed_applied(pre: Model, post: Model, r: UpdateResult, error: String) -> bool {
    &&& post == (Model {
        error: Some(error),
        loading: (LoadingState { deals: false, ..pre.loading }),
        pagination: (PaginationState { loading_more: false, ..pre.pagination }),
        ..pre
    })
    &&& r == UpdateResult::spec_plain(false, false, false)
}

/// What the `PriceHistoryLoaded` message does.
pub open spec fn spec_price_history_loaded_applied(pre: Model, post: Model, r: UpdateResult, game_id: String, history: Vec<PriceHistoryPoint>) -> bool {
    &&& post == (Model {
        price_history_cache: post.price_history_cache,
        loading: (LoadingState {
            price_history: post.loading.price_history,
            ..pre.loading
        }),
        ..pre
    })
    &&& post.price_history_cache.spec_get(game_id@) == Some(history)
    &&& (forall|k: Seq<char>|
        k != game_id@ ==> post.price_history_cache.spec_get(k)
            == pre.price_history_cache.spec_get(k))
    &&& post.loading.price_history == (if pre.loading.price_history matches Some(g)
        && g@ == game_id@ {
        None::<String>
    } else {
        pre.loading.price_history
    })
    &&& r == UpdateResult::spec_plain(false, false, false)
}

/// What the `Tick` message does.
pub open spec fn spec_tick_applied(pre: Model, post: Model, r: UpdateResult) -> bool {
    &&& post == (Model {
        ui: (UiState {
            spinner_frame: if pre.loading.deals || pre.pagination.loading_more {
                ((pre.ui.spinner_frame + 1) % 10) as usize
            } else {
                pre.ui.spinner_frame
            },
            ..pre.ui
        }),
        ..pre
    })
    &&& r == UpdateResult::spec_plain(false, false, false)
}

/// What the `Quit` message does.
pub open spec fn spec_quit_applied(pre: Model, post: Model, r: UpdateResult) -> bool {
    &&& post == (Model { should_quit: true, ..pre })
    &&& r == UpdateResult::spec_plain(false, false, false)
}

fn apply_select_next(model: &mut Model) -> (r: UpdateResult)
    requires
        old(model).wf(),
    ensures
        final(model).wf(),
        spec_selection_step(*old(model), *final(model), r, spec_next_selection(*old(model))),
{
    let filtered_count = model.filtered_deals().len();
    if filtered_count > 0 {
        let i = match model.ui.selected {
            Some(i) => {
                if i >= filtered_count - 1 {
                    0
                } else {
                    i + 1
                }
            },
            None => 0,
        };
        model.select(Some(i));
    }
    UpdateResult::with_selection_changed()
}

fn apply_select_previous(model: &mut Model) -> (r: UpdateResult)
    requires
        old(model).wf(),
    ensures
        final(model).wf(),
        spec_selection_step(
                    *old(model),
                    *final(model),
                    r,
                    spec_prev_selection(*old(model)),
                ),
{
            let filtered_count = model.filtered_deals().len();
            if filtered_count > 0 {
                let i = match model.ui.selected {
                    Some(i) => {
                        if i == 0 {
                            filtered_count - 1
                        } else {
                            i - 1
                        }
                    },
                    None => 0,
                };
                model.select(Some(i));
            }
            UpdateResult::with_selection_changed()
        }

fn apply_open_selected_deal(model: &mut Model) -> (r: UpdateResult)
    requires
        old(model).wf(),
    ensures
        final(model).wf(),
        spec_open_selected_deal_applied(*old(model), *final(model), r),
{
    let url = match model.selected_deal() {
        Some(deal) => Some(deal.url.clone()),
        None => None,
    };
    let mut r = UpdateResult::none();
    r.open_url = url;
    r
}

fn apply_toggle_menu(model: &mut Model) -> (r: UpdateResult)
    requires
        old(model).wf(),
    ensures
        final(model).wf(),
        spec_toggle_menu_applied(*old(model), *final(model), r),
{
    model.ui.show_menu = !model.ui.show_menu;
    if model.ui.show_menu {
        model.ui.menu_selected = 0;
    }
    UpdateResult::none()
}

fn apply_menu_next(model: &mut Model) -> (r: UpdateResult)
    requires
        old(model).wf(),
    ensures
        final(model).wf(),
        spec_menu_next_applied(*old(model), *final(model), r),
{
    model.ui.menu_selected = (model.ui.menu_selected + 1) % 4;
    UpdateResult::none()
}

fn apply_menu_previous(model: &mut Model) -> (r: UpdateResult)
    requires
        old(model).wf(),
    ensures
        final(model).wf(),
        spec_menu_previous_applied(*old(model), *final(model), r),
{
    if model.ui.menu_selected == 0 {
        model.ui.menu_selected = 3;
    } else {
        model.ui.menu_selected = model.ui.menu_selected - 1;
    }
    UpdateResult::none()
}

fn apply_menu_select(model: &mut Model) -> (r: UpdateResult)
    requires
        old(model).wf(),
    ensures
        final(model).wf(),
        spec_menu_select_applied(*old(model), *final(model), r),
{
    match MenuItem::at(model.ui.menu_selected) {
        MenuItem::Browse => {
            model.ui.show_menu = false;
        },
        MenuItem::Options => {
            model.ui.popup = Popup::Options;
        },
        MenuItem::Keybinds => {
            model.ui.popup = Popup::Keybinds;
        },
        MenuItem::Quit => {
            return UpdateResult::with_msg(Message::Quit);
        },
    }
    UpdateResult::none()
}

fn apply_start_filter(model: &mut Model) -> (r: UpdateResult)
    requires
        old(model).wf(),
    ensures
        final(model).wf(),
        spec_start_filter_applied(*old(model), *final(model), r),
{
    model.filter.active = true;
    model.filter.text = match &model.active_search_query {
        Some(q) => q.clone(),
        None => String::new(),
    };
    UpdateResult::none()
}

fn apply_cancel_filter(model: &mut Model) -> (r: UpdateResult)
    requires
        old(model).wf(),
    ensures
        final(model).wf(),
        spec_cancel_filter_applied(*old(model), *final(model), r),
{
    model.filter.active = false;
    model.filter.text = match &model.active_search_query {
        Some(q) => q.clone(),
        None => String::new(),
    };
    model.select(Some(0));
    UpdateResult::with_selection_changed()
}

fn apply_confirm_filter(model: &mut Model) -> (r: UpdateResult)
    requires
        old(model).wf(),
    ensures
        final(model).wf(),
        spec_confirm_filter(*old(model), *final(model), r),
{
    model.filter.active = false;
    let trimmed = trim(model.filter.text.as_str());
    let next_query: Option<String> = if trimmed.as_str().unicode_len() == 0 {
        None
    } else {
        Some(trimmed)
    };
    let has_changed = !opt_string_eq(&model.active_search_query, &next_query);
    model.active_search_query = next_query;
    if model.is_search_mode() && !model.is_search_sort_supported() {
        model.sort_state.criteria = SortCriteria::Price;
    }
    model.filter.text = match &model.active_search_query {
        Some(q) => q.clone(),
        None => String::new(),
    };
    model.select(Some(0));
    if has_changed {
        UpdateResult::with_reload()
    } else {
        UpdateResult::with_selection_changed()
    }
}

fn apply_filter_push(model: &mut Model, c: char) -> (r: UpdateResult)
    requires
        old(model).wf(),
    ensures
        final(model).wf(),
        spec_filter_push_applied(*old(model), *final(model), r, c),
{
    model.filter.text.push(c);
    model.select(Some(0));
    UpdateResult::with_selection_changed()
}

fn apply_filter_pop(model: &mut Model) -> (r: UpdateResult)
    requires
        old(model).wf(),
    ensures
        final(model).wf(),
        spec_filter_pop_applied(*old(model), *final(model), r),
{
    model.filter.text.pop();
    model.select(Some(0));
    UpdateResult::with_selection_changed()
}

fn apply_clear_filters(model: &mut Model) -> (r: UpdateResult)
    requires
        old(model).wf(),
    ensures
        final(model).wf(),
        spec_clear_filters_applied(*old(model), *final(model), r),
{
    let any = !model.filter.text.as_str().is_empty() || model.price_filter.is_active()
        || model.active_search_query.is_some();
    if any {
        let had_search_query = model.active_search_query.is_some();
        model.active_search_query = None;
        model.filter.text = String::new();
        model.filter.active = false;
        model.price_filter.clear();
        model.select(Some(0));
        if had_search_query {
            UpdateResult::with_reload()
        } else {
            UpdateResult::with_selection_changed()
        }
    } else {
        UpdateResult::none()
    }
}

fn apply_open_price_filter(model: &mut Model) -> (r: UpdateResult)
    requires
        old(model).wf(),
    ensures
        final(model).wf(),
        spec_open_price_filter_applied(*old(model), *final(model), r),
{
    model.price_filter.seed_inputs();
    model.ui.popup = Popup::PriceFilter;
    UpdateResult::none()
}

fn apply_price_filter_switch_field(model: &mut Model) -> (r: UpdateResult)
    requires
        old(model).wf(),
    ensures
        final(model).wf(),
        spec_price_filter_switch_field_applied(*old(model), *final(model), r),
{
    model.price_filter.selected_field = 1 - model.price_filter.selected_field;
    UpdateResult::none()
}

fn apply_price_filter_push(model: &mut Model, c: char) -> (r: UpdateResult)
    requires
        old(model).wf(),
    ensures
        final(model).wf(),
        spec_price_filter_push_applied(*old(model), *final(model), r, c),
{
    let u = c as u32;
    if (48 <= u && u <= 57) || c == '.' {
        if model.price_filter.selected_field == 0 {
            if model.price_filter.min_input.as_str().unicode_len() < 8 {
                model.price_filter.min_input.push(c);
            }
        } else {
            if model.price_filter.max_input.as_str().unicode_len() < 8 {
                model.price_filter.max_input.push(c);
            }
        }
    }
    UpdateResult::none()
}

fn apply_price_filter_pop(model: &mut Model) -> (r: UpdateResult)
    requires
        old(model).wf(),
    ensures
        final(model).wf(),
        spec_price_filter_pop_applied(*old(model), *final(model), r),
{
    if model.price_filter.selected_field == 0 {
        model.price_filter.min_input.pop();
    } else {
        model.price_filter.max_input.pop();
    }
    UpdateResult::none()
}

fn apply_price_filter_apply(model: &mut Model) -> (r: UpdateResult)
    requires
        old(model).wf(),
    ensures
        final(model).wf(),
        spec_price_filter_apply_applied(*old(model), *final(model), r),
{
    model.price_filter.apply();
    model.ui.popup = Popup::Closed;
    model.select(Some(0));
    UpdateResult::with_selection_changed()
}

fn apply_price_filter_clear(model: &mut Model) -> (r: UpdateResult)
    requires
        old(model).wf(),
    ensures
        final(model).wf(),
        spec_price_filter_clear_applied(*old(model), *final(model), r),
{
    model.price_filter.clear();
    model.ui.popup = Popup::Closed;
    model.select(Some(0));
    UpdateResult::with_selection_changed()
}

fn apply_open_platform_popup(model: &mut Model) -> (r: UpdateResult)
    requires
        old(model).wf(),
    ensures
        final(model).wf(),
        spec_open_platform_popup_applied(*old(model), *final(model), r),
{
    let enabled = model.enabled_platforms();
    let idx = match position_of(&enabled, model.platform_filter) {
        Some(k) => k,
        None => 0,
    };
    proof {
        lemma_enabled_prefix_len(*model, 32);
    }
    model.ui.platform_popup_index = idx;
    model.ui.popup = Popup::Platform;
    UpdateResult::none()
}

fn apply_platform_popup_next(model: &mut Model) -> (r: UpdateResult)
    requires
        old(model).wf(),
    ensures
        final(model).wf(),
        spec_platform_popup_next_applied(*old(model), *final(model), r),
{
    let enabled = model.enabled_platforms();
    proof {
        lemma_enabled_prefix_len(*model, 32);
    }
    if enabled.len() > 0 {
        model.ui.platform_popup_index = (model.ui.platform_popup_index + 1)
            % enabled.len();
    }
    UpdateResult::none()
}

fn apply_platform_popup_prev(model: &mut Model) -> (r: UpdateResult)
    requires
        old(model).wf(),
    ensures
        final(model).wf(),
        spec_platform_popup_prev_applied(*old(model), *final(model), r),
{
    let enabled = model.enabled_platforms();
    proof {
        lemma_enabled_prefix_len(*model, 32);
    }
    if enabled.len() > 0 {
        if model.ui.platform_popup_index == 0 {
            model.ui.platform_popup_index = enabled.len() - 1;
        } else {
            model.ui.platform_popup_index = model.ui.platform_popup_index - 1;
        }
    }
    UpdateResult::none()
}

fn apply_platform_popup_select(model: &mut Model) -> (r: UpdateResult)
    requires
        old(model).wf(),
    ensures
        final(model).wf(),
        spec_platform_popup_select_applied(*old(model), *final(model), r),
{
    let enabled = model.enabled_platforms();
    if model.ui.platform_popup_index < enabled.len() {
        let platform = enabled[model.ui.platform_popup_index];
        let changed = model.platform_filter != platform;
        model.platform_filter = platform;
        model.ui.popup = Popup::Closed;
        if changed {
            model.select(Some(0));
            return UpdateResult::with_reload();
        }
        UpdateResult::none()
    } else {
        model.ui.popup = Popup::Closed;
        UpdateResult::none()
    }
}

fn apply_toggle_sort_direction(model: &mut Model) -> (r: UpdateResult)
    requires
        old(model).wf(),
    ensures
        final(model).wf(),
        spec_sort_changed(
                    *old(model),
                    *final(model),
                    r,
                    old(model).sort_state.criteria,
                    old(model).sort_state.direction.spec_toggle(),
                ),
{
            model.sort_state.direction = model.sort_state.direction.toggle();
            model.select(Some(0));
            if model.is_search_mode() {
                UpdateResult::with_selection_changed()
            } else {
                UpdateResult::with_reload()
            }
        }

fn apply_next_sort_criteria(model: &mut Model) -> (r: UpdateResult)
    requires
        old(model).wf(),
    ensures
        final(model).wf(),
        spec_sort_changed(
                    *old(model),
                    *final(model),
                    r,
                    if old(model).spec_is_search_mode() {
                        old(model).sort_state.criteria.spec_toggle_search()
                    } else {
                        old(model).sort_state.criteria.spec_next()
                    },
                    old(model).sort_state.direction,
                ),
{
            model.sort_state.criteria = if model.is_search_mode() {
                model.sort_state.criteria.toggle_search()
            } else {
                model.sort_state.criteria.next()
            };
            model.select(Some(0));
            if model.is_search_mode() {
                UpdateResult::with_selection_changed()
            } else {
                UpdateResult::with_reload()
            }
        }

fn apply_prev_sort_criteria(model: &mut Model) -> (r: UpdateResult)
    requires
        old(model).wf(),
    ensures
        final(model).wf(),
        spec_sort_changed(
                    *old(model),
                    *final(model),
                    r,
                    if old(model).spec_is_search_mode() {
                        old(model).sort_state.criteria.spec_toggle_search()
                    } else {
                        old(model).sort_state.criteria.spec_prev()
                    },
                    old(model).sort_state.direction,
                ),
{
            model.sort_state.criteria = if model.is_search_mode() {
                model.sort_state.criteria.toggle_search()
            } else {
                model.sort_state.criteria.prev()
            };
            model.select(Some(0));
            if model.is_search_mode() {
                UpdateResult::with_selection_changed()
            } else {
                UpdateResult::with_reload()
            }
        }

fn apply_close_popup(model: &mut Model) -> (r: UpdateResult)
    requires
        old(model).wf(),
    ensures
        final(model).wf(),
        spec_close_popup_applied(*old(model), *final(model), r),
{
    model.ui.popup = Popup::Closed;
    model.options.platform_list_index = 0;
    model.options.region_list_index = 0;
    model.options.advanced_list_index = 0;
    UpdateResult::none()
}

fn apply_options_next_tab(model: &mut Model) -> (r: UpdateResult)
    requires
        old(model).wf(),
    ensures
        final(model).wf(),
        spec_options_next_tab_applied(*old(model), *final(model), r),
{
    model.options.current_tab = (model.options.current_tab + 1) % 3;
    model.options.platform_list_index = 0;
    model.options.region_list_index = 0;
    model.options.advanced_list_index = 0;
    UpdateResult::none()
}

fn apply_options_prev_tab(model: &mut Model) -> (r: UpdateResult)
    requires
        old(model).wf(),
    ensures
        final(model).wf(),
        spec_options_prev_tab_applied(*old(model), *final(model), r),
{
    if model.options.current_tab == 0 {
        model.options.current_tab = 2;
    } else {
        model.options.current_tab = model.options.current_tab - 1;
    }
    model.options.platform_list_index = 0;
    model.options.region_list_index = 0;
    model.options.advanced_list_index = 0;
    UpdateResult::none()
}

fn apply_options_next_item(model: &mut Model) -> (r: UpdateResult)
    requires
        old(model).wf(),
    ensures
        final(model).wf(),
        spec_options_next_item_applied(*old(model), *final(model), r),
{
    match OptionsTab::at(model.options.current_tab) {
        OptionsTab::Region => {
            model.options.region_list_index = (model.options.region_list_index + 1) % 50;
        },
        OptionsTab::Platforms => {
            model.options.platform_list_index = (model.options.platform_list_index + 1)
                % 32;
        },
        OptionsTab::Advanced => {
            model.options.advanced_list_index = (model.options.advanced_list_index + 1)
                % 3;
        },
    }
    UpdateResult::none()
}

fn apply_options_prev_item(model: &mut Model) -> (r: UpdateResult)
    requires
        old(model).wf(),
    ensures
        final(model).wf(),
        spec_options_prev_item_applied(*old(model), *final(model), r),
{
    match OptionsTab::at(model.options.current_tab) {
        OptionsTab::Region => {
            if model.options.region_list_index == 0 {
                model.options.region_list_index = 49;
            } else {
                model.options.region_list_index = model.options.region_list_index - 1;
            }
        },
        OptionsTab::Platforms => {
            if model.options.platform_list_index == 0 {
                model.options.platform_list_index = 31;
            } else {
                model.options.platform_list_index = model.options.platform_list_index - 1;
            }
        },
        OptionsTab::Advanced => {
            if model.options.advanced_list_index == 0 {
                model.options.advanced_list_index = 2;
            } else {
                model.options.advanced_list_index = model.options.advanced_list_index - 1;
            }
        },
    }
    UpdateResult::none()
}

fn apply_options_toggle_item(model: &mut Model) -> (r: UpdateResult)
    requires
        old(model).wf(),
    ensures
        final(model).wf(),
        spec_options_toggle_item_applied(*old(model), *final(model), r),
{
    let mut needs_reload = false;
    match OptionsTab::at(model.options.current_tab) {
        OptionsTab::Region => {
            let regions = Region::all();
            let region = regions[model.options.region_list_index];
            if model.options.region != region {
                model.options.region = region;
                model.region = region;
                needs_reload = true;
            }
        },
        OptionsTab::Platforms => {
            if model.options.platform_list_index == 0 {
                model.cycle_default_platform();
            } else {
                let platforms = Model::platforms_without_all();
                let platform_idx = model.options.platform_list_index - 1;
                let platform = platforms[platform_idx];
                if model.options.enabled_platforms.contains(platform) {
                    model.options.enabled_platforms.remove(platform);
                } else {
                    model.options.enabled_platforms.insert(platform);
                }
            }
        },
        OptionsTab::Advanced => {
            if model.options.advanced_list_index == 0 {
                model.options.default_sort.criteria =
                    model.options.default_sort.criteria.next();
            } else if model.options.advanced_list_index == 1 {
                model.options.deals_page_size = if model.options.deals_page_size == 25 {
                    50
                } else if model.options.deals_page_size == 50 {
                    100
                } else if model.options.deals_page_size == 100 {
                    200
                } else {
                    25
                };
                model.deals_page_size = model.options.deals_page_size;
            } else {
                model.options.game_info_delay_ms = if model.options.game_info_delay_ms
                    == 100 {
                    200
                } else if model.options.game_info_delay_ms == 200 {
                    300
                } else if model.options.game_info_delay_ms == 300 {
                    500
                } else {
                    100
                };
                model.game_info_delay_ms = model.options.game_info_delay_ms;
            }
        },
    }
    if needs_reload {
        model.ui.popup = Popup::Closed;
        UpdateResult::plain(true, true, true)
    } else {
        UpdateResult::plain(false, false, true)
    }
}

fn apply_options_toggle_sort_direction(model: &mut Model) -> (r: UpdateResult)
    requires
        old(model).wf(),
    ensures
        final(model).wf(),
        spec_options_toggle_sort_direction_applied(*old(model), *final(model), r),
{
    let active = match OptionsTab::at(model.options.current_tab) {
        OptionsTab::Advanced => model.options.advanced_list_index == 0,
        _ => false,
    };
    if active {
        model.options.default_sort.direction =
            model.options.default_sort.direction.toggle();
    }
    UpdateResult::plain(false, false, active)
}

fn apply_request_refresh(model: &mut Model) -> (r: UpdateResult)
    requires
        old(model).wf(),
    ensures
        final(model).wf(),
        spec_request_refresh_applied(*old(model), *final(model), r),
{
    UpdateResult::with_reload()
}

fn apply_deals_loaded(model: &mut Model, deals: Vec<Deal>, is_more: bool, page_size: usize) -> (r: UpdateResult)
    requires
old(model).wf(),
    ensures
final(model).wf(),
spec_deals_loaded(
            *old(model),
            *final(model),
            r,
            deals,
            is_more,
            page_size,
        ),
{
    if !is_more {
        model.pagination.has_more = false;
    }
    model.deals = deals;
    model.pagination.offset = page_size;
    model.select(Some(0));
    model.loading.deals = false;
    model.error_clear();
    UpdateResult::with_selection_changed()
}

fn apply_more_deals_loaded(model: &mut Model, deals: Vec<Deal>, is_more: bool, page_size: usize) -> (r: UpdateResult)
    requires
        old(model).wf(),
        old(model).pagination.offset + page_size <= usize::MAX,
    ensures
        final(model).wf(),
        spec_more_deals_loaded(
                    *old(model),
                    *final(model),
                    r,
                    deals,
                    is_more,
                    page_size,
                ),
{
            if !is_more {
                model.pagination.has_more = false;
            }
            let mut batch = deals;
            model.deals.append(&mut batch);
            model.pagination.offset = model.pagination.offset + page_size;
            model.pagination.loading_more = false;
            model.error_clear();
            UpdateResult::none()
        }

fn apply_deals_load_failed(model: &mut Model, error: String) -> (r: UpdateResult)
    requires
        old(model).wf(),
    ensures
        final(model).wf(),
        spec_deals_load_failed_applied(*old(model), *final(model), r, error),
{
    model.error = Some(error);
    model.loading.deals = false;
    model.pagination.loading_more = false;
    UpdateResult::none()
}

fn apply_price_history_loaded(model: &mut Model, game_id: String, history: Vec<PriceHistoryPoint>) -> (r: UpdateResult)
    requires
        old(model).wf(),
    ensures
        final(model).wf(),
        spec_price_history_loaded_applied(*old(model), *final(model), r, game_id, history),
{
    model.price_history_cache.insert(game_id.clone(), history);
    let still = match &model.loading.price_history {
        Some(g) => str_eq(g.as_str(), game_id.as_str()),
        None => false,
    };
    if still {
        model.loading.price_history = None;
    }
    UpdateResult::none()
}

fn apply_tick(model: &mut Model) -> (r: UpdateResult)
    requires
        old(model).wf(),
    ensures
        final(model).wf(),
        spec_tick_applied(*old(model), *final(model), r),
{
    if model.loading.deals || model.pagination.loading_more {
        model.tick_spinner();
    }
    UpdateResult::none()
}

fn apply_quit(model: &mut Model) -> (r: UpdateResult)
    requires
        old(model).wf(),
    ensures
        final(model).wf(),
        spec_quit_applied(*old(model), *final(model), r),
{
    model.should_quit = true;
    UpdateResult::none()
}

/// The pure state transition function: applies one message to the model and
/// reports the side effects the driving loop must perform. This is the only
/// mutator of the model.
pub fn update(model: &mut Model, msg: Message) -> (r: UpdateResult)
    requires
        old(model).wf(),
        msg matches Message::MoreDealsLoaded { page_size, .. } ==> old(
            model,
        ).pagination.offset + page_size <= usize::MAX,
    ensures
        final(model).wf(),
        ({
            let pre = *old(model);
            let post = *final(model);
            match msg {
                Message::SelectNext => spec_selection_step(pre, post, r, spec_next_selection(pre)),
                Message::SelectPrevious => spec_selection_step(
                    pre,
                    post,
                    r,
                    spec_prev_selection(pre),
                ),
                Message::OpenSelectedDeal => spec_open_selected_deal_applied(pre, post, r),
                Message::ToggleMenu => spec_toggle_menu_applied(pre, post, r),
                Message::MenuNext => spec_menu_next_applied(pre, post, r),
                Message::MenuPrevious => spec_menu_previous_applied(pre, post, r),
                Message::MenuSelect => spec_menu_select_applied(pre, post, r),
                Message::StartFilter => spec_start_filter_applied(pre, post, r),
                Message::CancelFilter => spec_cancel_filter_applied(pre, post, r),
                Message::ConfirmFilter => spec_confirm_filter(pre, post, r),
                Message::FilterPush(c) => spec_filter_push_applied(pre, post, r, c),
                Message::FilterPop => spec_filter_pop_applied(pre, post, r),
                Message::ClearFilters => spec_clear_filters_applied(pre, post, r),
                Message::OpenPriceFilter => spec_open_price_filter_applied(pre, post, r),
                Message::PriceFilterSwitchField => spec_price_filter_switch_field_applied(pre, post, r),
                Message::PriceFilterPush(c) => spec_price_filter_push_applied(pre, post, r, c),
                Message::PriceFilterPop => spec_price_filter_pop_applied(pre, post, r),
                Message::PriceFilterApply => spec_price_filter_apply_applied(pre, post, r),
                Message::PriceFilterClear => spec_price_filter_clear_applied(pre, post, r),
                Message::OpenPlatformPopup => spec_open_platform_popup_applied(pre, post, r),
                Message::PlatformPopupNext => spec_platform_popup_next_applied(pre, post, r),
                Message::PlatformPopupPrev => spec_platform_popup_prev_applied(pre, post, r),
                Message::PlatformPopupSelect => spec_platform_popup_select_applied(pre, post, r),
                Message::ToggleSortDirection => spec_sort_changed(
                    pre,
                    post,
                    r,
                    pre.sort_state.criteria,
                    pre.sort_state.direction.spec_toggle(),
                ),
                Message::NextSortCriteria => spec_sort_changed(
                    pre,
                    post,
                    r,
                    if pre.spec_is_search_mode() {
                        pre.sort_state.criteria.spec_toggle_search()
                    } else {
                        pre.sort_state.criteria.spec_next()
                    },
                    pre.sort_state.direction,
                ),
                Message::PrevSortCriteria => spec_sort_changed(
                    pre,
                    post,
                    r,
                    if pre.spec_is_search_mode() {
                        pre.sort_state.criteria.spec_toggle_search()
                    } else {
                        pre.sort_state.criteria.spec_prev()
                    },
                    pre.sort_state.direction,
                ),
                Message::ClosePopup => spec_close_popup_applied(pre, post, r),
                Message::OptionsNextTab => spec_options_next_tab_applied(pre, post, r),
                Message::OptionsPrevTab => spec_options_prev_tab_applied(pre, post, r),
                Message::OptionsNextItem => spec_options_next_item_applied(pre, post, r),
                Message::OptionsPrevItem => spec_options_prev_item_applied(pre, post, r),
                Message::OptionsToggleItem => spec_options_toggle_item_applied(pre, post, r),
                Message::OptionsToggleSortDirection => spec_options_toggle_sort_direction_applied(pre, post, r),
                Message::RequestRefresh => spec_request_refresh_applied(pre, post, r),
                Message::DealsLoaded { deals, is_more, page_size } => spec_deals_loaded(
                    pre,
                    post,
                    r,
                    deals,
                    is_more,
                    page_size,
                ),
                Message::MoreDealsLoaded { deals, is_more, page_size } => spec_more_deals_loaded(
                    pre,
                    post,
                    r,
                    deals,
                    is_more,
                    page_size,
                ),
                Message::DealsLoadFailed(error) => spec_deals_load_failed_applied(pre, post, r, error),
                Message::PriceHistoryLoaded { game_id, history } => spec_price_history_loaded_applied(pre, post, r, game_id, history),
                Message::Tick => spec_tick_applied(pre, post, r),
                Message::Quit => spec_quit_applied(pre, post, r),
            }
        }),
{
    match msg {
        Message::SelectNext => apply_select_next(model),
        Message::SelectPrevious => apply_select_previous(model),
        Message::OpenSelectedDeal => apply_open_selected_deal(model),
        Message::ToggleMenu => apply_toggle_menu(model),
        Message::MenuNext => apply_menu_next(model),
        Message::MenuPrevious => apply_menu_previous(model),
        Message::MenuSelect => apply_menu_select(model),
        Message::StartFilter => apply_start_filter(model),
        Message::CancelFilter => apply_cancel_filter(model),
        Message::ConfirmFilter => apply_confirm_filter(model),
        Message::FilterPush(c) => apply_filter_push(model, c),
        Message::FilterPop => apply_filter_pop(model),
        Message::ClearFilters => apply_clear_filters(model),
        Message::OpenPriceFilter => apply_open_price_filter(model),
        Message::PriceFilterSwitchField => apply_price_filter_switch_field(model),
        Message::PriceFilterPush(c) => apply_price_filter_push(model, c),
        Message::PriceFilterPop => apply_price_filter_pop(model),
        Message::PriceFilterApply => apply_price_filter_apply(model),
        Message::PriceFilterClear => apply_price_filter_clear(model),
        Message::OpenPlatformPopup => apply_open_platform_popup(model),
        Message::PlatformPopupNext => apply_platform_popup_next(model),
        Message::PlatformPopupPrev => apply_platform_popup_prev(model),
        Message::PlatformPopupSelect => apply_platform_popup_select(model),
        Message::ToggleSortDirection => apply_toggle_sort_direction(model),
        Message::NextSortCriteria => apply_next_sort_criteria(model),
        Message::PrevSortCriteria => apply_prev_sort_criteria(model),
        Message::ClosePopup => apply_close_popup(model),
        Message::OptionsNextTab => apply_options_next_tab(model),
        Message::OptionsPrevTab => apply_options_prev_tab(model),
        Message::OptionsNextItem => apply_options_next_item(model),
        Message::OptionsPrevItem => apply_options_prev_item(model),
        Message::OptionsToggleItem => apply_options_toggle_item(model),
        Message::OptionsToggleSortDirection => apply_options_toggle_sort_direction(model),
        Message::RequestRefresh => apply_request_refresh(model),
        Message::DealsLoaded { deals, is_more, page_size } => apply_deals_loaded(model, deals, is_more, page_size),
        Message::MoreDealsLoaded { deals, is_more, page_size } => apply_more_deals_loaded(model, deals, is_more, page_size),
        Message::DealsLoadFailed(error) => apply_deals_load_failed(model, error),
        Message::PriceHistoryLoaded { game_id, history } => apply_price_history_loaded(model, game_id, history),
        Message::Tick => apply_tick(model),
        Message::Quit => apply_quit(model),
    }
}

} // verus!

use vstd::prelude::*;

use crate::cache::Cache;
use crate::config::Config;
use crate::filter::{FilterState, PriceFilterState};
use crate::models::{Deal, GameInfo, Platform, PriceHistoryPoint, Region};
use crate::options::OptionsState;
use crate::sort::SortState;

verus! {

/// The entries of the top-level menu.
#[derive(Debug, Clone, Copy, PartialEq, Eq, Structural)]
pub enum MenuItem {
    Browse,
    Options,
    Keybinds,
    Quit,
}

impl MenuItem {
    /// The menu entry at a position.
    pub open spec fn spec_at(i: int) -> MenuItem {
        if i == 0 {
            MenuItem::Browse
        } else if i == 1 {
            MenuItem::Options
        } else if i == 2 {
            MenuItem::Keybinds
        } else {
            MenuItem::Quit
        }
    }

    /// The menu entry at a position in the menu.
    pub fn at(i: usize) -> (r: MenuItem)
        requires
            i < 4,
        ensures
            r == MenuItem::spec_at(i as int),
    {
        if i == 0 {
            MenuItem::Browse
        } else if i == 1 {
            MenuItem::Options
        } else if i == 2 {
            MenuItem::Keybinds
        } else {
            MenuItem::Quit
        }
    }

    /// The display name of the menu entry.
    pub open spec fn spec_name(&self) -> Seq<char> {
        match self {
            MenuItem::Browse => "BROWSE DEALS"@,
            MenuItem::Options => "OPTIONS"@,
            MenuItem::Keybinds => "KEYBINDS"@,
            MenuItem::Quit => "QUIT"@,
        }
    }

    pub fn name(&self) -> (r: &'static str)
        ensures
            r@ == self.spec_name(),
    {
        match self {
            MenuItem::Browse => "BROWSE DEALS",
            MenuItem::Options => "OPTIONS",
            MenuItem::Keybinds => "KEYBINDS",
            MenuItem::Quit => "QUIT",
        }
    }
}

/// Which modal popup is open, `Closed` when none is. A popup intercepts keys before the
/// menu, the filter editor, and normal browsing.
#[derive(Debug, Clone, Copy, PartialEq, Eq, Structural)]
pub enum Popup {
    Closed,
    Options,
    Keybinds,
    Platform,
    PriceFilter,
}

/// Pagination cursor over the server-side deal listing.
#[derive(Debug, Clone, Copy, PartialEq, Eq, Structural)]
pub struct PaginationState {
    pub offset: usize,
    pub has_more: bool,
    pub loading_more: bool,
}

impl Default for PaginationState {
    /// At the start of the listing, with more assumed available.
    fn default() -> (r: Self)
        ensures
            r.offset == 0,
            r.has_more,
            !r.loading_more,
    {
        PaginationState { offset: 0, has_more: true, loading_more: false }
    }
}

/// Independent loading flags, one per asynchronous concern.
pub struct LoadingState {
    pub deals: bool,
    pub game_info: Option<String>,
    pub price_history: Option<String>,
}

impl Default for LoadingState {
    /// Nothing in flight.
    fn default() -> (r: Self)
        ensures
            !r.deals,
            r.game_info is None,
            r.price_history is None,
    {
        LoadingState { deals: false, game_info: None, price_history: None }
    }
}

/// Purely presentational state: menu and popup mode, the cursor into the
/// filtered deal list, and the spinner animation frame.
#[derive(Debug, Clone, Copy, PartialEq, Eq, Structural)]
pub struct UiState {
    pub show_menu: bool,
    pub menu_selected: usize,
    pub popup: Popup,
    /// The selected row of the filtered deal list.
    pub selected: Option<usize>,
    pub spinner_frame: usize,
    pub platform_popup_index: usize,
}

impl Default for UiState {
    /// No menu, no popup, first row selected.
    fn default() -> (r: Self)
        ensures
            !r.show_menu,
            r.menu_selected == 0,
            r.popup is Closed,
            r.selected == Some(0usize),
            r.spinner_frame == 0,
            r.platform_popup_index == 0,
    {
        UiState {
            show_menu: false,
            menu_selected: 0,
            popup: Popup::Closed,
            selected: Some(0),
            spinner_frame: 0,
            platform_popup_index: 0,
        }
    }
}

/// The single source of truth of the session: the loaded deals, caches of
/// per-title enrichments, filters, sort, pagination, loading flags, options
/// and UI mode. It is mutated exclusively through the update function.
pub struct Model {
    pub deals: Vec<Deal>,
    pub game_info_cache: Cache<GameInfo>,
    pub price_history_cache: Cache<Vec<PriceHistoryPoint>>,
    pub ui: UiState,
    pub filter: FilterState,
    /// The confirmed search query; when set, the session is in search mode.
    pub active_search_query: Option<String>,
    pub price_filter: PriceFilterState,
    pub sort_state: SortState,
    pub platform_filter: Platform,
    pub region: Region,
    pub pagination: PaginationState,
    pub loading: LoadingState,
    pub options: OptionsState,
    pub api_key: Option<String>,
    pub deals_page_size: usize,
    pub game_info_delay_ms: u64,
    pub error: Option<String>,
    pub should_quit: bool,
}

impl Model {
    /// The structural invariant of the model: cursors stay inside their
    /// lists and the caches and option set are well formed.
    pub open spec fn wf(&self) -> bool {
        &&& self.ui.menu_selected < 4
        &&& self.ui.spinner_frame < 10
        &&& self.ui.platform_popup_index < 32
        &&& self.price_filter.wf()
        &&& self.options.wf()
        &&& self.game_info_cache.wf()
        &&& self.price_history_cache.wf()
    }

    /// Builds the initial model from the loaded configuration and the
    /// resolved credential.
    pub fn new(api_key: Option<String>, config: &Config) -> (r: Model)
        ensures
            r.wf(),
            r.deals@ == Seq::<Deal>::empty(),
            forall|k: Seq<char>| !r.game_info_cache.spec_contains(k),
            forall|k: Seq<char>| !r.price_history_cache.spec_contains(k),
            r.ui == (UiState {
                show_menu: false,
                menu_selected: 0,
                popup: Popup::Closed,
                selected: Some(0usize),
                spinner_frame: 0,
                platform_popup_index: 0,
            }),
            !r.filter.active,
            r.filter.text@ == Seq::<char>::empty(),
            r.active_search_query is None,
            !r.price_filter.spec_is_active(),
            r.sort_state.criteria == config.spec_sort_criteria(),
            r.sort_state.direction == config.spec_sort_direction(),
            r.platform_filter == (if config.spec_enabled_contains(config.spec_default_platform()) {
                config.spec_default_platform()
            } else {
                Platform::All
            }),
            r.region == config.spec_region(),
            r.pagination == (PaginationState { offset: 0, has_more: true, loading_more: false }),
            !r.loading.deals,
            r.loading.game_info is None,
            r.loading.price_history is None,
            r.options.default_platform == r.platform_filter,
            r.api_key == api_key,
            r.deals_page_size == config.deals_page_size,
            r.game_info_delay_ms == config.game_info_delay_ms,
            r.error is None,
            !r.should_quit,
    {
        let options = OptionsState::from_config(config);
        let platform_filter = options.default_platform;
        let region = options.region;
        let sort_state = options.default_sort;

        Model {
            deals: Vec::new(),
            game_info_cache: Cache::new(),
            price_history_cache: Cache::new(),
            ui: UiState::default(),
            filter: FilterState::default(),
            active_search_query: None,
            price_filter: PriceFilterState::default(),
            sort_state,
            platform_filter,
            region,
            pagination: PaginationState::default(),
            loading: LoadingState::default(),
            options,
            api_key,
            deals_page_size: config.deals_page_size,
            game_info_delay_ms: config.game_info_delay_ms,
            error: None,
            should_quit: false,
        }
    }

    /// Drops any visible error.
    pub fn error_clear(&mut self)
        ensures
            *final(self) == (Model { error: None, ..*old(self) }),
    {
        self.error = None;
    }

    /// Sets the primary loading flag; starting a load also restarts the
    /// spinner animation.
    pub fn set_loading(&mut self, loading: bool)
        ensures
            *final(self) == (Model {
                loading: LoadingState { deals: loading, ..old(self).loading },
                ui: UiState {
                    spinner_frame: if loading {
                        0
                    } else {
                        old(self).ui.spinner_frame
                    },
                    ..old(self).ui
                },
                ..*old(self)
            }),
    {
        self.loading.deals = loading;
        if loading {
            self.ui.spinner_frame = 0;
        }
    }

    /// Sets the selected row of the filtered list.
    pub fn select(&mut self, index: Option<usize>)
        ensures
            *final(self) == (Model {
                ui: UiState { selected: index, ..old(self).ui },
                ..*old(self)
            }),
    {
        self.ui.selected = index;
    }

    /// Clears the deal list and resets the pagination cursor and selection,
    /// as the start of a fresh primary load does.
    pub fn reset_pagination(&mut self)
        ensures
            *final(self) == (Model {
                deals: final(self).deals,
                pagination: PaginationState { offset: 0, has_more: true, loading_more: false },
                ui: UiState { selected: Some(0usize), ..old(self).ui },
                ..*old(self)
            }),
            final(self).deals@ == Seq::<Deal>::empty(),
    {
        self.deals.clear();
        self.pagination.offset = 0;
        self.pagination.has_more = true;
        self.pagination.loading_more = false;
        self.select(Some(0));
    }

    /// Advances the spinner to its next of ten frames.
    pub fn tick_spinner(&mut self)
        requires
            old(self).ui.spinner_frame < 10,
        ensures
            *final(self) == (Model {
                ui: UiState {
                    spinner_frame: ((old(self).ui.spinner_frame + 1) % 10) as usize,
                    ..old(self).ui
                },
                ..*old(self)
            }),
    {
        self.ui.spinner_frame = (self.ui.spinner_frame + 1) % 10;
    }

    /// The spinner glyph for an animation frame.
    pub open spec fn spec_spinner_char(i: int) -> char {
        if i == 0 {
            '⠋'
        } else if i == 1 {
            '⠙'
        } else if i == 2 {
            '⠹'
        } else if i == 3 {
            '⠸'
        } else if i == 4 {
            '⠼'
        } else if i == 5 {
            '⠴'
        } else if i == 6 {
            '⠦'
        } else if i == 7 {
            '⠧'
        } else if i == 8 {
            '⠇'
        } else {
            '⠏'
        }
    }

    /// The spinner glyph for the current animation frame.
    pub fn spinner_char(&self) -> (r: char)
        requires
            self.ui.spinner_frame < 10,
        ensures
            r == Model::spec_spinner_char(self.ui.spinner_frame as int),
    {
        let i = self.ui.spinner_frame;
        if i == 0 {
            '⠋'
        } else if i == 1 {
            '⠙'
        } else if i == 2 {
            '⠹'
        } else if i == 3 {
            '⠸'
        } else if i == 4 {
            '⠼'
        } else if i == 5 {
            '⠴'
        } else if i == 6 {
            '⠦'
        } else if i == 7 {
            '⠧'
        } else if i == 8 {
            '⠇'
        } else {
            '⠏'
        }
    }

    /// Whether the visible list comes from the search path.
    pub open spec fn spec_is_search_mode(&self) -> bool {
        self.active_search_query is Some
    }

    pub fn is_search_mode(&self) -> (r: bool)
        ensures
            r == self.spec_is_search_mode(),
    {
        self.active_search_query.is_some()
    }

    /// Whether the current sort criteria can be applied locally over search
    /// results.
    pub fn is_search_sort_supported(&self) -> (r: bool)
        ensures
            r == self.sort_state.criteria.spec_search_supported(),
    {
        match self.sort_state.criteria {
            crate::sort::SortCriteria::Price => true,
            crate::sort::SortCriteria::Cut => true,
            _ => false,
        }
    }

    /// Whether the deal at an index passes the platform filter.
    pub open spec fn spec_platform_ok(&self, d: Deal) -> bool {
        match self.platform_filter.spec_shop_id() {
            None => true,
            Some(id) => d.shop.id == id,
        }
    }

    /// Whether the deal at an index is visible under the platform and price
    /// filters.
    pub open spec fn spec_visible(&self, i: int) -> bool {
        &&& 0 <= i < self.deals@.len()
        &&& self.spec_platform_ok(self.deals@[i])
        &&& self.price_filter.spec_matches(self.deals@[i].price.amount)
    }

    /// The indices of the visible deals among the first `n`, in index order.
    pub open spec fn spec_filtered_prefix(&self, n: int) -> Seq<usize>
        decreases n,
    {
        if n <= 0 {
            Seq::empty()
        } else {
            let p = self.spec_filtered_prefix(n - 1);
            if self.spec_visible(n - 1) {
                p.push((n - 1) as usize)
            } else {
                p
            }
        }
    }

    /// The indices of all visible deals, in index order.
    pub open spec fn spec_filtered(&self) -> Seq<usize> {
        self.spec_filtered_prefix(self.deals@.len() as int)
    }

    /// The sort key of a deal index under the current criteria.
    pub open spec fn spec_key(&self, i: int) -> int {
        match self.sort_state.criteria {
            crate::sort::SortCriteria::Price => self.deals@[i].price.amount as int,
            crate::sort::SortCriteria::Cut => self.deals@[i].price.discount as int,
            _ => 0,
        }
    }

    /// The strict order in which the local search-mode sort arranges two
    /// distinct deal indices: by key, ties by index, both reversed when
    /// descending. Reversing ties as well makes this exactly a stable
    /// ascending sort followed by a reversal.
    pub open spec fn spec_order_lt(&self, a: usize, b: usize) -> bool {
        let ka = self.spec_key(a as int);
        let kb = self.spec_key(b as int);
        if self.sort_state.direction is Ascending {
            ka < kb || (ka == kb && a < b)
        } else {
            ka > kb || (ka == kb && a > b)
        }
    }

    /// Whether the visible list is locally sorted: search mode with a
    /// supported criteria.
    pub open spec fn spec_search_sort_active(&self) -> bool {
        self.spec_is_search_mode() && self.sort_state.criteria.spec_search_supported()
    }

    /// Inserts an index into a run already ordered by the local sort,
    /// behind every equal-keyed entry.
    pub open spec fn spec_insert_sorted(&self, s: Seq<usize>, x: usize) -> Seq<usize>
        decreases s.len(),
    {
        if s.len() > 0 && self.spec_order_lt(x, s.last()) {
            self.spec_insert_sorted(s.drop_last(), x).push(s.last())
        } else {
            s.push(x)
        }
    }

    /// Orders a run of indices by the local sort.
    pub open spec fn spec_sort_idxs(&self, s: Seq<usize>) -> Seq<usize>
        decreases s.len(),
    {
        if s.len() == 0 {
            s
        } else {
            self.spec_insert_sorted(self.spec_sort_idxs(s.drop_last()), s.last())
        }
    }

    /// The visible deal indices in the order the list shows them: index
    /// order normally, locally sorted in search mode.
    pub open spec fn spec_filtered_sorted(&self) -> Seq<usize> {
        if self.spec_search_sort_active() {
            self.spec_sort_idxs(self.spec_filtered())
        } else {
            self.spec_filtered()
        }
    }

    /// Compares two deal indices in the local sort order.
    fn order_lt(&self, a: usize, b: usize) -> (r: bool)
        requires
            a < self.deals@.len(),
            b < self.deals@.len(),
        ensures
            r == self.spec_order_lt(a, b),
    {
        let (ka, kb) = match self.sort_state.criteria {
            crate::sort::SortCriteria::Price => (
                self.deals[a].price.amount,
                self.deals[b].price.amount,
            ),
            crate::sort::SortCriteria::Cut => (
                self.deals[a].price.discount as u64,
                self.deals[b].price.discount as u64,
            ),
            _ => (0u64, 0u64),
        };
        match self.sort_state.direction {
            crate::sort::SortDirection::Ascending => ka < kb || (ka == kb && a < b),
            crate::sort::SortDirection::Descending => ka > kb || (ka == kb && a > b),
        }
    }

    /// The indices of the deals the list shows, in display order: every
    /// visible deal exactly once; index order normally, the stable local
    /// sort in search mode.
    pub fn filtered_deals(&self) -> (r: Vec<usize>)
        ensures
            r@ == self.spec_filtered_sorted(),
            r@.len() == self.spec_filtered().len(),
            forall|u: usize| r@.contains(u) <==> self.spec_filtered().contains(u),
            forall|k: int| 0 <= k < r@.len() ==> self.spec_visible(#[trigger] r@[k] as int),
    {
        let n = self.deals.len();
        let mut base: Vec<usize> = Vec::new();
        let mut i: usize = 0;
        while i < n
            invariant
                0 <= i <= n,
                n == self.deals@.len(),
                base@ == self.spec_filtered_prefix(i as int),
            decreases n - i,
        {
            let d = &self.deals[i];
            let platform_ok = match self.platform_filter.shop_id() {
                None => true,
                Some(id) => d.shop.id == id,
            };
            if platform_ok && self.price_filter.matches(d.price.amount) {
                base.push(i);
            }
            i = i + 1;
        }
        proof {
            lemma_filtered_prefix_props(*self, n as int);
        }
        if self.is_search_mode() && self.is_search_sort_supported() {
            let mut out: Vec<usize> = Vec::new();
            let mut t: usize = 0;
            let blen = base.len();
            while t < blen
                invariant
                    0 <= t <= blen,
                    blen == base@.len(),
                    base@ == self.spec_filtered(),
                    forall|k: int| 0 <= k < base@.len() ==> #[trigger] base@[k] < self.deals@.len(),
                    out@ == self.spec_sort_idxs(base@.subrange(0, t as int)),
                    forall|k: int| 0 <= k < out@.len() ==> #[trigger] out@[k] < self.deals@.len(),
                decreases blen - t,
            {
                let x = base[t];
                let mut j = out.len();
                while j > 0 && self.order_lt(x, out[j - 1])
                    invariant
                        0 <= j <= out@.len(),
                        forall|k: int| 0 <= k < out@.len() ==> #[trigger] out@[k] < self.deals@.len(),
                        x < self.deals@.len(),
                        forall|m: int| j <= m < out@.len() ==> self.spec_order_lt(x, #[trigger] out@[m]),
                    decreases j,
                {
                    j = j - 1;
                }
                proof {
                    lemma_insert_sorted_at(*self, out@, x, j as int);
                    assert(base@.subrange(0, t + 1).drop_last() =~= base@.subrange(0, t as int));
                    assert(base@.subrange(0, t + 1).last() == base@[t as int]);
                }
                out.insert(j, x);
                t = t + 1;
            }
            proof {
                assert(base@.subrange(0, blen as int) =~= base@);
                lemma_sort_idxs_props(*self, base@);
                assert forall|u: usize| out@.contains(u) <==> self.spec_filtered().contains(u) by {}
                assert forall|k: int| 0 <= k < out@.len() implies self.spec_visible(
                    #[trigger] out@[k] as int,
                ) by {
                    assert(out@.contains(out@[k]));
                    assert(self.spec_filtered().contains(out@[k]));
                    let w = choose|w: int|
                        0 <= w < self.spec_filtered().len() && self.spec_filtered()[w] == out@[k];
                    lemma_filtered_prefix_props(*self, self.deals@.len() as int);
                }
            }
            out
        } else {
            proof {
                assert forall|k: int| 0 <= k < base@.len() implies self.spec_visible(
                    #[trigger] base@[k] as int,
                ) by {}
            }
            base
        }
    }

    /// The deal the cursor rests on, when the cursor is inside the filtered
    /// list.
    pub open spec fn spec_selected_deal(&self) -> Option<Deal> {
        match self.ui.selected {
            Some(s) => {
                if s < self.spec_filtered().len() {
                    Some(self.deals@[self.spec_filtered_sorted()[s as int] as int])
                } else {
                    None
                }
            },
            None => None,
        }
    }

    pub fn selected_deal(&self) -> (r: Option<&Deal>)
        ensures
            match r {
                Some(d) => self.spec_selected_deal() == Some(*d),
                None => self.spec_selected_deal() is None,
            },
    {
        match self.ui.selected {
            Some(s) => {
                let f = self.filtered_deals();
                if s < f.len() {
                    Some(&self.deals[f[s]])
                } else {
                    None
                }
            },
            None => None,
        }
    }

    /// The cached game info of the selected deal, when both exist.
    pub fn selected_game_info(&self) -> (r: Option<&GameInfo>)
        requires
            self.wf(),
        ensures
            match r {
                Some(g) => self.spec_selected_deal() matches Some(d)
                    && self.game_info_cache.spec_get(d.id@) == Some(*g),
                None => self.spec_selected_deal() is None || (self.spec_selected_deal()
                    matches Some(d) && !self.game_info_cache.spec_contains(d.id@)),
            },
    {
        match self.selected_deal() {
            Some(deal) => self.game_info_cache.get(&deal.id),
            None => None,
        }
    }

    /// The cached price history of the selected deal, when both exist.
    pub fn selected_price_history(&self) -> (r: Option<&Vec<PriceHistoryPoint>>)
        requires
            self.wf(),
        ensures
            match r {
                Some(h) => self.spec_selected_deal() matches Some(d)
                    && self.price_history_cache.spec_get(d.id@) == Some(*h),
                None => self.spec_selected_deal() is None || (self.spec_selected_deal()
                    matches Some(d) && !self.price_history_cache.spec_contains(d.id@)),
            },
    {
        match self.selected_deal() {
            Some(deal) => self.price_history_cache.get(&deal.id),
            None => None,
        }
    }

    /// The enabled platforms among the first `i` entries of the platform
    /// list, in list order.
    pub open spec fn spec_enabled_prefix(&self, i: int) -> Seq<Platform>
        decreases i,
    {
        if i <= 0 {
            Seq::empty()
        } else {
            let p = self.spec_enabled_prefix(i - 1);
            if self.options.enabled_platforms.spec_contains(Platform::spec_all()[i - 1]) {
                p.push(Platform::spec_all()[i - 1])
            } else {
                p
            }
        }
    }

    /// The platforms the user has enabled, in platform-list order.
    pub fn enabled_platforms(&self) -> (r: Vec<Platform>)
        ensures
            r@ == self.spec_enabled_prefix(32),
    {
        let all = Platform::all();
        let mut r: Vec<Platform> = Vec::new();
        let mut i: usize = 0;
        while i < 32
            invariant
                0 <= i <= 32,
                all@ == Platform::spec_all(),
                r@ == self.spec_enabled_prefix(i as int),
            decreases 32 - i,
        {
            let p = all[i];
            if self.options.enabled_platforms.contains(p) {
                r.push(p);
            }
            i = i + 1;
        }
        r
    }

    /// The platform list without the `All` sentinel, as the options
    /// checkbox list shows it.
    pub fn platforms_without_all() -> (r: Vec<Platform>)
        ensures
            r@ == Platform::spec_all().subrange(1, 32),
    {
        let all = Platform::all();
        let mut r: Vec<Platform> = Vec::new();
        let mut i: usize = 1;
        while i < 32
            invariant
                1 <= i <= 32,
                all@ == Platform::spec_all(),
                r@ == Platform::spec_all().subrange(1, i as int),
            decreases 32 - i,
        {
            r.push(all[i]);
            proof {
                assert(r@ =~= Platform::spec_all().subrange(1, i + 1));
            }
            i = i + 1;
        }
        r
    }

    /// The first enabled platform after `k - 1` steps beyond position `cur`
    /// of the platform list, scanning cyclically; nothing when a full cycle
    /// finds none.
    pub open spec fn spec_next_enabled(&self, cur: int, k: int) -> Option<Platform>
        decreases 33 - k,
    {
        if k < 1 || k > 32 {
            None
        } else {
            let cand = Platform::spec_all()[(cur + k) % 32];
            if self.options.enabled_platforms.spec_contains(cand) {
                Some(cand)
            } else {
                self.spec_next_enabled(cur, k + 1)
            }
        }
    }

    /// Where the platform-list position of the current default platform is,
    /// for cycling purposes.
    pub open spec fn spec_default_platform_pos(&self) -> int {
        match spec_position_from(Platform::spec_all(), self.options.default_platform, 0) {
            Some(k) => k,
            None => 0,
        }
    }

    /// Moves the default platform (and the active platform filter) to the
    /// next enabled platform in the list, cyclically; a no-op when no
    /// platform is enabled.
    pub fn cycle_default_platform(&mut self)
        ensures
            old(self).spec_next_enabled(old(self).spec_default_platform_pos(), 1) matches Some(p)
                ==> *final(self) == (Model {
                options: (OptionsState { default_platform: p, ..old(self).options }),
                platform_filter: p,
                ..*old(self)
            }),
            old(self).spec_next_enabled(old(self).spec_default_platform_pos(), 1) is None
                ==> *final(self) == *old(self),
    {
        let all = Platform::all();
        let cur = match position_of(&all, self.options.default_platform) {
            Some(k) => k,
            None => 0,
        };
        proof {
            lemma_position_from_range(
                Platform::spec_all(),
                old(self).options.default_platform,
                0,
            );
            assert(cur as int == old(self).spec_default_platform_pos());
        }
        let mut k: usize = 1;
        while k <= 32
            invariant
                1 <= k <= 33,
                cur < 32,
                cur as int == old(self).spec_default_platform_pos(),
                all@ == Platform::spec_all(),
                *self == *old(self),
                self.spec_next_enabled(cur as int, 1) == self.spec_next_enabled(
                    cur as int,
                    k as int,
                ),
            decreases 33 - k,
        {
            let cand = all[(cur + k) % 32];
            if self.options.enabled_platforms.contains(cand) {
                proof {
                    assert(self.spec_next_enabled(cur as int, k as int) == Some(cand));
                }
                self.options.default_platform = cand;
                self.platform_filter = cand;
                return ;
            }
            proof {
                assert(self.spec_next_enabled(cur as int, k as int) == self.spec_next_enabled(
                    cur as int,
                    k + 1,
                ));
            }
            k = k + 1;
        }
        proof {
            assert(self.spec_next_enabled(cur as int, 33) is None);
        }
    }

    /// Whether a pagination load may start: nothing loading, not already
    /// paginating, and more known to be available.
    pub open spec fn spec_should_load_more(&self) -> bool {
        !self.loading.deals && !self.pagination.loading_more && self.pagination.has_more
    }

    pub fn should_load_more(&self) -> (r: bool)
        ensures
            r == self.spec_should_load_more(),
    {
        !self.loading.deals && !self.pagination.loading_more && self.pagination.has_more
    }

    /// The id whose game info should be fetched now: the selected deal's,
    /// unless it is cached or already the in-flight target.
    pub fn needs_game_info_load(&self) -> (r: Option<String>)
        requires
            self.wf(),
        ensures
            match r {
                Some(id) => self.spec_selected_deal() matches Some(d) && id@ == d.id@
                    && !self.game_info_cache.spec_contains(d.id@) && (self.loading.game_info
                    matches Some(g) ==> g@ != d.id@),
                None => self.spec_selected_deal() is None || (self.spec_selected_deal()
                    matches Some(d) && (self.game_info_cache.spec_contains(d.id@) || (
                    self.loading.game_info matches Some(g) && g@ == d.id@))),
            },
    {
        if let Some(deal) = self.selected_deal() {
            if !self.game_info_cache.contains_key(&deal.id) {
                let in_flight = match &self.loading.game_info {
                    Some(g) => *g == deal.id,
                    None => false,
                };
                if !in_flight {
                    return Some(deal.id.clone());
                }
            }
        }
        None
    }

    /// The id whose price history should be fetched now: the selected
    /// deal's, unless it is cached or already the in-flight target.
    pub fn needs_price_history_load(&self) -> (r: Option<String>)
        requires
            self.wf(),
        ensures
            match r {
                Some(id) => self.spec_selected_deal() matches Some(d) && id@ == d.id@
                    && !self.price_history_cache.spec_contains(d.id@) && (self.loading.price_history
                    matches Some(g) ==> g@ != d.id@),
                None => self.spec_selected_deal() is None || (self.spec_selected_deal()
                    matches Some(d) && (self.price_history_cache.spec_contains(d.id@) || (
                    self.loading.price_history matches Some(g) && g@ == d.id@))),
            },
    {
        if let Some(deal) = self.selected_deal() {
            if !self.price_history_cache.contains_key(&deal.id) {
                let in_flight = match &self.loading.price_history {
                    Some(g) => *g == deal.id,
                    None => false,
                };
                if !in_flight {
                    return Some(deal.id.clone());
                }
            }
        }
        None
    }

    /// Marks an id as the in-flight game-info target.
    pub fn start_loading_game_info(&mut self, game_id: String)
        ensures
            *final(self) == (Model {
                loading: LoadingState { game_info: Some(game_id), ..old(self).loading },
                ..*old(self)
            }),
    {
        self.loading.game_info = Some(game_id);
    }

    /// Caches a fetched game info, if any came back, and clears the
    /// in-flight flag when it still points at this id. A failed fetch is
    /// absorbed silently: enrichments never surface errors.
    pub fn finish_loading_game_info(&mut self, game_id: String, info: Option<GameInfo>)
        requires
            old(self).wf(),
        ensures
            final(self).wf(),
            final(self).game_info_cache.spec_get(game_id@) == (match info {
                Some(g) => Some(g),
                None => old(self).game_info_cache.spec_get(game_id@),
            }),
            forall|k: Seq<char>|
                k != game_id@ ==> final(self).game_info_cache.spec_get(k) == old(
                    self,
                ).game_info_cache.spec_get(k),
            final(self).loading.game_info == (if old(self).loading.game_info matches Some(g)
                && g@ == game_id@ {
                None::<String>
            } else {
                old(self).loading.game_info
            }),
            final(self).deals == old(self).deals,
            final(self).price_history_cache == old(self).price_history_cache,
            final(self).ui == old(self).ui,
            final(self).filter == old(self).filter,
            final(self).active_search_query == old(self).active_search_query,
            final(self).price_filter == old(self).price_filter,
            final(self).sort_state == old(self).sort_state,
            final(self).platform_filter == old(self).platform_filter,
            final(self).region == old(self).region,
            final(self).pagination == old(self).pagination,
            final(self).loading.deals == old(self).loading.deals,
            final(self).loading.price_history == old(self).loading.price_history,
            final(self).options == old(self).options,
            final(self).api_key == old(self).api_key,
            final(self).deals_page_size == old(self).deals_page_size,
            final(self).game_info_delay_ms == old(self).game_info_delay_ms,
            final(self).error == old(self).error,
            final(self).should_quit == old(self).should_quit,
    {
        if let Some(info) = info {
            self.game_info_cache.insert(game_id.clone(), info);
        }
        let still = match &self.loading.game_info {
            Some(g) => *g == game_id,
            None => false,
        };
        if still {
            self.loading.game_info = None;
        }
    }
}

/// The position of the first occurrence of a platform in a run, scanning
/// from position `i` on.
pub open spec fn spec_position_from(s: Seq<Platform>, p: Platform, i: int) -> Option<int>
    decreases s.len() - i,
{
    if i < 0 || i >= s.len() {
        None
    } else if s[i] == p {
        Some(i)
    } else {
        spec_position_from(s, p, i + 1)
    }
}

/// A found position lies between the scan start and the end of the run.
pub proof fn lemma_position_from_range(s: Seq<Platform>, p: Platform, i: int)
    ensures
        spec_position_from(s, p, i) matches Some(k) ==> i <= k < s.len(),
    decreases s.len() - i,
{
    if 0 <= i < s.len() && s[i] != p {
        lemma_position_from_range(s, p, i + 1);
    }
}

/// Finds the position of a platform in a list.
pub fn position_of(v: &Vec<Platform>, p: Platform) -> (r: Option<usize>)
    ensures
        r == (match spec_position_from(v@, p, 0) {
            Some(k) => Some(k as usize),
            None => None::<usize>,
        }),
        r matches Some(k) ==> k < v@.len(),
{
    let n = v.len();
    let mut i: usize = 0;
    while i < n
        invariant
            0 <= i <= n,
            n == v@.len(),
            spec_position_from(v@, p, 0) == spec_position_from(v@, p, i as int),
        decreases n - i,
    {
        if v[i] == p {
            return Some(i);
        }
        i = i + 1;
    }
    None
}

/// An enabled-platform prefix is never longer than the scanned prefix of
/// the platform list.
pub proof fn lemma_enabled_prefix_len(m: Model, i: int)
    ensures
        m.spec_enabled_prefix(i).len() <= (if i >= 0 {
            i
        } else {
            0
        }),
    decreases i,
{
    if i > 0 {
        lemma_enabled_prefix_len(m, i - 1);
    }
}

/// A filtered prefix is never longer than the scanned prefix.
pub proof fn lemma_filtered_prefix_len(m: Model, n: int)
    ensures
        m.spec_filtered_prefix(n).len() <= (if n >= 0 {
            n
        } else {
            0
        }),
    decreases n,
{
    if n > 0 {
        lemma_filtered_prefix_len(m, n - 1);
    }
}

impl Model {
    /// Marks an id as the in-flight price-history target.
    pub fn start_loading_price_history(&mut self, game_id: String)
        ensures
            *final(self) == (Model {
                loading: LoadingState { price_history: Some(game_id), ..old(self).loading },
                ..*old(self)
            }),
    {
        self.loading.price_history = Some(game_id);
    }

    /// Caches a fetched price history and clears the in-flight flag when it
    /// still points at this id. A failed fetch arrives as an empty history:
    /// enrichments never surface errors.
    pub fn finish_loading_price_history(&mut self, game_id: String, history: Vec<PriceHistoryPoint>)
        requires
            old(self).wf(),
        ensures
            final(self).wf(),
            final(self).price_history_cache.spec_get(game_id@) == Some(history),
            forall|k: Seq<char>|
                k != game_id@ ==> final(self).price_history_cache.spec_get(k) == old(
                    self,
                ).price_history_cache.spec_get(k),
            final(self).loading.price_history == (if old(self).loading.price_history matches Some(
                g,
            ) && g@ == game_id@ {
                None::<String>
            } else {
                old(self).loading.price_history
            }),
            *final(self) == (Model {
                price_history_cache: final(self).price_history_cache,
                loading: (LoadingState {
                    price_history: final(self).loading.price_history,
                    ..old(self).loading
                }),
                ..*old(self)
            }),
    {
        self.price_history_cache.insert(game_id.clone(), history);
        let still = match &self.loading.price_history {
            Some(g) => *g == game_id,
            None => false,
        };
        if still {
            self.loading.price_history = None;
        }
    }
}

/// Every index a filtered prefix lists is a visible deal below the bound,
/// and every visible deal below the bound is listed exactly once.
pub proof fn lemma_filtered_prefix_props(m: Model, n: int)
    requires
        n <= m.deals@.len(),
        m.deals@.len() <= usize::MAX,
    ensures
        forall|k: int|
            0 <= k < m.spec_filtered_prefix(n).len() ==> (#[trigger] m.spec_filtered_prefix(n)[k]
                as int) < n && m.spec_visible(m.spec_filtered_prefix(n)[k] as int),
        forall|u: usize|
            #[trigger] m.spec_filtered_prefix(n).contains(u) <==> (u as int) < n && m.spec_visible(
                u as int,
            ),
        forall|k1: int, k2: int|
            0 <= k1 < k2 < m.spec_filtered_prefix(n).len() ==> m.spec_filtered_prefix(n)[k1]
                < m.spec_filtered_prefix(n)[k2],
    decreases n,
{
    if n > 0 {
        lemma_filtered_prefix_props(m, n - 1);
        let p = m.spec_filtered_prefix(n - 1);
        let q = m.spec_filtered_prefix(n);
        if m.spec_visible(n - 1) {
            let x = (n - 1) as usize;
            assert(x as int == n - 1);
            assert(q == p.push(x));
            assert(forall|k: int| 0 <= k < p.len() ==> q[k] == #[trigger] p[k]);
            assert(q[p.len() as int] == x);
            assert forall|u: usize| q.contains(u) implies (u as int) < n && m.spec_visible(
                u as int,
            ) by {
                let k = choose|k: int| 0 <= k < q.len() && q[k] == u;
                if k < p.len() {
                    assert(p[k] == u);
                    assert(p.contains(u));
                } else {
                    assert(u == x);
                }
            }
            assert forall|u: usize| (u as int) < n && m.spec_visible(u as int) implies q.contains(
                u,
            ) by {
                if (u as int) < n - 1 {
                    assert(p.contains(u));
                    let k = choose|k: int| 0 <= k < p.len() && p[k] == u;
                    assert(q[k] == u);
                } else {
                    assert(q[q.len() - 1] == u);
                }
            }
        } else {
            assert(q == p);
            assert forall|u: usize| (u as int) < n && m.spec_visible(u as int) implies q.contains(
                u,
            ) by {
                if (u as int) == n - 1 {
                    assert(false);
                } else {
                    assert(p.contains(u));
                }
            }
        }
    }
}

/// Inserting into a run ordered by the local sort keeps its length plus one
/// and its membership plus the new index.
pub proof fn lemma_insert_sorted_props(m: Model, s: Seq<usize>, x: usize)
    ensures
        m.spec_insert_sorted(s, x).len() == s.len() + 1,
        forall|u: usize| #[trigger] m.spec_insert_sorted(s, x).contains(u) <==> (s.contains(u) || u == x),
    decreases s.len(),
{
    let r = m.spec_insert_sorted(s, x);
    if s.len() > 0 && m.spec_order_lt(x, s.last()) {
        lemma_insert_sorted_props(m, s.drop_last(), x);
        let inner = m.spec_insert_sorted(s.drop_last(), x);
        assert(r == inner.push(s.last()));
        assert(forall|k: int| 0 <= k < inner.len() ==> r[k] == #[trigger] inner[k]);
        assert forall|u: usize| r.contains(u) implies (s.contains(u) || u == x) by {
            let k = choose|k: int| 0 <= k < r.len() && r[k] == u;
            if k < inner.len() {
                assert(inner.contains(u));
                if u != x {
                    assert(s.drop_last().contains(u));
                    let k2 = choose|k2: int|
                        0 <= k2 < s.drop_last().len() && s.drop_last()[k2] == u;
                    assert(s[k2] == u);
                }
            } else {
                assert(u == s.last());
                assert(s[s.len() - 1] == u);
            }
        }
        assert forall|u: usize| s.contains(u) || u == x implies r.contains(u) by {
            if u == x {
                assert(m.spec_insert_sorted(s.drop_last(), x).contains(u));
                let k = choose|k: int| 0 <= k < inner.len() && inner[k] == u;
                assert(r[k] == u);
            } else {
                let k = choose|k: int| 0 <= k < s.len() && s[k] == u;
                if k == s.len() - 1 {
                    assert(r[r.len() - 1] == u);
                } else {
                    assert(s.drop_last()[k] == u);
                    assert(s.drop_last().contains(u));
                    assert(m.spec_insert_sorted(s.drop_last(), x).contains(u));
                    let k2 = choose|k2: int| 0 <= k2 < inner.len() && inner[k2] == u;
                    assert(r[k2] == u);
                }
            }
        }
    } else {
        assert(r == s.push(x));
        assert forall|u: usize| s.contains(u) || u == x implies r.contains(u) by {
            if u == x {
                assert(r[r.len() - 1] == u);
            } else {
                let k = choose|k: int| 0 <= k < s.len() && s[k] == u;
                assert(r[k] == u);
            }
        }
        assert forall|u: usize| r.contains(u) implies s.contains(u) || u == x by {
            let k = choose|k: int| 0 <= k < r.len() && r[k] == u;
            if k < s.len() {
                assert(s[k] == u);
            }
        }
    }
}

/// Ordering a run by the local sort keeps its length and membership.
pub proof fn lemma_sort_idxs_props(m: Model, s: Seq<usize>)
    ensures
        m.spec_sort_idxs(s).len() == s.len(),
        forall|u: usize| #[trigger] m.spec_sort_idxs(s).contains(u) <==> s.contains(u),
    decreases s.len(),
{
    if s.len() > 0 {
        lemma_sort_idxs_props(m, s.drop_last());
        lemma_insert_sorted_props(m, m.spec_sort_idxs(s.drop_last()), s.last());
        let inner = m.spec_sort_idxs(s.drop_last());
        assert(m.spec_sort_idxs(s) == m.spec_insert_sorted(inner, s.last()));
        assert forall|u: usize| m.spec_sort_idxs(s).contains(u) implies s.contains(u) by {
            if inner.contains(u) {
                assert(s.drop_last().contains(u));
                let k = choose|k: int| 0 <= k < s.drop_last().len() && s.drop_last()[k] == u;
                assert(s[k] == u);
            } else {
                assert(u == s.last());
                assert(s[s.len() - 1] == u);
            }
        }
        assert forall|u: usize| s.contains(u) implies m.spec_sort_idxs(s).contains(u) by {
            let k = choose|k: int| 0 <= k < s.len() && s[k] == u;
            if k == s.len() - 1 {
                assert(u == s.last());
                assert(m.spec_insert_sorted(inner, s.last()).contains(u));
            } else {
                assert(s.drop_last()[k] == u);
                assert(s.drop_last().contains(u));
                assert(inner.contains(u));
                assert(m.spec_insert_sorted(inner, s.last()).contains(u));
            }
        }
    }
}

/// Inserting at the position where every later entry is ordered after the
/// new index, and the one before is not, is what the recursive insertion
/// does.
pub proof fn lemma_insert_sorted_at(m: Model, s: Seq<usize>, x: usize, j: int)
    requires
        0 <= j <= s.len(),
        forall|k: int| j <= k < s.len() ==> m.spec_order_lt(x, #[trigger] s[k]),
        j > 0 ==> !m.spec_order_lt(x, s[j - 1]),
    ensures
        m.spec_insert_sorted(s, x) == s.insert(j, x),
    decreases s.len(),
{
    if s.len() == 0 {
        assert(m.spec_insert_sorted(s, x) =~= s.insert(0, x));
    } else if m.spec_order_lt(x, s.last()) {
        assert(j < s.len());
        lemma_insert_sorted_at(m, s.drop_last(), x, j);
        assert(m.spec_insert_sorted(s, x) =~= s.insert(j, x));
    } else {
        assert(j == s.len());
        assert(m.spec_insert_sorted(s, x) =~= s.insert(j, x));
    }
}

} // verus!

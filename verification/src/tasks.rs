use vstd::prelude::*;

use crate::error::DealveError;
use crate::message::Message;
use crate::model::{LoadingState, Model, PaginationState, UiState};
use crate::models::{Deal, PriceHistoryPoint};

verus! {

/// Which flavour of primary load is in flight: the paginated listing or the
/// one-shot title search.
#[derive(Debug, Clone, Copy, PartialEq, Eq, Structural)]
pub enum LoadTaskKind {
    StandardDeals,
    SearchDeals,
}

/// A fully-resolved fetch the driving loop should start: every parameter the
/// gateway call needs, as plain values.
pub enum LoadRequest {
    Standard {
        region_code: String,
        offset: usize,
        page_size: usize,
        shop_id: Option<u32>,
        sort: String,
    },
    Search { query: String, region_code: String, shop_id: Option<u32>, limit: usize },
}

/// The search endpoint returns at most this many results, so search loads
/// never ask for more.
pub open spec fn spec_search_cap(page_size: usize) -> usize {
    if page_size < 100 {
        page_size
    } else {
        100
    }
}

/// Begins a primary load: clears the list, resets pagination and selection,
/// raises the loading flag, and describes the fetch to start — a search
/// fetch when a query is confirmed, the paginated listing otherwise.
pub fn start_load(model: &mut Model) -> (r: (LoadTaskKind, LoadRequest))
    requires
        old(model).wf(),
    ensures
        final(model).wf(),
        *final(model) == (Model {
            deals: final(model).deals,
            pagination: PaginationState { offset: 0, has_more: true, loading_more: false },
            ui: (UiState { selected: Some(0usize), spinner_frame: 0, ..old(model).ui }),
            loading: (LoadingState { deals: true, ..old(model).loading }),
            ..*old(model)
        }),
        final(model).deals@ == Seq::<Deal>::empty(),
        ({
            let m = *old(model);
            match m.active_search_query {
                Some(q) => {
                    &&& r.0 == LoadTaskKind::SearchDeals
                    &&& r.1 matches LoadRequest::Search { query, region_code, shop_id, limit }
                        && query@ == q@ && region_code@ == m.region.spec_code() && shop_id
                        == m.platform_filter.spec_shop_id() && limit == spec_search_cap(
                        m.deals_page_size,
                    )
                },
                None => {
                    &&& r.0 == LoadTaskKind::StandardDeals
                    &&& r.1 matches LoadRequest::Standard {
                        region_code,
                        offset,
                        page_size,
                        shop_id,
                        sort,
                    } && region_code@ == m.region.spec_code() && offset == 0 && page_size
                        == m.deals_page_size && shop_id == m.platform_filter.spec_shop_id()
                        && sort@ == m.sort_state.spec_api_param()
                },
            }
        }),
{
    model.reset_pagination();
    model.set_loading(true);
    let region_code = model.region.code().to_owned();
    let shop_id = model.platform_filter.shop_id();
    match &model.active_search_query {
        Some(q) => {
            let limit = if model.deals_page_size < 100 {
                model.deals_page_size
            } else {
                100
            };
            (
                LoadTaskKind::SearchDeals,
                LoadRequest::Search { query: q.clone(), region_code, shop_id, limit },
            )
        },
        None => {
            (
                LoadTaskKind::StandardDeals,
                LoadRequest::Standard {
                    region_code,
                    offset: 0,
                    page_size: model.deals_page_size,
                    shop_id,
                    sort: model.sort_state.api_param(),
                },
            )
        },
    }
}

/// Whether a pagination load may start now: never in search mode, never
/// while another load or pagination is in flight, and only while the
/// listing has more to give.
pub fn should_start_pagination(model: &Model, load_in_flight: bool, more_in_flight: bool) -> (r:
    bool)
    ensures
        r == (!model.spec_is_search_mode() && model.spec_should_load_more() && !load_in_flight
            && !more_in_flight),
{
    !model.is_search_mode() && model.should_load_more() && !load_in_flight && !more_in_flight
}

/// Begins a pagination load: raises the paginating flag and describes the
/// fetch of the next page at the current offset.
pub fn start_more_load(model: &mut Model) -> (r: LoadRequest)
    requires
        old(model).wf(),
    ensures
        final(model).wf(),
        *final(model) == (Model {
            pagination: (PaginationState { loading_more: true, ..old(model).pagination }),
            ..*old(model)
        }),
        r matches LoadRequest::Standard { region_code, offset, page_size, shop_id, sort }
            && region_code@ == old(model).region.spec_code() && offset == old(
            model,
        ).pagination.offset && page_size == old(model).deals_page_size && shop_id == old(
            model,
        ).platform_filter.spec_shop_id() && sort@ == old(model).sort_state.spec_api_param(),
{
    model.pagination.loading_more = true;
    LoadRequest::Standard {
        region_code: model.region.code().to_owned(),
        offset: model.pagination.offset,
        page_size: model.deals_page_size,
        shop_id: model.platform_filter.shop_id(),
        sort: model.sort_state.api_param(),
    }
}

/// Converts the completion of a primary load into the one message that
/// delivers it: a full page keeps the listing open, a short page closes it,
/// search results never paginate, and a failure becomes the visible error
/// text (prefixed for the search path).
pub fn deals_load_outcome(
    kind: LoadTaskKind,
    result: Result<Vec<Deal>, DealveError>,
    page_size: usize,
) -> (r: Message)
    ensures
        match result {
            Ok(deals) => r == (match kind {
                LoadTaskKind::StandardDeals => Message::DealsLoaded {
                    deals,
                    is_more: deals@.len() >= page_size,
                    page_size,
                },
                LoadTaskKind::SearchDeals => Message::DealsLoaded {
                    deals,
                    is_more: false,
                    page_size: deals@.len() as usize,
                },
            }),
            Err(e) => r matches Message::DealsLoadFailed(m) && m@ == (match kind {
                LoadTaskKind::StandardDeals => e.spec_prefix() + e.spec_detail(),
                LoadTaskKind::SearchDeals => "Search failed: "@ + e.spec_prefix()
                    + e.spec_detail(),
            }),
        },
{
    match result {
        Ok(deals) => {
            match kind {
                LoadTaskKind::StandardDeals => {
                    let is_more = deals.len() >= page_size;
                    Message::DealsLoaded { deals, is_more, page_size }
                },
                LoadTaskKind::SearchDeals => {
                    let n = deals.len();
                    Message::DealsLoaded { deals, is_more: false, page_size: n }
                },
            }
        },
        Err(e) => {
            let msg = match kind {
                LoadTaskKind::StandardDeals => e.message(),
                LoadTaskKind::SearchDeals => {
                    let mut s = String::from_str("Search failed: ");
                    s.append(e.message().as_str());
                    s
                },
            };
            Message::DealsLoadFailed(msg)
        },
    }
}

/// The message delivered when a load task itself was lost (aborted or
/// crashed) rather than finishing with a result.
pub fn failed_task_message(kind: LoadTaskKind) -> (r: Message)
    ensures
        r matches Message::DealsLoadFailed(m) && m@ == (match kind {
            LoadTaskKind::StandardDeals => "Task failed"@,
            LoadTaskKind::SearchDeals => "Search task failed"@,
        }),
{
    match kind {
        LoadTaskKind::StandardDeals => Message::DealsLoadFailed(String::from_str("Task failed")),
        LoadTaskKind::SearchDeals => Message::DealsLoadFailed(
            String::from_str("Search task failed"),
        ),
    }
}

/// Converts the completion of a pagination load into its message.
pub fn more_deals_outcome(result: Result<Vec<Deal>, DealveError>, page_size: usize) -> (r: Message)
    ensures
        match result {
            Ok(deals) => r == (Message::MoreDealsLoaded {
                deals,
                is_more: deals@.len() >= page_size,
                page_size,
            }),
            Err(e) => r matches Message::DealsLoadFailed(m) && m@ == e.spec_prefix()
                + e.spec_detail(),
        },
{
    match result {
        Ok(deals) => {
            let is_more = deals.len() >= page_size;
            Message::MoreDealsLoaded { deals, is_more, page_size }
        },
        Err(e) => Message::DealsLoadFailed(e.message()),
    }
}

/// Converts the completion of a history fetch into its message. A failure
/// is absorbed into an empty history: enrichments never surface errors.
pub fn price_history_outcome(
    game_id: String,
    result: Result<Vec<PriceHistoryPoint>, DealveError>,
) -> (r: Message)
    ensures
        match result {
            Ok(history) => r == (Message::PriceHistoryLoaded { game_id, history }),
            Err(e) => r matches Message::PriceHistoryLoaded { game_id: g, history } && g
                == game_id && history@ == Seq::<PriceHistoryPoint>::empty(),
        },
{
    match result {
        Ok(history) => Message::PriceHistoryLoaded { game_id, history },
        Err(_) => Message::PriceHistoryLoaded { game_id, history: Vec::new() },
    }
}

/// Claims the game-info fetch for the selected deal, if one is due: not
/// cached and not already in flight. Marks the id as loading and hands it
/// out.
pub fn take_game_info_request(model: &mut Model) -> (r: Option<String>)
    requires
        old(model).wf(),
    ensures
        final(model).wf(),
        match r {
            Some(id) => {
                &&& old(model).spec_selected_deal() matches Some(d) && id@ == d.id@ && !old(
                    model,
                ).game_info_cache.spec_contains(d.id@)
                &&& *final(model) == (Model {
                    loading: (LoadingState {
                        game_info: final(model).loading.game_info,
                        ..old(model).loading
                    }),
                    ..*old(model)
                })
                &&& final(model).loading.game_info matches Some(g) && g@ == id@
            },
            None => *final(model) == *old(model),
        },
{
    match model.needs_game_info_load() {
        Some(id) => {
            model.loading.game_info = Some(id.clone());
            Some(id)
        },
        None => None,
    }
}

/// Claims the price-history fetch for the selected deal, if one is due: no
/// primary load running, not cached, and not already in flight. Marks the
/// id as loading and hands it out.
pub fn take_history_request(model: &mut Model) -> (r: Option<String>)
    requires
        old(model).wf(),
    ensures
        final(model).wf(),
        match r {
            Some(id) => {
                &&& !old(model).loading.deals
                &&& old(model).spec_selected_deal() matches Some(d) && id@ == d.id@ && !old(
                    model,
                ).price_history_cache.spec_contains(d.id@)
                &&& *final(model) == (Model {
                    loading: (LoadingState {
                        price_history: final(model).loading.price_history,
                        ..old(model).loading
                    }),
                    ..*old(model)
                })
                &&& final(model).loading.price_history matches Some(g) && g@ == id@
            },
            None => *final(model) == *old(model),
        },
{
    if model.loading.deals {
        return None;
    }
    match model.needs_price_history_load() {
        Some(id) => {
            model.loading.price_history = Some(id.clone());
            Some(id)
        },
        None => None,
    }
}

} // verus!

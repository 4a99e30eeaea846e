use vstd::prelude::*;

use crate::model::Model;
use crate::models::Deal;
use crate::update::{
    spec_confirm_filter, spec_more_deals_loaded, spec_next_selection, spec_prev_selection,
    spec_selection_step, spec_sort_changed, spec_wrap_next, spec_wrap_prev, UpdateResult,
};

verus! {

// ── Pagination monotonicity ─────────────────────────────────────────────

/// One appended page, of any content, under any page size.
pub open spec fn spec_paged_step(pre: Model, post: Model, page_size: usize) -> bool {
    exists|r: UpdateResult, deals: Vec<Deal>, is_more: bool|
        #[trigger] spec_more_deals_loaded(pre, post, r, deals, is_more, page_size)
}

/// Law: one appended page advances the offset by exactly the page size,
/// the end-of-listing flag never turns back on, and a short page turns it
/// off.
pub proof fn lemma_pagination_step_monotonic(
    pre: Model,
    post: Model,
    r: UpdateResult,
    deals: Vec<Deal>,
    is_more: bool,
    page_size: usize,
)
    requires
        spec_more_deals_loaded(pre, post, r, deals, is_more, page_size),
        pre.pagination.offset + page_size <= usize::MAX,
    ensures
        post.pagination.offset == pre.pagination.offset + page_size,
        post.pagination.has_more ==> pre.pagination.has_more,
        !is_more ==> !post.pagination.has_more,
{
}

/// Law: across any run of appended pages with one page size, the offset
/// grows by the page size at every step — strictly, when the page size is
/// positive — and once the end-of-listing flag is off it stays off for the
/// rest of the run.
pub proof fn lemma_pagination_run_monotonic(states: Seq<Model>, page_size: usize, i: int)
    requires
        0 <= i < states.len(),
        forall|j: int|
            0 <= j < states.len() - 1 ==> #[trigger] spec_paged_step(
                states[j],
                states[j + 1],
                page_size,
            ) && states[j].pagination.offset + page_size <= usize::MAX,
    ensures
        states[i].pagination.offset == states[0].pagination.offset + i * page_size,
        states[i].pagination.has_more ==> states[0].pagination.has_more,
    decreases i,
{
    if i > 0 {
        lemma_pagination_run_monotonic(states, page_size, i - 1);
        let j = i - 1;
        assert(spec_paged_step(states[j], states[j + 1], page_size));
        let (r, deals, is_more) = choose|r: UpdateResult, deals: Vec<Deal>, is_more: bool|
            #[trigger] spec_more_deals_loaded(states[j], states[j + 1], r, deals, is_more, page_size);
        lemma_pagination_step_monotonic(states[j], states[j + 1], r, deals, is_more, page_size);
        assert(states[j + 1] == states[i]);
        assert((i - 1) * page_size + page_size == i * page_size) by (nonlinear_arith);
    } else {
        assert(0 * page_size == 0) by (nonlinear_arith);
    }
}

/// Law: when the delivered flag reports whether the batch filled the page
/// — as the orchestrator computes it — a listing that was still open stays
/// open exactly as long as full pages keep arriving: the end-of-listing
/// flag turns off precisely on the first short batch.
pub proof fn lemma_short_page_closes_listing(
    pre: Model,
    post: Model,
    r: UpdateResult,
    deals: Vec<Deal>,
    is_more: bool,
    page_size: usize,
)
    requires
        spec_more_deals_loaded(pre, post, r, deals, is_more, page_size),
        is_more == (deals@.len() >= page_size),
        pre.pagination.has_more,
    ensures
        post.pagination.has_more <==> deals@.len() >= page_size,
{
}

// ── Selection wrap ──────────────────────────────────────────────────────

/// One step of the selection cursor moving down, whatever flags came back.
pub open spec fn spec_select_next_step(pre: Model, post: Model) -> bool {
    exists|r: UpdateResult| #[trigger] spec_selection_step(pre, post, r, spec_next_selection(pre))
}

/// Stepping the wrap-around successor `k` times from `i` in a list of
/// length `n`.
pub open spec fn spec_wrap_next_iter(i: int, n: int, k: int) -> int
    decreases k,
{
    if k <= 0 {
        i
    } else {
        spec_wrap_next(spec_wrap_next_iter(i, n, k - 1), n)
    }
}

proof fn lemma_wrap_next_iter_value(i: int, n: int, k: int)
    requires
        0 <= i < n,
        0 <= k <= n,
    ensures
        spec_wrap_next_iter(i, n, k) == (if i + k < n {
            i + k
        } else {
            i + k - n
        }),
    decreases k,
{
    if k > 0 {
        lemma_wrap_next_iter_value(i, n, k - 1);
    }
}

/// Law: in a non-empty filtered list of length `n`, stepping the selection
/// successor `n` times returns to the starting index.
pub proof fn lemma_selection_wraps_to_start(i: int, n: int)
    requires
        0 <= i < n,
    ensures
        spec_wrap_next_iter(i, n, n) == i,
{
    lemma_wrap_next_iter_value(i, n, n);
}

/// Law: stepping backward undoes stepping forward, and the other way
/// around, at every index of a non-empty list.
pub proof fn lemma_selection_prev_inverts_next(i: int, n: int)
    requires
        0 <= i < n,
    ensures
        spec_wrap_prev(spec_wrap_next(i, n), n) == i,
        spec_wrap_next(spec_wrap_prev(i, n), n) == i,
{
}

/// Law (at the model level): a select-previous step exactly undoes a
/// select-next step whenever the cursor starts inside a non-empty filtered
/// list.
pub proof fn lemma_selection_step_round_trip(
    pre: Model,
    mid: Model,
    post: Model,
    r1: UpdateResult,
    r2: UpdateResult,
)
    requires
        spec_selection_step(pre, mid, r1, spec_next_selection(pre)),
        spec_selection_step(mid, post, r2, spec_prev_selection(mid)),
        pre.ui.selected matches Some(s) && (s as int) < pre.spec_filtered().len(),
    ensures
        post.ui.selected == pre.ui.selected,
{
    proof_seq_len_bound(pre);
    lemma_filtered_same(pre, mid, pre.deals@.len() as int);
    let n = pre.spec_filtered().len() as int;
    let s = pre.ui.selected.unwrap() as int;
    lemma_selection_prev_inverts_next(s, n);
    assert(mid.ui.selected == Some(spec_wrap_next(s, n) as usize));
    assert(0 <= spec_wrap_next(s, n) < n);
}

/// Filtering reads only the deals and the platform and price filters, so
/// two models that agree there show the same filtered list.
pub proof fn lemma_filtered_same(a: Model, b: Model, n: int)
    requires
        a.deals == b.deals,
        a.platform_filter == b.platform_filter,
        a.price_filter == b.price_filter,
    ensures
        a.spec_filtered_prefix(n) == b.spec_filtered_prefix(n),
    decreases n,
{
    if n > 0 {
        lemma_filtered_same(a, b, n - 1);
    }
}

/// A filtered list always fits in a machine-sized index range.
proof fn proof_seq_len_bound(m: Model)
    ensures
        m.spec_filtered().len() <= m.deals@.len() <= usize::MAX,
{
    vstd::std_specs::vec::axiom_spec_len(&m.deals);
    crate::model::lemma_filtered_prefix_len(m, m.deals@.len() as int);
}

/// Law (selection wrap, at the model level): a run of `n + 1` states joined
/// by select-next steps, starting with a valid cursor over a non-empty
/// filtered list of length `n`, ends with the cursor where it began; and a
/// select-previous step exactly undoes a select-next step.
pub proof fn lemma_selection_wrap_run(states: Seq<Model>)
    requires
        states.len() >= 2,
        states.len() == states[0].spec_filtered().len() + 1,
        states[0].ui.selected matches Some(s) && (s as int) < states[0].spec_filtered().len(),
        forall|j: int|
            0 <= j < states.len() - 1 ==> #[trigger] spec_select_next_step(
                states[j],
                states[j + 1],
            ),
    ensures
        states[states.len() - 1].ui.selected == states[0].ui.selected,
{
    let n = states[0].spec_filtered().len() as int;
    let i = states[0].ui.selected.unwrap() as int;
    assert forall|k: int| 0 <= k < states.len() implies states[k].spec_filtered()
        == states[0].spec_filtered() && states[k].ui.selected == Some(
        spec_wrap_next_iter(i, n, k) as usize,
    ) by {
        lemma_selection_invariant(states, k);
    }
    lemma_wrap_next_iter_value(i, n, n);
    assert(spec_wrap_next_iter(i, n, n) == i);
}

proof fn lemma_selection_invariant(states: Seq<Model>, k: int)
    requires
        states.len() >= 2,
        states.len() == states[0].spec_filtered().len() + 1,
        states[0].ui.selected matches Some(s) && (s as int) < states[0].spec_filtered().len(),
        forall|j: int|
            0 <= j < states.len() - 1 ==> #[trigger] spec_select_next_step(
                states[j],
                states[j + 1],
            ),
        0 <= k < states.len(),
    ensures
        states[k].deals == states[0].deals,
        states[k].platform_filter == states[0].platform_filter,
        states[k].price_filter == states[0].price_filter,
        states[k].spec_filtered() == states[0].spec_filtered(),
        states[k].ui.selected == Some(
            spec_wrap_next_iter(
                states[0].ui.selected.unwrap() as int,
                states[0].spec_filtered().len() as int,
                k,
            ) as usize,
        ),
    decreases k,
{
    let n = states[0].spec_filtered().len() as int;
    let i = states[0].ui.selected.unwrap() as int;
    proof_seq_len_bound(states[0]);
    if k == 0 {
        assert(spec_wrap_next_iter(i, n, 0) == i);
    } else {
        lemma_selection_invariant(states, k - 1);
        let j = k - 1;
        assert(spec_select_next_step(states[j], states[j + 1]));
        assert(states[j + 1] == states[k]);
        let r = choose|r: UpdateResult|
            #[trigger] spec_selection_step(
                states[k - 1],
                states[k],
                r,
                spec_next_selection(states[k - 1]),
            );
        lemma_filtered_same(states[k - 1], states[k], states[0].deals@.len() as int);
        lemma_filtered_same(states[0], states[k - 1], states[0].deals@.len() as int);
        let prev = spec_wrap_next_iter(i, n, k - 1);
        lemma_wrap_next_iter_value(i, n, k - 1);
        assert(0 <= prev < n);
        lemma_wrap_next_iter_value(i, n, k);
        assert(states[k - 1].spec_filtered().len() == n);
        assert(states[k].ui.selected == spec_next_selection(states[k - 1]));
        assert(spec_wrap_next(prev, n) == spec_wrap_next_iter(i, n, k));
    }
}

// ── Filter idempotence ──────────────────────────────────────────────────

/// Law: confirming the same search text twice in a row never asks for a
/// second reload — normalization is idempotent, so the second confirmation
/// sees an unchanged query.
pub proof fn lemma_confirm_filter_idempotent(
    pre: Model,
    mid: Model,
    post: Model,
    r1: UpdateResult,
    r2: UpdateResult,
)
    requires
        spec_confirm_filter(pre, mid, r1),
        spec_confirm_filter(mid, post, r2),
    ensures
        !r2.needs_reload,
{
    let trimmed = crate::text::spec_trim(pre.filter.text@);
    crate::text::lemma_trim_idempotent(pre.filter.text@);
    if trimmed.len() == 0 {
        assert(mid.filter.text@ =~= Seq::<char>::empty());
        assert(crate::text::spec_trim(mid.filter.text@) =~= Seq::<char>::empty());
    }
}

// ── Search-mode sort coercion ───────────────────────────────────────────

/// Law: confirming a filter that enters search mode always leaves a
/// search-supported sort criteria (price or cut) in place.
pub proof fn lemma_confirm_coerces_sort(pre: Model, post: Model, r: UpdateResult)
    requires
        spec_confirm_filter(pre, post, r),
        post.spec_is_search_mode(),
    ensures
        post.sort_state.criteria.spec_search_supported(),
{
}

/// Law: moving to the next or previous criteria while in search mode lands
/// on price or cut, never on the criteria the search path cannot sort by.
pub proof fn lemma_sort_cycle_stays_supported(pre: Model, post: Model, r: UpdateResult)
    requires
        pre.spec_is_search_mode(),
        spec_sort_changed(
            pre,
            post,
            r,
            pre.sort_state.criteria.spec_toggle_search(),
            pre.sort_state.direction,
        ),
    ensures
        post.sort_state.criteria.spec_search_supported(),
{
}

} // verus!

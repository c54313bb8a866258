use vstd::prelude::*;

use crate::crawler::{
    after_fetch, after_install, after_sleep, batch_matches, emitted_names, learnt_page_size, step_effect, CrawlerModel,
    FetchOutcome, PollState, Step,
};
use crate::model::ArtistUrl;
use crate::state::ScraperState;
use vstd::arithmetic::div_mod::{lemma_div_by_multiple, lemma_fundamental_div_mod};

verus! {

/// Over any run of calls on a crawler, starting from a well-formed crawl state,
/// the counter grows by exactly the number of artists handed out (so it equals
/// that number when the run starts from an empty state), every artist handed out
/// is recorded in order, and no name is handed out twice.
///
/// `states[i]` is the crawl state before the call that returned `steps[i]`.
pub proof fn lemma_run_counts_emissions(states: Seq<ScraperState>, steps: Seq<Step>)
    requires
        states.len() == steps.len() + 1,
        states[0].wf(),
        forall|i: int|
            0 <= i < steps.len() ==> step_effect(#[trigger] states[i], states[i + 1], steps[i]),
    ensures
        states.last().wf(),
        states.last().next_artist_number == states[0].next_artist_number + emitted_names(
            steps,
        ).len(),
        states[0].next_artist_number == 0 ==> states.last().next_artist_number
            == emitted_names(steps).len(),
        states.last().names() == states[0].names() + emitted_names(steps),
        emitted_names(steps).no_duplicates(),
    decreases steps.len(),
{
    if steps.len() == 0 {
        assert(states[0].names() + emitted_names(steps) =~= states[0].names());
    } else {
        let n = steps.len() - 1;
        let prefix_states = states.subrange(0, n + 1);
        let prefix_steps = steps.drop_last();
        assert forall|i: int| 0 <= i < prefix_steps.len() implies step_effect(
            #[trigger] prefix_states[i],
            prefix_states[i + 1],
            prefix_steps[i],
        ) by {
            assert(step_effect(states[i], states[i + 1], steps[i]));
        }
        lemma_run_counts_emissions(prefix_states, prefix_steps);
        assert(step_effect(states[n], states[n + 1], steps[n]));
        assert(states.last().names() =~= states[0].names() + emitted_names(steps));
        let all = states.last().names();
        let base = states[0].names().len();
        let e = emitted_names(steps);
        assert forall|i: int, j: int| 0 <= i < j < e.len() implies e[i] != e[j] by {
            assert(e[i] == all[base + i]);
            assert(e[j] == all[base + j]);
        }
    }
}

/// No index page is fetched twice except to retry a failed fetch.
pub proof fn lemma_pages_fetched_once(m: CrawlerModel, next: nat)
    requires
        m.inv(next),
    ensures
        m.pages_fetched.no_duplicates(),
{
    assert forall|i: int, j: int|
        0 <= i < m.pages_fetched.len() && 0 <= j < m.pages_fetched.len() && i != j implies
        m.pages_fetched[i] != m.pages_fetched[j] by {
        if i < j {
            assert(m.pages_fetched[i] < m.pages_fetched[j]);
        } else {
            assert(m.pages_fetched[j] < m.pages_fetched[i]);
        }
    }
}

/// A fetch that fails softly and then succeeds on retry leaves the crawler exactly
/// where a fetch that succeeded at once would: the same page, the same queue and the
/// same bookkeeping, so the page's artists are handed out just the same. The retry
/// asks for the page that failed.
pub proof fn lemma_retry_is_transparent(m: CrawlerModel, next: nat)
    requires
        m.inv(next),
        m.poll_state == PollState::WaitingForPageFetch,
    ensures
        after_sleep(after_fetch(m, FetchOutcome::SoftFailure)).current_page == m.current_page,
        after_sleep(after_fetch(m, FetchOutcome::SoftFailure)).pages_fetched == m.pages_fetched,
        after_fetch(after_sleep(after_fetch(m, FetchOutcome::SoftFailure)), FetchOutcome::Fetched)
            == after_fetch(m, FetchOutcome::Fetched),
{
}

/// Taking in a full page moves the crawl on to the very next page: the next fetch asks
/// for the page after the one taken in, whatever offset within it the crawl stood at.
/// A short or empty page ends the fetching. So a crawl from offset zero fetches pages
/// 1, 2, 3, ... in turn and stops after the first page that is not full.
pub proof fn lemma_pages_follow_in_turn(m: CrawlerModel, batch: Seq<ArtistUrl>, next: nat)
    requires
        m.inv(next),
        m.poll_state == PollState::WaitingForPageParse,
        batch_matches(m, batch, next),
    ensures
        batch.len() == learnt_page_size(m, batch) && batch.len() > 0 ==> {
            &&& !after_install(m, batch, next).exhausted
            &&& after_install(m, batch, next).next_page(next) == m.current_page + 1
        },
        batch.len() < learnt_page_size(m, batch) || batch.len() == 0 ==> {
            &&& after_install(m, batch, next).exhausted
            &&& !after_install(m, batch, next).wants_fetch()
        },
{
    let p = learnt_page_size(m, batch);
    if batch.len() == p && p > 0 {
        let k = next as int / p as int;
        lemma_fundamental_div_mod(next as int, p as int);
        let t = next + (p - next % p);
        assert(t == p * (k + 1)) by (nonlinear_arith)
            requires
                next == p * k + next % p,
                t == next + (p - next % p),
        ;
        assert((k + 1) * p == p * (k + 1)) by (nonlinear_arith);
        lemma_div_by_multiple(k + 1, p as int);
        assert(after_install(m, batch, next).queue.len() == p - next % p);
    }
}

} // verus!

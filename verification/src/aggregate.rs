//! Multi-page aggregation of search results, as a state machine: the
//! caller fetches the page that the state awaits and hands back what came.

use vstd::prelude::*;
use crate::query::{build_search_url, PageCap, SearchFilter};
use crate::text::{append_decimal, decimal};

verus! {

/// One search hit: where the full image lives, and where its preview does.
#[derive(Clone, Debug)]
pub struct ImageResult {
    pub full_image_url: String,
    pub thumbnail_url: String,
}

/// What the service says about the page it returned.
#[derive(Clone, Copy, Debug, PartialEq, Eq, Structural)]
pub struct PageMeta {
    pub current_page: u32,
    pub last_page: u32,
    pub per_page: u32,
    pub total: u32,
}

/// One parsed page of results.
#[derive(Debug)]
pub struct Page {
    pub data: Vec<ImageResult>,
    pub meta: PageMeta,
}

/// Why a page could not be had.
#[derive(Clone, Copy, Debug, PartialEq, Eq, Structural)]
pub enum FetchError {
    /// The request failed or was answered with an error status.
    Network,
    /// The body was not the expected JSON.
    Parse,
}

/// A search in progress. Fewer pages have arrived than were asked for
/// so far, the awaited one included.
#[derive(Debug)]
pub struct Aggregation {
    results: Vec<ImageResult>,
    awaited: u32,
    planned: u32,
    loaded: u32,
    last_page: u32,
    per_page: u32,
}

/// A finished search.
#[derive(Debug)]
pub struct SearchOutcome {
    /// The hits of the pages that arrived, in page order.
    pub results: Vec<ImageResult>,
    /// How many pages the search asked for at most.
    pub pages_planned: u32,
    /// How many pages arrived and were taken in.
    pub pages_loaded: u32,
    /// How many pages the service has for this query.
    pub pages_available: u32,
    /// The page size that the service reported.
    pub per_page: u32,
}

/// What follows the arrival of a page.
#[derive(Debug)]
pub enum SearchStep {
    /// Fetch page `awaited` of the state, then advance again.
    Fetch(Aggregation),
    /// The first page could not be had: the search has failed.
    Failed(FetchError),
    /// Every planned page has been tried.
    Complete(SearchOutcome),
}

/// A search hit as a plain value: the text of its two URLs.
pub struct Hit {
    pub full_image_url: Seq<char>,
    pub thumbnail_url: Seq<char>,
}

impl View for ImageResult {
    type V = Hit;

    open spec fn view(&self) -> Hit {
        Hit { full_image_url: self.full_image_url@, thumbnail_url: self.thumbnail_url@ }
    }
}

/// A list of search hits as plain values, in the same order.
pub open spec fn hits(items: Seq<ImageResult>) -> Seq<Hit> {
    items.map_values(|item: ImageResult| item@)
}

/// A page as a plain value.
pub struct PageView {
    pub data: Seq<Hit>,
    pub meta: PageMeta,
}

/// A search in progress as a plain value.
pub struct Progress {
    /// The hits gathered so far, in page order.
    pub results: Seq<Hit>,
    /// The number of the page whose outcome is due next.
    pub awaited: nat,
    /// How many pages the search covers; known once page 1 has arrived.
    pub planned: nat,
    /// How many pages have arrived.
    pub loaded: nat,
    /// How many pages the service has for this query.
    pub last_page: nat,
    /// The page size that the service reported.
    pub per_page: nat,
}

/// A finished search as a plain value.
pub struct OutcomeView {
    pub results: Seq<Hit>,
    pub pages_planned: nat,
    pub pages_loaded: nat,
    pub pages_available: nat,
    pub per_page: nat,
}

/// A step as a plain value.
pub enum StepView {
    Fetch(Progress),
    Failed(FetchError),
    Complete(OutcomeView),
}

impl View for Page {
    type V = PageView;

    open spec fn view(&self) -> PageView {
        PageView { data: hits(self.data@), meta: self.meta }
    }
}

impl View for Aggregation {
    type V = Progress;

    closed spec fn view(&self) -> Progress {
        Progress {
            results: hits(self.results@),
            awaited: self.awaited as nat,
            planned: self.planned as nat,
            loaded: self.loaded as nat,
            last_page: self.last_page as nat,
            per_page: self.per_page as nat,
        }
    }
}

impl View for SearchOutcome {
    type V = OutcomeView;

    open spec fn view(&self) -> OutcomeView {
        OutcomeView {
            results: hits(self.results@),
            pages_planned: self.pages_planned as nat,
            pages_loaded: self.pages_loaded as nat,
            pages_available: self.pages_available as nat,
            per_page: self.per_page as nat,
        }
    }
}

impl View for SearchStep {
    type V = StepView;

    open spec fn view(&self) -> StepView {
        match self {
            SearchStep::Fetch(state) => StepView::Fetch(state@),
            SearchStep::Failed(e) => StepView::Failed(*e),
            SearchStep::Complete(outcome) => StepView::Complete(outcome@),
        }
    }
}

/// What arrived for a page, as a plain value.
pub open spec fn arrival(outcome: Result<Page, FetchError>) -> Result<PageView, FetchError> {
    match outcome {
        Ok(page) => Ok(page@),
        Err(e) => Err(e),
    }
}

/// The state before anything was fetched: page 1 is awaited.
pub open spec fn initial() -> Progress {
    Progress {
        results: Seq::empty(),
        awaited: 1,
        planned: 0,
        loaded: 0,
        last_page: 0,
        per_page: 0,
    }
}

/// How many pages a search covers when the service has `last_page` pages.
pub open spec fn pages_to_fetch(cap: nat, last_page: nat) -> nat {
    if cap <= last_page {
        cap
    } else {
        last_page
    }
}

/// What a page adds to the count of pages that arrived.
pub open spec fn arrived(outcome: Result<PageView, FetchError>) -> nat {
    match outcome {
        Ok(_) => 1,
        Err(_) => 0,
    }
}

/// What a page adds to the results: its hits, or nothing where it failed.
pub open spec fn contribution(outcome: Result<PageView, FetchError>) -> Seq<Hit> {
    match outcome {
        Ok(page) => page.data,
        Err(_) => Seq::empty(),
    }
}

/// The state machine's rule. The first page decides the plan, and its
/// failure is the search's failure; a later page that fails is skipped.
pub open spec fn step(state: Progress, cap: nat, outcome: Result<PageView, FetchError>) -> StepView {
    if state.awaited <= 1 {
        match outcome {
            Err(e) => StepView::Failed(e),
            Ok(page) => {
                let planned = pages_to_fetch(cap, page.meta.last_page as nat);
                if 2 <= planned {
                    StepView::Fetch(
                        Progress {
                            results: page.data,
                            awaited: 2,
                            planned,
                            loaded: 1,
                            last_page: page.meta.last_page as nat,
                            per_page: page.meta.per_page as nat,
                        },
                    )
                } else {
                    StepView::Complete(
                        OutcomeView {
                            results: page.data,
                            pages_planned: planned,
                            pages_loaded: 1,
                            pages_available: page.meta.last_page as nat,
                            per_page: page.meta.per_page as nat,
                        },
                    )
                }
            },
        }
    } else {
        let results = state.results + contribution(outcome);
        let loaded = state.loaded + arrived(outcome);
        if state.awaited < state.planned {
            StepView::Fetch(Progress { results, loaded, awaited: state.awaited + 1, ..state })
        } else {
            StepView::Complete(
                OutcomeView {
                    results,
                    pages_planned: state.planned,
                    pages_loaded: loaded,
                    pages_available: state.last_page,
                    per_page: state.per_page,
                },
            )
        }
    }
}

/// The summary of a finished search: the hits found, the pages that
/// arrived out of those the service has, and the page size.
pub open spec fn summary_text(found: nat, loaded: nat, available: nat, per_page: nat) -> Seq<char> {
    "Found "@ + decimal(found) + " results (pages loaded: "@ + decimal(loaded) + "/"@ + decimal(
        available,
    ) + ", per page: "@ + decimal(per_page) + ")"@
}

/// The status line of a failed search.
pub open spec fn failure_text(error: FetchError) -> Seq<char> {
    match error {
        FetchError::Network => "Failed to fetch from Wallhaven"@,
        FetchError::Parse => "Failed to parse API response"@,
    }
}

impl Aggregation {
    #[verifier::type_invariant]
    spec fn counted(self) -> bool {
        self.loaded < self.awaited
    }

    /// A search that has fetched nothing yet.
    pub fn start() -> (state: Aggregation)
        ensures
            state@ == initial(),
    {
        let state = Aggregation {
            results: Vec::new(),
            awaited: 1,
            planned: 0,
            loaded: 0,
            last_page: 0,
            per_page: 0,
        };
        assert(hits(state.results@) =~= Seq::<Hit>::empty());
        state
    }

    /// The number of the page that this state awaits.
    pub fn awaited(&self) -> (page: u32)
        ensures
            page == self@.awaited,
    {
        self.awaited
    }

    /// The request for the page that this state awaits.
    pub fn next_url(&self, filter: &SearchFilter) -> (url: String)
        ensures
            url@ == filter.url(self@.awaited),
    {
        build_search_url(self.awaited, filter)
    }

    /// Takes in what came for the awaited page and says what to do next.
    pub fn advance(self, cap: PageCap, outcome: Result<Page, FetchError>) -> (next: SearchStep)
        ensures
            next@ == step(self@, cap.value(), arrival(outcome)),
    {
        proof {
            use_type_invariant(&self);
        }
        let limit: u32 = cap.get();
        if self.awaited <= 1 {
            match outcome {
                Err(e) => SearchStep::Failed(e),
                Ok(page) => {
                    let planned: u32 = if limit <= page.meta.last_page {
                        limit
                    } else {
                        page.meta.last_page
                    };
                    if 2 <= planned {
                        SearchStep::Fetch(
                            Aggregation {
                                results: page.data,
                                awaited: 2,
                                planned,
                                loaded: 1,
                                last_page: page.meta.last_page,
                                per_page: page.meta.per_page,
                            },
                        )
                    } else {
                        SearchStep::Complete(
                            SearchOutcome {
                                results: page.data,
                                pages_planned: planned,
                                pages_loaded: 1,
                                pages_available: page.meta.last_page,
                                per_page: page.meta.per_page,
                            },
                        )
                    }
                },
            }
        } else {
            let mut results = self.results;
            let mut loaded: u32 = self.loaded;
            match outcome {
                Ok(page) => {
                    let mut data = page.data;
                    results.append(&mut data);
                    loaded = loaded + 1;
                    assert(hits(results@) =~= hits(self.results@) + hits(page.data@));
                },
                Err(_) => {
                    assert(hits(results@) =~= hits(self.results@) + Seq::<Hit>::empty());
                },
            }
            if self.awaited < self.planned {
                SearchStep::Fetch(
                    Aggregation {
                        results,
                        awaited: self.awaited + 1,
                        planned: self.planned,
                        loaded,
                        last_page: self.last_page,
                        per_page: self.per_page,
                    },
                )
            } else {
                SearchStep::Complete(
                    SearchOutcome {
                        results,
                        pages_planned: self.planned,
                        pages_loaded: loaded,
                        pages_available: self.last_page,
                        per_page: self.per_page,
                    },
                )
            }
        }
    }
}

impl SearchOutcome {
    /// The status line: how many hits, how many pages arrived of how
    /// many there are, and the page size.
    pub fn summary(&self) -> (text: String)
        ensures
            text@ == summary_text(
                self@.results.len(),
                self.pages_loaded as nat,
                self.pages_available as nat,
                self.per_page as nat,
            ),
    {
        let mut text = String::from_str("Found ");
        append_decimal(&mut text, self.results.len() as u64);
        text.append(" results (pages loaded: ");
        append_decimal(&mut text, self.pages_loaded as u64);
        text.append("/");
        append_decimal(&mut text, self.pages_available as u64);
        text.append(", per page: ");
        append_decimal(&mut text, self.per_page as u64);
        text.append(")");
        text
    }
}

/// The status line for a search whose first page could not be had.
pub fn failure_message(error: FetchError) -> (text: String)
    ensures
        text@ == failure_text(error),
{
    match error {
        FetchError::Network => String::from_str("Failed to fetch from Wallhaven"),
        FetchError::Parse => String::from_str("Failed to parse API response"),
    }
}

/// Where the machine stands after `outcomes` have come in, one for each
/// page it asked for, starting from `state`. It stops at the first step
/// that asks for no further page.
pub open spec fn run(
    state: Progress,
    cap: nat,
    outcomes: Seq<Result<PageView, FetchError>>,
) -> StepView
    decreases outcomes.len(),
{
    if outcomes.len() == 0 {
        StepView::Fetch(state)
    } else {
        match step(state, cap, outcomes[0]) {
            StepView::Fetch(next) => run(next, cap, outcomes.skip(1)),
            done => done,
        }
    }
}

/// The hits of the pages that arrived, in page order; a failed page
/// adds nothing.
pub open spec fn gathered(outcomes: Seq<Result<PageView, FetchError>>) -> Seq<Hit>
    decreases outcomes.len(),
{
    if outcomes.len() == 0 {
        Seq::empty()
    } else {
        contribution(outcomes[0]) + gathered(outcomes.skip(1))
    }
}

/// How many of the pages arrived.
pub open spec fn arrivals(outcomes: Seq<Result<PageView, FetchError>>) -> nat
    decreases outcomes.len(),
{
    if outcomes.len() == 0 {
        0
    } else {
        arrived(outcomes[0]) + arrivals(outcomes.skip(1))
    }
}

/// How many pages a search asks for once the first page has told how
/// many there are: the first, and the planned ones after it.
pub open spec fn pages_requested(cap: nat, last_page: nat) -> nat {
    if pages_to_fetch(cap, last_page) < 1 {
        1
    } else {
        pages_to_fetch(cap, last_page)
    }
}

proof fn lemma_run_rest(state: Progress, cap: nat, outcomes: Seq<Result<PageView, FetchError>>)
    requires
        2 <= state.awaited <= state.planned,
        outcomes.len() == state.planned - state.awaited + 1,
    ensures
        run(state, cap, outcomes) == StepView::Complete(
            OutcomeView {
                results: state.results + gathered(outcomes),
                pages_planned: state.planned,
                pages_loaded: state.loaded + arrivals(outcomes),
                pages_available: state.last_page,
                per_page: state.per_page,
            },
        ),
    decreases outcomes.len(),
{
    let results = state.results + contribution(outcomes[0]);
    let loaded = state.loaded + arrived(outcomes[0]);
    if state.awaited < state.planned {
        let next = Progress { results, loaded, awaited: state.awaited + 1, ..state };
        lemma_run_rest(next, cap, outcomes.skip(1));
        assert(state.results + gathered(outcomes) =~= next.results + gathered(outcomes.skip(1)));
    } else {
        assert(gathered(outcomes.skip(1)) =~= Seq::<Hit>::empty());
        assert(arrivals(outcomes.skip(1)) == 0);
        assert(state.results + gathered(outcomes) =~= results);
    }
}

proof fn lemma_run_prefix(
    state: Progress,
    cap: nat,
    outcomes: Seq<Result<PageView, FetchError>>,
    taken: nat,
)
    requires
        2 <= state.awaited,
        state.awaited + taken <= state.planned,
        taken <= outcomes.len(),
    ensures
        run(state, cap, outcomes.take(taken as int)) == StepView::Fetch(
            Progress {
                results: state.results + gathered(outcomes.take(taken as int)),
                loaded: state.loaded + arrivals(outcomes.take(taken as int)),
                awaited: state.awaited + taken,
                ..state
            },
        ),
    decreases taken,
{
    let prefix = outcomes.take(taken as int);
    if taken == 0 {
        assert(state.results + gathered(prefix) =~= state.results);
    } else {
        let results = state.results + contribution(outcomes[0]);
        let loaded = state.loaded + arrived(outcomes[0]);
        let next = Progress { results, loaded, awaited: state.awaited + 1, ..state };
        lemma_run_prefix(next, cap, outcomes.skip(1), (taken - 1) as nat);
        assert(prefix.skip(1) =~= outcomes.skip(1).take(taken - 1));
        assert(prefix[0] == outcomes[0]);
        assert(state.results + gathered(prefix) =~= next.results + gathered(prefix.skip(1)));
    }
}

/// A search whose first page arrives always completes, and does so
/// exactly when the last of the pages it asks for has come in: the
/// smaller of the cap and the service's page count, and one at least.
/// Its results are the hits of the pages that arrived, in page order,
/// whichever of the later pages failed, and it counts those pages.
pub proof fn lemma_search_completes(cap: nat, outcomes: Seq<Result<PageView, FetchError>>)
    requires
        outcomes.len() >= 1,
        outcomes[0] is Ok,
        outcomes.len() == pages_requested(cap, outcomes[0].unwrap().meta.last_page as nat),
    ensures
        run(initial(), cap, outcomes) == StepView::Complete(
            OutcomeView {
                results: gathered(outcomes),
                pages_planned: pages_to_fetch(cap, outcomes[0].unwrap().meta.last_page as nat),
                pages_loaded: arrivals(outcomes),
                pages_available: outcomes[0].unwrap().meta.last_page as nat,
                per_page: outcomes[0].unwrap().meta.per_page as nat,
            },
        ),
{
    let first = outcomes[0].unwrap();
    let planned = pages_to_fetch(cap, first.meta.last_page as nat);
    if 2 <= planned {
        let next = Progress {
            results: first.data,
            awaited: 2,
            planned,
            loaded: 1,
            last_page: first.meta.last_page as nat,
            per_page: first.meta.per_page as nat,
        };
        lemma_run_rest(next, cap, outcomes.skip(1));
    } else {
        assert(gathered(outcomes.skip(1)) =~= Seq::<Hit>::empty());
        assert(arrivals(outcomes.skip(1)) == 0);
        assert(gathered(outcomes) =~= first.data);
    }
}

/// Until the last of the pages a search asks for has come in, the
/// machine asks for the next one: after `taken` outcomes it awaits page
/// `taken + 1`, and holds the hits of the pages that arrived so far.
pub proof fn lemma_search_goes_on(
    cap: nat,
    outcomes: Seq<Result<PageView, FetchError>>,
    taken: nat,
)
    requires
        outcomes.len() >= 1,
        outcomes[0] is Ok,
        1 <= taken < pages_requested(cap, outcomes[0].unwrap().meta.last_page as nat),
        taken <= outcomes.len(),
    ensures
        run(initial(), cap, outcomes.take(taken as int)) == StepView::Fetch(
            Progress {
                results: gathered(outcomes.take(taken as int)),
                awaited: taken + 1,
                planned: pages_to_fetch(cap, outcomes[0].unwrap().meta.last_page as nat),
                loaded: arrivals(outcomes.take(taken as int)),
                last_page: outcomes[0].unwrap().meta.last_page as nat,
                per_page: outcomes[0].unwrap().meta.per_page as nat,
            },
        ),
{
    let first = outcomes[0].unwrap();
    let planned = pages_to_fetch(cap, first.meta.last_page as nat);
    let prefix = outcomes.take(taken as int);
    let next = Progress {
        results: first.data,
        awaited: 2,
        planned,
        loaded: 1,
        last_page: first.meta.last_page as nat,
        per_page: first.meta.per_page as nat,
    };
    lemma_run_prefix(next, cap, outcomes.skip(1), (taken - 1) as nat);
    assert(prefix.skip(1) =~= outcomes.skip(1).take(taken - 1));
    assert(prefix[0] == outcomes[0]);
}

/// A search whose first page fails has failed, with that page's error,
/// whatever might have followed.
pub proof fn lemma_first_page_decides(cap: nat, outcomes: Seq<Result<PageView, FetchError>>)
    requires
        outcomes.len() >= 1,
        outcomes[0] is Err,
    ensures
        outcomes[0] matches Err(e) && run(initial(), cap, outcomes) == StepView::Failed(e),
{
}

} // verus!

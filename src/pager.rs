use crate::model::Group;
use crate::upstream::UpstreamError;
use vstd::prelude::*;

verus! {

/// What one page request brought back: the page's groups, or a failure.
pub type PageOutcome = Result<Vec<Group>, UpstreamError>;

/// The same, with the groups as a sequence.
pub type PageResult = Result<Seq<Group>, UpstreamError>;

/// A page outcome with its groups as a sequence.
pub open spec fn page_result(o: PageOutcome) -> PageResult {
    match o {
        Ok(v) => Ok(v@),
        Err(e) => Err(e),
    }
}

/// The state of a walk through the caller's groups: the page to ask for next,
/// and the groups of the pages before it, in the order they came.
pub struct GroupPager {
    page: u64,
    groups: Vec<Group>,
}

/// A pager's state: (next page, groups gathered so far).
pub type PagerState = (nat, Seq<Group>);

/// What a pager does after a page has come back.
pub enum PagerStep {
    /// Ask for the next page.
    Continue(GroupPager),
    /// The walk is over: every group, in order.
    Finished(Vec<Group>),
    /// A page failed; what was gathered before it is dropped.
    Failed(UpstreamError),
}

/// The same, over pager states and sequences.
pub enum StepModel {
    Continue(PagerState),
    Finished(Seq<Group>),
    Failed(UpstreamError),
}

/// One transition: an empty page ends the walk, a non-empty one is appended
/// and the next page is due, a failure aborts it.
pub open spec fn step(s: PagerState, r: PageResult) -> StepModel {
    match r {
        Ok(items) => if items.len() == 0 {
            StepModel::Finished(s.1)
        } else {
            StepModel::Continue((s.0 + 1, s.1 + items))
        },
        Err(e) => StepModel::Failed(e),
    }
}

/// A pager step over states and sequences.
pub open spec fn step_model(p: PagerStep) -> StepModel {
    match p {
        PagerStep::Continue(next) => StepModel::Continue(next@),
        PagerStep::Finished(groups) => StepModel::Finished(groups@),
        PagerStep::Failed(e) => StepModel::Failed(e),
    }
}

/// The state in which every walk starts: page 1, nothing gathered.
pub open spec fn initial_state() -> PagerState {
    (1, Seq::empty())
}

impl View for GroupPager {
    type V = PagerState;

    closed spec fn view(&self) -> PagerState {
        (self.page as nat, self.groups@)
    }
}

impl GroupPager {
    /// A walk that has not asked for anything yet.
    pub fn new() -> (p: GroupPager)
        ensures
            p@ == initial_state(),
    {
        GroupPager { page: 1, groups: Vec::new() }
    }

    /// The number of the page to ask for next.
    pub fn page(&self) -> (r: u64)
        ensures
            r as nat == self@.0,
    {
        self.page
    }

    /// Takes in what the request for the current page brought back.
    pub fn receive(self, outcome: PageOutcome) -> (r: PagerStep)
        requires
            self@.0 < u64::MAX,
        ensures
            step_model(r) == step(self@, page_result(outcome)),
    {
        let mut this = self;
        match outcome {
            Ok(mut items) => {
                if items.len() == 0 {
                    PagerStep::Finished(this.groups)
                } else {
                    let ghost before = this.groups@;
                    let ghost added = items@;
                    this.groups.append(&mut items);
                    assert(this.groups@ =~= before + added);
                    this.page = this.page + 1;
                    PagerStep::Continue(this)
                }
            },
            Err(e) => PagerStep::Failed(e),
        }
    }
}

/// The outcome of a whole walk: all groups or the failure, with the pages asked
/// for in order. `None` if the page results run out before the walk ends.
pub open spec fn run(s: PagerState, results: Seq<PageResult>) -> Option<(Result<Seq<Group>, UpstreamError>, Seq<nat>)>
    decreases results.len(),
{
    if results.len() == 0 {
        None
    } else {
        match step(s, results[0]) {
            StepModel::Continue(next) => match run(next, results.drop_first()) {
                Some((out, pages)) => Some((out, seq![s.0].add(pages))),
                None => None,
            },
            StepModel::Finished(groups) => Some((Ok(groups), seq![s.0])),
            StepModel::Failed(e) => Some((Err(e), seq![s.0])),
        }
    }
}

/// The pages one after another.
pub open spec fn concat(pages: Seq<Seq<Group>>) -> Seq<Group>
    decreases pages.len(),
{
    if pages.len() == 0 {
        Seq::empty()
    } else {
        pages[0] + concat(pages.drop_first())
    }
}

/// The page numbers `from`, `from + 1`, ..., `n` of them.
pub open spec fn page_numbers(from: nat, n: nat) -> Seq<nat> {
    Seq::new(n, |i: int| (from + i) as nat)
}

/// Each page as a successful page result.
pub open spec fn all_ok(pages: Seq<Seq<Group>>) -> Seq<PageResult> {
    pages.map_values(|p: Seq<Group>| Ok::<Seq<Group>, UpstreamError>(p))
}

proof fn lemma_run_until_empty(s: PagerState, pages: Seq<Seq<Group>>)
    requires
        forall|i: int| 0 <= i < pages.len() ==> #[trigger] pages[i].len() > 0,
    ensures
        run(s, all_ok(pages).push(Ok(Seq::empty()))) == Some(
            (Ok::<Seq<Group>, UpstreamError>(s.1 + concat(pages)), page_numbers(s.0, pages.len() + 1)),
        ),
    decreases pages.len(),
{
    let results = all_ok(pages).push(Ok(Seq::empty()));
    if pages.len() == 0 {
        assert(s.1 + concat(pages) =~= s.1);
        assert(page_numbers(s.0, 1) =~= seq![s.0]);
    } else {
        let next = (s.0 + 1, s.1 + pages[0]);
        let rest = pages.drop_first();
        assert(results.drop_first() =~= all_ok(rest).push(Ok(Seq::empty())));
        lemma_run_until_empty(next, rest);
        assert(next.1 + concat(rest) =~= s.1 + concat(pages));
        assert(seq![s.0].add(page_numbers(next.0, rest.len() + 1)) =~= page_numbers(s.0, pages.len() + 1));
    }
}

/// A walk over pages that each hold groups, followed by an empty page, returns
/// every group of those pages in order, after one request per page: pages 1,
/// 2, ..., up to the empty one.
pub proof fn lemma_pages_gathered(pages: Seq<Seq<Group>>)
    requires
        forall|i: int| 0 <= i < pages.len() ==> #[trigger] pages[i].len() > 0,
    ensures
        run(initial_state(), all_ok(pages).push(Ok(Seq::empty()))) == Some(
            (Ok::<Seq<Group>, UpstreamError>(concat(pages)), page_numbers(1, pages.len() + 1)),
        ),
{
    lemma_run_until_empty(initial_state(), pages);
    assert(initial_state().1 + concat(pages) =~= concat(pages));
}

proof fn lemma_run_until_failure(s: PagerState, pages: Seq<Seq<Group>>, e: UpstreamError)
    requires
        forall|i: int| 0 <= i < pages.len() ==> #[trigger] pages[i].len() > 0,
    ensures
        run(s, all_ok(pages).push(Err(e))) == Some(
            (Err::<Seq<Group>, UpstreamError>(e), page_numbers(s.0, pages.len() + 1)),
        ),
    decreases pages.len(),
{
    let results = all_ok(pages).push(Err(e));
    if pages.len() == 0 {
        assert(page_numbers(s.0, 1) =~= seq![s.0]);
    } else {
        let next = (s.0 + 1, s.1 + pages[0]);
        let rest = pages.drop_first();
        assert(results.drop_first() =~= all_ok(rest).push(Err(e)));
        lemma_run_until_failure(next, rest, e);
        assert(seq![s.0].add(page_numbers(next.0, rest.len() + 1)) =~= page_numbers(s.0, pages.len() + 1));
    }
}

/// A failed page aborts the walk: whatever the pages before it held, the walk
/// returns that failure and no groups.
pub proof fn lemma_failure_discards(pages: Seq<Seq<Group>>, e: UpstreamError)
    requires
        forall|i: int| 0 <= i < pages.len() ==> #[trigger] pages[i].len() > 0,
    ensures
        run(initial_state(), all_ok(pages).push(Err(e))) == Some(
            (Err::<Seq<Group>, UpstreamError>(e), page_numbers(1, pages.len() + 1)),
        ),
{
    lemma_run_until_failure(initial_state(), pages, e);
}

} // verus!

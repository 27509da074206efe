use vstd::prelude::*;

use crate::entry::{
    Entry, Response, SearchEntry, SearchResult, entry_error, normalized, normalizes,
};
use crate::error::DehashedError;
use crate::query::{Query, render_query};

verus! {

/// Number of results asked for with each page.
pub const PAGE_SIZE: usize = 10000;

/// Pause between two page requests of one search, in milliseconds.
pub const PAGE_DELAY_MS: u64 = 200;

/// One page request: the values of the `size`, `page` and `query` parameters.
#[derive(Debug)]
pub struct PageRequest {
    pub size: usize,
    pub page: usize,
    pub query: String,
}

/// What the driver of a search does next.
#[derive(Debug)]
pub enum Step {
    /// Wait `delay_ms` milliseconds, then send the request.
    Fetch { delay_ms: u64, request: PageRequest },
    /// The search is over.
    Finished(Result<SearchResult, DehashedError>),
}

/// The state of one paginated search between two replies.
pub struct Search {
    query: String,
    page: usize,
    entries: Vec<SearchEntry>,
    balance: usize,
}

pub open spec fn is_fetch(step: Step, delay_ms: u64, page: nat, query: Seq<char>) -> bool {
    step matches Step::Fetch { delay_ms: d, request }
        && d == delay_ms
        && request.size == PAGE_SIZE
        && request.page == page
        && request.query@ == query
}

/// The error that a reply status other than 200 ends a search with.
pub open spec fn status_error(status: u16) -> DehashedError {
    if status == 302 {
        DehashedError::InvalidQuery
    } else if status == 400 {
        DehashedError::RateLimited
    } else if status == 401 {
        DehashedError::Unauthorized
    } else {
        DehashedError::Unknown
    }
}

/// `None` where the status is 200 and the body is to be read; otherwise the search ends
/// with the status's error.
pub open spec fn status_step(status: u16, step: Option<Step>) -> bool {
    if status == 200 {
        step is None
    } else {
        step == Some(Step::Finished(Err(status_error(status))))
    }
}

pub open spec fn page_entries(res: Response) -> Seq<Entry> {
    match res.entries {
        Some(v) => v@,
        None => Seq::empty(),
    }
}

pub open spec fn all_normalize(es: Seq<Entry>) -> bool {
    forall|i: int| 0 <= i < es.len() ==> normalizes(#[trigger] es[i])
}

pub open spec fn normalized_all(es: Seq<Entry>) -> Seq<SearchEntry> {
    es.map_values(|e: Entry| normalized(e))
}

/// `err` is the error of the first record of `es` that does not normalise.
pub open spec fn first_entry_error(es: Seq<Entry>, err: DehashedError) -> bool {
    exists|i: int|
        0 <= i < es.len() && !normalizes(#[trigger] es[i]) && all_normalize(es.take(i))
            && entry_error(es[i], err)
}

/// Whether the provider has no page after `page`, given the total it reported.
pub open spec fn last_page(total: usize, page: nat) -> bool {
    total < page * PAGE_SIZE
}

/// A search whose first page succeeds, reports a total below the page size and holds only
/// records that normalise sends one request, without a pause, and then ends with that
/// page's records and balance: no second request is made.
pub proof fn single_page_search(
    q: Query,
    s0: Search,
    first: Step,
    res: Response,
    s1: Search,
    step: Step,
)
    requires
        Search::started(q, s0, first),
        Search::body_step(s0, res, s1, step),
        res.success,
        res.total < PAGE_SIZE,
        all_normalize(page_entries(res)),
    ensures
        is_fetch(first, 0, 1, render_query(q)),
        step matches Step::Finished(Ok(r)) && r.entries@ == normalized_all(page_entries(res))
            && r.balance == res.balance,
{
    assert(Seq::<SearchEntry>::empty() + normalized_all(page_entries(res)) =~= normalized_all(
        page_entries(res),
    ));
}

/// A search whose first page reports a total of at least one page and below two, with both
/// pages successful and all their records normalising, asks for page 2 with the same query
/// after the pause, and ends with the records of page 1 followed by those of page 2 and the
/// balance of page 2.
pub proof fn two_page_search(
    q: Query,
    s0: Search,
    first: Step,
    r1: Response,
    s1: Search,
    st1: Step,
    r2: Response,
    s2: Search,
    st2: Step,
)
    requires
        Search::started(q, s0, first),
        Search::body_step(s0, r1, s1, st1),
        Search::body_step(s1, r2, s2, st2),
        r1.success,
        r2.success,
        PAGE_SIZE <= r1.total,
        r2.total < 2 * PAGE_SIZE,
        all_normalize(page_entries(r1)),
        all_normalize(page_entries(r2)),
    ensures
        is_fetch(first, 0, 1, render_query(q)),
        is_fetch(st1, PAGE_DELAY_MS, 2, render_query(q)),
        st2 matches Step::Finished(Ok(r)) && r.entries@ == normalized_all(page_entries(r1))
            + normalized_all(page_entries(r2)) && r.balance == r2.balance,
{
    assert(Seq::<SearchEntry>::empty() + normalized_all(page_entries(r1)) =~= normalized_all(
        page_entries(r1),
    ));
}

/// A reply with status 401, on whatever page, ends the search with `Unauthorized` alone:
/// the records of earlier pages are not returned.
pub proof fn unauthorized_ends_search(step: Option<Step>)
    requires
        status_step(401, step),
    ensures
        step == Some(Step::Finished(Err(DehashedError::Unauthorized))),
{
}

impl Search {
    pub closed spec fn query_text(&self) -> Seq<char> {
        self.query@
    }

    pub closed spec fn page(&self) -> nat {
        self.page as nat
    }

    pub closed spec fn collected(&self) -> Seq<SearchEntry> {
        self.entries@
    }

    pub closed spec fn balance(&self) -> nat {
        self.balance as nat
    }

    /// What a search `s` is at its start, with `first` as its first step.
    pub open spec fn started(q: Query, s: Search, first: Step) -> bool {
        &&& s.query_text() == render_query(q)
        &&& s.page() == 1
        &&& s.collected() == Seq::<SearchEntry>::empty()
        &&& s.balance() == 0
        &&& is_fetch(first, 0, 1, render_query(q))
    }

    /// How a decoded page moves the search from `s` to `t` with step `step`.
    pub open spec fn body_step(s: Search, res: Response, t: Search, step: Step) -> bool {
        let es = page_entries(res);
        if !res.success {
            step == Step::Finished(Err(DehashedError::Unknown))
        } else if !all_normalize(es) {
            step matches Step::Finished(Err(err)) && first_entry_error(es, err)
        } else {
            let entries = s.collected() + normalized_all(es);
            if last_page(res.total, s.page()) {
                step matches Step::Finished(Ok(r)) && r.entries@ == entries && r.balance
                    == res.balance
            } else {
                &&& t.query_text() == s.query_text()
                &&& t.page() == s.page() + 1
                &&& t.collected() == entries
                &&& t.balance() == res.balance
                &&& is_fetch(step, PAGE_DELAY_MS, s.page() + 1, s.query_text())
            }
        }
    }

    /// Starts a search for `query`: the query is rendered once, and page 1 is asked for
    /// at once.
    pub fn new(query: &Query) -> (r: (Search, Step))
        ensures
            Self::started(*query, r.0, r.1),
    {
        let text = query.to_string();
        let request = PageRequest { size: PAGE_SIZE, page: 1, query: text.clone() };
        let search = Search { query: text, page: 1, entries: Vec::new(), balance: 0 };
        (search, Step::Fetch { delay_ms: 0, request })
    }

    /// The step after the reply's status: with 200 there is none yet (`None`: read the
    /// body, decode it and hand it to `on_body`); 302, 400, 401 and any other status end the
    /// search with their error, dropping what earlier pages gave.
    pub fn on_status(&self, status: u16) -> (step: Option<Step>)
        ensures
            status_step(status, step),
    {
        if status == 200 {
            None
        } else if status == 302 {
            Some(Step::Finished(Err(DehashedError::InvalidQuery)))
        } else if status == 400 {
            Some(Step::Finished(Err(DehashedError::RateLimited)))
        } else if status == 401 {
            Some(Step::Finished(Err(DehashedError::Unauthorized)))
        } else {
            Some(Step::Finished(Err(DehashedError::Unknown)))
        }
    }

    /// The request or the reading of its body failed in transport: the search ends with
    /// that error.
    pub fn on_transport_error(&self, error: reqwest::Error) -> (step: Step)
        ensures
            step == Step::Finished(Err(DehashedError::ReqwestError(error))),
    {
        Step::Finished(Err(DehashedError::ReqwestError(error)))
    }

    /// The body of a reply with status 200 could not be decoded: the search ends with
    /// [DehashedError::Unknown].
    pub fn on_undecodable_body(&self) -> (step: Step)
        ensures
            step == Step::Finished(Err(DehashedError::Unknown)),
    {
        Step::Finished(Err(DehashedError::Unknown))
    }

    /// Takes in one decoded page: a page without success, or with a record that does not
    /// normalise, ends the search with an error; otherwise its records are added and the
    /// balance replaced, and the search ends if the reported total shows no further page,
    /// or else asks for the next page after the pause.
    pub fn on_body(&mut self, res: Response) -> (step: Step)
        ensures
            Self::body_step(*old(self), res, *final(self), step),
    {
        if !res.success {
            return Step::Finished(Err(DehashedError::Unknown));
        }
        let ghost es = page_entries(res);
        let ghost before = self.entries@;
        let page = self.page;
        let total = res.total;
        let balance = res.balance;
        match res.entries {
            Some(v) => {
                for e in it: v.into_iter()
                    invariant
                        it.seq() == es,
                        self.entries@ == before + normalized_all(es.take(it.index() as int)),
                        all_normalize(es.take(it.index() as int)),
                        self.page == page,
                        res.success,
                        es == page_entries(res),
                        self.query@ == old(self).query@,
                {
                    let ghost k = it.index();
                    match SearchEntry::try_from(e) {
                        Ok(se) => {
                            self.entries.push(se);
                            proof {
                                assert(es.take(k + 1) =~= es.take(k as int).push(e));
                                assert(normalized_all(es.take(k + 1)) =~= normalized_all(
                                    es.take(k as int),
                                ).push(normalized(e)));
                            }
                        },
                        Err(err) => {
                            proof {
                                assert(e == es[k as int]);
                                assert(!all_normalize(es)) by {
                                    assert(!normalizes(es[k as int]));
                                }
                                assert(first_entry_error(es, err)) by {
                                    assert(!normalizes(es[k as int]));
                                }
                            }
                            let step = Step::Finished(Err(err));
                            return step;
                        },
                    }
                }
                proof {
                    assert(es.take(es.len() as int) =~= es);
                }
            },
            None => {
                proof {
                    assert(normalized_all(es) =~= Seq::<SearchEntry>::empty());
                }
            },
        }
        self.balance = balance;
        if page > total / PAGE_SIZE {
            proof {
                assert(last_page(total, page as nat)) by (nonlinear_arith)
                    requires
                        page > total / PAGE_SIZE,
                        PAGE_SIZE == 10000,
                ;
            }
            let mut entries = Vec::new();
            std::mem::swap(&mut entries, &mut self.entries);
            return Step::Finished(Ok(SearchResult { entries, balance }));
        }
        proof {
            assert(!last_page(total, page as nat)) by (nonlinear_arith)
                requires
                    page <= total / PAGE_SIZE,
                    PAGE_SIZE == 10000,
            ;
        }
        self.page = self.page + 1;
        let request = PageRequest { size: PAGE_SIZE, page: self.page, query: self.query.clone() };
        Step::Fetch { delay_ms: PAGE_DELAY_MS, request }
    }
}

} // verus!

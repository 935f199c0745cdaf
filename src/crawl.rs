//! The pagination driver, as a state machine from events to actions.
//!
//! A crawl first lists page 0 to learn the total number of records, then
//! lists pages `0..=total / rows` in order; for each identifier of a page,
//! in the order listed, it fetches the record, has it written, and records
//! its index entry; after each page it sleeps. Once the last page is done the
//! index is flushed. Any failure ends the crawl at once, without a flush.

use crate::query::{detail_url, gen_jorei_url, gen_list_url, list_url};
use crate::record::{
    first_record, gen_jorei_data, gen_jorei_info, normalize_error, normalizes_to, summarizes,
    DecodeError, JoreiData, JoreiDocs, JoreiInfo,
};
use vstd::prelude::*;

verus! {

/// Why a crawl stopped early.
#[derive(Clone, Copy, Debug, PartialEq, Eq, Structural)]
pub enum CrawlError {
    /// A request could not be carried out.
    Transport,
    /// A response could not be decoded into what was asked for.
    Decode(DecodeError),
    /// A record file could not be written.
    Io,
    /// An event arrived that the current phase does not wait for.
    Unexpected,
}

/// Where a crawl stands.
#[derive(Clone, Copy, Debug, PartialEq, Eq, Structural)]
pub enum Phase {
    /// Waiting for the first listing, which gives the total count.
    Bootstrap,
    /// Waiting for the listing of the current page.
    Listing,
    /// Waiting for the detail of the current identifier.
    Fetching,
    /// Waiting for the current record to be written.
    Writing,
    /// Waiting for the pause after a page.
    Sleeping,
    /// Every page is done and the index has been handed out.
    Done,
    /// The crawl stopped on an error.
    Failed,
}

/// What the caller reports back after carrying out an action.
#[derive(Debug)]
pub enum Event {
    /// A listing arrived: the total count of the query and the identifiers
    /// of the page, in the order returned.
    ListFetched { total: usize, ids: Vec<String> },
    /// A detail response arrived, with the records it lists.
    DetailFetched(Vec<JoreiDocs>),
    /// The record file was written.
    Written,
    /// The pause is over.
    Slept,
    /// Carrying out the last action failed.
    Failed(CrawlError),
}

/// What the caller is to do next.
#[derive(Debug)]
pub enum Action {
    /// Fetch a listing from this URL.
    FetchList(String),
    /// Fetch a record's detail from this URL.
    FetchDetail(String),
    /// Write the record to the file named by `id`.
    WriteRecord { id: String, record: JoreiData },
    /// Pause for this many milliseconds.
    Sleep(u64),
    /// Write out the index entries the crawler holds; the crawl is complete.
    Flush,
    /// Stop the crawl on this error, without a flush.
    Abort(CrawlError),
    /// Nothing more to do: the crawl had already ended.
    Halt,
}

/// The number of the last page visited for `total` records listed `rows` to
/// a page. Pages `0..=last_page(total, rows)` are visited, the last one
/// possibly empty.
pub open spec fn last_page(total: nat, rows: nat) -> nat {
    total / rows
}

/// The pages `0..=n`, in order.
pub open spec fn pages_through(n: nat) -> Seq<usize> {
    Seq::new(n + 1, |i: int| i as usize)
}

/// `a` is a listing request at `url`.
pub open spec fn fetches_list(a: Action, url: Seq<char>) -> bool {
    match a {
        Action::FetchList(u) => u@ == url,
        _ => false,
    }
}

/// `a` is a detail request at `url`.
pub open spec fn fetches_detail(a: Action, url: Seq<char>) -> bool {
    match a {
        Action::FetchDetail(u) => u@ == url,
        _ => false,
    }
}

/// The state of a crawl.
pub struct Crawler {
    /// Lower bound of the announcement years, if any.
    pub start: Option<usize>,
    /// Upper bound of the announcement years, if any.
    pub end: Option<usize>,
    /// Records per page; never zero.
    pub rows: usize,
    /// Pause after each page, in milliseconds.
    pub sleep_ms: u64,
    pub phase: Phase,
    /// Total count of the query, once known.
    pub total: usize,
    /// The last page to visit, once the total is known.
    pub last_page: usize,
    /// The page being visited.
    pub page: usize,
    /// The identifiers of the current page, in the order listed.
    pub ids: Vec<String>,
    /// The position in `ids` of the record being fetched or written.
    pub next: usize,
    /// The index entry of the record being written.
    pub pending: Option<JoreiInfo>,
    /// The index entries of the records written so far, in order.
    pub index: Vec<JoreiInfo>,
    /// The pages whose listing has been requested, in order.
    pub visited: Ghost<Seq<usize>>,
    /// The identifiers of the pages listed before the current one, in order.
    pub listed: Ghost<Seq<String>>,
    /// The identifiers whose records have been written, in order.
    pub written: Ghost<Seq<String>>,
    /// The records written, in order.
    pub records: Ghost<Seq<JoreiData>>,
    /// The record being written.
    pub writing: Ghost<Option<JoreiData>>,
}

impl Crawler {
    /// The phase ends the crawl.
    pub open spec fn finished(&self) -> bool {
        self.phase is Done || self.phase is Failed
    }

    /// The state is one that a crawl can reach.
    pub open spec fn wf(&self) -> bool {
        &&& self.rows > 0
        &&& self.page <= self.last_page
        &&& !(self.phase is Bootstrap || self.phase is Failed) ==> {
            &&& self.last_page == last_page(self.total as nat, self.rows as nat)
            &&& self.visited@ == pages_through(self.page as nat)
        }
        &&& self.phase is Bootstrap ==> self.visited@.len() == 0 && self.page == 0
            && self.index@.len() == 0
        &&& self.phase is Done ==> self.page == self.last_page
        &&& (self.phase is Fetching || self.phase is Writing) ==> self.next < self.ids@.len()
        &&& self.phase is Writing ==> self.pending is Some && self.writing@ is Some
            && summarizes(self.writing@->0, self.pending->0)
        &&& self.written@.len() == self.records@.len()
        &&& self.index@.len() == self.records@.len()
        &&& forall|i: int| 0 <= i < self.index@.len() ==> summarizes(
            #[trigger] self.records@[i],
            self.index@[i],
        )
        &&& (self.phase is Bootstrap || self.phase is Listing || self.phase is Done)
            ==> self.written@ == self.listed@
        &&& (self.phase is Fetching || self.phase is Writing) ==> self.written@ == self.listed@
            + self.ids@.take(self.next as int)
        &&& self.phase is Sleeping ==> self.written@ == self.listed@ + self.ids@
    }

    /// Starts a crawl of the records announced between the years `start` and
    /// `end`, `rows` to a page, pausing `sleep_ms` milliseconds after each
    /// page. The first action lists page 0 to learn the total count.
    pub fn new(start: Option<usize>, end: Option<usize>, rows: usize, sleep_ms: u64) -> (r: (
        Crawler,
        Action,
    ))
        requires
            rows > 0,
        ensures
            r.0.wf(),
            r.0.phase is Bootstrap,
            r.0.start == start && r.0.end == end && r.0.rows == rows && r.0.sleep_ms == sleep_ms,
            r.0.index@.len() == 0,
            fetches_list(r.1, list_url(start, end, 0, rows as nat)),
    {
        let url = gen_list_url(start, end, 0, rows);
        let c = Crawler {
            start,
            end,
            rows,
            sleep_ms,
            phase: Phase::Bootstrap,
            total: 0,
            last_page: 0,
            page: 0,
            ids: Vec::new(),
            next: 0,
            pending: None,
            index: Vec::new(),
            visited: Ghost(Seq::empty()),
            listed: Ghost(Seq::empty()),
            written: Ghost(Seq::empty()),
            records: Ghost(Seq::empty()),
            writing: Ghost(None),
        };
        (c, Action::FetchList(url))
    }

    /// Hands the listing of page `page` to the caller.
    fn list_page(&self, page: usize) -> (r: Action)
        requires
            self.rows > 0,
            page <= last_page(self.total as nat, self.rows as nat),
        ensures
            fetches_list(r, list_url(self.start, self.end, page as nat, self.rows as nat)),
    {
        proof {
            let t = self.total as int;
            let w = self.rows as int;
            let p = page as int;
            assert(p * w <= t) by (nonlinear_arith)
                requires
                    w > 0,
                    0 <= p <= t / w,
            ;
        }
        Action::FetchList(gen_list_url(self.start, self.end, page, self.rows))
    }

    /// Advances the crawl by one event and returns the next action.
    pub fn step(&mut self, ev: Event) -> (a: Action)
        requires
            old(self).wf(),
        ensures
            final(self).wf(),
            final(self).start == old(self).start,
            final(self).end == old(self).end,
            final(self).rows == old(self).rows,
            final(self).sleep_ms == old(self).sleep_ms,
            // once ended, a crawl stays as it is
            old(self).finished() ==> *final(self) == *old(self) && a is Halt,
            // a failure reported by the caller ends the crawl
            !old(self).finished() ==> (ev matches Event::Failed(e) ==> final(self).phase is Failed
                && a == Action::Abort(e)),
            // the total and the last page are fixed once known
            !(old(self).phase is Bootstrap) ==> final(self).total == old(self).total
                && final(self).last_page == old(self).last_page,
            // the page moves only after a pause
            !(old(self).phase is Bootstrap) && !(old(self).phase is Sleeping && ev is Slept)
                ==> final(self).page == old(self).page,
            // a page's identifiers join the listed ones once the page is done
            !(old(self).phase is Sleeping && ev is Slept) ==> final(self).listed == old(self).listed,
            // the index grows only when a record has been written
            !(old(self).phase is Writing && ev is Written) ==> final(self).index == old(self).index,
            // the first listing gives the total and starts the pages at 0
            old(self).phase is Bootstrap ==> (ev matches Event::ListFetched { total, ids } ==> {
                &&& final(self).phase is Listing
                &&& final(self).total == total
                &&& final(self).last_page == last_page(total as nat, old(self).rows as nat)
                &&& final(self).page == 0
                &&& fetches_list(a, list_url(old(self).start, old(self).end, 0, old(self).rows as nat))
            }),
            // a page's listing starts its identifiers, or the pause if none
            old(self).phase is Listing ==> (ev matches Event::ListFetched { total, ids } ==> {
                &&& final(self).ids == ids
                &&& final(self).next == 0
                &&& final(self).page == old(self).page
                &&& ids@.len() == 0 ==> final(self).phase is Sleeping && a == Action::Sleep(old(self).sleep_ms)
                &&& ids@.len() > 0 ==> final(self).phase is Fetching && fetches_detail(a, detail_url(ids@[0]@))
            }),
            // a detail response is decoded and its record handed out to be written
            old(self).phase is Fetching ==> (ev matches Event::DetailFetched(docs) ==> {
                &&& docs@.len() == 0 ==> final(self).phase is Failed
                    && a == Action::Abort(CrawlError::Decode(DecodeError::NoRecord))
                &&& docs@.len() > 0 && normalize_error(docs@[0]) is Some ==> final(self).phase is Failed
                    && a == Action::Abort(CrawlError::Decode(normalize_error(docs@[0])->0))
                &&& docs@.len() > 0 && normalize_error(docs@[0]) is None ==> {
                    &&& final(self).phase is Writing
                    &&& final(self).ids == old(self).ids
                    &&& final(self).next == old(self).next
                    &&& final(self).page == old(self).page
                    &&& a matches Action::WriteRecord { id, record } && (id == old(self).ids@[old(self).next as int]
                        && normalizes_to(docs@[0], record)
                        && final(self).writing@ == Some(record)
                        && summarizes(record, final(self).pending->0))
                }
            }),
            // a written record adds its entry, then the next identifier or the pause follows
            old(self).phase is Writing && ev is Written ==> {
                &&& final(self).index@ == old(self).index@.push(old(self).pending->0)
                &&& final(self).written@ == old(self).written@.push(old(self).ids@[old(self).next as int])
                &&& final(self).records@ == old(self).records@.push(old(self).writing@->0)
                &&& final(self).ids == old(self).ids
                &&& final(self).next == old(self).next + 1
                &&& final(self).page == old(self).page
                &&& final(self).next < old(self).ids@.len() ==> final(self).phase is Fetching
                    && fetches_detail(a, detail_url(old(self).ids@[final(self).next as int]@))
                &&& final(self).next == old(self).ids@.len() ==> final(self).phase is Sleeping
                    && a == Action::Sleep(old(self).sleep_ms)
            },
            // after the pause comes the next page, or the flush after the last one
            old(self).phase is Sleeping && ev is Slept ==> {
                &&& final(self).listed@ == old(self).listed@ + old(self).ids@
                &&& old(self).page < old(self).last_page ==> final(self).phase is Listing
                    && final(self).page == old(self).page + 1
                    && fetches_list(a, list_url(old(self).start, old(self).end, (old(self).page + 1) as nat, old(self).rows as nat))
                &&& old(self).page == old(self).last_page ==> final(self).phase is Done && a is Flush
            },
            // an event the phase does not wait for ends the crawl
            !old(self).finished() && !(ev is Failed) && !(
                (old(self).phase is Bootstrap && ev is ListFetched)
                || (old(self).phase is Listing && ev is ListFetched)
                || (old(self).phase is Fetching && ev is DetailFetched)
                || (old(self).phase is Writing && ev is Written)
                || (old(self).phase is Sleeping && ev is Slept)
            ) ==> final(self).phase is Failed && a == Action::Abort(CrawlError::Unexpected),
    {
        if self.finished_exec() {
            return Action::Halt;
        }
        match ev {
            Event::Failed(e) => {
                self.phase = Phase::Failed;
                Action::Abort(e)
            },
            Event::ListFetched { total, ids } => {
                match self.phase {
                    Phase::Bootstrap => {
                        self.total = total;
                        self.last_page = total / self.rows;
                        self.page = 0;
                        self.phase = Phase::Listing;
                        self.visited = Ghost(pages_through(0));
                        self.list_page(0)
                    },
                    Phase::Listing => {
                        self.ids = ids;
                        self.next = 0;
                        proof {
                            assert(self.listed@ + self.ids@.take(0) =~= self.listed@);
                            if self.ids@.len() == 0 {
                                assert(self.listed@ + self.ids@ =~= self.listed@);
                            }
                        }
                        if self.ids.len() == 0 {
                            self.phase = Phase::Sleeping;
                            Action::Sleep(self.sleep_ms)
                        } else {
                            self.phase = Phase::Fetching;
                            Action::FetchDetail(gen_jorei_url(self.ids[0].as_str()))
                        }
                    },
                    _ => {
                        self.phase = Phase::Failed;
                        Action::Abort(CrawlError::Unexpected)
                    },
                }
            },
            Event::DetailFetched(docs) => {
                if !matches!(self.phase, Phase::Fetching) {
                    self.phase = Phase::Failed;
                    return Action::Abort(CrawlError::Unexpected);
                }
                let raw = match first_record(docs) {
                    Ok(d) => d,
                    Err(e) => {
                        self.phase = Phase::Failed;
                        return Action::Abort(CrawlError::Decode(e));
                    },
                };
                match gen_jorei_data(raw) {
                    Ok(record) => {
                        self.pending = Some(gen_jorei_info(&record));
                        self.writing = Ghost(Some(record));
                        self.phase = Phase::Writing;
                        let id = self.ids[self.next].clone();
                        Action::WriteRecord { id, record }
                    },
                    Err(e) => {
                        self.phase = Phase::Failed;
                        Action::Abort(CrawlError::Decode(e))
                    },
                }
            },
            Event::Written => {
                if !matches!(self.phase, Phase::Writing) {
                    self.phase = Phase::Failed;
                    return Action::Abort(CrawlError::Unexpected);
                }
                let n_ids = self.ids.len();
                let mut entry: Option<JoreiInfo> = None;
                std::mem::swap(&mut entry, &mut self.pending);
                match entry {
                    Some(e) => self.index.push(e),
                    None => {},
                }
                self.written = Ghost(self.written@.push(self.ids@[self.next as int]));
                self.records = Ghost(self.records@.push(self.writing@->0));
                proof {
                    assert(self.ids@.take(self.next + 1) =~= self.ids@.take(self.next as int).push(
                        self.ids@[self.next as int],
                    ));
                    if self.next + 1 == self.ids@.len() {
                        assert(self.ids@.take(self.next + 1) =~= self.ids@);
                    }
                    assert forall|i: int| 0 <= i < self.index@.len() implies summarizes(
                        #[trigger] self.records@[i],
                        self.index@[i],
                    ) by {
                        if i < self.index@.len() - 1 {
                            assert(self.records@[i] == old(self).records@[i]);
                            assert(self.index@[i] == old(self).index@[i]);
                        }
                    }
                }
                self.next = self.next + 1;
                if self.next < n_ids {
                    self.phase = Phase::Fetching;
                    Action::FetchDetail(gen_jorei_url(self.ids[self.next].as_str()))
                } else {
                    self.phase = Phase::Sleeping;
                    Action::Sleep(self.sleep_ms)
                }
            },
            Event::Slept => {
                if !matches!(self.phase, Phase::Sleeping) {
                    self.phase = Phase::Failed;
                    return Action::Abort(CrawlError::Unexpected);
                }
                self.listed = Ghost(self.listed@ + self.ids@);
                if self.page < self.last_page {
                    self.page = self.page + 1;
                    self.phase = Phase::Listing;
                    self.visited = Ghost(self.visited@.push(self.page));
                    proof {
                        assert(self.visited@ =~= pages_through(self.page as nat));
                    }
                    self.list_page(self.page)
                } else {
                    self.phase = Phase::Done;
                    Action::Flush
                }
            },
        }
    }

    fn finished_exec(&self) -> (r: bool)
        ensures
            r == self.finished(),
    {
        matches!(self.phase, Phase::Done | Phase::Failed)
    }
}

/// A crawl that has completed visited exactly the pages `0..=total / rows`,
/// in order, the last one possibly empty.
pub proof fn lemma_completed_crawl_visits_all_pages(c: Crawler)
    requires
        c.wf(),
        c.phase is Done,
    ensures
        c.last_page == last_page(c.total as nat, c.rows as nat),
        c.visited@ == pages_through(c.total as nat / c.rows as nat),
        c.visited@.len() == c.total / c.rows + 1,
{
}

/// A crawl that has completed wrote one record for each identifier listed,
/// in the order listed page by page, and its index holds one entry for each
/// record written, in the same order.
pub proof fn lemma_completed_crawl_indexes_in_listed_order(c: Crawler)
    requires
        c.wf(),
        c.phase is Done,
    ensures
        c.written@ == c.listed@,
        c.records@.len() == c.listed@.len(),
        c.index@.len() == c.listed@.len(),
        forall|i: int| 0 <= i < c.index@.len() ==> summarizes(#[trigger] c.records@[i], c.index@[i]),
{
}

} // verus!

//! Collecting the results of a session and the status of each URL.
use vstd::prelude::*;
use crate::assoc::{assoc_get, assoc_insert, assoc_view, keys_unique, lemma_assoc_len, lemma_key_index};
use crate::session::manager::CrawlResultData;

verus! {

/// Where a URL stands in the session.
#[derive(Debug, Clone)]
pub enum ResultStatus {
    Pending,
    InProgress,
    Completed,
    Failed(String),
}

/// Abstract form of a status.
pub enum ResultStatusView {
    Pending,
    InProgress,
    Completed,
    Failed(Seq<char>),
}

impl View for ResultStatus {
    type V = ResultStatusView;

    open spec fn view(&self) -> ResultStatusView {
        match self {
            ResultStatus::Pending => ResultStatusView::Pending,
            ResultStatus::InProgress => ResultStatusView::InProgress,
            ResultStatus::Completed => ResultStatusView::Completed,
            ResultStatus::Failed(m) => ResultStatusView::Failed(m@),
        }
    }
}

/// Number of URLs in each status.
#[derive(Debug, Clone, Copy, PartialEq, Eq, Structural)]
pub struct StatusCounts {
    pub pending: usize,
    pub in_progress: usize,
    pub completed: usize,
    pub failed: usize,
}

impl StatusCounts {
    /// All URLs counted.
    pub fn total(&self) -> (r: usize)
        requires
            self.pending + self.in_progress + self.completed + self.failed <= usize::MAX,
        ensures
            r == self.pending + self.in_progress + self.completed + self.failed,
    {
        self.pending + self.in_progress + self.completed + self.failed
    }
}

/// Results gathered so far and the latest status of each URL.
pub struct ResultCollector {
    results: Vec<CrawlResultData>,
    url_status: Vec<(String, ResultStatus)>,
}

/// Abstract content of a collector.
pub struct ResultCollectorView {
    pub results_len: nat,
    pub url_status: Map<Seq<char>, ResultStatus>,
}

impl View for ResultCollector {
    type V = ResultCollectorView;

    closed spec fn view(&self) -> ResultCollectorView {
        ResultCollectorView { results_len: self.results@.len(), url_status: assoc_view(self.url_status@) }
    }
}

/// Counts statuses in a list.
pub open spec fn counts_of(s: Seq<ResultStatus>) -> StatusCounts
    decreases s.len(),
{
    if s.len() == 0 {
        StatusCounts { pending: 0, in_progress: 0, completed: 0, failed: 0 }
    } else {
        let c = counts_of(s.drop_last());
        match s.last() {
            ResultStatus::Pending => StatusCounts { pending: (c.pending + 1) as usize, ..c },
            ResultStatus::InProgress => StatusCounts { in_progress: (c.in_progress + 1) as usize, ..c },
            ResultStatus::Completed => StatusCounts { completed: (c.completed + 1) as usize, ..c },
            ResultStatus::Failed(_) => StatusCounts { failed: (c.failed + 1) as usize, ..c },
        }
    }
}

proof fn lemma_counts_sum(s: Seq<ResultStatus>)
    requires
        s.len() <= usize::MAX,
    ensures
        counts_of(s).pending + counts_of(s).in_progress + counts_of(s).completed + counts_of(s).failed == s.len(),
    decreases s.len(),
{
    if s.len() > 0 {
        lemma_counts_sum(s.drop_last());
    }
}

/// The status a result gives its URL: completed when it has content,
/// failed (with its error text, or empty) otherwise.
pub open spec fn status_of_result(r: CrawlResultData) -> ResultStatusView {
    if r.content is Some {
        ResultStatusView::Completed
    } else {
        ResultStatusView::Failed(match r.error {
            Some(e) => e@,
            None => Seq::empty(),
        })
    }
}

impl ResultCollector {
    pub closed spec fn wf(&self) -> bool {
        keys_unique(self.url_status@)
    }

    /// The statuses, one per URL.
    pub closed spec fn statuses(&self) -> Seq<ResultStatus> {
        self.url_status@.map_values(|e: (String, ResultStatus)| e.1)
    }

    /// An empty collector.
    pub fn new() -> (r: Self)
        ensures
            r.wf(),
            r@.results_len == 0,
            r@.url_status == Map::<Seq<char>, ResultStatus>::empty(),
    {
        let r = ResultCollector { results: Vec::new(), url_status: Vec::new() };
        proof {
            assert(assoc_view(r.url_status@) =~= Map::<Seq<char>, ResultStatus>::empty());
        }
        r
    }

    /// The URL is now being processed.
    pub fn mark_in_progress(&mut self, url: &str)
        requires
            old(self).wf(),
        ensures
            final(self).wf(),
            final(self)@.url_status == old(self)@.url_status.insert(url@, ResultStatus::InProgress),
            final(self)@.results_len == old(self)@.results_len,
    {
        assoc_insert(&mut self.url_status, url.to_string(), ResultStatus::InProgress);
    }

    /// Keeps a result and sets its URL's status (see `status_of_result`).
    pub fn add_result(&mut self, result: CrawlResultData)
        requires
            old(self).wf(),
        ensures
            final(self).wf(),
            final(self)@.url_status.dom() == old(self)@.url_status.dom().insert(result.url@),
            final(self)@.url_status[result.url@]@ == status_of_result(result),
            forall|k: Seq<char>| k != result.url@ && #[trigger] old(self)@.url_status.contains_key(k)
                ==> final(self)@.url_status[k] == old(self)@.url_status[k],
            final(self)@.results_len == old(self)@.results_len + 1,
    {
        let status = if result.content.is_some() {
            ResultStatus::Completed
        } else {
            match &result.error {
                Some(e) => ResultStatus::Failed(e.clone()),
                None => ResultStatus::Failed(String::new()),
            }
        };
        let ghost st = status;
        let key = result.url.clone();
        assoc_insert(&mut self.url_status, key, status);
        self.results.push(result);
        proof {
            assert(self@.url_status.dom() =~= old(self)@.url_status.dom().insert(result.url@));
            assert(self@.url_status[result.url@] == st);
        }
    }

    /// Number of results kept.
    pub fn results_len(&self) -> (r: usize)
        ensures
            r == self@.results_len,
    {
        self.results.len()
    }

    /// The results kept, in order.
    pub fn get_results(&self) -> (r: &[CrawlResultData])
        ensures
            r@.len() == self@.results_len,
    {
        self.results.as_slice()
    }

    /// The status of a URL, if known.
    pub fn get_url_status(&self, url: &str) -> (r: Option<&ResultStatus>)
        requires
            self.wf(),
        ensures
            match r {
                Some(s) => self@.url_status.contains_key(url@) && *s == self@.url_status[url@],
                None => !self@.url_status.contains_key(url@),
            },
    {
        assoc_get(&self.url_status, url)
    }

    /// Counts the URLs in each status; the counts add up to the number of
    /// URLs known.
    pub fn get_status_counts(&self) -> (r: StatusCounts)
        requires
            self.wf(),
        ensures
            r == counts_of(self.statuses()),
            r.pending + r.in_progress + r.completed + r.failed == self@.url_status.len(),
    {
        let ghost ss = self.statuses();
        let mut c = StatusCounts { pending: 0, in_progress: 0, completed: 0, failed: 0 };
        let mut i: usize = 0;
        proof {
            assert(ss.take(0) =~= Seq::<ResultStatus>::empty());
        }
        while i < self.url_status.len()
            invariant
                ss == self.statuses(),
                ss.len() == self.url_status@.len(),
                i <= ss.len(),
                c == counts_of(ss.take(i as int)),
            decreases ss.len() - i,
        {
            proof {
                assert(ss.take(i + 1).drop_last() =~= ss.take(i as int));
                assert(ss.take(i + 1).last() == self.url_status@[i as int].1);
                lemma_counts_sum(ss.take(i as int));
            }
            match &self.url_status[i].1 {
                ResultStatus::Pending => { c.pending = c.pending + 1; },
                ResultStatus::InProgress => { c.in_progress = c.in_progress + 1; },
                ResultStatus::Completed => { c.completed = c.completed + 1; },
                ResultStatus::Failed(_) => { c.failed = c.failed + 1; },
            }
            i = i + 1;
        }
        proof {
            assert(ss.take(ss.len() as int) =~= ss);
            lemma_counts_sum(ss);
            lemma_assoc_len(self.url_status@);
        }
        c
    }
}

} // verus!

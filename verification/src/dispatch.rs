use crate::metrics::{aggregate, sum_counter, Counter, RequestMetrics};
use vstd::prelude::*;

verus! {

/// One request of a chunk, paired with the provider that serves it.
/// Both are positions: in the request list and in the provider list.
#[derive(Clone, Copy, Debug, PartialEq, Eq, Structural)]
pub struct Assignment {
    pub request: usize,
    pub provider: usize,
}

/// What the caller is told after each chunk.
#[derive(Clone, Copy, Debug, PartialEq, Eq, Structural)]
pub struct Progress {
    pub completed: usize,
    pub total: usize,
    pub batch_prompt_tokens: u128,
    pub batch_completion_tokens: u128,
    pub batch_request_bytes: u128,
    pub batch_response_bytes: u128,
    pub concurrency_width: usize,
}

/// The mathematical state of one batch run.
pub struct DispatchState {
    pub provider_count: nat,
    pub total: nat,
    pub width: nat,
    /// Requests handed out so far.
    pub dispatched: nat,
    /// Size of the chunk that is out and not yet reported; 0 if none is.
    pub in_flight: nat,
    /// Requests that came back with metrics.
    pub completed: nat,
    /// Requests whose provider call failed.
    pub dropped: nat,
    /// Progress reports made so far, one per finished chunk.
    pub reports: nat,
    pub results: Seq<RequestMetrics>,
}

pub open spec fn min_nat(a: nat, b: nat) -> nat {
    if a <= b {
        a
    } else {
        b
    }
}

/// The number of chunks of `width` that cover `total` requests,
/// the last one possibly shorter.
pub open spec fn chunk_count(total: nat, width: nat) -> nat
    recommends
        width > 0,
{
    if total % width == 0 {
        total / width
    } else {
        total / width + 1
    }
}

impl DispatchState {
    pub open spec fn initial(provider_count: nat, total: nat, width: nat) -> Self {
        DispatchState {
            provider_count,
            total,
            width,
            dispatched: 0,
            in_flight: 0,
            completed: 0,
            dropped: 0,
            reports: 0,
            results: Seq::empty(),
        }
    }

    pub open spec fn valid(self) -> bool {
        &&& self.provider_count >= 1
        &&& self.width >= 1
        &&& self.provider_count <= usize::MAX
        &&& self.width <= usize::MAX
        &&& self.total <= usize::MAX
        &&& self.dispatched <= self.total
        &&& self.completed + self.dropped + self.in_flight == self.dispatched
        &&& self.results.len() == self.completed
        &&& self.dispatched - self.in_flight == min_nat(self.reports * self.width, self.total)
        &&& (self.in_flight > 0 ==> self.reports * self.width < self.total && self.dispatched
            == min_nat(self.reports * self.width + self.width, self.total))
        &&& (self.reports > 0 ==> (self.reports - 1) * self.width < self.total)
        &&& forall|i: int| 0 <= i < self.results.len() ==> (#[trigger] self.results[i]).consistent()
    }

    /// Every request was handed out and every chunk was reported.
    pub open spec fn finished(self) -> bool {
        self.in_flight == 0 && self.dispatched == self.total
    }

    /// Size of the chunk that may be handed out now.
    pub open spec fn next_len(self) -> nat {
        if self.in_flight == 0 {
            min_nat(self.width, (self.total - self.dispatched) as nat)
        } else {
            0
        }
    }

    /// The chunk that may be handed out now: consecutive requests, each
    /// with the provider at its own position modulo the provider count.
    pub open spec fn next_assignments(self) -> Seq<Assignment> {
        Seq::new(
            self.next_len(),
            |k: int|
                Assignment {
                    request: (self.dispatched + k) as usize,
                    provider: ((self.dispatched + k) % (self.provider_count as int)) as usize,
                },
        )
    }

    pub open spec fn after_dispatch(self) -> Self {
        DispatchState {
            dispatched: self.dispatched + self.next_len(),
            in_flight: self.in_flight + self.next_len(),
            ..self
        }
    }

    /// A chunk is out, and no more results come back than it has requests.
    pub open spec fn accepts(self, successes: nat) -> bool {
        self.in_flight > 0 && successes <= self.in_flight
    }

    pub open spec fn after_complete(self, outcomes: Seq<RequestMetrics>) -> Self {
        DispatchState {
            in_flight: 0,
            completed: self.completed + outcomes.len(),
            dropped: (self.dropped + self.in_flight - outcomes.len()) as nat,
            reports: self.reports + 1,
            results: self.results + outcomes,
            ..self
        }
    }

    pub open spec fn progress_of(self, outcomes: Seq<RequestMetrics>) -> Progress {
        Progress {
            completed: (self.completed + outcomes.len()) as usize,
            total: self.total as usize,
            batch_prompt_tokens: sum_counter(outcomes, Counter::PromptTokens) as u128,
            batch_completion_tokens: sum_counter(outcomes, Counter::CompletionTokens) as u128,
            batch_request_bytes: sum_counter(outcomes, Counter::RequestBytes) as u128,
            batch_response_bytes: sum_counter(outcomes, Counter::ResponseBytes) as u128,
            concurrency_width: self.width as usize,
        }
    }

    /// A run starts in a valid state.
    pub proof fn lemma_initial_valid(provider_count: nat, total: nat, width: nat)
        requires
            provider_count >= 1,
            width >= 1,
            provider_count <= usize::MAX,
            width <= usize::MAX,
            total <= usize::MAX,
        ensures
            Self::initial(provider_count, total, width).valid(),
    {
        assert(0 * width == 0) by (nonlinear_arith);
    }

    /// Handing out a chunk keeps the state valid, and the chunk is
    /// non-empty exactly when none is out and requests remain.
    pub proof fn lemma_dispatch_valid(self)
        requires
            self.valid(),
        ensures
            self.after_dispatch().valid(),
            self.next_len() <= self.width,
            self.dispatched + self.next_len() <= self.total,
            self.next_len() > 0 <==> (self.in_flight == 0 && self.dispatched < self.total),
    {
    }

    /// Reporting a chunk keeps the state valid.
    pub proof fn lemma_complete_valid(self, outcomes: Seq<RequestMetrics>)
        requires
            self.valid(),
            self.accepts(outcomes.len()),
            forall|i: int| 0 <= i < outcomes.len() ==> (#[trigger] outcomes[i]).consistent(),
        ensures
            self.after_complete(outcomes).valid(),
            self.reports < self.total,
    {
        let r = self.reports;
        let w = self.width;
        assert(r * w + w == (r + 1) * w) by (nonlinear_arith);
        assert(r <= r * w) by (nonlinear_arith)
            requires
                w >= 1,
        ;
        let next = self.after_complete(outcomes);
        assert((next.reports - 1) * w == r * w);
    }

    /// Round-robin: the request at position `i` of the whole run goes to
    /// the provider at position `i` modulo the provider count, wherever
    /// the chunk boundaries fall.
    pub proof fn lemma_round_robin(self, k: int)
        requires
            self.valid(),
            0 <= k < self.next_len(),
        ensures
            self.next_assignments()[k].request == self.dispatched + k,
            self.next_assignments()[k].request < self.total,
            self.next_assignments()[k].provider == (self.dispatched + k) % (
            self.provider_count as int),
            self.next_assignments()[k].provider < self.provider_count,
            self.next_assignments()[k].provider as int == self.next_assignments()[k].request as int
                % (self.provider_count as int),
    {
        let n = self.provider_count as int;
        let i = self.dispatched + k;
        vstd::arithmetic::div_mod::lemma_mod_bound(i, n);
        vstd::arithmetic::div_mod::lemma_mod_decreases(i as nat, n as nat);
    }

    /// Chunking: when the run has finished, one report was made for each
    /// chunk, and their number is the request count divided by the width,
    /// rounded up.
    pub proof fn lemma_report_count(self)
        requires
            self.valid(),
            self.finished(),
        ensures
            self.reports == chunk_count(self.total, self.width),
    {
        let r = self.reports as int;
        let w = self.width as int;
        let m = self.total as int;
        let q = m / w;
        let rem = m % w;
        vstd::arithmetic::div_mod::lemma_fundamental_div_mod(m, w);
        vstd::arithmetic::div_mod::lemma_mod_bound(m, w);
        assert(m == w * q + rem);
        assert(r * w >= m);
        assert(r >= q) by (nonlinear_arith)
            requires
                r * w >= w * q + rem,
                rem >= 0,
                w >= 1,
        ;
        if rem == 0 {
            assert(r <= q) by (nonlinear_arith)
                requires
                    r > 0 ==> (r - 1) * w < w * q,
                    w >= 1,
                    q >= 0,
            ;
        } else {
            assert(r > q) by (nonlinear_arith)
                requires
                    r * w >= w * q + rem,
                    rem > 0,
                    w >= 1,
            ;
            assert(r <= q + 1) by (nonlinear_arith)
                requires
                    r > 0 ==> (r - 1) * w < w * q + rem,
                    rem < w,
                    w >= 1,
                    q >= 0,
            ;
        }
    }

    /// There are never more reports than chunks, and once every chunk
    /// was reported the run has finished: a run that hands out a chunk
    /// and reports it, in turn, ends after exactly that many reports.
    pub proof fn lemma_report_bound(self)
        requires
            self.valid(),
        ensures
            self.reports <= chunk_count(self.total, self.width),
            self.in_flight > 0 ==> self.reports < chunk_count(self.total, self.width),
            self.in_flight == 0 && self.reports == chunk_count(self.total, self.width)
                ==> self.finished(),
    {
        let r = self.reports as int;
        let w = self.width as int;
        let m = self.total as int;
        let q = m / w;
        let rem = m % w;
        vstd::arithmetic::div_mod::lemma_fundamental_div_mod(m, w);
        vstd::arithmetic::div_mod::lemma_mod_bound(m, w);
        assert(q >= 0) by (nonlinear_arith)
            requires
                m == w * q + rem,
                m >= 0,
                rem < w,
                w >= 1,
        ;
        if r > 0 {
            assert(r - 1 <= q) by (nonlinear_arith)
                requires
                    (r - 1) * w < w * q + rem,
                    rem < w,
                    w >= 1,
            ;
            if rem == 0 {
                assert(r - 1 < q) by (nonlinear_arith)
                    requires
                        (r - 1) * w < w * q,
                        w >= 1,
                ;
            }
        }
        if self.in_flight > 0 {
            assert(r <= q) by (nonlinear_arith)
                requires
                    r * w < w * q + rem,
                    rem < w,
                    w >= 1,
            ;
            if rem == 0 {
                assert(r < q) by (nonlinear_arith)
                    requires
                        r * w < w * q,
                        w >= 1,
                ;
            }
        }
        if self.in_flight == 0 && r == chunk_count(self.total, self.width) {
            assert(r * w >= m) by (nonlinear_arith)
                requires
                    m == w * q + rem,
                    rem < w,
                    rem == 0 ==> r == q,
                    rem != 0 ==> r == q + 1,
                    w >= 1,
            ;
        }
    }

    /// When the run has finished, every request either came back with
    /// metrics or was dropped; with no failure there is one result each.
    pub proof fn lemma_finished_counts(self)
        requires
            self.valid(),
            self.finished(),
        ensures
            self.completed + self.dropped == self.total,
            self.results.len() == self.completed,
            self.dropped == 0 ==> self.results.len() == self.total,
    {
    }

    /// Every result that the run holds has a total that is the sum of its
    /// prompt and completion tokens.
    pub proof fn lemma_results_consistent(self, i: int)
        requires
            self.valid(),
            0 <= i < self.results.len(),
        ensures
            self.results[i].spec_total_tokens() == self.results[i].spec_prompt_tokens()
                + self.results[i].spec_completion_tokens(),
    {
        self.results[i].lemma_consistent();
    }

    /// Progress: a report never lowers the completed count, and the count
    /// never passes the number of requests.
    pub proof fn lemma_progress_monotone(self, outcomes: Seq<RequestMetrics>)
        requires
            self.valid(),
            self.accepts(outcomes.len()),
        ensures
            self.completed <= self.after_complete(outcomes).completed <= self.total,
            self.progress_of(outcomes).completed == self.after_complete(outcomes).completed,
            self.progress_of(outcomes).total == self.total,
    {
    }
    /// The state after the first chunks of a run: each chunk is handed
    /// out and then reported with the results that came back for it.
    pub open spec fn after_chunks(self, outcomes: Seq<Seq<RequestMetrics>>) -> Self
        decreases outcomes.len(),
    {
        if outcomes.len() == 0 {
            self
        } else {
            self.after_chunks(outcomes.drop_last()).after_dispatch().after_complete(
                outcomes.last(),
            )
        }
    }

    /// Each chunk of the run was there to report, and no more results
    /// came back for it than it had requests.
    pub open spec fn admits(self, outcomes: Seq<Seq<RequestMetrics>>) -> bool
        decreases outcomes.len(),
    {
        outcomes.len() == 0 || {
            &&& self.admits(outcomes.drop_last())
            &&& self.after_chunks(outcomes.drop_last()).after_dispatch().accepts(
                outcomes.last().len(),
            )
            &&& forall|i: int|
                0 <= i < outcomes.last().len() ==> (#[trigger] outcomes.last()[i]).consistent()
        }
    }

    /// A whole run: after any number of chunks the state is valid, one
    /// report was made per chunk, the completed count has not fallen and
    /// is within the request count, and the run has finished exactly
    /// when the number of reports is the request count divided by the
    /// width, rounded up.
    pub proof fn lemma_run(
        provider_count: nat,
        total: nat,
        width: nat,
        outcomes: Seq<Seq<RequestMetrics>>,
    )
        requires
            provider_count >= 1,
            width >= 1,
            provider_count <= usize::MAX,
            width <= usize::MAX,
            total <= usize::MAX,
            Self::initial(provider_count, total, width).admits(outcomes),
        ensures
            Self::initial(provider_count, total, width).after_chunks(outcomes).valid(),
            Self::initial(provider_count, total, width).after_chunks(outcomes).in_flight == 0,
            Self::initial(provider_count, total, width).after_chunks(outcomes).total == total,
            Self::initial(provider_count, total, width).after_chunks(outcomes).width == width,
            Self::initial(provider_count, total, width).after_chunks(outcomes).reports
                == outcomes.len(),
            outcomes.len() <= chunk_count(total, width),
            Self::initial(provider_count, total, width).after_chunks(outcomes).finished() <==> (
            outcomes.len() == chunk_count(total, width)),
            Self::initial(provider_count, total, width).after_chunks(outcomes).completed <= total,
            outcomes.len() > 0 ==> Self::initial(provider_count, total, width).after_chunks(
                outcomes.drop_last(),
            ).completed <= Self::initial(provider_count, total, width).after_chunks(
                outcomes,
            ).completed,
        decreases outcomes.len(),
    {
        let start = Self::initial(provider_count, total, width);
        if outcomes.len() == 0 {
            Self::lemma_initial_valid(provider_count, total, width);
        } else {
            Self::lemma_run(provider_count, total, width, outcomes.drop_last());
            let before = start.after_chunks(outcomes.drop_last());
            before.lemma_dispatch_valid();
            before.after_dispatch().lemma_complete_valid(outcomes.last());
        }
        let end = start.after_chunks(outcomes);
        end.lemma_report_bound();
        if end.finished() {
            end.lemma_report_count();
        }
    }
}

/// Hands out chunks of requests with their providers, and takes back each
/// chunk's results before the next chunk goes out.
pub struct Dispatcher {
    provider_count: usize,
    total: usize,
    width: usize,
    dispatched: usize,
    in_flight: usize,
    completed: usize,
    dropped: usize,
    reports: usize,
    cursor: usize,
    results: Vec<RequestMetrics>,
}

impl View for Dispatcher {
    type V = DispatchState;

    closed spec fn view(&self) -> DispatchState {
        DispatchState {
            provider_count: self.provider_count as nat,
            total: self.total as nat,
            width: self.width as nat,
            dispatched: self.dispatched as nat,
            in_flight: self.in_flight as nat,
            completed: self.completed as nat,
            dropped: self.dropped as nat,
            reports: self.reports as nat,
            results: self.results@,
        }
    }
}

impl Dispatcher {
    /// The state is valid and the cursor stands at the provider of the
    /// next request to hand out.
    pub closed spec fn wf(&self) -> bool {
        &&& self@.valid()
        &&& self.cursor as int == (self.dispatched as int) % (self.provider_count as int)
    }

    pub proof fn lemma_wf_valid(&self)
        requires
            self.wf(),
        ensures
            self@.valid(),
    {
    }

    /// A dispatcher for `total` requests over `provider_count` providers,
    /// in chunks of `width`.
    pub fn new(provider_count: usize, total: usize, width: usize) -> (d: Self)
        requires
            provider_count >= 1,
            width >= 1,
        ensures
            d.wf(),
            d@ == DispatchState::initial(provider_count as nat, total as nat, width as nat),
    {
        proof {
            DispatchState::lemma_initial_valid(provider_count as nat, total as nat, width as nat);
        }
        Dispatcher {
            provider_count,
            total,
            width,
            dispatched: 0,
            in_flight: 0,
            completed: 0,
            dropped: 0,
            reports: 0,
            cursor: 0,
            results: Vec::new(),
        }
    }

    /// The next chunk: empty while a chunk is out, and when no request is
    /// left. Otherwise the next `width` requests in order (fewer at the
    /// end), each with the provider the cursor stands at.
    pub fn next_chunk(&mut self) -> (chunk: Vec<Assignment>)
        requires
            old(self).wf(),
        ensures
            final(self).wf(),
            chunk@ == old(self)@.next_assignments(),
            final(self)@ == old(self)@.after_dispatch(),
    {
        proof {
            self@.lemma_dispatch_valid();
        }
        let mut chunk: Vec<Assignment> = Vec::new();
        if self.in_flight > 0 {
            assert(chunk@ =~= self@.next_assignments());
            return chunk;
        }
        let providers: usize = self.provider_count;
        let start: usize = self.dispatched;
        let remaining: usize = self.total - start;
        let len: usize = if remaining < self.width {
            remaining
        } else {
            self.width
        };
        let mut cursor: usize = self.cursor;
        let mut k: usize = 0;
        while k < len
            invariant
                k <= len,
                providers >= 1,
                start + len <= usize::MAX,
                cursor as int == (start + k) % (providers as int),
                chunk@.len() == k,
                forall|j: int|
                    0 <= j < k ==> chunk@[j] == (Assignment {
                        request: (start + j) as usize,
                        provider: ((start + j) % (providers as int)) as usize,
                    }),
            decreases len - k,
        {
            chunk.push(Assignment { request: start + k, provider: cursor });
            proof {
                lemma_mod_succ(start + k, providers as int);
            }
            cursor = (cursor + 1) % providers;
            k = k + 1;
        }
        self.cursor = cursor;
        self.dispatched = start + len;
        self.in_flight = len;
        assert(chunk@ =~= old(self)@.next_assignments());
        chunk
    }

    /// Takes the successful results of the chunk that is out, in the order
    /// in which they completed, and makes the report for the caller. With
    /// no chunk out, or with more results than the chunk has requests,
    /// nothing changes and there is no report.
    pub fn complete_chunk(&mut self, outcomes: Vec<RequestMetrics>) -> (report: Option<Progress>)
        requires
            old(self).wf(),
        ensures
            final(self).wf(),
            old(self)@.accepts(outcomes@.len()) ==> report == Some(
                old(self)@.progress_of(outcomes@),
            ) && final(self)@ == old(self)@.after_complete(outcomes@),
            !old(self)@.accepts(outcomes@.len()) ==> report.is_none() && final(self)@ == old(
                self,
            )@,
    {
        if self.in_flight == 0 || outcomes.len() > self.in_flight {
            return None;
        }
        let totals = aggregate(&outcomes);
        let successes: usize = outcomes.len();
        proof {
            self@.lemma_complete_valid(outcomes@);
        }
        let mut arrived = outcomes;
        self.results.append(&mut arrived);
        self.completed = self.completed + successes;
        self.dropped = self.dropped + (self.in_flight - successes);
        self.in_flight = 0;
        self.reports = self.reports + 1;
        Some(
            Progress {
                completed: self.completed,
                total: self.total,
                batch_prompt_tokens: totals.prompt_tokens,
                batch_completion_tokens: totals.completion_tokens,
                batch_request_bytes: totals.request_bytes,
                batch_response_bytes: totals.response_bytes,
                concurrency_width: self.width,
            },
        )
    }

    /// Whether every request was handed out and every chunk reported.
    pub fn is_finished(&self) -> (b: bool)
        ensures
            b == self@.finished(),
    {
        self.in_flight == 0 && self.dispatched == self.total
    }

    pub fn completed(&self) -> (n: usize)
        ensures
            n == self@.completed,
    {
        self.completed
    }

    pub fn total(&self) -> (n: usize)
        ensures
            n == self@.total,
    {
        self.total
    }

    /// The number of requests dropped because their provider call failed.
    pub fn dropped(&self) -> (n: usize)
        ensures
            n == self@.dropped,
    {
        self.dropped
    }

    /// The number of progress reports made so far.
    pub fn reports(&self) -> (n: usize)
        ensures
            n == self@.reports,
    {
        self.reports
    }

    /// The accumulated results, grouped by chunk in chunk order.
    pub fn into_results(self) -> (results: Vec<RequestMetrics>)
        requires
            self.wf(),
        ensures
            results@ == self@.results,
            forall|i: int| 0 <= i < results@.len() ==> (#[trigger] results@[i]).consistent(),
            self@.finished() ==> results@.len() + self@.dropped == self@.total,
    {
        self.results
    }
}

/// Stepping a cyclic position follows the running index.
proof fn lemma_mod_succ(a: int, n: int)
    requires
        a >= 0,
        n >= 1,
    ensures
        ((a % n) + 1) % n == (a + 1) % n,
        0 <= a % n < n,
{
    vstd::arithmetic::div_mod::lemma_add_mod_noop(a, 1, n);
    vstd::arithmetic::div_mod::lemma_mod_bound(a, n);
    if n == 1 {
        assert((a % n) + 1 == 1);
    } else {
        vstd::arithmetic::div_mod::lemma_small_mod(1, n as nat);
    }
}

} // verus!

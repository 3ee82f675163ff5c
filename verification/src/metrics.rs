use vstd::prelude::*;

verus! {

/// One turn of a conversation.
#[derive(Clone, Debug)]
pub struct Message {
    pub role: String,
    pub content: String,
}

/// Usage of one completed request. The total is always the sum of the
/// prompt and completion counts; the fields are fixed at construction.
#[derive(Debug)]
pub struct RequestMetrics {
    prompt_tokens: usize,
    completion_tokens: usize,
    total_tokens: usize,
    request_bytes: usize,
    response_bytes: usize,
    provider_name: String,
}

/// The four quantities of a request that are summed per chunk.
pub enum Counter {
    PromptTokens,
    CompletionTokens,
    RequestBytes,
    ResponseBytes,
}

impl RequestMetrics {
    #[verifier::type_invariant]
    pub closed spec fn consistent(self) -> bool {
        self.total_tokens == self.prompt_tokens + self.completion_tokens
    }

    pub closed spec fn spec_prompt_tokens(self) -> usize {
        self.prompt_tokens
    }

    pub closed spec fn spec_completion_tokens(self) -> usize {
        self.completion_tokens
    }

    pub closed spec fn spec_total_tokens(self) -> usize {
        self.total_tokens
    }

    pub closed spec fn spec_request_bytes(self) -> usize {
        self.request_bytes
    }

    pub closed spec fn spec_response_bytes(self) -> usize {
        self.response_bytes
    }

    pub closed spec fn spec_provider_name(self) -> Seq<char> {
        self.provider_name@
    }

    /// The value of one summed quantity.
    pub open spec fn counter(self, which: Counter) -> nat {
        match which {
            Counter::PromptTokens => self.spec_prompt_tokens() as nat,
            Counter::CompletionTokens => self.spec_completion_tokens() as nat,
            Counter::RequestBytes => self.spec_request_bytes() as nat,
            Counter::ResponseBytes => self.spec_response_bytes() as nat,
        }
    }

    /// The total is the sum of the two token counts.
    pub proof fn lemma_consistent(self)
        requires
            self.consistent(),
        ensures
            self.spec_total_tokens() == self.spec_prompt_tokens() + self.spec_completion_tokens(),
    {
    }

    pub fn new(
        prompt_tokens: usize,
        completion_tokens: usize,
        request_bytes: usize,
        response_bytes: usize,
        provider_name: String,
    ) -> (m: Self)
        requires
            prompt_tokens + completion_tokens <= usize::MAX,
        ensures
            m.consistent(),
            m.spec_prompt_tokens() == prompt_tokens,
            m.spec_completion_tokens() == completion_tokens,
            m.spec_total_tokens() == prompt_tokens + completion_tokens,
            m.spec_request_bytes() == request_bytes,
            m.spec_response_bytes() == response_bytes,
            m.spec_provider_name() == provider_name@,
    {
        Self {
            prompt_tokens,
            completion_tokens,
            total_tokens: prompt_tokens + completion_tokens,
            request_bytes,
            response_bytes,
            provider_name,
        }
    }

    pub fn prompt_tokens(&self) -> (n: usize)
        ensures
            n == self.spec_prompt_tokens(),
    {
        self.prompt_tokens
    }

    pub fn completion_tokens(&self) -> (n: usize)
        ensures
            n == self.spec_completion_tokens(),
    {
        self.completion_tokens
    }

    pub fn total_tokens(&self) -> (n: usize)
        ensures
            n == self.spec_total_tokens(),
            n == self.spec_prompt_tokens() + self.spec_completion_tokens(),
            self.consistent(),
    {
        proof {
            use_type_invariant(self);
        }
        self.total_tokens
    }

    pub fn request_bytes(&self) -> (n: usize)
        ensures
            n == self.spec_request_bytes(),
    {
        self.request_bytes
    }

    pub fn response_bytes(&self) -> (n: usize)
        ensures
            n == self.spec_response_bytes(),
    {
        self.response_bytes
    }

    pub fn provider_name(&self) -> (s: &String)
        ensures
            s@ == self.spec_provider_name(),
    {
        &self.provider_name
    }
}

impl Clone for RequestMetrics {
    fn clone(&self) -> (m: Self)
        ensures
            m == *self,
    {
        proof {
            use_type_invariant(self);
        }
        RequestMetrics {
            prompt_tokens: self.prompt_tokens,
            completion_tokens: self.completion_tokens,
            total_tokens: self.total_tokens,
            request_bytes: self.request_bytes,
            response_bytes: self.response_bytes,
            provider_name: self.provider_name.clone(),
        }
    }
}

/// The sum of one quantity over a sequence of metrics.
pub open spec fn sum_counter(items: Seq<RequestMetrics>, which: Counter) -> nat
    decreases items.len(),
{
    if items.len() == 0 {
        0
    } else {
        sum_counter(items.drop_last(), which) + items.last().counter(which)
    }
}

/// A sum over `n` machine words stays below `n` times the largest word.
pub proof fn lemma_sum_counter_bound(items: Seq<RequestMetrics>, which: Counter)
    ensures
        sum_counter(items, which) <= items.len() * 0xFFFF_FFFF_FFFF_FFFF,
    decreases items.len(),
{
    if items.len() > 0 {
        lemma_sum_counter_bound(items.drop_last(), which);
        assert(items.last().counter(which) <= 0xFFFF_FFFF_FFFF_FFFF);
        assert((items.len() - 1) * 0xFFFF_FFFF_FFFF_FFFF + 0xFFFF_FFFF_FFFF_FFFF == items.len()
            * 0xFFFF_FFFF_FFFF_FFFF) by (nonlinear_arith);
    }
}

/// Appending one entry adds its quantity to the sum.
pub proof fn lemma_sum_counter_push(items: Seq<RequestMetrics>, m: RequestMetrics, which: Counter)
    ensures
        sum_counter(items.push(m), which) == sum_counter(items, which) + m.counter(which),
{
    assert(items.push(m).drop_last() =~= items);
}

/// What one chunk's successful requests add up to.
#[derive(Clone, Copy, Debug)]
pub struct ChunkTotals {
    pub successes: usize,
    pub prompt_tokens: u128,
    pub completion_tokens: u128,
    pub request_bytes: u128,
    pub response_bytes: u128,
}

/// Sums the four quantities over a chunk's successful requests.
pub fn aggregate(items: &Vec<RequestMetrics>) -> (t: ChunkTotals)
    ensures
        t.successes == items@.len(),
        t.prompt_tokens == sum_counter(items@, Counter::PromptTokens),
        t.completion_tokens == sum_counter(items@, Counter::CompletionTokens),
        t.request_bytes == sum_counter(items@, Counter::RequestBytes),
        t.response_bytes == sum_counter(items@, Counter::ResponseBytes),
        forall|i: int| 0 <= i < items@.len() ==> (#[trigger] items@[i]).consistent(),
{
    let mut prompt: u128 = 0;
    let mut completion: u128 = 0;
    let mut request: u128 = 0;
    let mut response: u128 = 0;
    let mut i: usize = 0;
    while i < items.len()
        invariant
            i <= items@.len(),
            prompt == sum_counter(items@.take(i as int), Counter::PromptTokens),
            completion == sum_counter(items@.take(i as int), Counter::CompletionTokens),
            request == sum_counter(items@.take(i as int), Counter::RequestBytes),
            response == sum_counter(items@.take(i as int), Counter::ResponseBytes),
            forall|j: int| 0 <= j < i ==> (#[trigger] items@[j]).consistent(),
        decreases items@.len() - i,
    {
        let m = &items[i];
        proof {
            use_type_invariant(m);
            let next = items@.take(i + 1);
            assert(next =~= items@.take(i as int).push(*m));
            lemma_sum_counter_push(items@.take(i as int), *m, Counter::PromptTokens);
            lemma_sum_counter_push(items@.take(i as int), *m, Counter::CompletionTokens);
            lemma_sum_counter_push(items@.take(i as int), *m, Counter::RequestBytes);
            lemma_sum_counter_push(items@.take(i as int), *m, Counter::ResponseBytes);
            lemma_sum_counter_bound(next, Counter::PromptTokens);
            lemma_sum_counter_bound(next, Counter::CompletionTokens);
            lemma_sum_counter_bound(next, Counter::RequestBytes);
            lemma_sum_counter_bound(next, Counter::ResponseBytes);
            assert(next.len() * 0xFFFF_FFFF_FFFF_FFFF <= u128::MAX) by (nonlinear_arith)
                requires
                    next.len() <= 0xFFFF_FFFF_FFFF_FFFF,
            ;
        }
        prompt = prompt + m.prompt_tokens as u128;
        completion = completion + m.completion_tokens as u128;
        request = request + m.request_bytes as u128;
        response = response + m.response_bytes as u128;
        i = i + 1;
    }
    proof {
        assert(items@.take(i as int) =~= items@);
    }
    ChunkTotals {
        successes: items.len(),
        prompt_tokens: prompt,
        completion_tokens: completion,
        request_bytes: request,
        response_bytes: response,
    }
}

} // verus!

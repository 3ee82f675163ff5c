use crate::metrics::{Message, RequestMetrics};
use crate::system::random_in_range;
use vstd::prelude::*;
use vstd::string::*;

verus! {

/// The simulated prompt tokens of one message: a quarter of the number
/// of characters of its content, rounded down. The role does not count.
pub open spec fn message_tokens(m: Message) -> nat {
    m.content@.len() / 4
}

/// The simulated prompt tokens of a conversation, summed per message.
pub open spec fn prompt_tokens_of(messages: Seq<Message>) -> nat
    decreases messages.len(),
{
    if messages.len() == 0 {
        0
    } else {
        prompt_tokens_of(messages.drop_last()) + message_tokens(messages.last())
    }
}

/// The simulated prompt tokens of a conversation whose sum fits a
/// machine word.
pub fn calculate_prompt_tokens(messages: &Vec<Message>) -> (tokens: usize)
    requires
        prompt_tokens_of(messages@) <= usize::MAX,
    ensures
        tokens == prompt_tokens_of(messages@),
{
    let mut tokens: usize = 0;
    let mut i: usize = 0;
    while i < messages.len()
        invariant
            i <= messages@.len(),
            tokens == prompt_tokens_of(messages@.take(i as int)),
            prompt_tokens_of(messages@) <= usize::MAX,
        decreases messages@.len() - i,
    {
        proof {
            assert(messages@.take(i + 1).drop_last() =~= messages@.take(i as int));
            lemma_prompt_tokens_prefix(messages@, i + 1);
        }
        tokens = tokens + messages[i].content.as_str().unicode_len() / 4;
        i = i + 1;
    }
    proof {
        assert(messages@.take(i as int) =~= messages@);
    }
    tokens
}

/// The simulated prompt tokens of a conversation, or none where the
/// sum does not fit a machine word.
pub fn checked_prompt_tokens(messages: &Vec<Message>) -> (tokens: Option<usize>)
    ensures
        tokens == if prompt_tokens_of(messages@) <= usize::MAX {
            Some(prompt_tokens_of(messages@) as usize)
        } else {
            None
        },
{
    let mut tokens: usize = 0;
    let mut i: usize = 0;
    while i < messages.len()
        invariant
            i <= messages@.len(),
            tokens == prompt_tokens_of(messages@.take(i as int)),
        decreases messages@.len() - i,
    {
        proof {
            assert(messages@.take(i + 1).drop_last() =~= messages@.take(i as int));
            lemma_prompt_tokens_prefix(messages@, i + 1);
        }
        let share: usize = messages[i].content.as_str().unicode_len() / 4;
        if share > usize::MAX - tokens {
            return None;
        }
        tokens = tokens + share;
        i = i + 1;
    }
    proof {
        assert(messages@.take(i as int) =~= messages@);
    }
    Some(tokens)
}

/// A prefix of a conversation has no more prompt tokens than the whole.
pub proof fn lemma_prompt_tokens_prefix(messages: Seq<Message>, n: int)
    requires
        0 <= n <= messages.len(),
    ensures
        prompt_tokens_of(messages.take(n)) <= prompt_tokens_of(messages),
    decreases messages.len(),
{
    if n == messages.len() {
        assert(messages.take(n) =~= messages);
    } else {
        assert(messages.drop_last().take(n) =~= messages.take(n));
        lemma_prompt_tokens_prefix(messages.drop_last(), n);
    }
}

/// The least completion size that the simulation reports.
pub const MIN_COMPLETION_TOKENS: usize = 50;

/// The widest variation of a simulated completion, in thousandths.
pub const MAX_VARIATION: i32 = 200;

/// One and a half times the prompt tokens, scaled by one plus
/// `variation` thousandths, rounded to the nearest whole number.
pub open spec fn scaled_completion(prompt_tokens: nat, variation: int) -> int {
    (3 * prompt_tokens * (1000 + variation) + 1000) / 2000
}

/// The simulated completion tokens: the scaled size, but at least 50.
pub open spec fn simulated_completion(prompt_tokens: nat, variation: int) -> int {
    if scaled_completion(prompt_tokens, variation) < 50 {
        50
    } else {
        scaled_completion(prompt_tokens, variation)
    }
}

/// A wider variation never gives a smaller completion.
pub proof fn lemma_completion_monotone(prompt_tokens: nat, low: int, high: int)
    requires
        -1000 <= low <= high,
    ensures
        0 <= scaled_completion(prompt_tokens, low) <= scaled_completion(prompt_tokens, high),
        50 <= simulated_completion(prompt_tokens, low) <= simulated_completion(
            prompt_tokens,
            high,
        ),
{
    let a = 3 * prompt_tokens * (1000 + low) + 1000;
    let b = 3 * prompt_tokens * (1000 + high) + 1000;
    assert(0 <= a <= b) by (nonlinear_arith)
        requires
            a == 3 * prompt_tokens * (1000 + low) + 1000,
            b == 3 * prompt_tokens * (1000 + high) + 1000,
            -1000 <= low <= high,
    ;
    vstd::arithmetic::div_mod::lemma_div_is_ordered(a, b, 2000);
    vstd::arithmetic::div_mod::lemma_div_is_ordered(0, a, 2000);
}

/// A simulated completion is never under 50 tokens, and lies between
/// the sizes for the two extreme variations: one and a half times the
/// prompt, scaled by 0.8 and by 1.2, rounded, where that is 50 or more.
pub proof fn lemma_completion_range(prompt_tokens: nat, variation: int)
    requires
        -200 <= variation <= 200,
    ensures
        simulated_completion(prompt_tokens, variation) >= 50,
        simulated_completion(prompt_tokens, -200) <= simulated_completion(
            prompt_tokens,
            variation,
        ) <= simulated_completion(prompt_tokens, 200),
        simulated_completion(prompt_tokens, -200) == if (12 * prompt_tokens + 5) / 10 < 50 {
            50
        } else {
            (12 * prompt_tokens + 5) / 10
        },
        simulated_completion(prompt_tokens, 200) == if (18 * prompt_tokens + 5) / 10 < 50 {
            50
        } else {
            (18 * prompt_tokens + 5) / 10
        },
{
    lemma_completion_monotone(prompt_tokens, -200, variation);
    lemma_completion_monotone(prompt_tokens, variation, 200);
    assert(3 * prompt_tokens * (1000 + (-200)) + 1000 == 200 * (12 * prompt_tokens + 5));
    assert(3 * prompt_tokens * (1000 + 200) + 1000 == 200 * (18 * prompt_tokens + 5));
    let lo: int = 12 * (prompt_tokens as int) + 5;
    let hi: int = 18 * (prompt_tokens as int) + 5;
    assert((200 * lo) / 2000 == lo / 10);
    assert((200 * hi) / 2000 == hi / 10);
}

fn wide_completion(prompt_tokens: usize, variation: i32) -> (tokens: u128)
    requires
        -200 <= variation <= 200,
    ensures
        tokens == simulated_completion(prompt_tokens as nat, variation as int),
        tokens >= 50,
{
    let factor: u128 = (1000 + variation) as u128;
    let product: u128 = 3 * (prompt_tokens as u128);
    assert(product * factor <= 0xFFFF_FFFF_FFFF_FFFF * 3 * 1200) by (nonlinear_arith)
        requires
            product <= 3 * 0xFFFF_FFFF_FFFF_FFFF,
            factor <= 1200,
    ;
    assert(product * factor == 3 * (prompt_tokens as nat) * (1000 + variation as int))
        by (nonlinear_arith)
        requires
            product == 3 * (prompt_tokens as nat),
            factor == 1000 + variation as int,
    ;
    let scaled: u128 = (product * factor + 1000) / 2000;
    if scaled < MIN_COMPLETION_TOKENS as u128 {
        MIN_COMPLETION_TOKENS as u128
    } else {
        scaled
    }
}

/// The simulated completion tokens for a given variation.
pub fn completion_tokens_for(prompt_tokens: usize, variation: i32) -> (tokens: usize)
    requires
        -200 <= variation <= 200,
        simulated_completion(prompt_tokens as nat, variation as int) <= usize::MAX,
    ensures
        tokens == simulated_completion(prompt_tokens as nat, variation as int),
        tokens >= 50,
{
    wide_completion(prompt_tokens, variation) as usize
}

/// Draws a variation and gives the simulated completion tokens for it.
/// Which variation was drawn is chance; the result is that of some
/// variation within the bounds.
pub fn simulate_completion_tokens(prompt_tokens: usize) -> (tokens: usize)
    requires
        simulated_completion(prompt_tokens as nat, 200) <= usize::MAX,
    ensures
        tokens >= 50,
        exists|variation: int|
            -200 <= variation <= 200 && tokens == #[trigger] simulated_completion(
                prompt_tokens as nat,
                variation,
            ),
        simulated_completion(prompt_tokens as nat, -200) <= tokens <= simulated_completion(
            prompt_tokens as nat,
            200,
        ),
{
    let variation = random_in_range(-MAX_VARIATION, MAX_VARIATION);
    proof {
        lemma_completion_range(prompt_tokens as nat, variation as int);
    }
    completion_tokens_for(prompt_tokens, variation)
}

/// The simulated delay in microseconds: a base of 50 milliseconds and
/// 100 microseconds for each token.
pub fn simulated_latency_micros(total_tokens: usize) -> (micros: u128)
    ensures
        micros == 50_000 + 100 * total_tokens,
{
    50_000 + 100 * (total_tokens as u128)
}

/// Whether the numbers of a simulated request fit a machine word.
pub open spec fn simulated_fits(prompt_tokens: nat, variation: int) -> bool {
    &&& prompt_tokens + simulated_completion(prompt_tokens, variation) <= usize::MAX
    &&& 4 * simulated_completion(prompt_tokens, variation) <= usize::MAX
}

/// What the simulation reports for a conversation and a variation: the
/// prompt tokens of the conversation, the completion tokens for the
/// variation, and a response of four bytes for each completion token.
pub open spec fn is_simulated(
    m: RequestMetrics,
    messages: Seq<Message>,
    variation: int,
    request_bytes: usize,
    provider_name: Seq<char>,
) -> bool {
    &&& m.consistent()
    &&& m.spec_prompt_tokens() == prompt_tokens_of(messages)
    &&& m.spec_completion_tokens() == simulated_completion(prompt_tokens_of(messages), variation)
    &&& m.spec_total_tokens() == m.spec_prompt_tokens() + m.spec_completion_tokens()
    &&& m.spec_request_bytes() == request_bytes
    &&& m.spec_response_bytes() == 4 * m.spec_completion_tokens()
    &&& m.spec_provider_name() == provider_name
}

/// The metrics of a simulated request for a given variation.
pub fn simulated_metrics(
    messages: &Vec<Message>,
    variation: i32,
    request_bytes: usize,
    provider_name: String,
) -> (m: RequestMetrics)
    requires
        -200 <= variation <= 200,
        simulated_fits(prompt_tokens_of(messages@), variation as int),
    ensures
        is_simulated(m, messages@, variation as int, request_bytes, provider_name@),
{
    proof {
        lemma_completion_range(prompt_tokens_of(messages@), variation as int);
    }
    let prompt_tokens = calculate_prompt_tokens(messages);
    let completion_tokens = completion_tokens_for(prompt_tokens, variation);
    RequestMetrics::new(
        prompt_tokens,
        completion_tokens,
        request_bytes,
        completion_tokens * 4,
        provider_name,
    )
}

/// Simulates one request: draws a variation and reports the metrics
/// for it. There is a result exactly when the numbers for the widest
/// variation fit a machine word; which variation was drawn is chance.
pub fn simulate_chat(messages: &Vec<Message>, request_bytes: usize, provider_name: String) -> (r:
    Option<RequestMetrics>)
    ensures
        r.is_some() <==> simulated_fits(prompt_tokens_of(messages@), 200),
        r.is_some() ==> exists|variation: int|
            -200 <= variation <= 200 && #[trigger] is_simulated(
                r.unwrap(),
                messages@,
                variation,
                request_bytes,
                provider_name@,
            ),
{
    proof {
        lemma_completion_range(prompt_tokens_of(messages@), 200);
    }
    let prompt_tokens = match checked_prompt_tokens(messages) {
        Some(p) => p,
        None => {
            return None;
        },
    };
    let widest: u128 = wide_completion(prompt_tokens, MAX_VARIATION);
    let limit: u128 = usize::MAX as u128;
    if 4 * widest > limit || prompt_tokens as u128 + widest > limit {
        return None;
    }
    let variation = random_in_range(-MAX_VARIATION, MAX_VARIATION);
    proof {
        lemma_completion_monotone(prompt_tokens as nat, variation as int, 200);
    }
    let m = simulated_metrics(messages, variation, request_bytes, provider_name);
    let r = Some(m);
    assert(-200 <= variation as int <= 200 && is_simulated(
        r.unwrap(),
        messages@,
        variation as int,
        request_bytes,
        provider_name@,
    ));
    r
}

} // verus!

use axicontraves::config::{configure_provider, ProviderSettings, RawConfig};
use axicontraves::dispatch::{Assignment, Dispatcher, Progress};
use axicontraves::metrics::{aggregate, Message, RequestMetrics};
use axicontraves::provider::composite_name;
use axicontraves::simulation::simulated_metrics;

fn conversation(chars: usize) -> Vec<Message> {
    vec![Message { role: String::from("user"), content: "x".repeat(chars) }]
}

fn simulated_provider(base_url: &str) -> ProviderSettings<f32> {
    let raw = RawConfig {
        model: Some(String::from("gpt-test")),
        temperature: Some(0.7f32),
        max_tokens: None,
        top_p: None,
        frequency_penalty: None,
        presence_penalty: None,
    };
    configure_provider("openai", String::from("key"), Some(String::from(base_url)), raw, true)
        .unwrap()
}

fn run_simulated(
    providers: &[ProviderSettings<f32>],
    requests: &[Vec<Message>],
    width: usize,
) -> (Vec<Progress>, Vec<RequestMetrics>, Vec<Assignment>) {
    let mut dispatcher = Dispatcher::new(providers.len(), requests.len(), width);
    let mut reports = Vec::new();
    let mut assigned = Vec::new();
    while !dispatcher.is_finished() {
        let chunk = dispatcher.next_chunk();
        let mut outcomes = Vec::new();
        for a in &chunk {
            let p = &providers[a.provider];
            let name = composite_name(p.kind, &p.base_url);
            outcomes.push(simulated_metrics(&requests[a.request], 0, 64, name));
        }
        assigned.extend(chunk);
        reports.push(dispatcher.complete_chunk(outcomes).unwrap());
    }
    (reports, dispatcher.into_results(), assigned)
}

#[test]
fn five_requests_width_two() {
    let providers = vec![simulated_provider("http://localhost")];
    let requests: Vec<Vec<Message>> = (0..5).map(|_| conversation(40)).collect();
    let (reports, results, _) = run_simulated(&providers, &requests, 2);
    let completed: Vec<usize> = reports.iter().map(|p| p.completed).collect();
    assert_eq!(completed, vec![2, 4, 5]);
    assert_eq!(results.len(), 5);
    for m in &results {
        assert_eq!(m.prompt_tokens(), 10);
        assert!(m.completion_tokens() >= 50);
        assert_eq!(m.total_tokens(), m.prompt_tokens() + m.completion_tokens());
        assert_eq!(m.provider_name(), "openai:http://localhost");
    }
    for p in &reports {
        assert_eq!(p.total, 5);
        assert_eq!(p.concurrency_width, 2);
    }
    assert_eq!(reports[0].batch_prompt_tokens, 20);
    assert_eq!(reports[0].batch_completion_tokens, 100);
    assert_eq!(reports[0].batch_request_bytes, 128);
    assert_eq!(reports[0].batch_response_bytes, 400);
    assert_eq!(reports[2].batch_prompt_tokens, 10);
}

#[test]
fn one_result_per_request_with_single_provider() {
    let providers = vec![simulated_provider("http://one")];
    for total in 1..20usize {
        let requests: Vec<Vec<Message>> = (0..total).map(|i| conversation(4 * i)).collect();
        let (_, results, _) = run_simulated(&providers, &requests, 4);
        assert_eq!(results.len(), total);
        for (i, m) in results.iter().enumerate() {
            assert_eq!(m.prompt_tokens(), i);
            assert_eq!(m.total_tokens(), m.prompt_tokens() + m.completion_tokens());
        }
    }
}

#[test]
fn round_robin_ignores_chunk_boundaries() {
    let providers =
        vec![simulated_provider("http://a"), simulated_provider("http://b"), simulated_provider("http://c")];
    let requests: Vec<Vec<Message>> = (0..11).map(|_| conversation(8)).collect();
    for width in 1..6usize {
        let (_, results, assigned) = run_simulated(&providers, &requests, width);
        assert_eq!(assigned.len(), 11);
        for (i, a) in assigned.iter().enumerate() {
            assert_eq!(a.request, i);
            assert_eq!(a.provider, i % 3);
        }
        let names = ["openai:http://a", "openai:http://b", "openai:http://c"];
        for (i, m) in results.iter().enumerate() {
            assert_eq!(m.provider_name(), names[i % 3]);
        }
    }
}

#[test]
fn report_count_is_ceiling_of_total_over_width() {
    let providers = vec![simulated_provider("http://one")];
    for total in 0..13usize {
        for width in 1..6usize {
            let requests: Vec<Vec<Message>> = (0..total).map(|_| conversation(4)).collect();
            let (reports, _, _) = run_simulated(&providers, &requests, width);
            assert_eq!(reports.len(), (total + width - 1) / width);
        }
    }
}

#[test]
fn completed_never_falls_and_failures_are_dropped() {
    let mut dispatcher = Dispatcher::new(2, 7, 3);
    let mut last = 0;
    let mut round = 0;
    while !dispatcher.is_finished() {
        let chunk = dispatcher.next_chunk();
        let mut outcomes = Vec::new();
        for a in &chunk {
            if (a.request + round) % 2 == 0 {
                outcomes.push(RequestMetrics::new(a.request, 50, 1, 2, String::from("openai:u")));
            }
        }
        let report = dispatcher.complete_chunk(outcomes).unwrap();
        assert!(report.completed >= last);
        assert!(report.completed <= report.total);
        last = report.completed;
        round += 1;
    }
    assert_eq!(dispatcher.reports(), 3);
    assert_eq!(dispatcher.completed() + dispatcher.dropped(), dispatcher.total());
    assert_eq!(dispatcher.completed(), last);
    let dropped = dispatcher.dropped();
    let results = dispatcher.into_results();
    assert_eq!(results.len() + dropped, 7);
    assert!(dropped > 0);
}

#[test]
fn no_second_chunk_while_one_is_out() {
    let mut dispatcher = Dispatcher::new(1, 4, 2);
    let first = dispatcher.next_chunk();
    assert_eq!(first, vec![Assignment { request: 0, provider: 0 }, Assignment { request: 1, provider: 0 }]);
    assert!(dispatcher.next_chunk().is_empty());
    assert!(!dispatcher.is_finished());
}

#[test]
fn report_without_chunk_is_refused() {
    let mut dispatcher = Dispatcher::new(1, 4, 2);
    assert_eq!(dispatcher.complete_chunk(Vec::new()), None);
    assert_eq!(dispatcher.reports(), 0);
    let _ = dispatcher.next_chunk();
    let too_many: Vec<RequestMetrics> =
        (0..3).map(|_| RequestMetrics::new(1, 50, 1, 1, String::from("openai:u"))).collect();
    assert_eq!(dispatcher.complete_chunk(too_many), None);
    assert_eq!(dispatcher.completed(), 0);
    let report = dispatcher.complete_chunk(Vec::new()).unwrap();
    assert_eq!(report.completed, 0);
    assert_eq!(dispatcher.dropped(), 2);
}

#[test]
fn empty_request_list_is_finished_at_once() {
    let mut dispatcher = Dispatcher::new(1, 0, 4);
    assert!(dispatcher.is_finished());
    assert!(dispatcher.next_chunk().is_empty());
    assert_eq!(dispatcher.reports(), 0);
    assert!(dispatcher.into_results().is_empty());
}

#[test]
fn aggregate_sums_each_quantity() {
    let items = vec![
        RequestMetrics::new(1, 2, 3, 4, String::from("a")),
        RequestMetrics::new(10, 20, 30, 40, String::from("b")),
        RequestMetrics::new(usize::MAX - 5, 5, usize::MAX, usize::MAX, String::from("c")),
    ];
    let totals = aggregate(&items);
    assert_eq!(totals.successes, 3);
    assert_eq!(totals.prompt_tokens, 11 + (usize::MAX as u128 - 5));
    assert_eq!(totals.completion_tokens, 27);
    assert_eq!(totals.request_bytes, 33 + usize::MAX as u128);
    assert_eq!(totals.response_bytes, 44 + usize::MAX as u128);
    let none = aggregate(&Vec::new());
    assert_eq!(none.successes, 0);
    assert_eq!(none.prompt_tokens, 0);
}

#[test]
fn metrics_total_is_sum() {
    let m = RequestMetrics::new(7, 9, 100, 200, String::from("openai:https://api.openai.com"));
    assert_eq!(m.prompt_tokens(), 7);
    assert_eq!(m.completion_tokens(), 9);
    assert_eq!(m.total_tokens(), 16);
    assert_eq!(m.request_bytes(), 100);
    assert_eq!(m.response_bytes(), 200);
    assert_eq!(m.provider_name(), "openai:https://api.openai.com");
    let c = m.clone();
    assert_eq!(c.total_tokens(), 16);
    assert_eq!(c.provider_name(), m.provider_name());
}

#[test]
fn reported_width_is_the_configured_one() {
    let mut dispatcher = Dispatcher::new(usize::MAX, 3, usize::MAX);
    let chunk = dispatcher.next_chunk();
    assert_eq!(chunk.len(), 3);
    assert_eq!(chunk[2], Assignment { request: 2, provider: 2 });
    let report = dispatcher.complete_chunk(Vec::new()).unwrap();
    assert_eq!(report.concurrency_width, usize::MAX);
    assert_eq!(report.total, 3);
    assert!(dispatcher.is_finished());
}

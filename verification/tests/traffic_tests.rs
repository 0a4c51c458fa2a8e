use dispatch_sim::traffic::{make_request, run_simulation, CollectEvent, Collector, CollectorReport};

#[test]
fn generator_formula_gives_exact_requests() {
    let r1 = make_request(1);
    assert_eq!(r1.id, 1);
    assert_eq!(r1.path, "/api/endpoint1");
    assert_eq!(r1.processing_time_ms, 150);

    let r5 = make_request(5);
    assert_eq!(r5.path, "/api/endpoint0");
    assert_eq!(r5.processing_time_ms, 100);

    let r7 = make_request(7);
    assert_eq!(r7.path, "/api/endpoint2");
    assert_eq!(r7.processing_time_ms, 200);

    let r14 = make_request(14);
    assert_eq!(r14.path, "/api/endpoint4");
    assert_eq!(r14.processing_time_ms, 300);
}

#[test]
fn end_to_end_twenty_requests() {
    // 20 requests, 4 workers, cap 3: exactly 20 responses, exactly 2
    // failures, at ids 7 and 14.
    let (responses, lb) = run_simulation(20, 4, 3, 100, 100);
    assert_eq!(responses.len(), 20);
    let mut failed_ids = Vec::new();
    for (k, response) in responses.iter().enumerate() {
        assert_eq!(response.request_id, k as u64 + 1);
        if response.status == 500 {
            failed_ids.push(response.request_id);
        } else {
            assert_eq!(response.status, 200);
        }
    }
    assert_eq!(failed_ids, vec![7, 14]);
    assert_eq!(lb.stats.total_requests, 20);
    assert_eq!(lb.stats.successful_requests, 18);
    assert_eq!(lb.stats.failed_requests, 2);
    assert_eq!(
        lb.stats.total_requests,
        lb.stats.successful_requests + lb.stats.failed_requests
    );
    // The free-slot snapshot of the drained pool shows the whole cap.
    assert_eq!(lb.available_slots(), 3);
}

#[test]
fn every_submitted_id_is_answered_exactly_once() {
    let (responses, _) = run_simulation(50, 4, 3, 8, 8);
    let mut ids: Vec<u64> = responses.iter().map(|r| r.request_id).collect();
    ids.sort();
    let expected: Vec<u64> = (1..=50).collect();
    assert_eq!(ids, expected);
}

#[test]
fn empty_run_produces_nothing() {
    let (responses, lb) = run_simulation(0, 1, 1, 1, 1);
    assert!(responses.is_empty());
    assert_eq!(lb.stats.total_requests, 0);
    assert_eq!(lb.stats.successful_requests, 0);
    assert_eq!(lb.stats.failed_requests, 0);
}

#[test]
fn collector_reports_count_reached() {
    let mut collector = Collector::new(2);
    assert!(collector.needs_more());
    assert!(collector.observe(CollectEvent::Delivered).is_none());
    match collector.observe(CollectEvent::Delivered) {
        Some(CollectorReport::CountReached) => (),
        _ => panic!("the expected count was reached"),
    }
    assert!(!collector.needs_more());
    assert_eq!(collector.received, 2);
}

#[test]
fn collector_reports_stream_closed() {
    let mut collector = Collector::new(5);
    assert!(collector.observe(CollectEvent::Delivered).is_none());
    match collector.observe(CollectEvent::Closed) {
        Some(CollectorReport::StreamClosed) => (),
        _ => panic!("a closed stream must be reported as such"),
    }
    assert_eq!(collector.received, 1);
}

#[test]
fn collector_reports_timeout_distinctly() {
    let mut collector = Collector::new(5);
    match collector.observe(CollectEvent::TimedOut) {
        Some(CollectorReport::ResponseTimeout) => (),
        _ => panic!("a timeout must be reported as such"),
    }
    assert_eq!(collector.received, 0);
}

#[test]
fn collector_expecting_nothing_is_done_at_once() {
    let collector = Collector::new(0);
    assert!(!collector.needs_more());
}

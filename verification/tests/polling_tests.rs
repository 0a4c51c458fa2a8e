use dispatch_sim::handler::RequestHandler;
use dispatch_sim::polling::{DelayFuture, JoinFuture, TaskPoll};
use dispatch_sim::request::status_for;
use dispatch_sim::selfref::SelfReferential;
use dispatch_sim::stats::ServerStats;
use dispatch_sim::traffic::make_request;

#[test]
fn delay_future_completes_at_its_deadline() {
    let delay = DelayFuture::new(1000, 500);
    assert!(matches!(delay.poll(1000), TaskPoll::Pending));
    assert!(matches!(delay.poll(1499), TaskPoll::Pending));
    match delay.poll(1500) {
        TaskPoll::Ready(message) => assert_eq!(message, "⏰ 延迟完成！"),
        TaskPoll::Pending => panic!("the deadline has been reached"),
    }
    assert!(matches!(delay.poll(2000), TaskPoll::Ready(_)));
}

#[test]
fn join_future_is_ready_only_when_both_children_are() {
    let mut join: JoinFuture<u32, &str> = JoinFuture::new();
    assert!(!join.is_ready());
    assert!(matches!(join.poll(), TaskPoll::Pending));

    join.complete_first(11);
    assert!(!join.is_ready());
    assert!(matches!(join.poll(), TaskPoll::Pending));

    join.complete_second("done");
    assert!(join.is_ready());
    match join.poll() {
        TaskPoll::Ready((a, b)) => {
            assert_eq!(a, 11);
            assert_eq!(b, "done");
        }
        TaskPoll::Pending => panic!("both children have completed"),
    }

    // The join is spent: its outputs were handed out.
    assert!(!join.is_ready());
    assert!(matches!(join.poll(), TaskPoll::Pending));
}

#[test]
fn self_referential_keeps_its_data_through_init() {
    let mut cell = SelfReferential::new(String::from("hello"));
    assert!(!cell.linked);
    assert_eq!(cell.get_data(), "hello");
    cell.init();
    assert!(cell.linked);
    assert_eq!(cell.get_data(), "hello");
}

#[test]
fn status_rule_fails_every_seventh_id() {
    for id in 1..=20u64 {
        let expected = if id % 7 == 0 { 500 } else { 200 };
        assert_eq!(status_for(id), expected);
    }
    assert_eq!(status_for(0), 500);
    assert_eq!(status_for(21), 500);
}

#[test]
fn handler_records_and_answers_one_request() {
    let handler = RequestHandler { id: 0 };
    let mut stats = ServerStats::new();

    let ok = handler.handle_request(&make_request(3), &mut stats);
    assert_eq!(ok.request_id, 3);
    assert_eq!(ok.status, 200);
    assert_eq!(ok.body, "Response for /api/endpoint3");

    let failed = handler.handle_request(&make_request(14), &mut stats);
    assert_eq!(failed.request_id, 14);
    assert_eq!(failed.status, 500);

    let (total, succeeded, failed_count) = stats.snapshot();
    assert_eq!(total, 2);
    assert_eq!(succeeded, 1);
    assert_eq!(failed_count, 1);
}

#[test]
fn completion_alone_leaves_the_total_untouched() {
    // The total is counted when a request begins; completing it only
    // records the outcome.
    let handler = RequestHandler { id: 1 };
    let mut stats = ServerStats::new();
    stats.record_request();
    let response = handler.complete_request(&make_request(7), &mut stats);
    assert_eq!(response.status, 500);
    assert_eq!(stats.total_requests, 1);
    assert_eq!(stats.failed_requests, 1);
    assert_eq!(stats.successful_requests, 0);
}

#[test]
fn stats_counters_grow_one_by_one() {
    let mut stats = ServerStats::new();
    stats.record_request();
    stats.record_request();
    stats.record_success();
    stats.record_failure();
    assert_eq!(stats.total_requests, 2);
    assert_eq!(stats.successful_requests, 1);
    assert_eq!(stats.failed_requests, 1);
}

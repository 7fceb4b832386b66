use trin_execution::offer_report::{
    offer_trace_of, should_offer, GlobalOfferReport, GlobalOfferSummary, GranularOfferReport,
    GranularOfferSummary, OfferAttempt, OfferDecision, OfferReport, OfferTrace, PeerOfferSummary,
    BASE_TOTAL,
};

fn peer(name: &str) -> String {
    name.to_string()
}

#[test]
fn global_report_is_empty_at_first() {
    let report = GlobalOfferReport::default();
    assert_eq!(report.report(), None);
}

#[test]
fn global_report_percentages_round_down() {
    let mut report = GlobalOfferReport::default();
    report.update(&OfferTrace::Success);
    report.update(&OfferTrace::Declined);
    report.update(&OfferTrace::Failed);
    assert_eq!(
        report.report(),
        Some(GlobalOfferSummary {
            total: 3,
            success: 1,
            success_percent: 33,
            declined: 1,
            declined_percent: 33,
            failed: 1,
            failed_percent: 33,
        })
    );
}

#[test]
fn global_report_counts_each_update_once() {
    let mut report = GlobalOfferReport::default();
    for _ in 0..3 {
        report.update(&OfferTrace::Success);
    }
    report.update(&OfferTrace::Failed);
    let summary = report.report().unwrap();
    assert_eq!(summary.total, 4);
    assert_eq!(summary.success, 3);
    assert_eq!(summary.success_percent, 75);
    assert_eq!(summary.failed_percent, 25);
    assert_eq!(summary.declined_percent, 0);
}

#[test]
fn offer_report_summarises_once_every_peer_answered() {
    let mut report = OfferReport::new(vec![0x20, 1, 2], 3);
    assert_eq!(report.update(&peer("a"), &OfferTrace::Success), None);
    assert_eq!(report.update(&peer("b"), &OfferTrace::Declined), None);
    assert_eq!(
        report.update(&peer("c"), &OfferTrace::Failed),
        Some(PeerOfferSummary { success: 1, total: 3, declined: 1, failed: 1 })
    );
    assert_eq!(report.declined_peers(), &vec![peer("b")]);
    assert_eq!(report.failed_peers(), &vec![peer("c")]);
    assert_eq!(report.content_key(), &vec![0x20, 1, 2]);
}

#[test]
fn granular_report_offers_again_without_success() {
    let mut report = GranularOfferReport::new(vec![1], 2, 4);
    assert_eq!(report.update(&peer("a"), &OfferTrace::Failed), OfferDecision::Wait);
    assert_eq!(report.update(&peer("b"), &OfferTrace::Declined), OfferDecision::OfferAgain);
    assert_eq!(report.update(&peer("c"), &OfferTrace::Failed), OfferDecision::OfferAgain);
    assert_eq!(
        report.update(&peer("d"), &OfferTrace::Failed),
        OfferDecision::Finished(GranularOfferSummary { success: 0, offered: 4, declined: 1, failed: 3 })
    );
    assert_eq!(report.len(), 4);
}

#[test]
fn granular_report_stops_after_base_total_with_success() {
    let mut report = GranularOfferReport::new(vec![1], 2, 5);
    assert_eq!(report.update(&peer("a"), &OfferTrace::Success), OfferDecision::Wait);
    assert_eq!(
        report.update(&peer("b"), &OfferTrace::Failed),
        OfferDecision::Finished(GranularOfferSummary { success: 1, offered: 2, declined: 0, failed: 1 })
    );
    assert_eq!(
        report.report(),
        GranularOfferSummary { success: 1, offered: 2, declined: 0, failed: 1 }
    );
}

#[test]
fn granular_report_with_few_peers_finishes_at_total() {
    let mut report = GranularOfferReport::new(vec![9], 2, 1);
    assert_eq!(
        report.update(&peer("a"), &OfferTrace::Declined),
        OfferDecision::Finished(GranularOfferSummary { success: 0, offered: 1, declined: 1, failed: 0 })
    );
    assert_eq!(report.content_key(), &vec![9]);
}

#[test]
fn keys_with_too_few_peers_are_not_offered() {
    assert_eq!(BASE_TOTAL, 2);
    assert!(!should_offer(0));
    assert!(!should_offer(1));
    assert!(should_offer(2));
    assert!(should_offer(10));
}

#[test]
fn failed_and_timed_out_attempts_count_as_failures() {
    assert_eq!(offer_trace_of(OfferAttempt::Answered(OfferTrace::Declined)), OfferTrace::Declined);
    assert_eq!(offer_trace_of(OfferAttempt::Answered(OfferTrace::Success)), OfferTrace::Success);
    assert_eq!(offer_trace_of(OfferAttempt::Errored), OfferTrace::Failed);
    assert_eq!(offer_trace_of(OfferAttempt::TimedOut), OfferTrace::Failed);
}

#[test]
fn small_counts_are_reportable() {
    let mut report = GlobalOfferReport::default();
    assert!(report.is_reportable());
    report.update(&OfferTrace::Declined);
    assert!(report.is_reportable());
}

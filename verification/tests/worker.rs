use queue_consumer::config::get_sqs_url;
use queue_consumer::errors::{ConfigError, TransportError};
use queue_consumer::lifecycle::{next_state, should_poll, termination_log_line, LoopState};
use queue_consumer::message::{extract_body, extract_receipt_handle, Message};
use queue_consumer::mock::MockClient;
use queue_consumer::worker::{
    plan_messages, process_message, process_messages, run_cycle, run_cycles, CyclePlan,
    CycleReport, POLL_INTERVAL_SECS, WORK_SECS,
};

fn fixture_message() -> Message {
    Message::new(
        Some("This is a test message".to_string()),
        Some("fixture-receipt-handle".to_string()),
    )
}

fn mock_client() -> MockClient {
    MockClient::new(vec![fixture_message()], false)
}

#[test]
fn test_get_sqs_url() {
    let sqs_url = get_sqs_url(Some("TestSqsUrl".to_string())).unwrap();
    assert_eq!(sqs_url, "TestSqsUrl".to_string());
}

#[test]
fn test_receive_message() {
    let sqs_url = get_sqs_url(Some("TestSqsUrl".to_string())).unwrap();
    let client = mock_client();
    let messages = client.receive(&sqs_url, 1);
    let body = extract_body(&messages.unwrap()[0]);
    assert_eq!(body, "This is a test message".to_string());
}

#[test]
fn missing_endpoint_is_a_config_error() {
    let r = get_sqs_url(None);
    assert!(matches!(r, Err(ConfigError::MissingEndpoint)));
    assert_eq!(r.unwrap_err().message(), "SQS_URL not set".to_string());
}

#[test]
fn mock_receive_replays_fixture_on_every_call() {
    let url = "TestQueueUrl".to_string();
    let client = mock_client();
    for _ in 0..3 {
        let messages = client.receive(&url, 1).unwrap();
        assert_eq!(messages.len(), 1);
        assert_eq!(extract_body(&messages[0]), "This is a test message".to_string());
    }
}

#[test]
fn empty_batch_logs_no_message_and_deletes_nothing() {
    let url = "TestQueueUrl".to_string();
    let mut client = MockClient::new(vec![], false);
    let batch: Vec<Message> = vec![];
    let report = process_messages(&mut client, &url, &batch);
    assert!(matches!(report, CycleReport::NoMessage));
    assert_eq!(report.log_lines(), vec!["No message received".to_string()]);
    assert!(client.deleted_handles().is_empty());
}

#[test]
fn one_message_gets_exactly_one_deletion_with_its_handle() {
    let url = "TestQueueUrl".to_string();
    let mut client = mock_client();
    let batch = vec![fixture_message()];
    let report = process_messages(&mut client, &url, &batch);
    match report {
        CycleReport::Processed { body, delete_result } => {
            assert_eq!(body, "This is a test message".to_string());
            assert!(delete_result.is_ok());
        }
        _ => panic!("expected a processed report"),
    }
    assert_eq!(
        client.deleted_handles(),
        &vec!["fixture-receipt-handle".to_string()]
    );
}

#[test]
fn plan_chooses_first_message_or_reports_none() {
    let empty: Vec<Message> = vec![];
    assert!(matches!(plan_messages(&empty), CyclePlan::ReportNoMessage));
    let batch = vec![fixture_message()];
    match plan_messages(&batch) {
        CyclePlan::Process { body, receipt_handle } => {
            assert_eq!(body, "This is a test message".to_string());
            assert_eq!(receipt_handle, "fixture-receipt-handle".to_string());
        }
        CyclePlan::ReportNoMessage => panic!("expected a processing plan"),
    }
}

#[test]
fn delete_failure_is_nonfatal_and_the_loop_proceeds() {
    let url = "TestQueueUrl".to_string();
    let mut client = MockClient::new(vec![fixture_message()], true);
    let m = fixture_message();
    let report = process_message(&mut client, &url, &m);
    assert_eq!(report.body, "This is a test message".to_string());
    assert!(report.delete_result.is_err());
    // The cycle survived the failed deletion: the loop reaches its sleep
    // phase and the next cycle still runs.
    let next_report = run_cycle(&mut client, &url);
    assert!(matches!(next_report, CycleReport::Processed { .. }));
    assert_eq!(client.deleted_handles().len(), 2);
}

#[test]
fn end_to_end_mock_cycle_processes_the_fixture_message() {
    let endpoint = get_sqs_url(Some("TestQueueUrl".to_string())).unwrap();
    let mut client = mock_client();
    let report = run_cycle(&mut client, &endpoint);
    match report {
        CycleReport::Processed { body, delete_result } => {
            assert_eq!(body, "This is a test message".to_string());
            assert!(delete_result.is_ok());
        }
        _ => panic!("expected exactly one processed message"),
    }
    assert_eq!(client.deleted_handles().len(), 1);
}

#[test]
fn run_cycle_on_an_empty_queue_reports_no_message() {
    let url = "TestQueueUrl".to_string();
    let mut client = MockClient::new(vec![], false);
    let report = run_cycle(&mut client, &url);
    assert!(matches!(report, CycleReport::NoMessage));
    assert!(client.deleted_handles().is_empty());
}

#[test]
fn repeated_cycles_delete_once_per_cycle_in_order() {
    let url = "TestQueueUrl".to_string();
    let mut client = mock_client();
    let reports = run_cycles(&mut client, &url, 3);
    assert_eq!(reports.len(), 3);
    for report in &reports {
        assert!(matches!(report, CycleReport::Processed { .. }));
    }
    assert_eq!(
        client.deleted_handles(),
        &vec![
            "fixture-receipt-handle".to_string(),
            "fixture-receipt-handle".to_string(),
            "fixture-receipt-handle".to_string(),
        ]
    );

    let mut idle_client = MockClient::new(vec![], false);
    let idle_reports = run_cycles(&mut idle_client, &url, 3);
    assert_eq!(idle_reports.len(), 3);
    for report in &idle_reports {
        assert!(matches!(report, CycleReport::NoMessage));
    }
    assert!(idle_client.deleted_handles().is_empty());
}

#[test]
fn log_lines_match_each_outcome() {
    let no_message = CycleReport::NoMessage;
    assert_eq!(no_message.log_lines(), vec!["No message received".to_string()]);

    let receive_failed = CycleReport::ReceiveFailed {
        detail: "connection refused".to_string(),
    };
    assert_eq!(
        receive_failed.log_lines(),
        vec!["Failed to get messages: connection refused".to_string()]
    );

    let processed_ok = CycleReport::Processed {
        body: "This is a test message".to_string(),
        delete_result: Ok(()),
    };
    assert_eq!(
        processed_ok.log_lines(),
        vec![
            "Message body is This is a test message".to_string(),
            "Succeeded to delete message".to_string(),
        ]
    );

    let processed_err = CycleReport::Processed {
        body: "This is a test message".to_string(),
        delete_result: Err(TransportError::new("ReceiptHandleIsInvalid".to_string())),
    };
    assert_eq!(
        processed_err.log_lines(),
        vec![
            "Message body is This is a test message".to_string(),
            "Failed to delete message: ReceiptHandleIsInvalid".to_string(),
        ]
    );
}

#[test]
fn extracting_fields_of_a_well_formed_message() {
    let m = fixture_message();
    assert!(m.is_wf());
    assert_eq!(extract_body(&m), "This is a test message".to_string());
    assert_eq!(
        extract_receipt_handle(&m),
        "fixture-receipt-handle".to_string()
    );
}

#[test]
fn a_message_missing_a_field_is_malformed() {
    let no_body = Message::new(None, Some("h".to_string()));
    assert!(!no_body.is_wf());
    let no_handle = Message::new(Some("b".to_string()), None);
    assert!(!no_handle.is_wf());
}

#[test]
fn termination_signal_stops_the_loop_and_is_absorbing() {
    let s0 = LoopState::Running;
    assert!(should_poll(&s0));
    let s1 = next_state(s0, false);
    assert_eq!(s1, LoopState::Running);
    let s2 = next_state(s1, true);
    assert_eq!(s2, LoopState::Terminating);
    assert!(!should_poll(&s2));
    let s3 = next_state(s2, false);
    assert_eq!(s3, LoopState::Terminating);
    assert_eq!(termination_log_line(), "Received SIGTERM".to_string());
}

#[test]
fn fixed_durations_are_the_design_constants() {
    assert_eq!(POLL_INTERVAL_SECS, 10);
    assert_eq!(WORK_SECS, 250);
}
